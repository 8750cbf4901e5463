use deno_desktop::dev::{artifact_path, dev_dir, key_of_digest, key_of_project};
use deno_desktop::error::DesktopError;
use deno_desktop::framework::{
    add_paths, framework_compiles_itself, holds_text, is_generated_entrypoint, ENTRY_PREFIX,
    ENTRY_SUFFIX,
};
use deno_desktop::path_rules::PathRules;
use deno_desktop::paths::{pick_name, place_stem, project_name, without_extension};
use deno_desktop::report::{is_convertible, show_bundle, show_by_urls, Shown};
use deno_desktop::text::{
    characters, decimal_text, lowercase_ends_in, same_text, text_begins_with, text_ends_in,
    text_has_part,
};

fn text(text: &str) -> Option<String> {
    Some(text.to_string())
}

fn texts(list: &[&str]) -> Vec<String> {
    list.iter().map(|text| text.to_string()).collect()
}

#[test]
fn parts_are_found() {
    assert!(text_has_part("x86_64-apple-darwin", "apple-darwin"));
    assert!(text_has_part("aaab", "aab"));
    assert!(text_has_part("abc", ""));
    assert!(!text_has_part("darwin", "apple-darwin"));
    assert!(text_ends_in("app.deb", ".deb"));
    assert!(!text_ends_in("app.deb ", ".deb"));
    assert!(!text_ends_in("deb", ".deb"));
    assert!(text_begins_with("größe", "grö"));
    assert!(!text_begins_with("gr", "grö"));
    assert!(same_text("grö", "grö"));
    assert!(!same_text("grö", "gro"));
    assert_eq!(characters("aß"), vec!['a', 'ß']);
}

#[test]
fn ends_are_compared_in_lower_case() {
    assert!(lowercase_ends_in("App.AppImage", ".appimage"));
    assert!(lowercase_ends_in("ÄÖ.DMG", ".dmg"));
    assert!(!lowercase_ends_in("App.AppImages", ".appimage"));
    // The Kelvin sign has the letter `k` as its lower-case form.
    assert!(lowercase_ends_in("pac\u{212a}", "pack"));
}

#[test]
fn numbers_are_written_in_decimal() {
    assert_eq!(decimal_text(0), "0");
    assert_eq!(decimal_text(9), "9");
    assert_eq!(decimal_text(10), "10");
    assert_eq!(decimal_text(9229), "9229");
    assert_eq!(decimal_text(65535), "65535");
}

#[test]
fn extensions_are_cut_off() {
    assert_eq!(without_extension(PathRules::native(), "app.dmg"), "app");
    assert_eq!(without_extension(PathRules::native(), "dist/app.dmg"), "dist/app");
    assert_eq!(without_extension(PathRules::native(), "/app.dmg"), "/app");
    assert_eq!(without_extension(PathRules::native(), "a.b/app.tar.gz"), "a.b/app.tar");
    assert_eq!(without_extension(PathRules::native(), "dist//app.dmg"), "dist/app");
    assert_eq!(without_extension(PathRules::native(), ".dmg"), ".dmg");
    assert_eq!(without_extension(PathRules::native(), "/"), "App");
    assert_eq!(without_extension(PathRules::native(), ".."), "App");
}

#[test]
fn stems_are_placed_in_their_parent() {
    assert_eq!(place_stem(PathRules::native(), text("dist"), "app".to_string()), "dist/app");
    assert_eq!(place_stem(PathRules::native(), text("/"), "app".to_string()), "/app");
    assert_eq!(place_stem(PathRules::native(), text(""), "app".to_string()), "app");
    assert_eq!(place_stem(PathRules::native(), None, "app".to_string()), "app");
}

#[test]
fn projects_are_named_by_their_output() {
    assert_eq!(project_name(PathRules::native(), Some("dist/Shop.app"), text("project")), text("Shop"));
    assert_eq!(project_name(PathRules::native(), Some("Shop"), None), text("Shop"));
    assert_eq!(project_name(PathRules::native(), Some("/"), text("project")), text("project"));
    assert_eq!(project_name(PathRules::native(), None, text("project")), text("project"));
    assert_eq!(project_name(PathRules::native(), None, text("")), None);
    assert_eq!(project_name(PathRules::native(), None, None), None);
    assert_eq!(pick_name(text(""), text("project")), None);
}

#[test]
fn projects_are_keyed_by_their_digest() {
    assert_eq!(key_of_project("hello world"), "b94d27b9934d3e08");
    assert_eq!(key_of_project("/home/me/shop"), "4a68c726aa051718");
    assert_eq!(key_of_project("/home/me/café"), "cac2ab92b2a88b92");
    assert_eq!(dev_dir("/home/me/shop"), texts(&["desktop", "4a68c726aa051718"]));
    assert_eq!(
        key_of_digest(&vec![0x00, 0x0f, 0xf0, 0xff, 0x12, 0x34, 0xab, 0xcd, 0xee]),
        "000ff0ff1234abcd"
    );
}

#[test]
fn artifacts_lie_in_their_directory() {
    assert_eq!(artifact_path(PathRules::native(), "/cache/desktop/key", text("Shop")), "/cache/desktop/key/Shop");
    assert_eq!(artifact_path(PathRules::native(), "/cache/desktop/key", None), "/cache/desktop/key/app");
}

#[test]
fn generated_entrypoints_are_recognised() {
    assert!(is_generated_entrypoint(".deno_desktop_entry-x7Fq.ts"));
    assert!(is_generated_entrypoint(".deno_desktop_entry-"));
    assert!(!is_generated_entrypoint("main.ts"));
    assert!(!is_generated_entrypoint("x.deno_desktop_entry-x.ts"));
    assert_eq!(ENTRY_PREFIX, ".deno_desktop_entry-");
    assert_eq!(ENTRY_SUFFIX, ".ts");
}

#[test]
fn paths_are_added_once() {
    let mut paths = texts(&["assets", "dist"]);
    add_paths(&mut paths, &texts(&["dist", ".next", ".next", "public"]));
    assert_eq!(paths, texts(&["assets", "dist", ".next", "public"]));
    assert!(holds_text(&paths, &".next".to_string()));
    assert!(!holds_text(&paths, &"next".to_string()));
}

#[test]
fn next_compiles_itself() {
    assert!(framework_compiles_itself("Next.js"));
    assert!(!framework_compiles_itself("next.js"));
    assert!(!framework_compiles_itself("Vite"));
}

#[test]
fn bundles_are_shown_by_url() {
    assert_eq!(
        show_bundle(PathRules::native(), "/home/me/my shop", "/home/me/my shop/dist/../Shop.AppImage"),
        Ok(Shown::Relative {
            base: "file:///home/me/my%20shop/".to_string(),
            url: "file:///home/me/my%20shop/Shop.AppImage".to_string(),
        })
    );
    if !PathRules::native().is_windows() {
        assert_eq!(
            show_bundle(PathRules::native(), "/home/мой ", "/home/мой ./Shop"),
            Ok(Shown::Relative {
                base: "file:///home/%D0%BC%D0%BE%D0%B9%20/".to_string(),
                url: "file:///home/%D0%BC%D0%BE%D0%B9%20./Shop".to_string(),
            })
        );
    }
    assert_eq!(
        show_bundle(PathRules::native(), "/home/me", "dist/Shop.AppImage"),
        Ok(Shown::Path("dist/Shop.AppImage".to_string()))
    );
}

#[test]
fn the_rules_are_those_of_the_platform() {
    assert_eq!(PathRules::native().is_windows(), std::path::MAIN_SEPARATOR == '\\');
    assert_eq!(PathRules::native(), PathRules::native());
}

#[test]
fn trimmed_parts_must_be_ascii() {
    for path in [
        "",
        "/home/me/café/Shop.msi",
        "/home/me./my shop /..",
        "C:\\work\\é\\app.",
        "C:/é/app. ",
        "dist/мой/App.msi",
        "\\\\?\\C:\\a/b.\\é",
    ] {
        assert!(is_convertible(path), "{path}");
    }
    for path in [
        "C:\\éé.",
        "C:\\work\\dist/мой /App.msi",
        "é.",
        "/é /a",
        "\\\\?\\C:\\éé/a.",
    ] {
        assert!(!is_convertible(path), "{path}");
    }
}

#[test]
fn directories_need_a_url() {
    let error = show_bundle(PathRules::native(), "project", "/dist/Shop").unwrap_err();
    let cause = "Could not convert path to URL.\n  Path: project";
    assert_eq!(error, DesktopError::DirectoryUrl { cause: cause.to_string() });
    assert_eq!(error.message(), cause);
    assert_eq!(
        show_by_urls(Err("no".to_string()), text("file:///a"), "/a"),
        Err(DesktopError::DirectoryUrl { cause: "no".to_string() })
    );
    assert_eq!(
        show_by_urls(Ok("file:///".to_string()), None, "/a"),
        Ok(Shown::Path("/a".to_string()))
    );
}
