use deno_desktop::deep_links::{
    deep_link_schemes, register_deep_links, scheme_fault, show_links, validate_schemes,
    validate_url_scheme, DeepLinks,
};
use deno_desktop::error::{DesktopError, SchemeFault};
use deno_desktop::flags::DesktopFlags;
use deno_desktop::platform::{HostOs, TargetOs};

fn texts(list: &[&str]) -> Vec<String> {
    list.iter().map(|text| text.to_string()).collect()
}

fn flags(links: &[&str], target: Option<&str>) -> DesktopFlags {
    DesktopFlags {
        source_file: "main.ts".to_string(),
        output: None,
        args: vec![],
        target: target.map(|target| target.to_string()),
        icon: None,
        include_paths: vec![],
        exclude_paths: vec![],
        exclude_unused_npm: false,
        hmr: false,
        all_targets: false,
        backend: None,
        compress: None,
        deep_links: texts(links),
        identifier: None,
        codesign_identity: None,
        inspect_renderer: None,
    }
}

fn message(scheme: &str) -> String {
    validate_url_scheme(scheme).unwrap_err().message()
}

#[test]
fn valid_schemes_pass() {
    for scheme in ["myapp", "a", "x-my.app+2", "Shop", "HTTP", "httpx", "web+shop"] {
        assert_eq!(validate_url_scheme(scheme), Ok(()));
    }
}

#[test]
fn empty_scheme_is_refused() {
    assert_eq!(scheme_fault(""), Some(SchemeFault::Empty));
    assert_eq!(message(""), "Invalid deep-link scheme \"\": scheme is empty.");
}

#[test]
fn scheme_must_start_with_a_letter() {
    for scheme in ["1app", "+app", ".app", "-", "äpp", " app"] {
        assert_eq!(scheme_fault(scheme), Some(SchemeFault::BadStart));
    }
    assert_eq!(
        message("1app"),
        "Invalid deep-link scheme \"1app\": scheme must start with an ASCII letter."
    );
}

#[test]
fn scheme_holds_no_other_characters() {
    for scheme in ["my_app", "my app", "app:", "app://", "appé", "a/b"] {
        assert_eq!(scheme_fault(scheme), Some(SchemeFault::BadCharacter));
    }
    assert_eq!(
        message("my\"app"),
        "Invalid deep-link scheme \"my\\\"app\": \
         scheme may only contain letters, digits, '+', '-', and '.'."
    );
}

#[test]
fn reserved_schemes_are_refused() {
    for scheme in ["http", "https", "file", "ftp", "ws", "wss"] {
        assert_eq!(
            validate_url_scheme(scheme),
            Err(DesktopError::InvalidScheme {
                scheme: scheme.to_string(),
                fault: SchemeFault::Reserved
            })
        );
    }
    assert_eq!(
        message("https"),
        "Invalid deep-link scheme \"https\": \
         scheme is reserved and cannot be used as a deep link."
    );
}

#[test]
fn plain_schemes_stand_between_quotes() {
    assert_eq!(
        message("it's a ~scheme"),
        "Invalid deep-link scheme \"it's a ~scheme\": \
         scheme may only contain letters, digits, '+', '-', and '.'."
    );
}

#[test]
fn links_are_trimmed_and_lowered() {
    assert_eq!(
        deep_link_schemes(&texts(&["  MyApp ", "", "\t\n", "shop\u{3000}", "ÄPP"])),
        texts(&["myapp", "shop", "Äpp"])
    );
    assert_eq!(deep_link_schemes(&texts(&[])), texts(&[]));
}

#[test]
fn normalising_twice_changes_nothing() {
    let once = deep_link_schemes(&texts(&[" MyApp", "Shop\u{a0}"]));
    assert_eq!(deep_link_schemes(&once), once);
}

#[test]
fn first_bad_scheme_is_named() {
    assert_eq!(
        validate_schemes(&texts(&["shop", "a_b", "http"])),
        Err(DesktopError::InvalidScheme {
            scheme: "a_b".to_string(),
            fault: SchemeFault::BadCharacter
        })
    );
    assert_eq!(validate_schemes(&texts(&["shop", "cart"])), Ok(()));
}

#[test]
fn links_are_registered_for_their_system() {
    let cases = [
        (Some("aarch64-apple-darwin"), HostOs::Linux, TargetOs::Macos),
        (Some("x86_64-pc-windows-msvc"), HostOs::Linux, TargetOs::Windows),
        (Some("x86_64-unknown-linux-gnu"), HostOs::Macos, TargetOs::Linux),
        (None, HostOs::Macos, TargetOs::Macos),
        (None, HostOs::Other, TargetOs::Linux),
    ];
    for (target, host, os) in cases {
        assert_eq!(
            register_deep_links(&flags(&["Shop", " ", "cart", "shop"], target), host),
            Ok(Some(DeepLinks { os, schemes: texts(&["shop", "cart", "shop"]) }))
        );
    }
}

#[test]
fn blank_links_register_nothing() {
    assert_eq!(register_deep_links(&flags(&[], None), HostOs::Linux), Ok(None));
    assert_eq!(register_deep_links(&flags(&[" ", "\t"], None), HostOs::Linux), Ok(None));
}

#[test]
fn reserved_links_are_refused_in_any_case() {
    assert_eq!(
        register_deep_links(&flags(&["shop", " HTTPS "], None), HostOs::Linux),
        Err(DesktopError::InvalidScheme {
            scheme: "https".to_string(),
            fault: SchemeFault::Reserved
        })
    );
}

#[test]
fn links_are_shown_with_commas() {
    assert_eq!(show_links(&texts(&[])), "");
    assert_eq!(show_links(&texts(&["shop"])), "shop://");
    assert_eq!(show_links(&texts(&["shop", "cart", "a"])), "shop://, cart://, a://");
}
