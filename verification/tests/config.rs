use deno_desktop::config::{
    apply_desktop_config_to_flags, desktop, DesktopAppConfig, DesktopConfig, DesktopIconEntry,
    DesktopIconValue, DesktopIconsConfig, DesktopMacOSConfig, DesktopOutputConfig,
};
use deno_desktop::flags::{DesktopFlags, IconConfig, IconSetEntry};
use deno_desktop::platform::{
    is_linux_target, is_windows_target, native_target_os, target_os, HostOs, TargetOs,
};

fn text(text: &str) -> Option<String> {
    Some(text.to_string())
}

fn flags() -> DesktopFlags {
    DesktopFlags {
        source_file: "main.ts".to_string(),
        output: None,
        args: vec!["--verbose".to_string()],
        target: None,
        icon: None,
        include_paths: vec!["assets".to_string()],
        exclude_paths: vec![],
        exclude_unused_npm: true,
        hmr: false,
        all_targets: false,
        backend: None,
        compress: None,
        deep_links: vec![],
        identifier: None,
        codesign_identity: None,
        inspect_renderer: None,
    }
}

fn config() -> DesktopConfig {
    DesktopConfig {
        app: Some(DesktopAppConfig {
            name: text("Shop"),
            identifier: text("com.example.shop"),
            icons: Some(DesktopIconsConfig {
                macos: Some(DesktopIconValue::Single("icon.icns".to_string())),
                windows: Some(DesktopIconValue::Single("icon.ico".to_string())),
                linux: Some(DesktopIconValue::IconSet(vec![
                    DesktopIconEntry { path: "small.png".to_string(), size: 16 },
                    DesktopIconEntry { path: "large.png".to_string(), size: 512 },
                ])),
            }),
            deep_links: Some(vec!["shop".to_string()]),
        }),
        backend: text("cef"),
        output: Some(DesktopOutputConfig {
            macos: text("dist/Shop.dmg"),
            windows: text("dist/Shop.msi"),
            linux: text("dist/shop.deb"),
        }),
        macos: Some(DesktopMacOSConfig { codesign_identity: text("Developer ID") }),
    }
}

fn empty_config() -> DesktopConfig {
    DesktopConfig { app: None, backend: None, output: None, macos: None }
}

#[test]
fn configuration_fills_in_unset_flags() {
    let mut filled = flags();
    apply_desktop_config_to_flags(&mut filled, config(), HostOs::Linux);
    assert_eq!(
        filled,
        DesktopFlags {
            output: text("dist/shop.deb"),
            icon: Some(IconConfig::IconSet(vec![
                IconSetEntry { path: "small.png".to_string(), size: 16 },
                IconSetEntry { path: "large.png".to_string(), size: 512 },
            ])),
            identifier: text("com.example.shop"),
            deep_links: vec!["shop".to_string()],
            backend: text("cef"),
            codesign_identity: text("Developer ID"),
            ..flags()
        }
    );
}

#[test]
fn configuration_is_read_for_the_host() {
    let mut on_macos = flags();
    apply_desktop_config_to_flags(&mut on_macos, config(), HostOs::Macos);
    assert_eq!(on_macos.output, text("dist/Shop.dmg"));
    assert_eq!(on_macos.icon, Some(IconConfig::Single("icon.icns".to_string())));

    let mut on_windows = flags();
    on_windows.target = text("x86_64-apple-darwin");
    apply_desktop_config_to_flags(&mut on_windows, config(), HostOs::Windows);
    assert_eq!(on_windows.output, text("dist/Shop.msi"));
    assert_eq!(on_windows.icon, Some(IconConfig::Single("icon.ico".to_string())));

    let mut elsewhere = flags();
    apply_desktop_config_to_flags(&mut elsewhere, config(), HostOs::Other);
    assert_eq!(elsewhere.output, text("dist/shop.deb"));
}

#[test]
fn flags_win_over_the_configuration() {
    let given = DesktopFlags {
        output: text("mine"),
        icon: Some(IconConfig::Single("mine.png".to_string())),
        identifier: text("org.mine"),
        deep_links: vec!["mine".to_string()],
        backend: text("webview"),
        codesign_identity: text("Me"),
        ..flags()
    };
    let mut filled = given.clone();
    apply_desktop_config_to_flags(&mut filled, config(), HostOs::Macos);
    assert_eq!(filled, given);
}

#[test]
fn name_stands_in_for_a_missing_output() {
    let mut section = config();
    section.output = Some(DesktopOutputConfig {
        macos: text("dist/Shop.dmg"),
        windows: None,
        linux: None,
    });
    let mut filled = flags();
    apply_desktop_config_to_flags(&mut filled, section, HostOs::Linux);
    assert_eq!(filled.output, text("Shop"));

    let mut untouched = flags();
    apply_desktop_config_to_flags(&mut untouched, empty_config(), HostOs::Linux);
    assert_eq!(untouched, flags());
}

#[test]
fn filling_in_twice_changes_nothing() {
    let mut once = flags();
    apply_desktop_config_to_flags(&mut once, config(), HostOs::Windows);
    let mut twice = once.clone();
    apply_desktop_config_to_flags(&mut twice, config(), HostOs::Windows);
    assert_eq!(twice, once);
}

#[test]
fn all_targets_make_five_builds() {
    let given = DesktopFlags { all_targets: true, target: text("ignored"), ..flags() };
    let builds = desktop(given, config(), HostOs::Linux);
    let targets: Vec<Option<String>> = builds.iter().map(|build| build.target.clone()).collect();
    assert_eq!(
        targets,
        vec![
            text("x86_64-apple-darwin"),
            text("aarch64-apple-darwin"),
            text("x86_64-unknown-linux-gnu"),
            text("aarch64-unknown-linux-gnu"),
            text("x86_64-pc-windows-msvc"),
        ]
    );
    for build in &builds {
        assert_eq!(build.output, text("dist/shop.deb"));
        assert_eq!(build.backend, text("cef"));
        assert_eq!(
            DesktopFlags { target: None, ..build.clone() },
            DesktopFlags { target: None, ..builds[0].clone() }
        );
    }
}

#[test]
fn one_build_keeps_its_target() {
    let given = DesktopFlags { target: text("aarch64-apple-darwin"), ..flags() };
    let builds = desktop(given.clone(), empty_config(), HostOs::Linux);
    assert_eq!(builds, vec![given]);
}

#[test]
fn target_triple_decides() {
    let os = |triple: &str| target_os(&text(triple), HostOs::Other);
    assert_eq!(os("aarch64-apple-darwin"), TargetOs::Macos);
    assert_eq!(os("x86_64-pc-windows-msvc"), TargetOs::Windows);
    assert_eq!(os("x86_64-unknown-linux-gnu"), TargetOs::Linux);
    assert_eq!(os("wasm32-unknown-unknown"), TargetOs::Linux);
    assert_eq!(os(""), TargetOs::Linux);
    assert_eq!(os("apple-darwin-windows"), TargetOs::Macos);
}

#[test]
fn host_decides_without_a_target() {
    assert_eq!(target_os(&None, HostOs::Macos), TargetOs::Macos);
    assert_eq!(target_os(&None, HostOs::Windows), TargetOs::Windows);
    assert_eq!(target_os(&None, HostOs::Linux), TargetOs::Linux);
    assert_eq!(native_target_os(HostOs::Other), TargetOs::Linux);
    assert_eq!(TargetOs::Macos.name(), "macos");
    assert_eq!(TargetOs::Windows.name(), "windows");
    assert_eq!(TargetOs::Linux.name(), "linux");
}

#[test]
fn packages_need_their_system() {
    assert!(is_linux_target(&text("aarch64-unknown-linux-gnu"), HostOs::Macos));
    assert!(!is_linux_target(&text("x86_64-unknown-freebsd"), HostOs::Linux));
    assert!(is_linux_target(&None, HostOs::Linux));
    assert!(!is_linux_target(&None, HostOs::Other));
    assert!(is_windows_target(&text("x86_64-pc-windows-msvc"), HostOs::Linux));
    assert!(!is_windows_target(&text("x86_64-apple-darwin"), HostOs::Windows));
    assert!(is_windows_target(&None, HostOs::Windows));
    assert!(!is_windows_target(&None, HostOs::Linux));
}
