use deno_desktop::error::{DesktopError, PackageKind};
use deno_desktop::installer::{find_installers, Installers};
use deno_desktop::packaging::{installer_to_make, InstallerKind};
use deno_desktop::path_rules::PathRules;
use deno_desktop::platform::HostOs;

fn text(text: &str) -> Option<String> {
    Some(text.to_string())
}

fn none() -> Installers {
    Installers { dmg: None, appimage: None, deb: None, rpm: None, msi: None }
}

fn find(
    output: &str,
    target: Option<String>,
    host: HostOs,
) -> Result<(Installers, Option<String>), DesktopError> {
    find_installers(text(output), &target, PathRules::native(), host)
}

#[test]
fn dmg_is_kept_and_stripped() {
    let (installers, output) = find("MyApp.dmg", None, HostOs::Macos).unwrap();
    assert_eq!(installers, Installers { dmg: text("MyApp.dmg"), ..none() });
    assert_eq!(output, text("MyApp"));
    assert_eq!(
        installer_to_make(&installers),
        Some((InstallerKind::Dmg, "MyApp.dmg".to_string()))
    );
}

#[test]
fn dmg_is_refused_off_macos() {
    for host in [HostOs::Linux, HostOs::Windows, HostOs::Other] {
        let error = find("dist/MyApp.dmg", text("x86_64-apple-darwin"), host).unwrap_err();
        assert_eq!(
            error,
            DesktopError::DmgNeedsMacosHost { requested: "dist/MyApp.dmg".to_string() }
        );
        assert_eq!(
            error.message(),
            "Building a .dmg requires a macOS build host (uses hdiutil). \
             Requested output: dist/MyApp.dmg. Build on macOS, or choose a different output \
             format."
        );
    }
}

#[test]
fn appimage_is_built_anywhere() {
    for host in [HostOs::Macos, HostOs::Windows, HostOs::Linux, HostOs::Other] {
        let (installers, output) = find("out/MyApp.AppImage", None, host).unwrap();
        assert_eq!(installers, Installers { appimage: text("out/MyApp.AppImage"), ..none() });
        assert_eq!(output, text("out/MyApp"));
        assert_eq!(
            installer_to_make(&installers),
            Some((InstallerKind::AppImage, "out/MyApp.AppImage".to_string()))
        );
    }
}

#[test]
fn packages_cross_compile() {
    let linux = text("x86_64-unknown-linux-gnu");
    for host in [HostOs::Macos, HostOs::Windows, HostOs::Linux] {
        let (installers, output) = find("/tmp/app.deb", linux.clone(), host).unwrap();
        assert_eq!(installers, Installers { deb: text("/tmp/app.deb"), ..none() });
        assert_eq!(output, text("/tmp/app"));

        let (installers, output) = find("app.rpm", linux.clone(), host).unwrap();
        assert_eq!(installers, Installers { rpm: text("app.rpm"), ..none() });
        assert_eq!(output, text("app"));
        assert_eq!(
            installer_to_make(&installers),
            Some((InstallerKind::Rpm, "app.rpm".to_string()))
        );
    }
}

#[test]
fn packages_are_refused_for_other_targets() {
    let error = find("app.deb", None, HostOs::Macos).unwrap_err();
    assert_eq!(
        error,
        DesktopError::PackageNeedsLinuxTarget {
            kind: PackageKind::Deb,
            requested: "app.deb".to_string()
        }
    );
    assert_eq!(
        error.message(),
        "Building a .deb requires a Linux target. Requested output: app.deb. \
         Pass --target <linux-triple> (e.g. x86_64-unknown-linux-gnu) or build \
         on Linux."
    );

    let error = find("app.rpm", text("x86_64-pc-windows-msvc"), HostOs::Linux).unwrap_err();
    assert_eq!(
        error,
        DesktopError::PackageNeedsLinuxTarget {
            kind: PackageKind::Rpm,
            requested: "app.rpm".to_string()
        }
    );
    assert_eq!(
        error.message(),
        "Building a .rpm requires a Linux target. Requested output: app.rpm. \
         Pass --target <linux-triple> (e.g. x86_64-unknown-linux-gnu) or build \
         on Linux."
    );
}

#[test]
fn msi_needs_a_windows_target() {
    let (installers, output) =
        find("app.msi", text("x86_64-pc-windows-msvc"), HostOs::Linux).unwrap();
    assert_eq!(installers, Installers { msi: text("app.msi"), ..none() });
    assert_eq!(output, text("app"));
    assert_eq!(installer_to_make(&installers), Some((InstallerKind::Msi, "app.msi".to_string())));
    assert!(find("app.msi", None, HostOs::Windows).is_ok());

    let error = find("app.msi", None, HostOs::Linux).unwrap_err();
    assert_eq!(error, DesktopError::MsiNeedsWindowsTarget { requested: "app.msi".to_string() });
    assert_eq!(
        error.message(),
        "Building a .msi requires a Windows target. Requested output: app.msi. \
         Pass --target <windows-triple> (e.g. x86_64-pc-windows-msvc) or build \
         on Windows."
    );
}

#[test]
fn other_outputs_pass_unchanged() {
    for output in ["app", "app.exe", "dist/app.tar.gz", "dmg", "app.dmg.zip", ""] {
        let (installers, bare) = find(output, None, HostOs::Linux).unwrap();
        assert_eq!(installers, none());
        assert_eq!(bare, text(output));
        assert_eq!(installer_to_make(&installers), None);
    }
    assert_eq!(
        find_installers(None, &None, PathRules::native(), HostOs::Other),
        Ok((none(), None))
    );
}

#[test]
fn extensions_count_in_any_case() {
    let (installers, output) = find("App.DmG", None, HostOs::Macos).unwrap();
    assert_eq!(installers.dmg, text("App.DmG"));
    assert_eq!(output, text("App"));
    assert!(find("App.MSI", None, HostOs::Linux).is_err());
    let (installers, output) = find("Größe.DEB", None, HostOs::Linux).unwrap();
    assert_eq!(installers.deb, text("Größe.DEB"));
    assert_eq!(output, text("Größe"));
}

#[test]
fn installers_nest() {
    let (installers, output) = find("app.rpm.AppImage", None, HostOs::Linux).unwrap();
    assert_eq!(
        installers,
        Installers { appimage: text("app.rpm.AppImage"), rpm: text("app.rpm"), ..none() }
    );
    assert_eq!(output, text("app"));
    assert_eq!(
        installer_to_make(&installers),
        Some((InstallerKind::AppImage, "app.rpm.AppImage".to_string()))
    );

    let error = find("app.rpm.dmg", None, HostOs::Macos).unwrap_err();
    assert_eq!(
        error,
        DesktopError::PackageNeedsLinuxTarget {
            kind: PackageKind::Rpm,
            requested: "app.rpm".to_string()
        }
    );
    let error = find("app.rpm.dmg", None, HostOs::Linux).unwrap_err();
    assert_eq!(error, DesktopError::DmgNeedsMacosHost { requested: "app.rpm.dmg".to_string() });

    let (installers, output) = find("app.dmg.deb", None, HostOs::Linux).unwrap();
    assert_eq!(installers, Installers { deb: text("app.dmg.deb"), ..none() });
    assert_eq!(output, text("app.dmg"));
}

#[test]
fn a_bare_extension_is_a_whole_name() {
    let (installers, output) = find(".dmg", None, HostOs::Macos).unwrap();
    assert_eq!(installers.dmg, text(".dmg"));
    assert_eq!(output, text(".dmg"));
    let (_, output) = find("dist/.deb", None, HostOs::Linux).unwrap();
    assert_eq!(output, text("dist/.deb"));
    let (_, output) = find("/app.deb", None, HostOs::Linux).unwrap();
    assert_eq!(output, text("/app"));
    let (_, output) = find("./dist/app.deb", None, HostOs::Linux).unwrap();
    assert_eq!(output, text("./dist/app"));
}

#[test]
fn an_output_always_comes_to_the_same() {
    for output in ["app.rpm.AppImage", "Größe.dmg", "/", "..msi", "a/../b.deb"] {
        assert_eq!(find(output, None, HostOs::Linux), find(output, None, HostOs::Linux));
    }
}

#[test]
fn letters_before_the_extension_do_not_count() {
    for (output, bare) in [("Größe.dmg", "Größe"), ("Игра.DMG", "Игра"), ("İ.Dmg", "İ")] {
        let (installers, left) = find(output, None, HostOs::Macos).unwrap();
        assert_eq!(installers, Installers { dmg: text(output), ..none() });
        assert_eq!(left, text(bare));
    }
}

#[test]
fn first_installer_is_made() {
    let all = Installers {
        dmg: text("a.dmg"),
        appimage: text("a.appimage"),
        deb: text("a.deb"),
        rpm: text("a.rpm"),
        msi: text("a.msi"),
    };
    assert_eq!(installer_to_make(&all), Some((InstallerKind::Dmg, "a.dmg".to_string())));
    let later = Installers { dmg: None, appimage: None, ..all };
    assert_eq!(installer_to_make(&later), Some((InstallerKind::Deb, "a.deb".to_string())));
}
