//! What happens to an app once it has been compiled.

use vstd::prelude::*;
use vstd::string::*;

use crate::flags::{DesktopFlags, FlagsModel};
use crate::installer::{Installers, InstallersModel};
use crate::platform::{os_of, target_os, HostOs, TargetOs};
use crate::text::Text;

verus! {

/// How a bundle is made self-extracting.
#[derive(Debug, PartialEq, Eq)]
pub enum SelfExtracting {
    /// As a macOS bundle.
    Macos { format: String },
    /// As a directory, with the launcher of Windows or that of Linux.
    Directory { format: String, windows: bool },
}

/// What a `SelfExtracting` holds.
pub enum SelfExtractingModel {
    Macos { format: Text },
    Directory { format: Text, windows: bool },
}

impl View for SelfExtracting {
    type V = SelfExtractingModel;

    open spec fn view(&self) -> SelfExtractingModel {
        match self {
            SelfExtracting::Macos { format } => SelfExtractingModel::Macos { format: format@ },
            SelfExtracting::Directory { format, windows } => SelfExtractingModel::Directory {
                format: format@,
                windows: *windows,
            },
        }
    }
}

/// How a bundle for the given system is made self-extracting.
pub open spec fn self_extracting_on(os: TargetOs, format: Text) -> SelfExtractingModel {
    match os {
        TargetOs::Macos => SelfExtractingModel::Macos { format },
        TargetOs::Windows => SelfExtractingModel::Directory { format, windows: true },
        TargetOs::Linux => SelfExtractingModel::Directory { format, windows: false },
    }
}

/// Decides how a packaged bundle is made self-extracting: by the system that
/// the app is for.
pub fn make_self_extracting(
    format: &str,
    desktop_flags: &DesktopFlags,
    host: HostOs,
) -> (made: SelfExtracting)
    ensures
        made@ == self_extracting_on(os_of(desktop_flags@.target, host), format@),
{
    match target_os(&desktop_flags.target, host) {
        TargetOs::Macos => SelfExtracting::Macos { format: format.to_owned() },
        TargetOs::Windows => SelfExtracting::Directory {
            format: format.to_owned(),
            windows: true,
        },
        TargetOs::Linux => SelfExtracting::Directory {
            format: format.to_owned(),
            windows: false,
        },
    }
}

/// The kinds of installers that an app can be wrapped in.
#[derive(Clone, Copy, Debug, PartialEq, Eq, Structural)]
pub enum InstallerKind {
    Dmg,
    AppImage,
    Deb,
    Rpm,
    Msi,
}

/// The installer that is made, and the path that it was asked for with: the
/// first of those that were asked for, in the order of `InstallerKind`.
pub open spec fn installer_made(installers: InstallersModel) -> Option<(InstallerKind, Text)> {
    if installers.dmg is Some {
        Some((InstallerKind::Dmg, installers.dmg->0))
    } else if installers.appimage is Some {
        Some((InstallerKind::AppImage, installers.appimage->0))
    } else if installers.deb is Some {
        Some((InstallerKind::Deb, installers.deb->0))
    } else if installers.rpm is Some {
        Some((InstallerKind::Rpm, installers.rpm->0))
    } else if installers.msi is Some {
        Some((InstallerKind::Msi, installers.msi->0))
    } else {
        None
    }
}

/// The installer that is made, if any.
pub fn installer_to_make(installers: &Installers) -> (made: Option<(InstallerKind, String)>)
    ensures
        made.deep_view() == installer_made(installers@),
{
    if let Some(path) = &installers.dmg {
        Some((InstallerKind::Dmg, path.clone()))
    } else if let Some(path) = &installers.appimage {
        Some((InstallerKind::AppImage, path.clone()))
    } else if let Some(path) = &installers.deb {
        Some((InstallerKind::Deb, path.clone()))
    } else if let Some(path) = &installers.rpm {
        Some((InstallerKind::Rpm, path.clone()))
    } else if let Some(path) = &installers.msi {
        Some((InstallerKind::Msi, path.clone()))
    } else {
        None
    }
}

impl DeepView for InstallerKind {
    type V = InstallerKind;

    open spec fn deep_view(&self) -> InstallerKind {
        *self
    }
}

/// The backend of an app: the one that was asked for, or the system's web view.
pub open spec fn backend_of(flags: FlagsModel) -> Text {
    match flags.backend {
        Some(backend) => backend,
        None => "webview"@,
    }
}

/// The backend of an app.
pub fn backend_or_default(flags: &DesktopFlags) -> (backend: String)
    ensures
        backend@ == backend_of(flags@),
{
    match &flags.backend {
        Some(backend) => backend.clone(),
        None => "webview".to_owned(),
    }
}

/// Of the installers that were asked for, the first of these is made, at the
/// path that it was asked for with: the `.dmg`, the AppImage, the `.deb`, the
/// `.rpm`, the `.msi`. One is made wherever one was asked for.
pub proof fn law_first_request_is_made(installers: InstallersModel)
    ensures
        ({
            let made = installer_made(installers);
            let no_dmg = installers.dmg is None;
            let no_image = no_dmg && installers.appimage is None;
            let no_deb = no_image && installers.deb is None;
            let no_rpm = no_deb && installers.rpm is None;
            &&& installers.dmg matches Some(path) ==> made == Some((InstallerKind::Dmg, path))
            &&& installers.appimage matches Some(path) ==> no_dmg ==> made == Some(
                (InstallerKind::AppImage, path),
            )
            &&& installers.deb matches Some(path) ==> no_image ==> made == Some(
                (InstallerKind::Deb, path),
            )
            &&& installers.rpm matches Some(path) ==> no_deb ==> made == Some(
                (InstallerKind::Rpm, path),
            )
            &&& installers.msi matches Some(path) ==> no_rpm ==> made == Some(
                (InstallerKind::Msi, path),
            )
            &&& made is None <==> no_rpm && installers.msi is None
        }),
{
}

/// A bundle is made self-extracting with the format that was asked for: as a
/// macOS bundle for macOS only, and otherwise as a directory with the launcher
/// of its system.
pub proof fn law_bundles_extract_by_system(os: TargetOs, format: Text)
    ensures
        os == TargetOs::Macos <==> self_extracting_on(os, format) is Macos,
        self_extracting_on(os, format) matches SelfExtractingModel::Macos { format: used } ==> used
            == format,
        self_extracting_on(os, format) matches SelfExtractingModel::Directory {
            format: used,
            windows,
        } ==> used == format && (windows <==> os == TargetOs::Windows),
{
}

/// The backend that was asked for is the one; without one it is the web view.
pub proof fn law_backend_is_chosen(flags: FlagsModel)
    ensures
        flags.backend is Some ==> Some(backend_of(flags)) == flags.backend,
        flags.backend is None ==> backend_of(flags) == "webview"@,
{
}

/// The models leave out nothing and mix up nothing.
pub proof fn law_packaging_is_read(made: SelfExtracting, kind: InstallerKind)
    ensures
        made matches SelfExtracting::Macos { format } ==> made@ == (SelfExtractingModel::Macos {
            format: format@,
        }),
        made matches SelfExtracting::Directory { format, windows } ==> made@ == (
        SelfExtractingModel::Directory { format: format@, windows }),
        kind.deep_view() == kind,
{
}

} // verus!
