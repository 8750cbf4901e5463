//! The systems a build runs on and the systems it is for.

use vstd::prelude::*;
use vstd::string::*;

use crate::text::{has_part, text_has_part, Text};

verus! {

/// The system the build runs on.
#[derive(Clone, Copy, Debug, PartialEq, Eq, Structural)]
pub enum HostOs {
    Macos,
    Windows,
    Linux,
    Other,
}

/// The system an app is built for.
#[derive(Clone, Copy, Debug, PartialEq, Eq, Structural)]
pub enum TargetOs {
    Macos,
    Windows,
    Linux,
}

/// The system an app is for when no target triple is given: the host, with
/// everything that is neither macOS nor Windows counted as Linux.
pub open spec fn native_os(host: HostOs) -> TargetOs {
    match host {
        HostOs::Macos => TargetOs::Macos,
        HostOs::Windows => TargetOs::Windows,
        HostOs::Linux => TargetOs::Linux,
        HostOs::Other => TargetOs::Linux,
    }
}

/// The system an app is for: read off the target triple where there is one,
/// the host otherwise.
pub open spec fn os_of(target: Option<Text>, host: HostOs) -> TargetOs {
    match target {
        Some(triple) => if has_part(triple, "apple-darwin"@) {
            TargetOs::Macos
        } else if has_part(triple, "windows"@) {
            TargetOs::Windows
        } else {
            TargetOs::Linux
        },
        None => native_os(host),
    }
}

/// A `.deb` or `.rpm` can be built: the target triple names Linux, or there is
/// none and the host is Linux.
pub open spec fn targets_linux(target: Option<Text>, host: HostOs) -> bool {
    match target {
        Some(triple) => has_part(triple, "linux"@),
        None => host == HostOs::Linux,
    }
}

/// An `.msi` can be built: the target triple names Windows, or there is none
/// and the host is Windows.
pub open spec fn targets_windows(target: Option<Text>, host: HostOs) -> bool {
    match target {
        Some(triple) => has_part(triple, "windows"@),
        None => host == HostOs::Windows,
    }
}

/// The system an app is for when no target triple is given.
pub fn native_target_os(host: HostOs) -> (os: TargetOs)
    ensures
        os == native_os(host),
{
    match host {
        HostOs::Macos => TargetOs::Macos,
        HostOs::Windows => TargetOs::Windows,
        HostOs::Linux => TargetOs::Linux,
        HostOs::Other => TargetOs::Linux,
    }
}

/// The system an app is for.
pub fn target_os(target: &Option<String>, host: HostOs) -> (os: TargetOs)
    ensures
        os == os_of(target.deep_view(), host),
{
    match target {
        Some(triple) => {
            if text_has_part(triple.as_str(), "apple-darwin") {
                TargetOs::Macos
            } else if text_has_part(triple.as_str(), "windows") {
                TargetOs::Windows
            } else {
                TargetOs::Linux
            }
        },
        None => native_target_os(host),
    }
}

/// Whether the build is for Linux in the sense that its packages ask for.
pub fn is_linux_target(target: &Option<String>, host: HostOs) -> (yes: bool)
    ensures
        yes == targets_linux(target.deep_view(), host),
{
    match target {
        Some(triple) => text_has_part(triple.as_str(), "linux"),
        None => host == HostOs::Linux,
    }
}

/// Whether the build is for Windows in the sense that its installer asks for.
pub fn is_windows_target(target: &Option<String>, host: HostOs) -> (yes: bool)
    ensures
        yes == targets_windows(target.deep_view(), host),
{
    match target {
        Some(triple) => text_has_part(triple.as_str(), "windows"),
        None => host == HostOs::Windows,
    }
}

impl TargetOs {
    /// The name of the system.
    pub open spec fn text(self) -> Text {
        match self {
            TargetOs::Macos => "macos"@,
            TargetOs::Windows => "windows"@,
            TargetOs::Linux => "linux"@,
        }
    }

    /// The name of the system, as a string.
    pub fn name(self) -> (name: &'static str)
        ensures
            name@ == self.text(),
    {
        match self {
            TargetOs::Macos => "macos",
            TargetOs::Windows => "windows",
            TargetOs::Linux => "linux",
        }
    }
}

/// A target triple alone decides the system: with `apple-darwin` in it, it is
/// macOS; with `windows` and without `apple-darwin`, Windows; with neither,
/// Linux. The host has no say.
pub proof fn law_triple_decides(triple: Text, host: HostOs)
    ensures
        os_of(Some(triple), host) == TargetOs::Macos <==> has_part(triple, "apple-darwin"@),
        os_of(Some(triple), host) == TargetOs::Windows <==> has_part(triple, "windows"@)
            && !has_part(triple, "apple-darwin"@),
        os_of(Some(triple), host) == TargetOs::Linux <==> !has_part(triple, "windows"@)
            && !has_part(triple, "apple-darwin"@),
        targets_linux(Some(triple), host) <==> has_part(triple, "linux"@),
        targets_windows(Some(triple), host) <==> has_part(triple, "windows"@),
{
}

/// Without a target triple the host decides. A host that is neither macOS nor
/// Windows counts as Linux, but packages are built only on Linux itself.
pub proof fn law_host_decides(host: HostOs)
    ensures
        os_of(None, host) == TargetOs::Macos <==> host == HostOs::Macos,
        os_of(None, host) == TargetOs::Windows <==> host == HostOs::Windows,
        os_of(None, host) == TargetOs::Linux <==> host == HostOs::Linux || host == HostOs::Other,
        native_os(host) == os_of(None, host),
        targets_linux(None, host) <==> host == HostOs::Linux,
        targets_windows(None, host) <==> host == HostOs::Windows,
{
}

/// The names of the systems.
pub proof fn law_system_names(os: TargetOs)
    ensures
        os == TargetOs::Macos ==> os.text() == "macos"@,
        os == TargetOs::Windows ==> os.text() == "windows"@,
        os == TargetOs::Linux ==> os.text() == "linux"@,
{
}

} // verus!
