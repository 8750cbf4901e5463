//! The errors of a desktop build, and how they are worded.

use vstd::prelude::*;
use vstd::string::*;

use crate::text::Text;

verus! {

/// Why a text is no deep-link scheme.
#[derive(Clone, Copy, Debug, PartialEq, Eq, Structural)]
pub enum SchemeFault {
    Empty,
    BadStart,
    BadCharacter,
    Reserved,
}

/// A Linux package format.
#[derive(Clone, Copy, Debug, PartialEq, Eq, Structural)]
pub enum PackageKind {
    Deb,
    Rpm,
}

/// Why a desktop build cannot go on.
#[derive(Debug, PartialEq, Eq)]
pub enum DesktopError {
    /// A `.dmg` was asked for on a host that is not macOS.
    DmgNeedsMacosHost { requested: String },
    /// A `.deb` or `.rpm` was asked for with a target that is not Linux.
    PackageNeedsLinuxTarget { kind: PackageKind, requested: String },
    /// An `.msi` was asked for with a target that is not Windows.
    MsiNeedsWindowsTarget { requested: String },
    /// The source is a directory without a framework in it.
    NoFramework,
    /// A deep link is no scheme that can be registered.
    InvalidScheme { scheme: String, fault: SchemeFault },
    /// The backend ended with a failure.
    BackendFailed { status: String },
    /// The working directory has no URL.
    DirectoryUrl { cause: String },
}

/// What a `DesktopError` holds.
pub enum ErrorModel {
    DmgNeedsMacosHost { requested: Text },
    PackageNeedsLinuxTarget { kind: PackageKind, requested: Text },
    MsiNeedsWindowsTarget { requested: Text },
    NoFramework,
    InvalidScheme { scheme: Text, fault: SchemeFault },
    BackendFailed { status: Text },
    DirectoryUrl { cause: Text },
}

impl View for DesktopError {
    type V = ErrorModel;

    open spec fn view(&self) -> ErrorModel {
        match self {
            DesktopError::DmgNeedsMacosHost { requested } => ErrorModel::DmgNeedsMacosHost {
                requested: requested@,
            },
            DesktopError::PackageNeedsLinuxTarget { kind, requested } => {
                ErrorModel::PackageNeedsLinuxTarget { kind: *kind, requested: requested@ }
            },
            DesktopError::MsiNeedsWindowsTarget { requested } => {
                ErrorModel::MsiNeedsWindowsTarget { requested: requested@ }
            },
            DesktopError::NoFramework => ErrorModel::NoFramework,
            DesktopError::InvalidScheme { scheme, fault } => ErrorModel::InvalidScheme {
                scheme: scheme@,
                fault: *fault,
            },
            DesktopError::BackendFailed { status } => ErrorModel::BackendFailed {
                status: status@,
            },
            DesktopError::DirectoryUrl { cause } => ErrorModel::DirectoryUrl { cause: cause@ },
        }
    }
}

impl PackageKind {
    /// The extension of the package files.
    pub open spec fn text(self) -> Text {
        match self {
            PackageKind::Deb => ".deb"@,
            PackageKind::Rpm => ".rpm"@,
        }
    }

    /// The extension of the package files, as a string.
    pub fn extension(self) -> (extension: &'static str)
        ensures
            extension@ == self.text(),
    {
        match self {
            PackageKind::Deb => ".deb",
            PackageKind::Rpm => ".rpm",
        }
    }
}

impl SchemeFault {
    /// The fault in words.
    pub open spec fn text(self) -> Text {
        match self {
            SchemeFault::Empty => "scheme is empty"@,
            SchemeFault::BadStart => "scheme must start with an ASCII letter"@,
            SchemeFault::BadCharacter => {
                "scheme may only contain letters, digits, '+', '-', and '.'"@
            },
            SchemeFault::Reserved => "scheme is reserved and cannot be used as a deep link"@,
        }
    }

    /// The fault in words, as a string.
    pub fn reason(self) -> (reason: &'static str)
        ensures
            reason@ == self.text(),
    {
        match self {
            SchemeFault::Empty => "scheme is empty",
            SchemeFault::BadStart => "scheme must start with an ASCII letter",
            SchemeFault::BadCharacter => {
                "scheme may only contain letters, digits, '+', '-', and '.'"
            },
            SchemeFault::Reserved => "scheme is reserved and cannot be used as a deep link",
        }
    }
}

/// A text that needs no escapes: printable ASCII characters other than `"` and
/// `\`.
pub open spec fn unescaped(text: Text) -> bool {
    forall|i: int|
        0 <= i < text.len() ==> ' ' <= #[trigger] text[i] <= '~' && text[i] != '"' && text[i]
            != '\\'
}

/// A text between double quotes.
pub open spec fn between_quotes(text: Text) -> Text {
    seq!['"'] + text + seq!['"']
}

/// How `Debug` writes a string: in double quotes, with what could not be read
/// back escaped.
pub uninterp spec fn quoted(text: Text) -> Text;

/// `Debug` of `str`, through `format!`. The result depends on the string alone
/// and is named here, not written out. A text that needs no escapes is written
/// as itself between double quotes.
#[verifier::external_body]
fn debug_text(text: &str) -> (written: String)
    ensures
        written@ == quoted(text@),
        unescaped(text@) ==> written@ == between_quotes(text@),
{
    format!("{text:?}")
}

/// The message about a scheme, given how the scheme is written.
pub open spec fn scheme_text(written: Text, fault: SchemeFault) -> Text {
    "Invalid deep-link scheme "@ + written + ": "@ + fault.text() + "."@
}

/// The message about a scheme, given how the scheme is written.
pub fn scheme_message(written: String, fault: SchemeFault) -> (message: String)
    ensures
        message@ == scheme_text(written@, fault),
{
    "Invalid deep-link scheme ".to_owned().concat(written.as_str()).concat(": ").concat(
        fault.reason(),
    ).concat(".")
}

impl ErrorModel {
    /// The message of an error.
    pub open spec fn text(self) -> Text {
        match self {
            ErrorModel::DmgNeedsMacosHost { requested } => {
                "Building a .dmg requires a macOS build host (uses hdiutil). Requested output: "@
                    + requested
                    + ". Build on macOS, or choose a different output format."@
            },
            ErrorModel::PackageNeedsLinuxTarget { kind, requested } => {
                "Building a "@ + kind.text() + " requires a Linux target. Requested output: "@
                    + requested
                    + ". Pass --target <linux-triple> (e.g. x86_64-unknown-linux-gnu) or build on Linux."@
            },
            ErrorModel::MsiNeedsWindowsTarget { requested } => {
                "Building a .msi requires a Windows target. Requested output: "@ + requested
                    + ". Pass --target <windows-triple> (e.g. x86_64-pc-windows-msvc) or build on Windows."@
            },
            ErrorModel::NoFramework => {
                "Could not detect a supported framework in the current directory.\nSupported frameworks: Next.js, Astro, Fresh, Remix, React Router, SvelteKit, Nuxt, SolidStart, TanStack Start, Vite\nPro[...]"@
            },
            ErrorModel::InvalidScheme { scheme, fault } => scheme_text(quoted(scheme), fault),
            ErrorModel::BackendFailed { status } => {
                "LAUFEY backend exited with status: "@ + status
            },
            ErrorModel::DirectoryUrl { cause } => cause,
        }
    }
}

impl DesktopError {
    /// The message of the error. A scheme that needs no escapes stands in it as
    /// itself between double quotes.
    pub fn message(&self) -> (message: String)
        ensures
            message@ == self@.text(),
            self@ matches ErrorModel::InvalidScheme { scheme, fault } ==> unescaped(scheme)
                ==> message@ == scheme_text(between_quotes(scheme), fault),
    {
        match self {
            DesktopError::DmgNeedsMacosHost { requested } => {
                "Building a .dmg requires a macOS build host (uses hdiutil). Requested output: "
                    .to_owned()
                    .concat(requested.as_str())
                    .concat(". Build on macOS, or choose a different output format.")
            },
            DesktopError::PackageNeedsLinuxTarget { kind, requested } => {
                "Building a "
                    .to_owned()
                    .concat(kind.extension())
                    .concat(" requires a Linux target. Requested output: ")
                    .concat(requested.as_str())
                    .concat(
                    ". Pass --target <linux-triple> (e.g. x86_64-unknown-linux-gnu) or build on Linux.",
                )
            },
            DesktopError::MsiNeedsWindowsTarget { requested } => {
                "Building a .msi requires a Windows target. Requested output: "
                    .to_owned()
                    .concat(requested.as_str())
                    .concat(
                    ". Pass --target <windows-triple> (e.g. x86_64-pc-windows-msvc) or build on Windows.",
                )
            },
            DesktopError::NoFramework => {
                "Could not detect a supported framework in the current directory.\nSupported frameworks: Next.js, Astro, Fresh, Remix, React Router, SvelteKit, Nuxt, SolidStart, TanStack Start, Vite\nPro[...]".to_owned()
            },
            DesktopError::InvalidScheme { scheme, fault } => {
                scheme_message(debug_text(scheme.as_str()), *fault)
            },
            DesktopError::BackendFailed { status } => {
                "LAUFEY backend exited with status: ".to_owned().concat(status.as_str())
            },
            DesktopError::DirectoryUrl { cause } => cause.clone(),
        }
    }
}

/// The message of each error, with what it is about put in as it is.
pub proof fn law_messages_say_what_failed(error: ErrorModel)
    ensures
        error matches ErrorModel::DmgNeedsMacosHost { requested } ==> error.text()
            == "Building a .dmg requires a macOS build host (uses hdiutil). Requested output: "@
            + requested + ". Build on macOS, or choose a different output format."@,
        error matches ErrorModel::PackageNeedsLinuxTarget { kind, requested } ==> kind
            == PackageKind::Deb ==> error.text() == "Building a "@ + ".deb"@
            + " requires a Linux target. Requested output: "@ + requested
            + ". Pass --target <linux-triple> (e.g. x86_64-unknown-linux-gnu) or build on Linux."@,
        error matches ErrorModel::PackageNeedsLinuxTarget { kind, requested } ==> kind
            == PackageKind::Rpm ==> error.text() == "Building a "@ + ".rpm"@
            + " requires a Linux target. Requested output: "@ + requested
            + ". Pass --target <linux-triple> (e.g. x86_64-unknown-linux-gnu) or build on Linux."@,
        error matches ErrorModel::MsiNeedsWindowsTarget { requested } ==> error.text()
            == "Building a .msi requires a Windows target. Requested output: "@ + requested
            + ". Pass --target <windows-triple> (e.g. x86_64-pc-windows-msvc) or build on Windows."@,
        error is NoFramework ==> error.text()
            == "Could not detect a supported framework in the current directory.\nSupported frameworks: Next.js, Astro, Fresh, Remix, React Router, SvelteKit, Nuxt, SolidStart, TanStack Start, Vite\nPro[...]"@,
        error matches ErrorModel::BackendFailed { status } ==> error.text()
            == "LAUFEY backend exited with status: "@ + status,
        error matches ErrorModel::DirectoryUrl { cause } ==> error.text() == cause,
        error matches ErrorModel::InvalidScheme { scheme, fault } ==> fault == SchemeFault::Empty
            ==> error.text() == "Invalid deep-link scheme "@ + quoted(scheme) + ": "@
            + "scheme is empty"@ + "."@,
        error matches ErrorModel::InvalidScheme { scheme, fault } ==> fault == SchemeFault::BadStart
            ==> error.text() == "Invalid deep-link scheme "@ + quoted(scheme) + ": "@
            + "scheme must start with an ASCII letter"@ + "."@,
        error matches ErrorModel::InvalidScheme { scheme, fault } ==> fault == SchemeFault::BadCharacter
            ==> error.text() == "Invalid deep-link scheme "@ + quoted(scheme) + ": "@
            + "scheme may only contain letters, digits, '+', '-', and '.'"@ + "."@,
        error matches ErrorModel::InvalidScheme { scheme, fault } ==> fault == SchemeFault::Reserved
            ==> error.text() == "Invalid deep-link scheme "@ + quoted(scheme) + ": "@
            + "scheme is reserved and cannot be used as a deep link"@ + "."@,
{
}

/// The models of the errors leave out nothing and mix up nothing.
pub proof fn law_errors_are_read(error: DesktopError)
    ensures
        error matches DesktopError::DmgNeedsMacosHost { requested } ==> error@ == (
        ErrorModel::DmgNeedsMacosHost { requested: requested@ }),
        error matches DesktopError::PackageNeedsLinuxTarget { kind, requested } ==> error@ == (
        ErrorModel::PackageNeedsLinuxTarget { kind, requested: requested@ }),
        error matches DesktopError::MsiNeedsWindowsTarget { requested } ==> error@ == (
        ErrorModel::MsiNeedsWindowsTarget { requested: requested@ }),
        error is NoFramework ==> error@ == ErrorModel::NoFramework,
        error matches DesktopError::InvalidScheme { scheme, fault } ==> error@ == (
        ErrorModel::InvalidScheme { scheme: scheme@, fault }),
        error matches DesktopError::BackendFailed { status } ==> error@ == (
        ErrorModel::BackendFailed { status: status@ }),
        error matches DesktopError::DirectoryUrl { cause } ==> error@ == (
        ErrorModel::DirectoryUrl { cause: cause@ }),
{
}

} // verus!
