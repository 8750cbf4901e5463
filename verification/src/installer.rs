//! Installers that are asked for through the extension of the output.
//!
//! An output that ends in the extension of an installer names that installer.
//! The extension is stripped for the intermediate steps of the build, and the
//! requested path is kept for the last one.

use vstd::prelude::*;
use vstd::string::*;

use crate::error::{DesktopError, ErrorModel, PackageKind};
use crate::flags::copy_text;
use crate::path_rules::{separator_of, PathRules};
use crate::paths::{
    front_part, last_dot, last_part, lemma_name_start, name_start, plain_bare, plain_file,
    stem_of_name, stripped_by, strips_to, without_extension,
};
use crate::platform::{
    is_linux_target, is_windows_target, targets_linux, targets_windows, HostOs,
};
use crate::text::{
    ascii_lower, ascii_lowered, ends_in, ends_in_any_case, has_part, lowercase_ends_in, lowercased,
    lowers_ascii, Text,
};

verus! {

/// The requested paths of the installers, each with its extension.
#[derive(Debug, PartialEq, Eq)]
pub struct Installers {
    pub dmg: Option<String>,
    pub appimage: Option<String>,
    pub deb: Option<String>,
    pub rpm: Option<String>,
    pub msi: Option<String>,
}

/// What an `Installers` holds.
#[verifier::ext_equal]
pub struct InstallersModel {
    pub dmg: Option<Text>,
    pub appimage: Option<Text>,
    pub deb: Option<Text>,
    pub rpm: Option<Text>,
    pub msi: Option<Text>,
}

impl View for Installers {
    type V = InstallersModel;

    open spec fn view(&self) -> InstallersModel {
        InstallersModel {
            dmg: self.dmg.deep_view(),
            appimage: self.appimage.deep_view(),
            deb: self.deb.deep_view(),
            rpm: self.rpm.deep_view(),
            msi: self.msi.deep_view(),
        }
    }
}

/// An output asks for the installer with the given extension: it ends in it,
/// whatever the case of its letters.
pub open spec fn asks_for(output: Option<Text>, extension: Text) -> bool {
    output is Some && ends_in(lowercased(output->0), extension)
}

/// What is known of the lower-case form of an output.
pub open spec fn output_lowers(output: Option<Text>) -> bool {
    output is Some ==> lowers_ascii(output->0)
}

/// The output, where it asks for the installer with the given extension.
pub open spec fn request(output: Option<Text>, extension: Text) -> Option<Text> {
    if asks_for(output, extension) {
        output
    } else {
        None
    }
}

/// The output asks for a Linux package.
pub open spec fn asks_for_package(output: Option<Text>) -> bool {
    asks_for(output, ".deb"@) || asks_for(output, ".rpm"@)
}

/// `after` is the output once the extension of an installer has been stripped
/// off, where the output asked for that installer.
pub open spec fn output_after(
    windows: bool,
    asked: bool,
    before: Option<Text>,
    after: Option<Text>,
) -> bool {
    if asked {
        after is Some && strips_to(windows, before->0, after->0)
    } else {
        after == before
    }
}

/// The outputs of the four steps, each of which looks for its installers in
/// what the step before it left: `.dmg`, then `.appimage`, then `.deb` and
/// `.rpm`, then `.msi`.
pub struct Steps {
    pub given: Option<Text>,
    pub past_dmg: Option<Text>,
    pub past_appimage: Option<Text>,
    pub past_package: Option<Text>,
    pub past_msi: Option<Text>,
}

impl Steps {
    /// Each step leaves the output that it is due to leave, and looks for its
    /// extension in the lower-case form of what it is given.
    pub open spec fn valid(self, windows: bool) -> bool {
        &&& output_after(windows, asks_for(self.given, ".dmg"@), self.given, self.past_dmg)
        &&& output_after(
            windows,
            asks_for(self.past_dmg, ".appimage"@),
            self.past_dmg,
            self.past_appimage,
        )
        &&& output_after(
            windows,
            asks_for_package(self.past_appimage),
            self.past_appimage,
            self.past_package,
        )
        &&& output_after(
            windows,
            asks_for(self.past_package, ".msi"@),
            self.past_package,
            self.past_msi,
        )
        &&& output_lowers(self.given)
        &&& output_lowers(self.past_dmg)
        &&& output_lowers(self.past_appimage)
        &&& output_lowers(self.past_package)
    }

    /// What the steps come to: the error of the first one whose installer
    /// cannot be built, or the installers and the bare output.
    pub open spec fn outcome(
        self,
        target: Option<Text>,
        host: HostOs,
    ) -> Result<(InstallersModel, Option<Text>), ErrorModel> {
        if asks_for(self.given, ".dmg"@) && host != HostOs::Macos {
            Err(ErrorModel::DmgNeedsMacosHost { requested: self.given->0 })
        } else if asks_for_package(self.past_appimage) && !targets_linux(target, host) {
            Err(
                ErrorModel::PackageNeedsLinuxTarget {
                    kind: if asks_for(self.past_appimage, ".deb"@) {
                        PackageKind::Deb
                    } else {
                        PackageKind::Rpm
                    },
                    requested: self.past_appimage->0,
                },
            )
        } else if asks_for(self.past_package, ".msi"@) && !targets_windows(target, host) {
            Err(ErrorModel::MsiNeedsWindowsTarget { requested: self.past_package->0 })
        } else {
            Ok(
                (
                    InstallersModel {
                        dmg: request(self.given, ".dmg"@),
                        appimage: request(self.past_dmg, ".appimage"@),
                        deb: request(self.past_appimage, ".deb"@),
                        rpm: request(self.past_appimage, ".rpm"@),
                        msi: request(self.past_package, ".msi"@),
                    },
                    self.past_msi,
                ),
            )
        }
    }
}

/// `outcome` is what becomes of the given output.
pub open spec fn installers_of(
    windows: bool,
    output: Option<Text>,
    target: Option<Text>,
    host: HostOs,
    outcome: Result<(InstallersModel, Option<Text>), ErrorModel>,
) -> bool {
    exists|steps: Steps|
        #[trigger] steps.valid(windows) && steps.given == output && outcome == steps.outcome(
            target,
            host,
        )
}

/// The view of the result of `find_installers`.
pub open spec fn installers_view(
    result: Result<(Installers, Option<String>), DesktopError>,
) -> Result<(InstallersModel, Option<Text>), ErrorModel> {
    match result {
        Ok((installers, output)) => Ok((installers@, output.deep_view())),
        Err(error) => Err(error@),
    }
}

/// The output, where it asks for the installer with the given extension.
fn requested(output: &Option<String>, extension: &str) -> (requested: Option<String>)
    ensures
        requested.deep_view() == request(output.deep_view(), extension@),
        output_lowers(output.deep_view()),
{
    match output {
        Some(path) => if lowercase_ends_in(path.as_str(), extension) {
            Some(path.clone())
        } else {
            None
        },
        None => None,
    }
}

/// The output after an installer was looked for in it.
fn stripped(rules: PathRules, asked: bool, output: Option<String>) -> (bare: Option<String>)
    requires
        asked ==> output is Some,
    ensures
        output_after(rules.windows(), asked, output.deep_view(), bare.deep_view()),
{
    if asked {
        match output {
            Some(path) => Some(without_extension(rules, path.as_str())),
            None => None,
        }
    } else {
        output
    }
}

/// Finds the installers that an output asks for and the output that is left
/// for the steps before them. An installer that cannot be built here, or not
/// for this target, is an error.
pub fn find_installers(
    output: Option<String>,
    target: &Option<String>,
    rules: PathRules,
    host: HostOs,
) -> (result: Result<(Installers, Option<String>), DesktopError>)
    ensures
        installers_of(
            rules.windows(),
            output.deep_view(),
            target.deep_view(),
            host,
            installers_view(result),
        ),
{
    let ghost given = output.deep_view();

    let dmg = requested(&output, ".dmg");
    let output = stripped(rules, dmg.is_some(), output);
    let ghost past_dmg = output.deep_view();

    let appimage = requested(&output, ".appimage");
    let output = stripped(rules, appimage.is_some(), output);
    let ghost past_appimage = output.deep_view();

    let deb = requested(&output, ".deb");
    let rpm = requested(&output, ".rpm");
    let package = copy_text(&output);
    let output = stripped(rules, deb.is_some() || rpm.is_some(), output);
    let ghost past_package = output.deep_view();

    let msi = requested(&output, ".msi");
    let output = stripped(rules, msi.is_some(), output);
    let ghost past_msi = output.deep_view();

    let ghost steps = Steps { given, past_dmg, past_appimage, past_package, past_msi };
    assert(steps.valid(rules.windows()));

    if let Some(requested) = &dmg {
        if host != HostOs::Macos {
            return Err(DesktopError::DmgNeedsMacosHost { requested: requested.clone() });
        }
    }
    if deb.is_some() || rpm.is_some() {
        if !is_linux_target(target, host) {
            let kind = if deb.is_some() {
                PackageKind::Deb
            } else {
                PackageKind::Rpm
            };
            if let Some(requested) = package {
                return Err(DesktopError::PackageNeedsLinuxTarget { kind, requested });
            }
        }
    }
    if let Some(requested) = &msi {
        if !is_windows_target(target, host) {
            return Err(DesktopError::MsiNeedsWindowsTarget { requested: requested.clone() });
        }
    }
    Ok((Installers { dmg, appimage, deb, rpm, msi }, output))
}

/// By the rules of one platform, an output comes to the same in every run.
pub proof fn law_installers_are_determined(
    windows: bool,
    output: Option<Text>,
    target: Option<Text>,
    host: HostOs,
    outcome: Result<(InstallersModel, Option<Text>), ErrorModel>,
    other: Result<(InstallersModel, Option<Text>), ErrorModel>,
)
    requires
        installers_of(windows, output, target, host, outcome),
        installers_of(windows, output, target, host, other),
    ensures
        outcome == other,
{
}

/// An output that asks for no installer goes through unchanged, on every host
/// and for every target.
pub proof fn law_other_outputs_pass(
    windows: bool,
    output: Option<Text>,
    target: Option<Text>,
    host: HostOs,
    outcome: Result<(InstallersModel, Option<Text>), ErrorModel>,
)
    requires
        installers_of(windows, output, target, host, outcome),
        !asks_for(output, ".dmg"@),
        !asks_for(output, ".appimage"@),
        !asks_for_package(output),
        !asks_for(output, ".msi"@),
    ensures
        outcome == Ok::<(InstallersModel, Option<Text>), ErrorModel>(
            (
                InstallersModel { dmg: None, appimage: None, deb: None, rpm: None, msi: None },
                output,
            ),
        ),
{
}

/// A `.dmg` is refused just on the hosts that are not macOS, whatever the
/// target, and with the path that was asked for.
pub proof fn law_dmg_needs_macos(
    windows: bool,
    output: Option<Text>,
    target: Option<Text>,
    host: HostOs,
    outcome: Result<(InstallersModel, Option<Text>), ErrorModel>,
)
    requires
        installers_of(windows, output, target, host, outcome),
    ensures
        asks_for(output, ".dmg"@) && host != HostOs::Macos ==> outcome == Err::<
            (InstallersModel, Option<Text>),
            ErrorModel,
        >(ErrorModel::DmgNeedsMacosHost { requested: output->0 }),
        outcome matches Err(ErrorModel::DmgNeedsMacosHost { requested }) ==> asks_for(
            output,
            ".dmg"@,
        ) && host != HostOs::Macos,
{
}

/// Apart from a `.dmg`, whether an installer can be built is decided by the
/// target alone: with a target triple given, every host comes to the same.
pub proof fn law_installers_cross_compile(
    windows: bool,
    output: Option<Text>,
    target: Text,
    host: HostOs,
    other_host: HostOs,
    outcome: Result<(InstallersModel, Option<Text>), ErrorModel>,
)
    requires
        installers_of(windows, output, Some(target), host, outcome),
        !asks_for(output, ".dmg"@),
    ensures
        installers_of(windows, output, Some(target), other_host, outcome),
{
    let steps = choose|steps: Steps|
        #[trigger] steps.valid(windows) && steps.given == output && outcome == steps.outcome(
            Some(target),
            host,
        );
    assert(steps.valid(windows) && outcome == steps.outcome(Some(target), other_host));
}

/// Each installer that is kept was asked for with the path that is kept for
/// it, and can be built. A `.dmg` keeps the output as it was given.
pub proof fn law_requests_are_kept(
    windows: bool,
    output: Option<Text>,
    target: Option<Text>,
    host: HostOs,
    installers: InstallersModel,
    bare: Option<Text>,
)
    requires
        installers_of(windows, output, target, host, Ok((installers, bare))),
    ensures
        installers.dmg is Some ==> installers.dmg == output && host == HostOs::Macos,
        installers.dmg is Some ==> asks_for(installers.dmg, ".dmg"@),
        installers.appimage is Some ==> asks_for(installers.appimage, ".appimage"@),
        installers.deb is Some ==> asks_for(installers.deb, ".deb"@) && targets_linux(
            target,
            host,
        ),
        installers.rpm is Some ==> asks_for(installers.rpm, ".rpm"@) && targets_linux(
            target,
            host,
        ),
        installers.msi is Some ==> asks_for(installers.msi, ".msi"@) && targets_windows(
            target,
            host,
        ),
        bare is Some <==> output is Some,
{
}

/// An output never asks for a `.deb` and an `.rpm` at once.
pub proof fn law_one_package(output: Option<Text>)
    ensures
        !(asks_for(output, ".deb"@) && asks_for(output, ".rpm"@)),
{
    reveal_strlit(".deb");
    reveal_strlit(".rpm");
    if asks_for(output, ".deb"@) && asks_for(output, ".rpm"@) {
        let lower = lowercased(output->0);
        let end = lower.subrange(lower.len() - 4, lower.len() as int);
        assert(end == ".deb"@ && end == ".rpm"@);
        assert(".deb"@[1] != ".rpm"@[1]);
    }
}

/// The extension of an installer: a `.` and then characters that are none.
pub open spec fn is_extension(extension: Text) -> bool {
    &&& extension.len() > 0
    &&& extension[0] == '.'
    &&& forall|i: int| 0 < i < extension.len() ==> #[trigger] extension[i] != '.'
}

/// The extensions of the installers are extensions.
pub proof fn law_installer_extensions()
    ensures
        is_extension(".dmg"@),
        is_extension(".appimage"@),
        is_extension(".deb"@),
        is_extension(".rpm"@),
        is_extension(".msi"@),
{
    reveal_strlit(".dmg");
    reveal_strlit(".appimage");
    reveal_strlit(".deb");
    reveal_strlit(".rpm");
    reveal_strlit(".msi");
}

/// The last `.` of a text that ends in an extension begins that extension.
pub proof fn lemma_last_dot_of_extension(name: Text, extension: Text)
    requires
        is_extension(extension),
        ends_in_any_case(name, extension),
    ensures
        last_dot(name) == name.len() - extension.len(),
{
    let at = name.len() - extension.len();
    assert forall|i: int| 0 <= i < extension.len() implies ascii_lower(#[trigger] name[at + i])
        == extension[i] by {
        assert(ascii_lowered(name).subrange(at, name.len() as int)[i] == extension[i]);
    }
    assert(name[at + 0] == '.');
    assert forall|i: int| at < i < name.len() implies #[trigger] name[i] != '.' by {
        assert(ascii_lower(name[at + (i - at)]) == extension[i - at]);
    }
    lemma_last_dot_is(name, at);
}

/// The last `.` of a name is the one that no other `.` follows.
proof fn lemma_last_dot_is(name: Text, at: int)
    requires
        0 <= at < name.len(),
        name[at] == '.',
        forall|i: int| at < i < name.len() ==> #[trigger] name[i] != '.',
    ensures
        last_dot(name) == at,
    decreases name.len(),
{
    if at < name.len() - 1 {
        assert forall|i: int| at < i < name.drop_last().len() implies #[trigger] name.drop_last()[i]
            != '.' by {
            assert(name.drop_last()[i] == name[i]);
        }
        lemma_last_dot_is(name.drop_last(), at);
    }
}

/// A plain output without its last characters. The separator before the file
/// name is written in the platform's own way.
pub open spec fn shortened(windows: bool, output: Text, by: nat) -> Text {
    let kept = output.take(output.len() - by);
    if front_part(output) is Some && front_part(output)->0.len() > 0 {
        kept.update(name_start(output) - 1, separator_of(windows))
    } else {
        kept
    }
}

/// Stripping a plain output cuts off exactly the extension of its installer,
/// unless the file name is nothing but that extension.
pub proof fn law_extension_is_cut(windows: bool, output: Text, extension: Text)
    requires
        plain_file(output),
        is_extension(extension),
        ends_in_any_case(output, extension),
        last_part(output).len() > extension.len(),
    ensures
        plain_bare(windows, output) == shortened(windows, output, extension.len()),
{
    let start = name_start(output);
    lemma_name_start(output);
    let name = last_part(output);
    let kept = output.take(output.len() - extension.len());
    assert(ascii_lowered(name).subrange(name.len() - extension.len(), name.len() as int)
        =~= ascii_lowered(output).subrange(
        output.len() - extension.len(),
        output.len() as int,
    ));
    assert(ends_in_any_case(name, extension));
    lemma_last_dot_of_extension(name, extension);
    let stem = stem_of_name(name);
    assert(stem =~= name.take(name.len() - extension.len()));
    if front_part(output) is Some {
        let front = front_part(output)->0;
        let separator = separator_of(windows);
        assert(front + seq![separator] + stem =~= kept.update(start - 1, separator));
        if front.len() == 0 {
            assert(seq!['/'] + stem =~= kept);
        }
    } else {
        assert(stem =~= kept);
    }
}

/// The installers are looked for one after the other, each in what the one
/// before it left: `.dmg`, `.appimage`, `.deb` and `.rpm`, `.msi`. Whoever is
/// found keeps the output as it stood then and leaves it without the extension.
/// The first that cannot be built is the error: a `.dmg` on a host that is not
/// macOS, a package for a system that is not its own.
pub proof fn law_installers_are_found_in_turn(
    windows: bool,
    output: Text,
    target: Option<Text>,
    host: HostOs,
    outcome: Result<(InstallersModel, Option<Text>), ErrorModel>,
)
    requires
        installers_of(windows, Some(output), target, host, outcome),
    ensures
        ({
            let is_dmg = ends_in(lowercased(output), ".dmg"@);
            let second = if is_dmg {
                stripped_by(windows, output)
            } else {
                output
            };
            let is_appimage = ends_in(lowercased(second), ".appimage"@);
            let third = if is_appimage {
                stripped_by(windows, second)
            } else {
                second
            };
            let is_deb = ends_in(lowercased(third), ".deb"@);
            let is_rpm = ends_in(lowercased(third), ".rpm"@);
            let fourth = if is_deb || is_rpm {
                stripped_by(windows, third)
            } else {
                third
            };
            let is_msi = ends_in(lowercased(fourth), ".msi"@);
            let last = if is_msi {
                stripped_by(windows, fourth)
            } else {
                fourth
            };
            let for_linux = (target is Some && has_part(target->0, "linux"@)) || (target is None
                && host == HostOs::Linux);
            let for_windows = (target is Some && has_part(target->0, "windows"@)) || (target is None
                && host == HostOs::Windows);
            match outcome {
                Ok((found, bare)) => {
                    &&& is_dmg ==> host == HostOs::Macos
                    &&& is_deb || is_rpm ==> for_linux
                    &&& is_msi ==> for_windows
                    &&& bare == Some(last)
                    &&& found.dmg == (if is_dmg {
                        Some(output)
                    } else {
                        None
                    })
                    &&& found.appimage == (if is_appimage {
                        Some(second)
                    } else {
                        None
                    })
                    &&& found.deb == (if is_deb {
                        Some(third)
                    } else {
                        None
                    })
                    &&& found.rpm == (if is_rpm {
                        Some(third)
                    } else {
                        None
                    })
                    &&& found.msi == (if is_msi {
                        Some(fourth)
                    } else {
                        None
                    })
                },
                Err(error) => {
                    let dmg_refused = is_dmg && host != HostOs::Macos;
                    let package_refused = (is_deb || is_rpm) && !for_linux;
                    &&& dmg_refused ==> error == (ErrorModel::DmgNeedsMacosHost {
                        requested: output,
                    })
                    &&& !dmg_refused && package_refused && is_deb ==> error == (
                    ErrorModel::PackageNeedsLinuxTarget {
                        kind: PackageKind::Deb,
                        requested: third,
                    })
                    &&& !dmg_refused && package_refused && !is_deb ==> error == (
                    ErrorModel::PackageNeedsLinuxTarget {
                        kind: PackageKind::Rpm,
                        requested: third,
                    })
                    &&& !dmg_refused && !package_refused ==> is_msi && !for_windows && error == (
                    ErrorModel::MsiNeedsWindowsTarget { requested: fourth })
                },
            }
        }),
{
}

/// Without an output there is nothing to look in.
pub proof fn law_no_output_asks_for_nothing(
    windows: bool,
    target: Option<Text>,
    host: HostOs,
    outcome: Result<(InstallersModel, Option<Text>), ErrorModel>,
)
    requires
        installers_of(windows, None, target, host, outcome),
    ensures
        outcome matches Ok((found, bare)) && bare is None && found.dmg is None && found.appimage
            is None && found.deb is None && found.rpm is None && found.msi is None,
{
}

/// The model of the installers leaves out nothing and mixes up nothing.
pub proof fn law_installers_are_read(
    installers: Installers,
    result: Result<(Installers, Option<String>), DesktopError>,
)
    ensures
        installers@.dmg == installers.dmg.deep_view(),
        installers@.appimage == installers.appimage.deep_view(),
        installers@.deb == installers.deb.deep_view(),
        installers@.rpm == installers.rpm.deep_view(),
        installers@.msi == installers.msi.deep_view(),
        result matches Ok((found, bare)) ==> installers_view(result) == Ok::<
            (InstallersModel, Option<Text>),
            ErrorModel,
        >((found@, bare.deep_view())),
        result matches Err(error) ==> installers_view(result) == Err::<
            (InstallersModel, Option<Text>),
            ErrorModel,
        >(error@),
{
}

} // verus!
