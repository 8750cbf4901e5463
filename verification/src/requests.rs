//! What an output with the extension of an installer comes to.

use vstd::prelude::*;
use vstd::string::*;
use vstd::utf8::is_ascii_chars;

use crate::error::{ErrorModel, PackageKind};
use crate::installer::{
    asks_for, installers_of, law_extension_is_cut, law_installer_extensions, shortened,
    InstallersModel, Steps,
};
use crate::packaging::{installer_made, InstallerKind};
use crate::paths::{last_part, plain_bare, plain_file, stripped_by};
use crate::platform::{targets_linux, targets_windows, HostOs};
use crate::text::{
    ascii_lower, ascii_lowered, ends_in, ends_in_any_case, lowercased, lowers_ascii, Text,
};

verus! {

impl InstallerKind {
    /// The extension that asks for the installer.
    pub open spec fn extension(self) -> Text {
        match self {
            InstallerKind::Dmg => ".dmg"@,
            InstallerKind::AppImage => ".appimage"@,
            InstallerKind::Deb => ".deb"@,
            InstallerKind::Rpm => ".rpm"@,
            InstallerKind::Msi => ".msi"@,
        }
    }

    /// The error about an installer that cannot be built here or not for the
    /// target.
    pub open spec fn refusal(
        self,
        requested: Text,
        target: Option<Text>,
        host: HostOs,
    ) -> Option<ErrorModel> {
        match self {
            InstallerKind::Dmg => if host == HostOs::Macos {
                None
            } else {
                Some(ErrorModel::DmgNeedsMacosHost { requested })
            },
            InstallerKind::AppImage => None,
            InstallerKind::Deb => if targets_linux(target, host) {
                None
            } else {
                Some(ErrorModel::PackageNeedsLinuxTarget { kind: PackageKind::Deb, requested })
            },
            InstallerKind::Rpm => if targets_linux(target, host) {
                None
            } else {
                Some(ErrorModel::PackageNeedsLinuxTarget { kind: PackageKind::Rpm, requested })
            },
            InstallerKind::Msi => if targets_windows(target, host) {
                None
            } else {
                Some(ErrorModel::MsiNeedsWindowsTarget { requested })
            },
        }
    }

    /// The turn in which the installer is looked for in an output.
    pub open spec fn turn(self) -> int {
        match self {
            InstallerKind::Dmg => 0,
            InstallerKind::AppImage => 1,
            InstallerKind::Deb => 2,
            InstallerKind::Rpm => 2,
            InstallerKind::Msi => 3,
        }
    }
}

/// A path has the extension of an installer, whatever the case of its letters.
pub open spec fn has_extension(path: Text, kind: InstallerKind) -> bool {
    ends_in_any_case(path, kind.extension())
}

/// What is left of an output once the extension of its file name is gone; of a
/// plain path this is written out.
pub open spec fn bare_output(windows: bool, output: Text) -> Text {
    if plain_file(output) {
        plain_bare(windows, output)
    } else {
        stripped_by(windows, output)
    }
}

/// The ASCII characters of a text rule out that its lower-case form ends in
/// the given one: it has only ASCII characters and does not end so, or those at
/// its end differ.
pub open spec fn rules_out(text: Text, end: Text) -> bool {
    ||| is_ascii_chars(text) && !ends_in_any_case(text, end)
    ||| exists|at: int|
        0 <= at <= text.len() && is_ascii_chars(#[trigger] text.skip(at)) && !ends_in(
            ascii_lowered(text.skip(at)),
            end,
        ) && !ends_in(end, ascii_lowered(text.skip(at)))
}

/// A path does not ask for an installer, be it that its ASCII characters show
/// this or that its lower-case form ends otherwise.
pub open spec fn asks_no_more(path: Text, kind: InstallerKind) -> bool {
    rules_out(path, kind.extension()) || !asks_for(Some(path), kind.extension())
}

/// Of two texts that end the same text, one ends the other.
proof fn lemma_common_end(text: Text, left: Text, right: Text)
    requires
        ends_in(text, left),
        ends_in(text, right),
        left.len() <= right.len(),
    ensures
        ends_in(right, left),
        left.len() > 0 ==> left.last() == right.last(),
{
    let from = right.len() - left.len();
    let whole = text.subrange(text.len() - right.len(), text.len() as int);
    let end = text.subrange(text.len() - left.len(), text.len() as int);
    assert(whole == right && end == left);
    assert(right.subrange(from, right.len() as int) =~= end) by {
        assert(whole.subrange(from, right.len() as int) =~= end);
    }
    if left.len() > 0 {
        assert(end[left.len() - 1] == text[text.len() - 1]);
        assert(whole[right.len() - 1] == text[text.len() - 1]);
    }
}

/// The extensions of the installers are ASCII and end in different characters.
proof fn lemma_extensions()
    ensures
        forall|kind: InstallerKind| is_ascii_chars(#[trigger] kind.extension()),
        forall|kind: InstallerKind| (#[trigger] kind.extension()).len() > 0,
        forall|kind: InstallerKind, other: InstallerKind|
            (#[trigger] kind.extension()).last() == (#[trigger] other.extension()).last() ==> kind
                == other,
{
    reveal_strlit(".dmg");
    reveal_strlit(".appimage");
    reveal_strlit(".deb");
    reveal_strlit(".rpm");
    reveal_strlit(".msi");
    assert(".dmg"@.last() == 'g');
    assert(".appimage"@.last() == 'e');
    assert(".deb"@.last() == 'b');
    assert(".rpm"@.last() == 'm');
    assert(".msi"@.last() == 'i');
}

/// A path with the extension of an installer asks for that one and no other,
/// whatever stands before the extension.
proof fn lemma_own_request(path: Text, kind: InstallerKind, other: InstallerKind)
    requires
        lowers_ascii(path),
        has_extension(path, kind),
    ensures
        asks_for(Some(path), other.extension()) == (other == kind),
{
    lemma_extensions();
    let extension = kind.extension();
    let at = path.len() - extension.len();
    let end = path.skip(at);
    assert(ascii_lowered(end) =~= extension) by {
        assert forall|i: int| 0 <= i < extension.len() implies #[trigger] ascii_lowered(end)[i]
            == extension[i] by {
            assert(ascii_lowered(path).subrange(at, path.len() as int)[i] == extension[i]);
        }
    }
    assert forall|i: int| 0 <= i < end.len() implies '\0' <= #[trigger] end[i] <= '\u{7f}' by {
        assert(ascii_lower(end[i]) == extension[i]);
    }
    assert(ends_in(lowercased(path), extension));
    if asks_for(Some(path), other.extension()) {
        if extension.len() <= other.extension().len() {
            lemma_common_end(lowercased(path), extension, other.extension());
        } else {
            lemma_common_end(lowercased(path), other.extension(), extension);
        }
    }
}

/// What the ASCII characters of a path rule out is not asked for.
proof fn lemma_ruled_out(path: Text, kind: InstallerKind)
    requires
        lowers_ascii(path),
        asks_no_more(path, kind),
    ensures
        !asks_for(Some(path), kind.extension()),
{
    let end = kind.extension();
    if asks_for(Some(path), end) && !(is_ascii_chars(path) && !ends_in_any_case(path, end)) {
        let at = choose|at: int|
            0 <= at <= path.len() && is_ascii_chars(#[trigger] path.skip(at)) && !ends_in(
                ascii_lowered(path.skip(at)),
                end,
            ) && !ends_in(end, ascii_lowered(path.skip(at)));
        let own = ascii_lowered(path.skip(at));
        assert(ends_in(lowercased(path), own));
        if own.len() <= end.len() {
            lemma_common_end(lowercased(path), own, end);
        } else {
            lemma_common_end(lowercased(path), end, own);
        }
    }
}

/// An output with the extension of an installer comes to that installer at
/// exactly the path that was asked for, and to the path without the extension
/// for the steps before it. Where the installer cannot be built it comes to an
/// error with the path that was asked for. This holds of every output that asks
/// for nothing further once its extension is gone. Of a plain path whose file
/// name is more than the extension, just the extension goes.
pub proof fn law_requested_installer_is_made(
    windows: bool,
    kind: InstallerKind,
    output: Text,
    target: Option<Text>,
    host: HostOs,
    outcome: Result<(InstallersModel, Option<Text>), ErrorModel>,
)
    requires
        installers_of(windows, Some(output), target, host, outcome),
        has_extension(output, kind),
        forall|other: InstallerKind| #[trigger]
            other.turn() > kind.turn() ==> asks_no_more(bare_output(windows, output), other),
    ensures
        match outcome {
            Ok((installers, bare)) => {
                &&& kind.refusal(output, target, host) is None
                &&& installer_made(installers) == Some((kind, output))
                &&& bare == Some(bare_output(windows, output))
            },
            Err(error) => kind.refusal(output, target, host) == Some(error),
        },
        plain_file(output) && last_part(output).len() > kind.extension().len() ==> bare_output(
            windows,
            output,
        ) == shortened(windows, output, kind.extension().len()),
{
    let steps = choose|steps: Steps|
        #[trigger] steps.valid(windows) && steps.given == Some(output) && outcome == steps.outcome(
            target,
            host,
        );
    let bare = bare_output(windows, output);
    lemma_own_request(output, kind, InstallerKind::Dmg);
    lemma_own_request(output, kind, InstallerKind::AppImage);
    lemma_own_request(output, kind, InstallerKind::Deb);
    lemma_own_request(output, kind, InstallerKind::Rpm);
    lemma_own_request(output, kind, InstallerKind::Msi);
    if kind.turn() < InstallerKind::AppImage.turn() {
        assert(steps.past_dmg == Some(bare));
        lemma_ruled_out(bare, InstallerKind::AppImage);
    }
    if kind.turn() < InstallerKind::Deb.turn() {
        assert(InstallerKind::Rpm.turn() > kind.turn());
        assert(steps.past_appimage == Some(bare));
        lemma_ruled_out(bare, InstallerKind::Deb);
        lemma_ruled_out(bare, InstallerKind::Rpm);
    }
    if kind.turn() < InstallerKind::Msi.turn() {
        assert(steps.past_package == Some(bare));
        lemma_ruled_out(bare, InstallerKind::Msi);
    }
    if plain_file(output) && last_part(output).len() > kind.extension().len() {
        law_installer_extensions();
        law_extension_is_cut(windows, output, kind.extension());
    }
}

} // verus!
