//! How the finished bundle is shown: relative to the working directory where
//! both have a URL, and otherwise by its path.

use std::path::Path;

use vstd::prelude::*;
use vstd::string::*;
use vstd::utf8::is_ascii_chars;

use crate::error::{DesktopError, ErrorModel};
use crate::path_rules::PathRules;
use crate::text::{characters, Text};

verus! {

/// A path that begins with `\\?\`. In such a path the rules of Windows read
/// `/` as a character like any other.
pub open spec fn verbatim(path: Text) -> bool {
    path.len() >= 4 && path[0] == '\\' && path[1] == '\\' && path[2] == '?' && path[3] == '\\'
}

/// A character separates the parts of a path.
pub open spec fn separates(verbatim: bool, c: char) -> bool {
    c == '\\' || (c == '/' && !verbatim)
}

/// What stands from `start` up to `end` is a part of the path: there is a
/// separator or an end of the path on either side, and no separator in it.
pub open spec fn is_part(path: Text, start: int, end: int) -> bool {
    &&& 0 <= start < end <= path.len()
    &&& start == 0 || separates(verbatim(path), path[start - 1])
    &&& end == path.len() || separates(verbatim(path), path[end])
    &&& forall|i: int| start <= i < end ==> !separates(verbatim(path), #[trigger] path[i])
}

/// A part that ends in a dot or a space is made of ASCII characters.
pub open spec fn part_converts(path: Text, start: int, end: int) -> bool {
    path[end - 1] == '.' || path[end - 1] == ' ' ==> is_ascii_chars(path.subrange(start, end))
}

/// A path that can be converted to a URL, or refused, by the rules of Windows:
/// they drop dots and spaces at the end of a part, which goes well only in
/// parts of ASCII characters.
pub open spec fn convertible(path: Text) -> bool {
    forall|start: int, end: int| #[trigger]
        is_part(path, start, end) ==> part_converts(path, start, end)
}

/// The URL of a directory, or the message of the error that there is none, by
/// the path rules of Windows or by those of Unix.
pub uninterp spec fn directory_url(windows: bool, path: Text) -> Result<Text, Text>;

/// The URL of a file, where there is one, by the path rules of Windows or by
/// those of Unix.
pub uninterp spec fn file_url(windows: bool, path: Text) -> Option<Text>;

/// `deno_path_util::url_from_directory_path`: the `file:` URL of a directory,
/// or the message of its error. Which of the two it is, and what it holds,
/// depends on the path and on the path rules of the platform, which are those
/// that are handed in; both are named here and not written out. By the rules of
/// Windows it can panic on a path that is not convertible.
#[verifier::external_body]
fn url_of_directory(rules: PathRules, path: &str) -> (url: Result<String, String>)
    requires
        rules.windows() ==> convertible(path@),
    ensures
        texts_of(url) == directory_url(rules.windows(), path@),
{
    match deno_path_util::url_from_directory_path(Path::new(path)) {
        Ok(url) => Ok(url.to_string()),
        Err(error) => Err(error.to_string()),
    }
}

/// `deno_path_util::url_from_file_path`: the `file:` URL of a file, none where
/// it reports an error. It depends on the path and on the path rules of the
/// platform, which are those that are handed in, and is named here and not
/// written out. By the rules of Windows it can panic on a path that is not
/// convertible.
#[verifier::external_body]
fn url_of_file(rules: PathRules, path: &str) -> (url: Option<String>)
    requires
        rules.windows() ==> convertible(path@),
    ensures
        url.deep_view() == file_url(rules.windows(), path@),
{
    match deno_path_util::url_from_file_path(Path::new(path)) {
        Ok(url) => Some(url.to_string()),
        Err(_) => None,
    }
}

/// The texts of a result.
pub open spec fn texts_of(result: Result<String, String>) -> Result<Text, Text> {
    match result {
        Ok(text) => Ok(text@),
        Err(text) => Err(text@),
    }
}

/// How a bundle is shown.
#[derive(Debug, PartialEq, Eq)]
pub enum Shown {
    /// By its URL, relative to that of the working directory.
    Relative { base: String, url: String },
    /// By its path.
    Path(String),
}

/// What a `Shown` holds.
pub enum ShownModel {
    Relative { base: Text, url: Text },
    Path(Text),
}

impl View for Shown {
    type V = ShownModel;

    open spec fn view(&self) -> ShownModel {
        match self {
            Shown::Relative { base, url } => ShownModel::Relative { base: base@, url: url@ },
            Shown::Path(path) => ShownModel::Path(path@),
        }
    }
}

/// How the bundle at the given path is shown, given its URL and that of the
/// working directory. A working directory without a URL is an error.
pub open spec fn shown_by(
    base: Result<Text, Text>,
    url: Option<Text>,
    bundle: Text,
) -> Result<ShownModel, ErrorModel> {
    match base {
        Ok(base) => Ok(
            match url {
                Some(url) => ShownModel::Relative { base, url },
                None => ShownModel::Path(bundle),
            },
        ),
        Err(cause) => Err(ErrorModel::DirectoryUrl { cause }),
    }
}

/// How the bundle at the given path is shown from the given directory.
pub open spec fn shown_from(
    windows: bool,
    directory: Text,
    bundle: Text,
) -> Result<ShownModel, ErrorModel> {
    shown_by(directory_url(windows, directory), file_url(windows, bundle), bundle)
}

/// How the bundle at the given path is shown, given its URL and that of the
/// working directory.
pub fn show_by_urls(base: Result<String, String>, url: Option<String>, bundle: &str) -> (result:
    Result<Shown, DesktopError>)
    ensures
        match result {
            Ok(shown) => shown_by(texts_of(base), url.deep_view(), bundle@) == Ok::<
                ShownModel,
                ErrorModel,
            >(shown@),
            Err(error) => shown_by(texts_of(base), url.deep_view(), bundle@) == Err::<
                ShownModel,
                ErrorModel,
            >(error@),
        },
{
    match base {
        Ok(base) => match url {
            Some(url) => Ok(Shown::Relative { base, url }),
            None => Ok(Shown::Path(bundle.to_owned())),
        },
        Err(cause) => Err(DesktopError::DirectoryUrl { cause }),
    }
}

/// Whether a path can be converted by the rules of Windows.
pub fn is_convertible(path: &str) -> (yes: bool)
    ensures
        yes == convertible(path@),
{
    let chars: Vec<char> = characters(path);
    let literal = chars.len() >= 4 && chars[0] == '\\' && chars[1] == '\\' && chars[2] == '?'
        && chars[3] == '\\';
    let mut start: usize = 0;
    let mut ascii = true;
    let mut i: usize = 0;
    while i < chars.len()
        invariant
            start <= i <= chars@.len(),
            chars@ == path@,
            literal == verbatim(path@),
            start == 0 || separates(literal, path@[start - 1]),
            forall|j: int| start <= j < i ==> !separates(literal, #[trigger] path@[j]),
            ascii == is_ascii_chars(path@.subrange(start as int, i as int)),
            forall|s: int, e: int| #[trigger]
                is_part(path@, s, e) && e < start ==> part_converts(path@, s, e),
        decreases chars@.len() - i,
    {
        let c = chars[i];
        if c == '\\' || (c == '/' && !literal) {
            if !ascii && (chars[i - 1] == '.' || chars[i - 1] == ' ') {
                assert(is_part(path@, start as int, i as int));
                return false;
            }
            proof {
                lemma_last_part(path@, start as int, i as int);
            }
            start = i + 1;
            ascii = true;
        } else {
            let ghost before = path@.subrange(start as int, i as int);
            assert(path@.subrange(start as int, i + 1) =~= before.push(c));
            proof {
                lemma_ascii_push(before, c);
            }
            ascii = ascii && c <= '\u{7f}';
        }
        i += 1;
    }
    if !ascii && (chars[i - 1] == '.' || chars[i - 1] == ' ') {
        assert(is_part(path@, start as int, i as int));
        return false;
    }
    proof {
        lemma_last_part(path@, start as int, i as int);
    }
    true
}

/// One more character.
proof fn lemma_ascii_push(text: Text, c: char)
    ensures
        is_ascii_chars(text.push(c)) <==> is_ascii_chars(text) && c <= '\u{7f}',
{
    let longer = text.push(c);
    assert(longer[text.len() as int] == c);
    assert forall|i: int| 0 <= i < text.len() implies #[trigger] longer[i] == text[i] by {}
    if is_ascii_chars(longer) {
        assert forall|i: int| 0 <= i < text.len() implies '\0' <= #[trigger] text[i]
            <= '\u{7f}' by {
            assert(longer[i] == text[i]);
        }
    }
}

/// The parts that end by `end` are those that end before `start` and what
/// stands between the two.
proof fn lemma_last_part(path: Text, start: int, end: int)
    requires
        0 <= start <= end <= path.len(),
        start == 0 || separates(verbatim(path), path[start - 1]),
        end == path.len() || separates(verbatim(path), path[end]),
        forall|i: int| start <= i < end ==> !separates(verbatim(path), #[trigger] path[i]),
    ensures
        forall|s: int, e: int| #[trigger]
            is_part(path, s, e) && e <= end ==> e < start || (s == start && e == end),
{
    assert forall|s: int, e: int| #[trigger] is_part(path, s, e) && e <= end implies e < start || (s
        == start && e == end) by {
        if e >= start {
            if s < start {
                assert(separates(verbatim(path), path[start - 1]));
                assert(!separates(verbatim(path), path[start - 1]));
            }
            if e < end {
                assert(!separates(verbatim(path), path[e]));
            }
            if s > start {
                assert(!separates(verbatim(path), path[s - 1]));
            }
        }
    }
}

/// How the bundle at the given path is shown from the given directory.
pub fn show_bundle(rules: PathRules, directory: &str, bundle: &str) -> (result: Result<
    Shown,
    DesktopError,
>)
    requires
        rules.windows() ==> convertible(directory@),
        rules.windows() ==> convertible(bundle@),
    ensures
        match result {
            Ok(shown) => shown_from(rules.windows(), directory@, bundle@) == Ok::<
                ShownModel,
                ErrorModel,
            >(shown@),
            Err(error) => shown_from(rules.windows(), directory@, bundle@) == Err::<
                ShownModel,
                ErrorModel,
            >(error@),
        },
{
    show_by_urls(url_of_directory(rules, directory), url_of_file(rules, bundle), bundle)
}

/// A bundle is shown by its URL, relative to that of the working directory,
/// where it has one, and by its path where it has none. A working directory
/// without a URL is an error, whatever the bundle.
pub proof fn law_bundles_are_shown(windows: bool, directory: Text, bundle: Text)
    ensures
        ({
            let base = directory_url(windows, directory);
            let url = file_url(windows, bundle);
            let shown = shown_from(windows, directory, bundle);
            &&& base is Err ==> shown == Err::<ShownModel, ErrorModel>(
                ErrorModel::DirectoryUrl { cause: base->Err_0 },
            )
            &&& base is Ok && url is Some ==> shown == Ok::<ShownModel, ErrorModel>(
                ShownModel::Relative { base: base->Ok_0, url: url->0 },
            )
            &&& base is Ok && url is None ==> shown == Ok::<ShownModel, ErrorModel>(
                ShownModel::Path(bundle),
            )
        }),
{
}

/// Given the two URLs, this is how a bundle is shown.
pub proof fn law_urls_decide(base: Text, cause: Text, url: Text, bundle: Text)
    ensures
        shown_by(Ok(base), Some(url), bundle) == Ok::<ShownModel, ErrorModel>(
            ShownModel::Relative { base, url },
        ),
        shown_by(Ok(base), None, bundle) == Ok::<ShownModel, ErrorModel>(ShownModel::Path(bundle)),
        shown_by(Err(cause), Some(url), bundle) == Err::<ShownModel, ErrorModel>(
            ErrorModel::DirectoryUrl { cause },
        ),
        shown_by(Err(cause), None, bundle) == Err::<ShownModel, ErrorModel>(
            ErrorModel::DirectoryUrl { cause },
        ),
{
}

/// A path of ASCII characters is convertible. One that ends in a part that is
/// not ASCII and ends in a dot or a space is not.
pub proof fn law_convertible_paths(front: Text, part: Text)
    ensures
        is_ascii_chars(front) ==> convertible(front),
        (front.len() == 0 || front.last() == '\\') && part.len() > 0 && (part.last() == '.'
            || part.last() == ' ') && !is_ascii_chars(part) && (forall|i: int|
            0 <= i < part.len() ==> #[trigger] part[i] != '\\' && part[i] != '/') ==> !convertible(
            front + part,
        ),
{
    if is_ascii_chars(front) {
        assert forall|start: int, end: int| #[trigger] is_part(front, start, end) implies
            part_converts(front, start, end) by {
            let piece = front.subrange(start, end);
            assert forall|i: int| 0 <= i < piece.len() implies '\0' <= #[trigger] piece[i]
                <= '\u{7f}' by {
                assert(piece[i] == front[start + i]);
            }
        }
    }
    let path = front + part;
    let start = front.len() as int;
    let end = path.len() as int;
    if (front.len() == 0 || front.last() == '\\') && part.len() > 0 && (part.last() == '.'
        || part.last() == ' ') && !is_ascii_chars(part) && (forall|i: int|
        0 <= i < part.len() ==> #[trigger] part[i] != '\\' && part[i] != '/') {
        assert forall|i: int| start <= i < end implies !separates(
            verbatim(path),
            #[trigger] path[i],
        ) by {
            assert(path[i] == part[i - start]);
        }
        if start > 0 {
            assert(path[start - 1] == front.last());
        }
        assert(is_part(path, start, end));
        assert(path.subrange(start, end) =~= part);
        assert(path[end - 1] == part.last());
        assert(!part_converts(path, start, end));
    }
}

/// The models leave out nothing and mix up nothing.
pub proof fn law_shown_is_read(shown: Shown, result: Result<String, String>)
    ensures
        shown matches Shown::Relative { base, url } ==> shown@ == (ShownModel::Relative {
            base: base@,
            url: url@,
        }),
        shown matches Shown::Path(path) ==> shown@ == ShownModel::Path(path@),
        result matches Ok(text) ==> texts_of(result) == Ok::<Text, Text>(text@),
        result matches Err(text) ==> texts_of(result) == Err::<Text, Text>(text@),
{
}

} // verus!
