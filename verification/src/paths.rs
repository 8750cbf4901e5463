//! The path operations behind the names of outputs.
//!
//! A path is parsed by the rules of the platform the program runs on. The
//! names below take those rules as their first argument: `true` for those of
//! Windows, `false` for those of Unix.

use std::path::Path;

use vstd::prelude::*;
use vstd::string::*;

use crate::path_rules::{separator_of, PathRules};
use crate::text::Text;

verus! {

/// The stem of the file name of a path.
pub uninterp spec fn stem_by(windows: bool, path: Text) -> Option<Text>;

/// The file name of a path.
pub uninterp spec fn name_by(windows: bool, path: Text) -> Option<Text>;

/// A path without its last component.
pub uninterp spec fn parent_by(windows: bool, path: Text) -> Option<Text>;

/// A path with another one appended to it.
pub uninterp spec fn joined_by(windows: bool, base: Text, path: Text) -> Text;

/// A path that every platform parses alike: `/` is the only separator in it,
/// and nothing in it can be read as a drive or a network share.
pub open spec fn portable(path: Text) -> bool {
    &&& forall|i: int| 0 <= i < path.len() ==> #[trigger] path[i] != '\\' && path[i] != ':'
    &&& !(path.len() >= 2 && path[0] == '/' && path[1] == '/')
}

/// The index at which the text after the last `/` begins.
pub open spec fn name_start(path: Text) -> int
    decreases path.len(),
{
    if path.len() == 0 || path.last() == '/' {
        path.len() as int
    } else {
        name_start(path.drop_last())
    }
}

/// The text after the last `/`.
pub open spec fn last_part(path: Text) -> Text {
    path.skip(name_start(path))
}

/// The text before the last `/`, or none where there is no `/`.
pub open spec fn front_part(path: Text) -> Option<Text> {
    if name_start(path) == 0 {
        None
    } else {
        Some(path.take(name_start(path) - 1))
    }
}

/// A portable path whose last component is the name of a file.
pub open spec fn names_file(path: Text) -> bool {
    &&& portable(path)
    &&& last_part(path).len() > 0
    &&& last_part(path) != seq!['.']
    &&& last_part(path) != seq!['.', '.']
}

/// The index of the last `.` of a text, or -1.
pub open spec fn last_dot(name: Text) -> int
    decreases name.len(),
{
    if name.len() == 0 {
        -1
    } else if name.last() == '.' {
        name.len() - 1
    } else {
        last_dot(name.drop_last())
    }
}

/// A file name without its extension: what stands before the last `.`, or the
/// whole name where the only `.` is the first character or there is none.
pub open spec fn stem_of_name(name: Text) -> Text {
    if last_dot(name) <= 0 {
        name
    } else {
        name.take(last_dot(name))
    }
}

/// A text before the last `/` that stands as a path by itself: it ends
/// neither in another `/` nor in a `.` component that would be dropped.
pub open spec fn plain_front(front: Text) -> bool {
    &&& front.len() > 0
    &&& front.last() != '/'
    &&& !(front.len() >= 2 && front.last() == '.' && front[front.len() - 2] == '/')
}

/// A name that is one component of a portable path.
pub open spec fn plain_name(name: Text) -> bool {
    name.len() > 0 && portable(name) && forall|i: int|
        0 <= i < name.len() ==> #[trigger] name[i] != '/'
}

/// A plain name appended to a portable path that is not empty.
pub open spec fn plain_join(windows: bool, base: Text, name: Text) -> Text {
    if base.last() == '/' {
        base + name
    } else {
        base + seq![separator_of(windows)] + name
    }
}

/// `std::path::Path::file_stem`: the file name up to its last `.`, the whole
/// file name where it holds no `.` but a leading one, none where the path
/// names no file. It depends on the path and on the rules of the platform,
/// which are those that are handed in; of a portable path that names a file it
/// is written out.
#[verifier::external_body]
fn path_file_stem(rules: PathRules, path: &str) -> (stem: Option<String>)
    ensures
        stem.deep_view() == stem_by(rules.windows(), path@),
        names_file(path@) ==> stem.deep_view() == Some(stem_of_name(last_part(path@))),
{
    Path::new(path).file_stem().map(|stem| stem.to_string_lossy().into_owned())
}

/// `std::path::Path::file_name`: the last component of the path, none where
/// it is no plain name. It depends on the path and on the rules of the
/// platform, which are those that are handed in; of a portable path that names
/// a file it is what follows the last `/`.
#[verifier::external_body]
pub(crate) fn path_file_name(rules: PathRules, path: &str) -> (name: Option<String>)
    ensures
        name.deep_view() == name_by(rules.windows(), path@),
        names_file(path@) ==> name.deep_view() == Some(last_part(path@)),
{
    Path::new(path).file_name().map(|name| name.to_string_lossy().into_owned())
}

/// `std::path::Path::parent`: the path without its last component. It depends
/// on the path and on the rules of the platform, which are those that are
/// handed in. Of a portable path that names a file it is empty where there is
/// no `/`, the root where the only `/` is the first character, and otherwise
/// what stands before the last `/`, where that is a path by itself.
#[verifier::external_body]
fn path_parent(rules: PathRules, path: &str) -> (parent: Option<String>)
    ensures
        parent.deep_view() == parent_by(rules.windows(), path@),
        names_file(path@) ==> match front_part(path@) {
            None => parent.deep_view() == Some(Text::empty()),
            Some(front) => {
                &&& front.len() == 0 ==> parent.deep_view() == Some(seq!['/'])
                &&& plain_front(front) ==> parent.deep_view() == Some(front)
            },
        },
{
    Path::new(path).parent().map(|parent| parent.to_string_lossy().into_owned())
}

/// `std::path::Path::join`: `path` appended to `base`. It depends on the two
/// paths and on the rules of the platform, which are those that are handed in.
/// A plain name appended to a portable path follows it directly where that path
/// ends in `/`, and after one separator, the platform's own, where it does not.
#[verifier::external_body]
pub(crate) fn path_join(rules: PathRules, base: &str, path: &str) -> (joined: String)
    ensures
        joined@ == joined_by(rules.windows(), base@, path@),
        portable(base@) && base@.len() > 0 && plain_name(path@) ==> joined@ == plain_join(
            rules.windows(),
            base@,
            path@,
        ),
{
    Path::new(base).join(path).to_string_lossy().into_owned()
}

/// `name` is the file name of `path`; of a portable path that names a file, it
/// is what follows the last `/`.
pub open spec fn is_file_name(windows: bool, path: Text, name: Option<Text>) -> bool {
    &&& name == name_by(windows, path)
    &&& names_file(path) ==> name == Some(last_part(path))
}

/// A stem put back where its file stood: into the parent directory, where
/// there is one to speak of.
pub open spec fn placed_by(windows: bool, parent: Option<Text>, stem: Text) -> Text {
    match parent {
        Some(parent) => if parent.len() == 0 {
            stem
        } else {
            joined_by(windows, parent, stem)
        },
        None => stem,
    }
}

/// The stem of a path, or `App` where it has none.
pub open spec fn stem_or_default(stem: Option<Text>) -> Text {
    match stem {
        Some(stem) => stem,
        None => "App"@,
    }
}

/// A path without the extension of its file name: the stem, in the parent
/// directory.
pub open spec fn stripped_by(windows: bool, output: Text) -> Text {
    placed_by(windows, parent_by(windows, output), stem_or_default(stem_by(windows, output)))
}

/// `bare` is `output` without the extension of its file name. Of a plain path,
/// the extension is cut off.
pub open spec fn strips_to(windows: bool, output: Text, bare: Text) -> bool {
    &&& bare == stripped_by(windows, output)
    &&& plain_file(output) ==> bare == plain_bare(windows, output)
}

/// A portable path of a file whose directory part is plain, absent or the root.
pub open spec fn plain_file(path: Text) -> bool {
    &&& names_file(path)
    &&& match front_part(path) {
        None => true,
        Some(front) => front.len() == 0 || plain_front(front),
    }
}

/// A plain path with the extension of its file name cut off. The separator
/// before the file name becomes the platform's own.
pub open spec fn plain_bare(windows: bool, output: Text) -> Text {
    let stem = stem_of_name(last_part(output));
    match front_part(output) {
        None => stem,
        Some(front) => if front.len() == 0 {
            seq!['/'] + stem
        } else {
            front + seq![separator_of(windows)] + stem
        },
    }
}

/// What follows the last `/` holds no `/`.
pub proof fn lemma_name_start(path: Text)
    ensures
        0 <= name_start(path) <= path.len(),
        forall|i: int| name_start(path) <= i < path.len() ==> path[i] != '/',
        name_start(path) > 0 ==> path[name_start(path) - 1] == '/',
    decreases path.len(),
{
    if path.len() > 0 && path.last() != '/' {
        lemma_name_start(path.drop_last());
        assert forall|i: int| name_start(path) <= i < path.len() implies path[i] != '/' by {
            if i < path.len() - 1 {
                assert(path[i] == path.drop_last()[i]);
            }
        }
    }
}

/// The last `.` of a name stands in it.
proof fn lemma_last_dot(name: Text)
    ensures
        -1 <= last_dot(name) < name.len(),
    decreases name.len(),
{
    if name.len() > 0 && name.last() != '.' {
        lemma_last_dot(name.drop_last());
    }
}

/// The stem of a file that a portable path names is itself a plain name, and
/// what stands before it is portable.
pub proof fn lemma_parts_are_plain(path: Text)
    requires
        names_file(path),
    ensures
        plain_name(stem_of_name(last_part(path))),
        front_part(path) is Some ==> portable(front_part(path)->0),
{
    lemma_name_start(path);
    let name = last_part(path);
    lemma_last_dot(name);
    let stem = stem_of_name(name);
    assert forall|i: int| 0 <= i < stem.len() implies #[trigger] stem[i] == path[name_start(path)
        + i] by {}
    assert forall|i: int| 0 <= i < stem.len() implies #[trigger] stem[i] != '\\' && stem[i] != ':'
        && stem[i] != '/' by {
        assert(stem[i] == path[name_start(path) + i]);
    }
    if front_part(path) is Some {
        let front = front_part(path)->0;
        assert forall|i: int| 0 <= i < front.len() implies #[trigger] front[i] != '\\' && front[i]
            != ':' by {
            assert(front[i] == path[i]);
        }
        if front.len() >= 2 {
            assert(front[0] == path[0] && front[1] == path[1]);
        }
    }
}

/// Puts a stem into a parent directory. An empty parent adds nothing.
pub fn place_stem(rules: PathRules, parent: Option<String>, stem: String) -> (placed: String)
    ensures
        placed@ == placed_by(rules.windows(), parent.deep_view(), stem@),
        parent is Some && parent->0@.len() > 0 && portable(parent->0@) && plain_name(stem@)
            ==> placed@ == plain_join(rules.windows(), parent->0@, stem@),
{
    match parent {
        Some(parent) => {
            if parent.as_str().is_empty() {
                stem
            } else {
                path_join(rules, parent.as_str(), stem.as_str())
            }
        },
        None => stem,
    }
}

/// An output path without the extension of its file name.
pub fn without_extension(rules: PathRules, output: &str) -> (bare: String)
    ensures
        strips_to(rules.windows(), output@, bare@),
{
    let parent = path_parent(rules, output);
    let stem = match path_file_stem(rules, output) {
        Some(stem) => stem,
        None => "App".to_owned(),
    };
    proof {
        if plain_file(output@) {
            lemma_parts_are_plain(output@);
        }
    }
    place_stem(rules, parent, stem)
}

/// The name of a project: the stem of its output path, or else the name of its
/// directory, unless that is empty.
pub open spec fn project_name_by(
    windows: bool,
    output: Option<Text>,
    directory: Option<Text>,
) -> Option<Text> {
    let name = match output {
        Some(output) => match stem_by(windows, output) {
            Some(stem) => Some(stem),
            None => directory,
        },
        None => directory,
    };
    if name is Some && name->0.len() == 0 {
        None
    } else {
        name
    }
}

/// `name` is the name of a project. Of a portable output path that names a
/// file, it is the stem of that file.
pub open spec fn is_project_name(
    windows: bool,
    output: Option<Text>,
    directory: Option<Text>,
    name: Option<Text>,
) -> bool {
    &&& name == project_name_by(windows, output, directory)
    &&& output is Some && names_file(output->0) ==> name == Some(
        stem_of_name(last_part(output->0)),
    )
}

/// The first of the two names that is there, unless it is empty.
pub fn pick_name(stem: Option<String>, directory: Option<String>) -> (name: Option<String>)
    ensures
        name == (match (stem, directory) {
            (Some(stem), _) => if stem@.len() > 0 {
                Some(stem)
            } else {
                None
            },
            (None, Some(directory)) => if directory@.len() > 0 {
                Some(directory)
            } else {
                None
            },
            (None, None) => None,
        }),
{
    let name = match stem {
        Some(stem) => Some(stem),
        None => directory,
    };
    match name {
        Some(name) => if name.as_str().is_empty() {
            None
        } else {
            Some(name)
        },
        None => None,
    }
}

/// The name of a project, from its output path and the name of its directory.
pub fn project_name(
    rules: PathRules,
    output: Option<&str>,
    directory: Option<String>,
) -> (name: Option<String>)
    ensures
        is_project_name(
            rules.windows(),
            output.deep_view(),
            directory.deep_view(),
            name.deep_view(),
        ),
{
    let stem = match output {
        Some(output) => {
            proof {
                if names_file(output@) {
                    lemma_parts_are_plain(output@);
                }
            }
            path_file_stem(rules, output)
        },
        None => None,
    };
    pick_name(stem, directory)
}

/// A path is stripped to its stem in its parent directory: to the stem alone
/// where there is no parent or an empty one, and with `App` for a stem where it
/// has none.
pub proof fn law_stem_in_its_parent(windows: bool, output: Text)
    ensures
        ({
            let stem = stem_by(windows, output);
            let parent = parent_by(windows, output);
            let alone = parent is None || parent->0.len() == 0;
            let bare = stripped_by(windows, output);
            &&& stem is Some && alone ==> Some(bare) == stem
            &&& stem is None && alone ==> bare == "App"@
            &&& stem is Some && !alone ==> bare == joined_by(windows, parent->0, stem->0)
            &&& stem is None && !alone ==> bare == joined_by(windows, parent->0, "App"@)
        }),
{
}

/// A project is named by the stem of its output, where that has one; otherwise
/// by its directory. An empty name is none.
pub proof fn law_projects_are_named(
    windows: bool,
    output: Option<Text>,
    directory: Option<Text>,
    name: Option<Text>,
)
    requires
        is_project_name(windows, output, directory, name),
    ensures
        ({
            let stem = stem_by(windows, output->0);
            let stemmed = output is Some && stem is Some;
            &&& name is Some ==> name->0.len() > 0
            &&& stemmed && stem->0.len() > 0 ==> name == stem
            &&& stemmed && stem->0.len() == 0 ==> name is None
            &&& !stemmed && directory is Some && directory->0.len() > 0 ==> name == directory
            &&& !stemmed && (directory is None || directory->0.len() == 0) ==> name is None
        }),
{
}

/// A directory is named by the last component of its path.
pub proof fn law_directories_are_named(windows: bool, path: Text, name: Option<Text>)
    requires
        is_file_name(windows, path, name),
    ensures
        name == name_by(windows, path),
{
}

/// A stem is placed in its parent directory, and stands alone where that is
/// missing or empty.
pub proof fn law_stems_are_placed(windows: bool, parent: Text, stem: Text)
    ensures
        placed_by(windows, None, stem) == stem,
        parent.len() == 0 ==> placed_by(windows, Some(parent), stem) == stem,
        parent.len() > 0 ==> placed_by(windows, Some(parent), stem) == joined_by(
            windows,
            parent,
            stem,
        ),
{
}

} // verus!
