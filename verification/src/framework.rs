//! What a detected web framework changes about a build.

use vstd::prelude::*;
use vstd::string::*;

use crate::text::{begins_with, law_parts_are_found, same_text, text_begins_with, Text};

verus! {

/// How the names of generated entrypoints begin.
pub const ENTRY_PREFIX: &'static str = ".deno_desktop_entry-";

/// How the names of generated entrypoints end.
pub const ENTRY_SUFFIX: &'static str = ".ts";

/// A framework found in a project.
#[derive(Debug, PartialEq, Eq)]
pub struct FrameworkDetection {
    pub name: String,
    pub entrypoint_code: String,
    /// Whether the framework has a dev server of its own.
    pub has_hmr_command: bool,
    pub include_paths: Vec<String>,
}

/// What a `FrameworkDetection` holds.
#[verifier::ext_equal]
pub struct FrameworkModel {
    pub name: Text,
    pub entrypoint_code: Text,
    pub has_hmr_command: bool,
    pub include_paths: Seq<Text>,
}

impl DeepView for FrameworkDetection {
    type V = FrameworkModel;

    open spec fn deep_view(&self) -> FrameworkModel {
        FrameworkModel {
            name: self.name@,
            entrypoint_code: self.entrypoint_code@,
            has_hmr_command: self.has_hmr_command,
            include_paths: self.include_paths.deep_view(),
        }
    }
}

/// Whether a file name is that of a generated entrypoint.
pub fn is_generated_entrypoint(file_name: &str) -> (yes: bool)
    ensures
        yes == begins_with(file_name@, ENTRY_PREFIX@),
{
    text_begins_with(file_name, ENTRY_PREFIX)
}

/// The framework that compiles the app itself, so that it is not type-checked
/// here.
pub open spec fn compiles_itself(name: Text) -> bool {
    name == "Next.js"@
}

/// Whether a framework compiles the app itself.
pub fn framework_compiles_itself(name: &str) -> (yes: bool)
    ensures
        yes == compiles_itself(name@),
{
    same_text(name, "Next.js")
}

/// A list of paths with further ones appended, each only where the list does
/// not hold it yet.
pub open spec fn with_paths(paths: Seq<Text>, further: Seq<Text>) -> Seq<Text>
    decreases further.len(),
{
    if further.len() == 0 {
        paths
    } else {
        let most = with_paths(paths, further.drop_last());
        if most.contains(further.last()) {
            most
        } else {
            most.push(further.last())
        }
    }
}

/// Whether a list holds a text.
pub fn holds_text(texts: &Vec<String>, text: &String) -> (yes: bool)
    ensures
        yes == texts.deep_view().contains(text@),
{
    let mut i: usize = 0;
    while i < texts.len()
        invariant
            i <= texts@.len(),
            forall|j: int| 0 <= j < i ==> texts@[j]@ != text@,
        decreases texts@.len() - i,
    {
        if texts[i] == *text {
            assert(texts.deep_view()[i as int] == text@);
            return true;
        }
        i += 1;
    }
    false
}

/// Appends paths to a list, each only where the list does not hold it yet.
pub fn add_paths(paths: &mut Vec<String>, further: &Vec<String>)
    ensures
        final(paths).deep_view() == with_paths(old(paths).deep_view(), further.deep_view()),
{
    let ghost before = paths.deep_view();
    let mut i: usize = 0;
    assert(further.deep_view().take(0) =~= Seq::empty());
    while i < further.len()
        invariant
            i <= further@.len(),
            paths.deep_view() == with_paths(before, further.deep_view().take(i as int)),
        decreases further@.len() - i,
    {
        proof {
            let next = further.deep_view().take(i + 1);
            assert(next.drop_last() =~= further.deep_view().take(i as int));
            assert(next.last() == further@[i as int]@);
        }
        if !holds_text(paths, &further[i]) {
            let ghost most = paths.deep_view();
            let path = further[i].clone();
            paths.push(path);
            assert(paths.deep_view() =~= most.push(further@[i as int]@));
        }
        i += 1;
    }
    assert(further.deep_view().take(further@.len() as int) =~= further.deep_view());
}

/// Appending keeps what the list held, in its place, and brings in every
/// further path; nothing else comes in, and what comes in is in the list only
/// once.
pub proof fn law_paths_are_added(paths: Seq<Text>, further: Seq<Text>)
    ensures
        ({
            let all = with_paths(paths, further);
            &&& paths.is_prefix_of(all)
            &&& forall|i: int| 0 <= i < further.len() ==> all.contains(#[trigger] further[i])
            &&& forall|i: int|
                paths.len() <= i < all.len() ==> further.contains(#[trigger] all[i])
            &&& forall|i: int, j: int|
                paths.len() <= i < all.len() && 0 <= j < all.len() && i != j ==> #[trigger] all[i]
                    != #[trigger] all[j]
        }),
    decreases further.len(),
{
    if further.len() > 0 {
        let front = further.drop_last();
        law_paths_are_added(paths, front);
        let most = with_paths(paths, front);
        let all = with_paths(paths, further);
        assert forall|i: int| 0 <= i < further.len() implies all.contains(#[trigger] further[i]) by {
            if i < front.len() {
                assert(most.contains(front[i]));
                let j = choose|j: int| 0 <= j < most.len() && most[j] == front[i];
                assert(all[j] == further[i]);
            } else if !most.contains(further.last()) {
                assert(all[all.len() - 1] == further[i]);
            }
        }
        assert forall|i: int| paths.len() <= i < all.len() implies further.contains(
            #[trigger] all[i],
        ) by {
            if i < most.len() {
                assert(front.contains(most[i]));
                let j = choose|j: int| 0 <= j < front.len() && front[j] == most[i];
                assert(further[j] == all[i]);
            } else {
                assert(further[further.len() - 1] == all[i]);
            }
        }
    }
}

/// Appending goes by one path after the other: a path that the list holds adds
/// nothing, any other goes to its end, and appending two lists is appending
/// the second to what came of the first.
pub proof fn law_paths_are_added_in_turn(
    paths: Seq<Text>,
    path: Text,
    first: Seq<Text>,
    second: Seq<Text>,
)
    ensures
        with_paths(paths, Seq::empty()) == paths,
        paths.contains(path) ==> with_paths(paths, seq![path]) == paths,
        !paths.contains(path) ==> with_paths(paths, seq![path]) == paths.push(path),
        with_paths(paths, first + second) == with_paths(with_paths(paths, first), second),
    decreases second.len(),
{
    assert(seq![path].drop_last() =~= Seq::empty());
    assert(with_paths(paths, seq![path].drop_last()) == paths);
    if second.len() == 0 {
        assert(first + second =~= first);
    } else {
        law_paths_are_added_in_turn(paths, path, first, second.drop_last());
        assert((first + second).drop_last() =~= first + second.drop_last());
        assert((first + second).last() == second.last());
    }
}

/// The model of a framework leaves out nothing and mixes up nothing.
pub proof fn law_frameworks_are_read(framework: FrameworkDetection)
    ensures
        framework.deep_view().name == framework.name@,
        framework.deep_view().entrypoint_code == framework.entrypoint_code@,
        framework.deep_view().has_hmr_command <==> framework.has_hmr_command,
        framework.deep_view().include_paths == framework.include_paths.deep_view(),
{
}

/// Just the framework of this name compiles the app itself.
pub proof fn law_next_compiles_itself(name: Text)
    ensures
        compiles_itself(name) <==> name == "Next.js"@,
{
}

/// Every name that begins so is that of a generated entrypoint.
pub proof fn law_entrypoints_begin_alike(rest: Text)
    ensures
        begins_with(".deno_desktop_entry-"@ + rest, ENTRY_PREFIX@),
        ENTRY_SUFFIX@ == ".ts"@,
{
    law_parts_are_found(Text::empty(), ".deno_desktop_entry-"@, rest);
}

} // verus!
