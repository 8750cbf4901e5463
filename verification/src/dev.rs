//! Where the throwaway artifacts of a dev session go.
//!
//! They are kept out of the project, in a directory that is keyed by the path
//! of the project, so that one project always gets the same one.

use sha2::Digest;
use vstd::prelude::*;
use vstd::string::*;
use vstd::utf8::encode_utf8;

use crate::path_rules::PathRules;
use crate::paths::{joined_by, path_join, plain_join, plain_name, portable};
use crate::text::Text;

verus! {

/// The SHA-256 digest of some bytes.
pub uninterp spec fn sha256(data: Seq<u8>) -> Seq<u8>;

/// `sha2::Sha256::digest`: the SHA-256 digest of the data. It depends on the
/// data alone, is named here and not written out, and is 32 bytes long.
#[verifier::external_body]
fn sha256_digest(data: &[u8]) -> (digest: Vec<u8>)
    ensures
        digest@ == sha256(data@),
        digest@.len() == 32,
{
    sha2::Sha256::digest(data).to_vec()
}

/// The hexadecimal digit of a number below 16, in lower case.
pub open spec fn hex_digit(value: int) -> char {
    if value < 10 {
        ('0' as u32 + value) as char
    } else {
        ('a' as u32 + value - 10) as char
    }
}

/// Bytes in hexadecimal, two digits each, the high one first.
pub open spec fn hex_text(data: Seq<u8>) -> Text {
    Seq::new(
        2 * data.len(),
        |i: int|
            if i % 2 == 0 {
                hex_digit(data[i / 2] as int / 16)
            } else {
                hex_digit(data[i / 2] as int % 16)
            },
    )
}

/// `faster_hex::hex_string`: the bytes in lower-case hexadecimal. It panics
/// where twice the length of the data cannot be allocated.
#[verifier::external_body]
fn hex_string(data: &[u8]) -> (text: String)
    requires
        2 * data@.len() <= isize::MAX,
    ensures
        text@ == hex_text(data@),
{
    faster_hex::hex_string(data)
}

/// How many characters of the digest make the key of a project.
pub const KEY_LENGTH: usize = 16;

/// The key that a digest makes: its first digits in hexadecimal.
pub open spec fn digest_key(digest: Seq<u8>) -> Text {
    hex_text(digest).take(KEY_LENGTH as int)
}

/// The key that a digest makes.
pub fn key_of_digest(digest: &Vec<u8>) -> (key: String)
    requires
        8 <= digest@.len(),
        2 * digest@.len() <= isize::MAX,
    ensures
        key@ == digest_key(digest@),
{
    let text = hex_string(digest.as_slice());
    text.as_str().substring_char(0, KEY_LENGTH).to_owned()
}

/// The key of a project directory.
pub open spec fn project_key(directory: Text) -> Text {
    digest_key(sha256(encode_utf8(directory)))
}

/// The directory for the dev artifacts of a project, by its components below
/// the cache directory.
pub open spec fn dev_dir_of(directory: Text) -> Seq<Text> {
    seq!["desktop"@, project_key(directory)]
}

/// The key of a project directory.
pub fn key_of_project(directory: &str) -> (key: String)
    ensures
        key@ == project_key(directory@),
        key@.len() == KEY_LENGTH,
{
    let digest = sha256_digest(directory.as_bytes());
    key_of_digest(&digest)
}

/// The directory for the dev artifacts of a project, by its components below
/// the cache directory.
pub fn dev_dir(directory: &str) -> (components: Vec<String>)
    ensures
        components.deep_view() == dev_dir_of(directory@),
{
    let mut components: Vec<String> = Vec::new();
    components.push("desktop".to_owned());
    components.push(key_of_project(directory));
    assert(components.deep_view() =~= dev_dir_of(directory@));
    components
}

/// The name of the dev artifact of a project: the project's name, or `app`.
pub open spec fn artifact_name(name: Option<Text>) -> Text {
    match name {
        Some(name) => name,
        None => "app"@,
    }
}

/// `path` is the dev artifact with the given name in the given directory. In a
/// portable directory, a plain name follows the directory after one separator.
pub open spec fn is_artifact(windows: bool, dir: Text, name: Option<Text>, path: Text) -> bool {
    let file = artifact_name(name);
    &&& path == joined_by(windows, dir, file)
    &&& portable(dir) && dir.len() > 0 && plain_name(file) ==> path == plain_join(
        windows,
        dir,
        file,
    )
}

/// The path of the dev artifact with the given name in the given directory.
pub fn artifact_path(rules: PathRules, dir: &str, name: Option<String>) -> (path: String)
    ensures
        is_artifact(rules.windows(), dir@, name.deep_view(), path@),
{
    match name {
        Some(name) => path_join(rules, dir, name.as_str()),
        None => path_join(rules, dir, "app"),
    }
}

/// The key of a project is made of lower-case hexadecimal digits.
pub proof fn law_digest_key_is_hex(digest: Seq<u8>)
    requires
        8 <= digest.len(),
    ensures
        digest_key(digest).len() == KEY_LENGTH,
        forall|i: int|
            0 <= i < KEY_LENGTH ==> ('0' <= #[trigger] digest_key(digest)[i] <= '9' || 'a'
                <= digest_key(digest)[i] <= 'f'),
{
}

/// The dev artifacts of a project go to a directory below `desktop` that is
/// named by the first sixteen hexadecimal digits of the SHA-256 digest of the
/// project's path in UTF-8.
pub proof fn law_dev_dir_is_keyed(directory: Text)
    ensures
        dev_dir_of(directory).len() == 2,
        dev_dir_of(directory)[0] == "desktop"@,
        dev_dir_of(directory)[1] == hex_text(sha256(encode_utf8(directory))).take(16),
{
}

/// A dev artifact without a name is called `app`; one with a name, by it.
pub proof fn law_artifacts_are_named(windows: bool, dir: Text, name: Option<Text>, path: Text)
    requires
        is_artifact(windows, dir, name, path),
    ensures
        name is Some ==> path == joined_by(windows, dir, name->0),
        name is None ==> path == joined_by(windows, dir, "app"@),
{
}

/// The key of a digest is its first sixteen hexadecimal digits, and the key of
/// a project is that of the SHA-256 digest of its path in UTF-8.
pub proof fn law_keys_begin_the_digest(digest: Seq<u8>, directory: Text)
    ensures
        digest_key(digest) == hex_text(digest).take(16),
        project_key(directory) == hex_text(sha256(encode_utf8(directory))).take(16),
{
}

} // verus!
