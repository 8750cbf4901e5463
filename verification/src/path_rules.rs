//! The rules by which paths are read.

use vstd::prelude::*;

verus! {

/// The rules of the platform that the program runs on. There is no other way
/// to come by a value than `PathRules::native`, so that two values in one
/// program are always the same, and whatever goes by the rules of the platform
/// goes by those that it is handed.
#[derive(Clone, Copy, Debug, PartialEq, Eq)]
pub struct PathRules {
    separator: char,
}

/// `std::path::MAIN_SEPARATOR`: the separator that the platform writes between
/// the components of a path, `\` on Windows and `/` elsewhere.
#[verifier::external_body]
fn main_separator() -> (separator: char)
    ensures
        separator == '/' || separator == '\\',
{
    std::path::MAIN_SEPARATOR
}

/// The separator that the rules of Windows, or the others, write.
pub open spec fn separator_of(windows: bool) -> char {
    if windows {
        '\\'
    } else {
        '/'
    }
}

impl PathRules {
    /// The separator that the platform writes.
    pub closed spec fn separator(self) -> char {
        self.separator
    }

    /// The rules are those of Windows.
    pub open spec fn windows(self) -> bool {
        self.separator() == '\\'
    }

    /// The rules of the platform.
    pub fn native() -> (rules: PathRules)
        ensures
            rules.separator() == separator_of(rules.windows()),
    {
        PathRules { separator: main_separator() }
    }

    /// Whether the rules are those of Windows.
    pub fn is_windows(self) -> (yes: bool)
        ensures
            yes == self.windows(),
    {
        self.separator == '\\'
    }
}

/// The rules of Windows are those that write a backslash.
pub proof fn law_windows_writes_backslashes(rules: PathRules)
    ensures
        rules.windows() <==> rules.separator() == '\\',
        separator_of(true) == '\\',
        separator_of(false) == '/',
{
}

} // verus!
