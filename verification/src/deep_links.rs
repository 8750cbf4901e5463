//! Deep links: the URL schemes that an app registers with the system.

use vstd::prelude::*;
use vstd::string::*;

use crate::error::{DesktopError, ErrorModel, SchemeFault};
use crate::flags::{DesktopFlags, FlagsModel};
use crate::platform::{os_of, target_os, HostOs, TargetOs};
use crate::text::{
    ascii_lowered, characters, same_text, trimmed, trimmed_back, trimmed_front, white_space, Text,
};

verus! {

/// An ASCII letter.
pub open spec fn letter(c: char) -> bool {
    'a' <= c <= 'z' || 'A' <= c <= 'Z'
}

/// An ASCII digit.
pub open spec fn digit(c: char) -> bool {
    '0' <= c <= '9'
}

/// A character that may stand in a URL scheme.
pub open spec fn scheme_character(c: char) -> bool {
    letter(c) || digit(c) || c == '+' || c == '-' || c == '.'
}

/// The grammar of URL schemes: a letter, then letters, digits, `+`, `-`, `.`.
pub open spec fn scheme_grammar(scheme: Text) -> bool {
    &&& scheme.len() > 0
    &&& letter(scheme[0])
    &&& forall|i: int| 0 <= i < scheme.len() ==> #[trigger] scheme_character(scheme[i])
}

/// The schemes that no app may take over.
pub open spec fn reserved_scheme(scheme: Text) -> bool {
    ||| scheme == "http"@
    ||| scheme == "https"@
    ||| scheme == "file"@
    ||| scheme == "ftp"@
    ||| scheme == "ws"@
    ||| scheme == "wss"@
}

/// A scheme that can be registered.
pub open spec fn valid_scheme(scheme: Text) -> bool {
    scheme_grammar(scheme) && !reserved_scheme(scheme)
}

/// What is wrong with a scheme, or none for a valid one. Of several faults the
/// first in the order of `SchemeFault` is the one.
pub open spec fn fault_of(scheme: Text) -> Option<SchemeFault> {
    if scheme.len() == 0 {
        Some(SchemeFault::Empty)
    } else if !letter(scheme[0]) {
        Some(SchemeFault::BadStart)
    } else if !scheme_grammar(scheme) {
        Some(SchemeFault::BadCharacter)
    } else if reserved_scheme(scheme) {
        Some(SchemeFault::Reserved)
    } else {
        None
    }
}

/// Whether a character is an ASCII letter.
fn is_letter(c: char) -> (yes: bool)
    ensures
        yes == letter(c),
{
    ('a' <= c && c <= 'z') || ('A' <= c && c <= 'Z')
}

/// Whether a character may stand in a URL scheme.
fn is_scheme_character(c: char) -> (yes: bool)
    ensures
        yes == scheme_character(c),
{
    is_letter(c) || ('0' <= c && c <= '9') || c == '+' || c == '-' || c == '.'
}

/// Whether a scheme is one that no app may take over.
fn is_reserved_scheme(scheme: &str) -> (yes: bool)
    ensures
        yes == reserved_scheme(scheme@),
{
    same_text(scheme, "http") || same_text(scheme, "https") || same_text(scheme, "file")
        || same_text(scheme, "ftp") || same_text(scheme, "ws") || same_text(scheme, "wss")
}

/// What is wrong with a scheme.
pub fn scheme_fault(scheme: &str) -> (fault: Option<SchemeFault>)
    ensures
        fault == fault_of(scheme@),
{
    let chars: Vec<char> = characters(scheme);
    if chars.len() == 0 {
        return Some(SchemeFault::Empty);
    }
    if !is_letter(chars[0]) {
        return Some(SchemeFault::BadStart);
    }
    let mut i: usize = 0;
    while i < chars.len()
        invariant
            i <= chars@.len(),
            chars@ == scheme@,
            chars@.len() > 0,
            letter(chars@[0]),
            forall|j: int| 0 <= j < i ==> #[trigger] scheme_character(chars@[j]),
        decreases chars@.len() - i,
    {
        if !is_scheme_character(chars[i]) {
            assert(!scheme_character(scheme@[i as int]));
            return Some(SchemeFault::BadCharacter);
        }
        i += 1;
    }
    if is_reserved_scheme(scheme) {
        return Some(SchemeFault::Reserved);
    }
    None
}

/// Checks that a scheme follows the grammar of URL schemes and is not one of
/// those that belong to browsing.
pub fn validate_url_scheme(scheme: &str) -> (result: Result<(), DesktopError>)
    ensures
        result is Ok <==> valid_scheme(scheme@),
        result matches Err(error) ==> fault_of(scheme@) matches Some(fault) && error@
            == (ErrorModel::InvalidScheme { scheme: scheme@, fault }),
{
    match scheme_fault(scheme) {
        Some(fault) => Err(DesktopError::InvalidScheme { scheme: scheme.to_owned(), fault }),
        None => Ok(()),
    }
}

/// The scheme that a deep link stands for: without the white space around it,
/// in lower case.
pub open spec fn scheme_of(link: Text) -> Text {
    ascii_lowered(trimmed(link))
}

/// The schemes that the deep links stand for, in order, without empty ones.
pub open spec fn schemes_of(links: Seq<Text>) -> Seq<Text> {
    links.map_values(|link: Text| scheme_of(link)).filter(|scheme: Text| scheme.len() > 0)
}

/// The schemes after one more link.
proof fn lemma_schemes_push(links: Seq<Text>, link: Text)
    ensures
        schemes_of(links.push(link)) == if scheme_of(link).len() > 0 {
            schemes_of(links).push(scheme_of(link))
        } else {
            schemes_of(links)
        },
{
    reveal(Seq::filter);
    let all = links.push(link).map_values(|link: Text| scheme_of(link));
    assert(all.drop_last() =~= links.map_values(|link: Text| scheme_of(link)));
    assert(all.last() == scheme_of(link));
}

/// The schemes that the deep links stand for.
pub fn deep_link_schemes(links: &Vec<String>) -> (schemes: Vec<String>)
    ensures
        schemes.deep_view() == schemes_of(links.deep_view()),
{
    let mut schemes: Vec<String> = Vec::new();
    let mut i: usize = 0;
    proof {
        reveal(Seq::filter);
        assert(links.deep_view().take(0) =~= Seq::empty());
        assert(schemes.deep_view() =~= schemes_of(links.deep_view().take(0)));
    }
    while i < links.len()
        invariant
            i <= links@.len(),
            schemes.deep_view() == schemes_of(links.deep_view().take(i as int)),
        decreases links@.len() - i,
    {
        let scheme = links[i].as_str().trim().to_ascii_lowercase();
        let ghost before = schemes.deep_view();
        proof {
            let done = links.deep_view().take(i as int);
            lemma_schemes_push(done, links@[i as int]@);
            assert(links.deep_view().take(i + 1) =~= done.push(links@[i as int]@));
        }
        if !scheme.as_str().is_empty() {
            schemes.push(scheme);
            assert(schemes.deep_view() =~= before.push(scheme@));
        }
        i += 1;
    }
    assert(links.deep_view().take(links@.len() as int) =~= links.deep_view());
    schemes
}

/// The error about the first of the schemes that cannot be registered.
pub open spec fn first_error(schemes: Seq<Text>) -> Option<ErrorModel>
    decreases schemes.len(),
{
    if schemes.len() == 0 {
        None
    } else {
        match fault_of(schemes.first()) {
            Some(fault) => Some(ErrorModel::InvalidScheme { scheme: schemes.first(), fault }),
            None => first_error(schemes.drop_first()),
        }
    }
}

/// Checks all schemes.
pub fn validate_schemes(schemes: &Vec<String>) -> (result: Result<(), DesktopError>)
    ensures
        match result {
            Ok(()) => first_error(schemes.deep_view()) is None,
            Err(error) => first_error(schemes.deep_view()) == Some(error@),
        },
{
    let mut i: usize = 0;
    assert(schemes.deep_view().skip(0) =~= schemes.deep_view());
    while i < schemes.len()
        invariant
            i <= schemes@.len(),
            first_error(schemes.deep_view()) == first_error(schemes.deep_view().skip(i as int)),
        decreases schemes@.len() - i,
    {
        assert(schemes.deep_view().skip(i as int).drop_first() =~= schemes.deep_view().skip(
            i + 1,
        ));
        assert(schemes.deep_view().skip(i as int).first() == schemes@[i as int]@);
        match validate_url_scheme(schemes[i].as_str()) {
            Ok(()) => {},
            Err(error) => {
                return Err(error);
            },
        }
        i += 1;
    }
    Ok(())
}

/// The registration of an app's deep links.
#[derive(Debug, PartialEq, Eq)]
pub struct DeepLinks {
    pub os: TargetOs,
    pub schemes: Vec<String>,
}

/// What a `DeepLinks` holds.
#[verifier::ext_equal]
pub struct DeepLinksModel {
    pub os: TargetOs,
    pub schemes: Seq<Text>,
}

impl DeepView for DeepLinks {
    type V = DeepLinksModel;

    open spec fn deep_view(&self) -> DeepLinksModel {
        DeepLinksModel { os: self.os, schemes: self.schemes.deep_view() }
    }
}

/// What there is to register for the given flags: nothing without schemes, an
/// error where one of them cannot be registered, otherwise all of them in the
/// way of the system that the app is for.
pub open spec fn deep_links_of(
    flags: FlagsModel,
    host: HostOs,
) -> Result<Option<DeepLinksModel>, ErrorModel> {
    let schemes = schemes_of(flags.deep_links);
    if schemes.len() == 0 {
        Ok(None)
    } else {
        match first_error(schemes) {
            Some(error) => Err(error),
            None => Ok(Some(DeepLinksModel { os: os_of(flags.target, host), schemes })),
        }
    }
}

/// Decides what deep links to register with the system, and in which way.
pub fn register_deep_links(
    desktop_flags: &DesktopFlags,
    host: HostOs,
) -> (result: Result<Option<DeepLinks>, DesktopError>)
    ensures
        match result {
            Ok(links) => deep_links_of(desktop_flags@, host) == Ok::<
                Option<DeepLinksModel>,
                ErrorModel,
            >(links.deep_view()),
            Err(error) => deep_links_of(desktop_flags@, host) == Err::<
                Option<DeepLinksModel>,
                ErrorModel,
            >(error@),
        },
{
    let schemes = deep_link_schemes(&desktop_flags.deep_links);
    if schemes.is_empty() {
        return Ok(None);
    }
    match validate_schemes(&schemes) {
        Ok(()) => {},
        Err(error) => {
            return Err(error);
        },
    }
    let os = target_os(&desktop_flags.target, host);
    Ok(Some(DeepLinks { os, schemes }))
}

/// The registered schemes as they are shown: each followed by `://`, separated
/// by commas.
pub open spec fn links_text(schemes: Seq<Text>) -> Text
    decreases schemes.len(),
{
    if schemes.len() == 0 {
        Text::empty()
    } else if schemes.len() == 1 {
        schemes[0] + "://"@
    } else {
        links_text(schemes.drop_last()) + ", "@ + schemes.last() + "://"@
    }
}

/// The registered schemes as they are shown.
pub fn show_links(schemes: &Vec<String>) -> (shown: String)
    ensures
        shown@ == links_text(schemes.deep_view()),
{
    let mut shown = String::new();
    let mut i: usize = 0;
    assert(schemes.deep_view().take(0) =~= Seq::empty());
    while i < schemes.len()
        invariant
            i <= schemes@.len(),
            shown@ == links_text(schemes.deep_view().take(i as int)),
        decreases schemes@.len() - i,
    {
        proof {
            let next = schemes.deep_view().take(i + 1);
            assert(next.drop_last() =~= schemes.deep_view().take(i as int));
            assert(next.last() == schemes@[i as int]@);
            if i == 0 {
                assert(shown@ + schemes@[0]@ =~= schemes@[0]@);
            }
        }
        if i > 0 {
            shown.append(", ");
        }
        shown.append(schemes[i].as_str());
        shown.append("://");
        i += 1;
    }
    assert(schemes.deep_view().take(schemes@.len() as int) =~= schemes.deep_view());
    shown
}

/// Every scheme comes from a link, and every link that is not blank gives one.
proof fn lemma_schemes_and_links(links: Seq<Text>)
    ensures
        forall|i: int|
            0 <= i < schemes_of(links).len() ==> (#[trigger] schemes_of(links)[i]).len() > 0
                && exists|j: int|
                0 <= j < links.len() && scheme_of(#[trigger] links[j]) == schemes_of(links)[i],
        forall|j: int|
            0 <= j < links.len() && scheme_of(#[trigger] links[j]).len() > 0 ==> schemes_of(
                links,
            ).contains(scheme_of(links[j])),
    decreases links.len(),
{
    reveal(Seq::filter);
    if links.len() > 0 {
        let front = links.drop_last();
        lemma_schemes_and_links(front);
        lemma_schemes_push(front, links.last());
        assert(front.push(links.last()) =~= links);
        let schemes = schemes_of(links);
        assert forall|i: int| 0 <= i < schemes.len() implies (#[trigger] schemes[i]).len() > 0
            && exists|j: int|
            0 <= j < links.len() && scheme_of(#[trigger] links[j]) == schemes[i] by {
            if i < schemes_of(front).len() {
                assert(schemes[i] == schemes_of(front)[i]);
                let j = choose|j: int|
                    0 <= j < front.len() && scheme_of(#[trigger] front[j]) == schemes_of(front)[i];
                assert(links[j] == front[j]);
            } else {
                assert(scheme_of(links[links.len() - 1]) == schemes[i]);
            }
        }
        assert forall|j: int|
            0 <= j < links.len() && scheme_of(#[trigger] links[j]).len() > 0 implies schemes.contains(
            scheme_of(links[j]),
        ) by {
            if j < front.len() {
                assert(links[j] == front[j]);
                let i = choose|i: int|
                    0 <= i < schemes_of(front).len() && schemes_of(front)[i] == scheme_of(front[j]);
                assert(schemes[i] == scheme_of(links[j]));
            } else {
                assert(schemes[schemes.len() - 1] == scheme_of(links[j]));
            }
        }
    }
}

/// There is an error just where one of the schemes is not valid.
proof fn lemma_first_error(schemes: Seq<Text>)
    ensures
        first_error(schemes) is None <==> (forall|i: int|
            0 <= i < schemes.len() ==> valid_scheme(#[trigger] schemes[i])),
    decreases schemes.len(),
{
    if schemes.len() > 0 {
        lemma_first_error(schemes.drop_first());
        assert forall|i: int| 0 <= i < schemes.drop_first().len() implies #[trigger] schemes.drop_first()[i]
            == schemes[i + 1] by {}
        if first_error(schemes) is None {
            assert forall|i: int| 0 <= i < schemes.len() implies valid_scheme(
                #[trigger] schemes[i],
            ) by {
                if i > 0 {
                    assert(valid_scheme(schemes.drop_first()[i - 1]));
                }
            }
        } else if valid_scheme(schemes[0]) {
            let i = choose|i: int|
                0 <= i < schemes.drop_first().len() && !valid_scheme(
                    #[trigger] schemes.drop_first()[i],
                );
            assert(!valid_scheme(schemes[i + 1]));
        }
    }
}

/// A deep link is refused just where the scheme it stands for is not empty and
/// not valid; and one such link refuses them all.
pub proof fn law_refused_links(flags: FlagsModel, host: HostOs)
    ensures
        deep_links_of(flags, host) is Err <==> exists|i: int|
            0 <= i < flags.deep_links.len() && scheme_of(#[trigger] flags.deep_links[i]).len() > 0
                && !valid_scheme(scheme_of(flags.deep_links[i])),
{
    let links = flags.deep_links;
    let schemes = schemes_of(links);
    lemma_schemes_and_links(links);
    lemma_first_error(schemes);
    if deep_links_of(flags, host) is Err {
        let i = choose|i: int| 0 <= i < schemes.len() && !valid_scheme(#[trigger] schemes[i]);
        let j = choose|j: int|
            0 <= j < links.len() && scheme_of(#[trigger] links[j]) == schemes[i];
        assert(scheme_of(links[j]).len() > 0);
    }
    if exists|i: int|
        0 <= i < links.len() && scheme_of(#[trigger] links[i]).len() > 0 && !valid_scheme(
            scheme_of(links[i]),
        ) {
        let j = choose|j: int|
            0 <= j < links.len() && scheme_of(#[trigger] links[j]).len() > 0 && !valid_scheme(
                scheme_of(links[j]),
            );
        let i = choose|i: int| 0 <= i < schemes.len() && schemes[i] == scheme_of(links[j]);
        assert(!valid_scheme(schemes[i]));
    }
}

/// A reserved scheme is refused however its letters are written and whatever
/// white space stands around it.
pub proof fn law_reserved_in_any_case(flags: FlagsModel, host: HostOs, i: int)
    requires
        0 <= i < flags.deep_links.len(),
        reserved_scheme(scheme_of(flags.deep_links[i])),
    ensures
        deep_links_of(flags, host) is Err,
{
    reveal_strlit("http");
    reveal_strlit("https");
    reveal_strlit("file");
    reveal_strlit("ftp");
    reveal_strlit("ws");
    reveal_strlit("wss");
    assert(scheme_of(flags.deep_links[i]).len() > 0);
    assert(!valid_scheme(scheme_of(flags.deep_links[i])));
    law_refused_links(flags, host);
}

/// Whatever is registered is valid, in lower case, and comes from a link; and
/// every link that is not blank is registered.
pub proof fn law_registered_links(flags: FlagsModel, host: HostOs)
    ensures
        deep_links_of(flags, host) matches Ok(Some(links)) ==> {
            &&& links.os == os_of(flags.target, host)
            &&& links.schemes.len() > 0
            &&& forall|i: int|
                0 <= i < links.schemes.len() ==> valid_scheme(#[trigger] links.schemes[i])
                    && ascii_lowered(links.schemes[i]) == links.schemes[i] && exists|j: int|
                    0 <= j < flags.deep_links.len() && scheme_of(#[trigger] flags.deep_links[j])
                        == links.schemes[i]
            &&& forall|j: int|
                0 <= j < flags.deep_links.len() && scheme_of(
                    #[trigger] flags.deep_links[j],
                ).len() > 0 ==> links.schemes.contains(scheme_of(flags.deep_links[j]))
        },
{
    let schemes = schemes_of(flags.deep_links);
    lemma_schemes_and_links(flags.deep_links);
    lemma_first_error(schemes);
    assert forall|i: int| 0 <= i < schemes.len() implies ascii_lowered(#[trigger] schemes[i])
        == schemes[i] by {
        let j = choose|j: int|
            0 <= j < flags.deep_links.len() && scheme_of(#[trigger] flags.deep_links[j])
                == schemes[i];
        assert(ascii_lowered(scheme_of(flags.deep_links[j])) =~= scheme_of(flags.deep_links[j]));
    }
}

/// Blank links are as good as none.
pub proof fn law_blank_links_are_none(flags: FlagsModel, host: HostOs)
    requires
        forall|i: int|
            0 <= i < flags.deep_links.len() ==> scheme_of(#[trigger] flags.deep_links[i]).len()
                == 0,
    ensures
        deep_links_of(flags, host) == Ok::<Option<DeepLinksModel>, ErrorModel>(None),
{
    let schemes = schemes_of(flags.deep_links);
    lemma_schemes_and_links(flags.deep_links);
    if schemes.len() > 0 {
        let j = choose|j: int|
            0 <= j < flags.deep_links.len() && scheme_of(#[trigger] flags.deep_links[j])
                == schemes[0];
        assert(scheme_of(flags.deep_links[j]).len() == 0);
    }
}

/// Trimming leaves no white space at either end.
proof fn lemma_trimmed_ends(text: Text)
    ensures
        trimmed(text).len() > 0 ==> !white_space(trimmed(text).first()) && !white_space(
            trimmed(text).last(),
        ),
{
    lemma_trimmed_front(text);
    lemma_trimmed_back(trimmed_front(text));
}

proof fn lemma_trimmed_front(text: Text)
    ensures
        trimmed_front(text).len() > 0 ==> !white_space(trimmed_front(text).first()),
    decreases text.len(),
{
    if text.len() > 0 && white_space(text.first()) {
        lemma_trimmed_front(text.drop_first());
    }
}

proof fn lemma_trimmed_back(text: Text)
    ensures
        trimmed_back(text).len() > 0 ==> !white_space(trimmed_back(text).last())
            && trimmed_back(text).first() == text.first(),
    decreases text.len(),
{
    if text.len() > 0 && white_space(text.last()) {
        lemma_trimmed_back(text.drop_last());
    }
}

/// A scheme stands for itself: normalising it a second time changes nothing.
pub proof fn law_scheme_stands_for_itself(link: Text)
    ensures
        scheme_of(scheme_of(link)) == scheme_of(link),
{
    let inner = trimmed(link);
    let scheme = scheme_of(link);
    lemma_trimmed_ends(link);
    if scheme.len() > 0 {
        assert(!white_space(scheme.first()));
        assert(!white_space(scheme.last()));
    }
    assert(trimmed(scheme) == scheme);
    assert(ascii_lowered(scheme) =~= scheme);
}

/// What a scheme must be, character by character, and which schemes are not to
/// be had. The empty text comes first among the faults, then a first character
/// that is no letter, then any character that may not stand there, and last a
/// reserved scheme.
pub proof fn law_scheme_faults(scheme: Text)
    ensures
        ({
            let starts_well = scheme.len() > 0 && ('a' <= scheme[0] <= 'z' || 'A' <= scheme[0]
                <= 'Z');
            let spelled_well = forall|i: int|
                0 <= i < scheme.len() ==> {
                    ||| 'a' <= #[trigger] scheme[i] <= 'z'
                    ||| 'A' <= scheme[i] <= 'Z'
                    ||| '0' <= scheme[i] <= '9'
                    ||| scheme[i] == '+'
                    ||| scheme[i] == '-'
                    ||| scheme[i] == '.'
                };
            let taken = scheme == "http"@ || scheme == "https"@ || scheme == "file"@ || scheme
                == "ftp"@ || scheme == "ws"@ || scheme == "wss"@;
            &&& fault_of(scheme) == Some(SchemeFault::Empty) <==> scheme.len() == 0
            &&& fault_of(scheme) == Some(SchemeFault::BadStart) <==> scheme.len() > 0
                && !starts_well
            &&& fault_of(scheme) == Some(SchemeFault::BadCharacter) <==> starts_well
                && !spelled_well
            &&& fault_of(scheme) == Some(SchemeFault::Reserved) <==> starts_well && spelled_well
                && taken
            &&& fault_of(scheme) is None <==> starts_well && spelled_well && !taken
            &&& valid_scheme(scheme) <==> starts_well && spelled_well && !taken
        }),
{
    if scheme.len() > 0 && forall|i: int|
        0 <= i < scheme.len() ==> {
            ||| 'a' <= #[trigger] scheme[i] <= 'z'
            ||| 'A' <= scheme[i] <= 'Z'
            ||| '0' <= scheme[i] <= '9'
            ||| scheme[i] == '+'
            ||| scheme[i] == '-'
            ||| scheme[i] == '.'
        } {
        assert forall|i: int| 0 <= i < scheme.len() implies #[trigger] scheme_character(
            scheme[i],
        ) by {}
    }
    if scheme_grammar(scheme) {
        assert forall|i: int| 0 <= i < scheme.len() implies {
            ||| 'a' <= #[trigger] scheme[i] <= 'z'
            ||| 'A' <= scheme[i] <= 'Z'
            ||| '0' <= scheme[i] <= '9'
            ||| scheme[i] == '+'
            ||| scheme[i] == '-'
            ||| scheme[i] == '.'
        } by {
            assert(scheme_character(scheme[i]));
        }
    }
}

/// The schemes of a list of links are those of its parts, one after the other.
/// One link gives the text without the white space around it, its letters in
/// lower case, or nothing where that is empty.
pub proof fn law_schemes_come_link_by_link(first: Seq<Text>, link: Text, second: Seq<Text>)
    ensures
        schemes_of(first + second) == schemes_of(first) + schemes_of(second),
        trimmed(link).len() > 0 ==> schemes_of(seq![link]) == seq![ascii_lowered(trimmed(link))],
        trimmed(link).len() == 0 ==> schemes_of(seq![link]).len() == 0,
        schemes_of(Seq::empty()).len() == 0,
    decreases second.len(),
{
    reveal(Seq::filter);
    lemma_schemes_push(Seq::empty(), link);
    assert(Seq::empty().push(link) =~= seq![link]);
    assert(schemes_of(Seq::empty()) =~= Seq::empty());
    if trimmed(link).len() > 0 {
        assert(schemes_of(seq![link]) =~= seq![ascii_lowered(trimmed(link))]);
    }
    if second.len() == 0 {
        assert(first + second =~= first);
        assert(second =~= Seq::empty());
        assert(schemes_of(first) + schemes_of(second) =~= schemes_of(first));
    } else {
        let front = second.drop_last();
        law_schemes_come_link_by_link(first, link, front);
        lemma_schemes_push(front, second.last());
        lemma_schemes_push(first + front, second.last());
        assert(front.push(second.last()) =~= second);
        assert((first + front).push(second.last()) =~= first + second);
        assert(schemes_of(first + second) =~= schemes_of(first) + schemes_of(second));
    }
}

/// What is registered are all schemes, in order, for the system of the app;
/// nothing is registered where there are none. A refusal names the first
/// scheme that is not valid, and what is wrong with it.
pub proof fn law_all_links_or_the_first_fault(flags: FlagsModel, host: HostOs)
    ensures
        ({
            let schemes = schemes_of(flags.deep_links);
            match deep_links_of(flags, host) {
                Ok(None) => schemes.len() == 0,
                Ok(Some(links)) => schemes.len() > 0 && links.schemes == schemes && links.os
                    == os_of(flags.target, host) && forall|i: int|
                    0 <= i < schemes.len() ==> fault_of(#[trigger] schemes[i]) is None,
                Err(error) => exists|i: int|
                    0 <= i < schemes.len() && fault_of(#[trigger] schemes[i]) is Some && error == (
                    ErrorModel::InvalidScheme {
                        scheme: schemes[i],
                        fault: fault_of(schemes[i])->0,
                    }) && forall|j: int|
                        0 <= j < i ==> fault_of(#[trigger] schemes[j]) is None,
            }
        }),
{
    lemma_first_fault(schemes_of(flags.deep_links));
}

/// The error about schemes is about the first that has a fault.
proof fn lemma_first_fault(schemes: Seq<Text>)
    ensures
        first_error(schemes) is None ==> forall|i: int|
            0 <= i < schemes.len() ==> fault_of(#[trigger] schemes[i]) is None,
        first_error(schemes) matches Some(error) ==> exists|i: int|
            0 <= i < schemes.len() && fault_of(#[trigger] schemes[i]) is Some && error == (
            ErrorModel::InvalidScheme { scheme: schemes[i], fault: fault_of(schemes[i])->0 })
                && forall|j: int| 0 <= j < i ==> fault_of(#[trigger] schemes[j]) is None,
    decreases schemes.len(),
{
    if schemes.len() > 0 {
        let rest = schemes.drop_first();
        lemma_first_fault(rest);
        if fault_of(schemes[0]) is Some {
            assert(schemes.first() == schemes[0]);
        } else if first_error(schemes) is None {
            assert forall|i: int| 0 <= i < schemes.len() implies fault_of(#[trigger] schemes[i])
                is None by {
                if i > 0 {
                    assert(fault_of(rest[i - 1]) is None);
                }
            }
        } else {
            let error = first_error(schemes)->0;
            let k = choose|k: int|
                0 <= k < rest.len() && fault_of(#[trigger] rest[k]) is Some && error == (
                ErrorModel::InvalidScheme { scheme: rest[k], fault: fault_of(rest[k])->0 })
                    && forall|j: int| 0 <= j < k ==> fault_of(#[trigger] rest[j]) is None;
            assert(schemes[k + 1] == rest[k]);
            assert forall|j: int| 0 <= j < k + 1 implies fault_of(#[trigger] schemes[j]) is None by {
                if j > 0 {
                    assert(fault_of(rest[j - 1]) is None);
                }
            }
        }
    }
}

/// The schemes are shown one after the other, each with `://` behind it and a
/// comma between two.
pub proof fn law_links_are_shown(schemes: Seq<Text>, scheme: Text)
    ensures
        links_text(Seq::empty()).len() == 0,
        links_text(seq![scheme]) == scheme + "://"@,
        schemes.len() > 0 ==> links_text(schemes.push(scheme)) == links_text(schemes) + ", "@
            + scheme + "://"@,
{
    assert(schemes.push(scheme).drop_last() =~= schemes);
}

/// The model of the registration leaves out nothing and mixes up nothing.
pub proof fn law_registration_is_read(links: DeepLinks)
    ensures
        links.deep_view().os == links.os,
        links.deep_view().schemes == links.schemes.deep_view(),
{
}

} // verus!
