//! What the login window makes of the pages that it is led to.
//!
//! A login ends with a navigation to `ffxiv://login_success?sessionId=…`. The window's process
//! tells its parent the outcome in one line.

use vstd::prelude::*;
use crate::text::{
    byte_len, cut_once, joined, law_a_cut_loses_nothing, law_cut_at_the_first,
    law_joining_goes_part_by_part, law_no_cut_without_the_character, same, size_of_text, split_once,
    starts_with, text_of,
};
use super::SESSION_ID_LEN;

verus! {

/// Stands before the session id.
pub const SESSION_PREFIX: &'static str = "SESSION_ID=";

/// The line for a window that was closed without a login.
pub const CANCEL_SENTINEL: &'static str = "LOGIN_CANCELLED";

/// Stands before an error.
pub const ERROR_PREFIX: &'static str = "LOGIN_ERROR=";

/// Leads pages that answer with the element `x-sqexauth` to the same navigation.
pub const SQEXAUTH_BRIDGE_SCRIPT: &'static str =
    "\ndocument.addEventListener(\"DOMContentLoaded\", function () {\n    var el = document.querySelector(\"x-sqexauth\");\n    if (el) {\n        var sid = el.getAttribute(\"sid\");\n        if (sid) {\n            window.location.href = \"ffxiv://login_success?sessionId=\" + sid;\n        }\n    }\n});\n";

/// The session id among the pairs of a query: the value of the first `sessionId` of the right
/// length. A part without `=` before it ends the search.
pub open spec fn session_in(query: Seq<char>) -> Option<Seq<char>>
    decreases query.len(),
    via session_in_decreases
{
    let (pair, rest) = match cut_once(query, '&') {
        Some((head, tail)) => (head, Some(tail)),
        None => (query, None),
    };
    match cut_once(pair, '=') {
        None => None,
        Some((key, value)) => if key == "sessionId"@ && byte_len(value) == SESSION_ID_LEN {
            Some(value)
        } else {
            match rest {
                Some(tail) => session_in(tail),
                None => None,
            }
        },
    }
}

#[via_fn]
proof fn session_in_decreases(query: Seq<char>) {
    crate::text::lemma_first_index(query, seq!['&']);
}

/// The session id in an address.
pub open spec fn session_of(uri: Seq<char>) -> Option<Seq<char>> {
    match cut_once(uri, '?') {
        Some((_, query)) => session_in(query),
        None => None,
    }
}

/// See [`session_of`].
pub fn parse_session_id(uri: &str) -> (r: Option<String>)
    ensures
        text_of(r) == session_of(uri@),
{
    let query: &str = match split_once(uri, '?') {
        Some((_, query)) => query,
        None => {
            return None;
        },
    };
    let mut left: &str = query;
    loop
        invariant
            session_of(uri@) == session_in(left@),
        decreases left@.len(),
    {
        proof {
            crate::text::lemma_first_index(left@, seq!['&']);
        }
        let (pair, rest): (&str, Option<&str>) = match split_once(left, '&') {
            Some((head, tail)) => (head, Some(tail)),
            None => (left, None),
        };
        let (key, value): (&str, &str) = match split_once(pair, '=') {
            Some(parts) => parts,
            None => {
                return None;
            },
        };
        if same(key, "sessionId") && size_of_text(value) == SESSION_ID_LEN {
            return Some(value.to_owned());
        }
        match rest {
            Some(tail) => {
                left = tail;
            },
            None => {
                return None;
            },
        }
    }
}

/// What becomes of a navigation.
#[derive(Debug, PartialEq, Eq)]
pub enum Navigation {
    /// Print the line and end the process with the code.
    Report { line: String, exit_code: i32 },
    /// Do not follow the address.
    Cancel,
    Follow,
}

/// What becomes of the navigation to the given address.
pub fn navigation_handler(uri: &str) -> (r: Navigation)
    ensures
        if "ffxiv://login_success"@.is_prefix_of(uri@) {
            match session_of(uri@) {
                Some(id) => {
                    &&& r is Report
                    &&& r->line@ == SESSION_PREFIX@ + id
                    &&& r->exit_code == 0
                },
                None => {
                    &&& r is Report
                    &&& r->line@ == ERROR_PREFIX@
                        + "login_success URL missing a 56-char sessionId"@
                    &&& r->exit_code == 1
                },
            }
        } else if "ffxiv://"@.is_prefix_of(uri@) {
            r is Cancel
        } else {
            r is Follow
        },
{
    if starts_with(uri, "ffxiv://login_success") {
        return match parse_session_id(uri) {
            Some(id) => {
                let mut line: String = SESSION_PREFIX.to_owned();
                line.append(id.as_str());
                Navigation::Report { line, exit_code: 0 }
            },
            None => {
                let mut line: String = ERROR_PREFIX.to_owned();
                line.append("login_success URL missing a 56-char sessionId");
                Navigation::Report { line, exit_code: 1 }
            },
        };
    }
    if starts_with(uri, "ffxiv://") {
        return Navigation::Cancel;
    }
    Navigation::Follow
}

/// The line for a login window that could not be made.
pub fn error_line(message: &str) -> (r: String)
    ensures
        r@ == ERROR_PREFIX@ + message@,
{
    let mut line: String = ERROR_PREFIX.to_owned();
    line.append(message);
    line
}

/// A session id that is taken from an address has the right length.
pub proof fn law_session_ids_have_their_length(uri: Seq<char>)
    ensures
        session_of(uri) is Some ==> byte_len(session_of(uri)->0) == SESSION_ID_LEN,
{
    if let Some((_, query)) = cut_once(uri, '?') {
        lemma_session_in(query);
    }
}

proof fn lemma_session_in(query: Seq<char>)
    ensures
        session_in(query) is Some ==> byte_len(session_in(query)->0) == SESSION_ID_LEN,
    decreases query.len(),
{
    crate::text::lemma_first_index(query, seq!['&']);
    if let Some((_, tail)) = cut_once(query, '&') {
        lemma_session_in(tail);
    }
}

/// Whether a part of a query gives `id` as the session id.
pub open spec fn gives_session(part: Seq<char>, id: Seq<char>) -> bool {
    part == "sessionId="@ + id && byte_len(id) == 56
}

/// Whether the parts of a query can be told apart: none holds the character between them.
pub open spec fn are_parts(parts: Seq<Seq<char>>) -> bool {
    forall|i: int| 0 <= i < parts.len() ==> !(#[trigger] parts[i]).contains('&')
}

/// Whether a part is gone over: it is a pair, and gives no session id.
pub open spec fn gives_none(part: Seq<char>) -> bool {
    part.contains('=') && forall|id: Seq<char>| !gives_session(part, id)
}

/// The pair of a part.
proof fn lemma_session_pair(part: Seq<char>)
    ensures
        forall|id: Seq<char>| #[trigger]
            gives_session(part, id) ==> cut_once(part, '=') == Some(("sessionId"@, id)),
        cut_once(part, '=') is Some && (cut_once(part, '=')->0).0 == "sessionId"@ && byte_len(
            (cut_once(part, '=')->0).1,
        ) == 56 ==> gives_session(part, (cut_once(part, '=')->0).1),
        cut_once(part, '=') is Some <==> part.contains('='),
{
    reveal_strlit("sessionId=");
    reveal_strlit("sessionId");
    let key = "sessionId"@;
    assert("sessionId="@ =~= key + seq!['=']);
    assert(!key.contains('='));
    assert forall|id: Seq<char>| #[trigger] gives_session(part, id) implies cut_once(part, '=')
        == Some((key, id)) by {
        law_cut_at_the_first(key, id, '=');
    }
    law_no_cut_without_the_character(part, '=');
    if cut_once(part, '=') is Some {
        law_a_cut_loses_nothing(part, '=');
    }
}

/// What a query gives, part by part.
proof fn lemma_session_of_part(part: Seq<char>, rest: Seq<char>)
    requires
        !part.contains('&'),
    ensures
        forall|id: Seq<char>| #[trigger]
            gives_session(part, id) ==> session_in(part) == Some(id) && session_in(
                part + seq!['&'] + rest,
            ) == Some(id),
        gives_none(part) ==> session_in(part) is None && session_in(part + seq!['&'] + rest)
            == session_in(rest),
        !part.contains('=') ==> session_in(part) is None && session_in(part + seq!['&'] + rest) is None,
{
    lemma_session_pair(part);
    law_no_cut_without_the_character(part, '&');
    law_cut_at_the_first(part, rest, '&');
}

/// The session id of an address is that of the first part of its query that gives one, where each
/// part before it is a pair.
pub proof fn law_the_first_session_id_is_taken(
    head: Seq<char>,
    parts: Seq<Seq<char>>,
    k: int,
    id: Seq<char>,
)
    requires
        !head.contains('?'),
        are_parts(parts),
        0 <= k < parts.len(),
        gives_session(parts[k], id),
        forall|i: int| 0 <= i < k ==> gives_none(#[trigger] parts[i]),
    ensures
        session_of(head + seq!['?'] + joined(parts, seq!['&'])) == Some(id),
{
    lemma_first_session_id(parts, k, id);
    law_cut_at_the_first(head, joined(parts, seq!['&']), '?');
}

proof fn lemma_first_session_id(parts: Seq<Seq<char>>, k: int, id: Seq<char>)
    requires
        are_parts(parts),
        0 <= k < parts.len(),
        gives_session(parts[k], id),
        forall|i: int| 0 <= i < k ==> gives_none(#[trigger] parts[i]),
    ensures
        session_in(joined(parts, seq!['&'])) == Some(id),
    decreases parts.len(),
{
    let first = parts[0];
    if parts.len() == 1 {
        lemma_session_of_part(first, Seq::empty());
    } else {
        let rest = parts.skip(1);
        assert(parts =~= seq![first] + rest);
        law_joining_goes_part_by_part(seq![first], rest, seq!['&']);
        lemma_session_of_part(first, joined(rest, seq!['&']));
        if k > 0 {
            assert(rest[k - 1] == parts[k]);
            assert forall|i: int| 0 <= i < rest.len() implies !(#[trigger] rest[i]).contains('&') by {
                assert(rest[i] == parts[i + 1]);
            }
            assert forall|i: int| 0 <= i < k - 1 implies gives_none(#[trigger] rest[i]) by {
                assert(rest[i] == parts[i + 1]);
            }
            lemma_first_session_id(rest, k - 1, id);
        }
    }
}

/// An address has no session id where no part of its query gives one, or a part that is no pair
/// comes before.
pub proof fn law_no_session_id_in_other_addresses(
    head: Seq<char>,
    parts: Seq<Seq<char>>,
    k: int,
)
    requires
        !head.contains('?'),
        are_parts(parts),
        0 <= k <= parts.len(),
        k < parts.len() ==> !parts[k].contains('='),
        forall|i: int| 0 <= i < k ==> gives_none(#[trigger] parts[i]),
    ensures
        session_of(head + seq!['?'] + joined(parts, seq!['&'])) is None,
        session_of(head) is None,
{
    lemma_no_session_id(parts, k);
    law_cut_at_the_first(head, joined(parts, seq!['&']), '?');
    law_no_cut_without_the_character(head, '?');
}

proof fn lemma_no_session_id(parts: Seq<Seq<char>>, k: int)
    requires
        are_parts(parts),
        0 <= k <= parts.len(),
        k < parts.len() ==> !parts[k].contains('='),
        forall|i: int| 0 <= i < k ==> gives_none(#[trigger] parts[i]),
    ensures
        session_in(joined(parts, seq!['&'])) is None,
    decreases parts.len(),
{
    if parts.len() == 0 {
        lemma_session_of_part(Seq::empty(), Seq::empty());
    } else {
        let first = parts[0];
        if parts.len() == 1 {
            lemma_session_of_part(first, Seq::empty());
        } else {
            let rest = parts.skip(1);
            assert(parts =~= seq![first] + rest);
            law_joining_goes_part_by_part(seq![first], rest, seq!['&']);
            lemma_session_of_part(first, joined(rest, seq!['&']));
            if k > 0 {
                assert(k < parts.len() ==> rest[k - 1] == parts[k]);
                assert forall|i: int| 0 <= i < rest.len() implies !(#[trigger] rest[i]).contains(
                    '&',
                ) by {
                    assert(rest[i] == parts[i + 1]);
                }
                assert forall|i: int| 0 <= i < k - 1 implies gives_none(#[trigger] rest[i]) by {
                    assert(rest[i] == parts[i + 1]);
                }
                lemma_no_session_id(rest, k - 1);
            }
        }
    }
}

/// The address to which a login leads yields the session id in it, whatever the id is made of.
pub proof fn law_a_login_yields_its_session_id(id: Seq<char>)
    requires
        byte_len(id) == 56,
        !id.contains('&'),
    ensures
        session_of("ffxiv://login_success?sessionId="@ + id) == Some(id),
{
    reveal_strlit("ffxiv://login_success?sessionId=");
    reveal_strlit("ffxiv://login_success");
    reveal_strlit("sessionId=");
    let head = "ffxiv://login_success"@;
    let part = "sessionId="@ + id;
    let parts = seq![part];
    assert("ffxiv://login_success?sessionId="@ =~= head + seq!['?'] + "sessionId="@);
    assert("ffxiv://login_success?sessionId="@ + id =~= head + seq!['?'] + part);
    assert(!part.contains('&')) by {
        if part.contains('&') {
            let i = choose|i: int| 0 <= i < part.len() && part[i] == '&';
            if i >= 10 {
                assert(id[i - 10] == '&');
            }
        }
    }
    assert(!head.contains('?'));
    law_the_first_session_id_is_taken(head, parts, 0, id);
}

} // verus!
