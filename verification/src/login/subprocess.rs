//! What the launcher makes of the lines that the login window's process prints.

use vstd::prelude::*;
use crate::text::{same, strip_prefix};
use super::webview::{CANCEL_SENTINEL, ERROR_PREFIX, SESSION_PREFIX};

verus! {

/// How a login in a web page ended.
#[derive(Debug, PartialEq, Eq)]
pub enum LoginOutcome {
    /// With this session id.
    Success(String),
    Cancelled,
    /// With this message.
    Error(String),
}

/// What a line tells: a session id, an error, or that the window was closed. Other lines tell
/// nothing.
pub enum Report {
    Session(Seq<char>),
    Failure(Seq<char>),
    Closed,
    Nothing,
}

/// See [`Report`].
pub open spec fn report_in(line: Seq<char>) -> Report {
    if SESSION_PREFIX@.is_prefix_of(line) {
        Report::Session(line.skip(SESSION_PREFIX@.len() as int))
    } else if ERROR_PREFIX@.is_prefix_of(line) {
        Report::Failure(line.skip(ERROR_PREFIX@.len() as int))
    } else if line == CANCEL_SENTINEL@ {
        Report::Closed
    } else {
        Report::Nothing
    }
}

/// The outcome that a line tells, if it tells one.
pub fn read_report(line: &str) -> (r: Option<LoginOutcome>)
    ensures
        match report_in(line@) {
            Report::Session(id) => r matches Some(LoginOutcome::Success(text)) && text@ == id,
            Report::Failure(e) => r matches Some(LoginOutcome::Error(text)) && text@ == e,
            Report::Closed => r == Some(LoginOutcome::Cancelled),
            Report::Nothing => r is None,
        },
{
    if let Some(id) = strip_prefix(line, SESSION_PREFIX) {
        return Some(LoginOutcome::Success(id.to_owned()));
    }
    if let Some(e) = strip_prefix(line, ERROR_PREFIX) {
        return Some(LoginOutcome::Error(e.to_owned()));
    }
    if same(line, CANCEL_SENTINEL) {
        return Some(LoginOutcome::Cancelled);
    }
    None
}

/// What the login window's process reports, the launcher understands: a session id, whatever it
/// is, an error with its message, and that the window was closed.
pub proof fn law_reports_are_understood(id: Seq<char>, message: Seq<char>)
    ensures
        report_in(SESSION_PREFIX@ + id) == Report::Session(id),
        report_in(ERROR_PREFIX@ + message) == Report::Failure(message),
        report_in(CANCEL_SENTINEL@) == Report::Closed,
{
    reveal_strlit("SESSION_ID=");
    reveal_strlit("LOGIN_CANCELLED");
    reveal_strlit("LOGIN_ERROR=");
    let success = SESSION_PREFIX@ + id;
    assert(SESSION_PREFIX@.is_prefix_of(success));
    assert(success.skip(SESSION_PREFIX@.len() as int) =~= id);
    let failure = ERROR_PREFIX@ + message;
    assert(failure[0] == 'L');
    assert(SESSION_PREFIX@[0] == 'S');
    assert(ERROR_PREFIX@.is_prefix_of(failure));
    assert(failure.skip(ERROR_PREFIX@.len() as int) =~= message);
    assert(CANCEL_SENTINEL@[6] == 'C');
    assert(ERROR_PREFIX@[6] == 'E');
}

/// Only such lines tell anything: what a line tells can be put back into it.
pub proof fn law_reports_are_told_by_their_lines(line: Seq<char>)
    ensures
        match report_in(line) {
            Report::Session(id) => line == "SESSION_ID="@ + id,
            Report::Failure(message) => line == "LOGIN_ERROR="@ + message,
            Report::Closed => line == "LOGIN_CANCELLED"@,
            Report::Nothing => {
                &&& line != "LOGIN_CANCELLED"@
                &&& forall|rest: Seq<char>| line != #[trigger] ("SESSION_ID="@ + rest)
                &&& forall|rest: Seq<char>| line != #[trigger] ("LOGIN_ERROR="@ + rest)
            },
        },
{
    if SESSION_PREFIX@.is_prefix_of(line) {
        assert(line =~= SESSION_PREFIX@ + line.skip(SESSION_PREFIX@.len() as int));
    } else if ERROR_PREFIX@.is_prefix_of(line) {
        assert(line =~= ERROR_PREFIX@ + line.skip(ERROR_PREFIX@.len() as int));
    } else {
        assert forall|rest: Seq<char>| line != #[trigger] ("SESSION_ID="@ + rest) by {
            assert(SESSION_PREFIX@.is_prefix_of(SESSION_PREFIX@ + rest));
        }
        assert forall|rest: Seq<char>| line != #[trigger] ("LOGIN_ERROR="@ + rest) by {
            assert(ERROR_PREFIX@.is_prefix_of(ERROR_PREFIX@ + rest));
        }
    }
}

} // verus!
