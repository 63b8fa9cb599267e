//! Login and sign-up through a server's JSON interface.
//!
//! The password is sent unencrypted only to this machine itself.

use vstd::prelude::*;
use crate::text::{
    after_last, all_hex_digits, before_any, byte_len, debug_form, decimal, decimal_text,
    ends_with_char, first_index, head_before, is_blank, is_free_of, is_hex_digit,
    law_tail_behind_the_last, law_tail_of_a_whole_text, lemma_first_index, lemma_first_index_at,
    lemma_first_index_none, lemma_first_index_of_take, lemma_last_start, parse_u32, quoted, same,
    size_of_text, strip_prefix, tail_after_last, trim, trimmed, u32_value,
};
use super::SESSION_ID_LEN;

verus! {

/// How long a request may take, in seconds.
pub const REQUEST_TIMEOUT_SECS: u64 = 10;

pub const USER_AGENT: &'static str = "garlemald-client/0.1.0";

/// How a login ended.
#[derive(Debug, PartialEq, Eq)]
pub enum NativeAuthOutcome {
    /// With this session id.
    Success(String),
    /// With this message for the user.
    Error(String),
}

/// The part of an address, its scheme taken off, that tells where it leads.
pub open spec fn authority_in(rest: Seq<char>) -> Seq<char> {
    before_any(rest, "/?#"@)
}

/// The host at the head of a text, without the port that may follow.
pub open spec fn host_at(text: Seq<char>) -> Seq<char> {
    if text.len() > 0 && text[0] == '[' {
        before_any(text.skip(1), "]"@)
    } else {
        before_any(text, ":"@)
    }
}

/// The host of an address without its scheme, without the port. What stands before an `@` names
/// a user and no host.
pub open spec fn host_in(rest: Seq<char>) -> Seq<char> {
    host_at(after_last(authority_in(rest), '@'))
}

/// The host that a request to the address comes to, if to any: behind the scheme and a host, a
/// backslash does for a slash.
pub open spec fn reached_host(rest: Seq<char>) -> Seq<char> {
    host_at(after_last(before_any(authority_in(rest), "\\"@), '@'))
}

/// The host that must be this machine for a connection without encryption. Where a backslash makes
/// it doubtful what the host is, the address must name this machine either way.
pub open spec fn plain_host(rest: Seq<char>) -> Seq<char> {
    let authority = authority_in(rest);
    if !authority.contains('\\') {
        host_in(rest)
    } else if is_loopback(host_at(authority)) {
        reached_host(rest)
    } else {
        host_at(authority)
    }
}

/// Whether the host is this machine itself.
pub open spec fn is_loopback(host: Seq<char>) -> bool {
    host == "127.0.0.1"@ || host == "localhost"@ || host == "::1"@
}

/// What follows the scheme of an address that may be used, and whether the connection is
/// encrypted.
pub open spec fn scheme_cut(url: Seq<char>) -> Option<(Seq<char>, bool)> {
    if "https://"@.is_prefix_of(url) {
        Some((url.skip("https://"@.len() as int), true))
    } else if "http://"@.is_prefix_of(url) {
        Some((url.skip("http://"@.len() as int), false))
    } else {
        None
    }
}

/// Whether the address may be used: it has a host, and is encrypted unless the host is this
/// machine.
pub open spec fn is_acceptable(url: Seq<char>) -> bool {
    match scheme_cut(url) {
        Some((rest, encrypted)) => if encrypted {
            host_in(rest).len() > 0
        } else {
            is_loopback(plain_host(rest))
        },
        None => false,
    }
}

/// The address with a slash at its end.
pub open spec fn slashed(url: Seq<char>) -> Seq<char> {
    if url.len() > 0 && url.last() == '/' {
        url
    } else {
        url.push('/')
    }
}

/// Why an address may not be used.
#[derive(Debug, PartialEq, Eq)]
pub enum ApiUrlFault {
    /// It would send the password unencrypted to this host.
    Unencrypted(String),
    /// It has neither of the two schemes.
    Scheme,
    /// It has no host.
    NoHost,
}

/// The text about an unencrypted connection; `host` comes in quotes.
pub open spec fn unencrypted_text(host: Seq<char>) -> Seq<char> {
    "refusing to send a password over unencrypted http to "@ + host
        + "; the server's api_url must use https (http is allowed only for localhost)"@
}

/// The text about an address without one of the two schemes; `url` comes in quotes.
pub open spec fn scheme_text(url: Seq<char>) -> Seq<char> {
    "server api_url "@ + url + " must start with https:// (or http:// for localhost)"@
}

/// The text about an address without a host; `url` comes in quotes.
pub open spec fn no_host_text(url: Seq<char>) -> Seq<char> {
    "server api_url "@ + url + " has no host"@
}

/// The text about an address that may not be used.
pub open spec fn rejection(url: Seq<char>) -> Seq<char> {
    match scheme_cut(url) {
        None => scheme_text(debug_form(url)),
        Some((rest, encrypted)) => if !encrypted {
            unencrypted_text(debug_form(plain_host(rest)))
        } else {
            no_host_text(debug_form(url))
        },
    }
}

impl ApiUrlFault {
    /// The text for the user; `name` is the host or the address in quotes.
    pub open spec fn text(self, name: Seq<char>) -> Seq<char> {
        match self {
            ApiUrlFault::Unencrypted(_) => unencrypted_text(name),
            ApiUrlFault::Scheme => scheme_text(name),
            ApiUrlFault::NoHost => no_host_text(name),
        }
    }

    /// See [`ApiUrlFault::text`].
    pub fn message(&self, name: &str) -> (r: String)
        ensures
            r@ == self.text(name@),
    {
        match self {
            ApiUrlFault::Unencrypted(_) => {
                let mut out: String =
                    "refusing to send a password over unencrypted http to ".to_owned();
                out.append(name);
                out.append(
                    "; the server's api_url must use https (http is allowed only for localhost)",
                );
                out
            },
            ApiUrlFault::Scheme => {
                let mut out: String = "server api_url ".to_owned();
                out.append(name);
                out.append(" must start with https:// (or http:// for localhost)");
                out
            },
            ApiUrlFault::NoHost => {
                let mut out: String = "server api_url ".to_owned();
                out.append(name);
                out.append(" has no host");
                out
            },
        }
    }
}

/// Whether the fault is what keeps the address from being used.
pub open spec fn is_fault_of(fault: ApiUrlFault, url: Seq<char>) -> bool {
    match scheme_cut(url) {
        None => fault is Scheme,
        Some((rest, encrypted)) => if !encrypted {
            fault is Unencrypted && fault->Unencrypted_0@ == plain_host(rest) && !is_loopback(
                plain_host(rest),
            )
        } else {
            fault is NoHost && host_in(rest).len() == 0
        },
    }
}

/// See [`host_at`].
fn host_part(text: &str) -> (r: String)
    ensures
        r@ == host_at(text@),
{
    proof {
        reveal_strlit("[");
        assert("["@ == seq!['[']);
        assert(text@.len() > 0 && text@[0] == '[' ==> text@.subrange(0, 1) == seq!['[']);
        assert("["@.is_prefix_of(text@) ==> text@.subrange(0, 1)[0] == '[');
    }
    match strip_prefix(text, "[") {
        Some(bracketed) => head_before(bracketed, "]").to_owned(),
        None => head_before(text, ":").to_owned(),
    }
}

/// The host of an address; see [`host_in`].
pub fn host_of(rest: &str) -> (r: String)
    ensures
        r@ == host_in(rest@),
{
    host_part(tail_after_last(head_before(rest, "/?#"), '@'))
}

/// See [`plain_host`].
fn plain_host_of(rest: &str) -> (r: String)
    ensures
        r@ == plain_host(rest@),
{
    let authority: &str = head_before(rest, "/?#");
    let head: &str = head_before(authority, "\\");
    proof {
        lemma_before_backslash(authority@);
    }
    if same(head, authority) {
        return host_of(rest);
    }
    let host: String = host_part(authority);
    if is_loopback_host(host.as_str()) {
        host_part(tail_after_last(head, '@'))
    } else {
        host
    }
}

/// A text without a backslash is all before it.
proof fn lemma_before_backslash(text: Seq<char>)
    ensures
        before_any(text, "\\"@) == text <==> !text.contains('\\'),
{
    reveal_strlit("\\");
    let stops = "\\"@;
    assert(stops =~= seq!['\\']);
    lemma_first_index(text, stops);
    let b = first_index(text, stops);
    if b < text.len() {
        assert(text[b] == '\\');
        assert(before_any(text, stops).len() == b);
    } else {
        assert(before_any(text, stops) =~= text);
        assert forall|i: int| 0 <= i < text.len() implies text[i] != '\\' by {
            if text[i] == '\\' {
                assert(stops[0] == text[i]);
                assert(stops.contains(text[i]));
            }
        }
    }
}

/// See [`is_loopback`].
pub fn is_loopback_host(host: &str) -> (r: bool)
    ensures
        r == is_loopback(host@),
{
    same(host, "127.0.0.1") || same(host, "localhost") || same(host, "::1")
}

/// The base address of a server's interface, which ends in a slash, or why the address may not be
/// used.
pub fn judge_api_url(api_url: &str) -> (r: Result<String, ApiUrlFault>)
    ensures
        r is Ok <==> is_acceptable(api_url@),
        match r {
            Ok(base) => base@ == slashed(api_url@),
            Err(fault) => is_fault_of(fault, api_url@),
        },
{
    match strip_prefix(api_url, "https://") {
        Some(rest) => {
            if host_of(rest).as_str().is_empty() {
                return Err(ApiUrlFault::NoHost);
            }
        },
        None => match strip_prefix(api_url, "http://") {
            Some(rest) => {
                let host: String = plain_host_of(rest);
                if !is_loopback_host(host.as_str()) {
                    return Err(ApiUrlFault::Unencrypted(host));
                }
            },
            None => {
                return Err(ApiUrlFault::Scheme);
            },
        },
    }
    let mut base: String = api_url.to_owned();
    if !ends_with_char(api_url, '/') {
        proof {
            reveal_strlit("/");
            assert("/"@ == seq!['/']);
            assert(api_url@ + seq!['/'] == api_url@.push('/'));
        }
        base.append("/");
    }
    Ok(base)
}

/// The base address of a server's interface, which ends in a slash, or a message for the user.
pub fn validate_api_base(api_url: &str) -> (r: Result<String, String>)
    ensures
        r is Ok <==> is_acceptable(api_url@),
        match r {
            Ok(base) => base@ == slashed(api_url@),
            Err(message) => message@ == rejection(api_url@),
        },
{
    match judge_api_url(api_url) {
        Ok(base) => Ok(base),
        Err(fault) => {
            let name: String = match &fault {
                ApiUrlFault::Unencrypted(host) => quoted(host.as_str()),
                _ => quoted(api_url),
            };
            Err(fault.message(name.as_str()))
        },
    }
}

/// A password is sent without encryption to this machine alone.
pub proof fn law_plain_http_is_loopback_only(url: Seq<char>)
    requires
        is_acceptable(url),
        "http://"@.is_prefix_of(url),
    ensures
        is_loopback(reached_host(url.skip("http://"@.len() as int))),
{
    reveal_strlit("http://");
    reveal_strlit("https://");
    if "https://"@.is_prefix_of(url) {
        assert("https://"@[4] == url.subrange(0, 8)[4]);
        assert("http://"@[4] == url.subrange(0, 7)[4]);
    }
    lemma_before_backslash(authority_in(url.skip("http://"@.len() as int)));
}

/// Of an address that names no user the host decides, whatever else it holds: an encrypted one
/// needs some host, another needs this machine.
pub proof fn law_without_a_user_the_host_decides(url: Seq<char>, rest: Seq<char>, encrypted: bool)
    requires
        scheme_cut(url) == Some((rest, encrypted)),
        !authority_in(rest).contains('@'),
    ensures
        is_acceptable(url) <==> if encrypted {
            host_at(authority_in(rest)).len() > 0
        } else {
            is_loopback(host_at(authority_in(rest)))
        },
{
    let authority = authority_in(rest);
    lemma_last_start(authority, '@');
    assert(after_last(authority, '@') =~= authority);
    let host = host_at(authority);
    if authority.contains('\\') && is_loopback(host) {
        let stops = "\\"@;
        reveal_strlit("\\");
        assert(stops =~= seq!['\\']);
        lemma_first_index(authority, stops);
        lemma_before_backslash(authority);
        let b = first_index(authority, stops);
        let head = authority.take(b);
        if b == authority.len() {
            assert(head =~= authority);
        }
        assert(authority[b] == '\\');
        assert(!head.contains('@')) by {
            if head.contains('@') {
                let i = choose|i: int| 0 <= i < head.len() && head[i] == '@';
                assert(authority[i] == '@');
            }
        }
        lemma_last_start(head, '@');
        assert(after_last(head, '@') =~= head);
        lemma_loopback_has_no_backslash(host);
        if authority[0] == '[' {
            let inner = authority.skip(1);
            lemma_first_index(inner, "]"@);
            let p = first_index(inner, "]"@);
            assert(p <= b - 1) by {
                if b <= p {
                    assert(host[b - 1] == '\\');
                }
            }
            assert(head.skip(1) =~= inner.take(b - 1));
            lemma_first_index_of_take(inner, "]"@, b - 1);
        } else {
            lemma_first_index(authority, ":"@);
            let p = first_index(authority, ":"@);
            assert(p <= b) by {
                if b < p {
                    assert(host[b] == '\\');
                }
            }
            lemma_first_index_of_take(authority, ":"@, b);
        }
        assert(host_at(head) == host);
    }
}

proof fn lemma_loopback_has_no_backslash(host: Seq<char>)
    requires
        is_loopback(host),
    ensures
        forall|i: int| 0 <= i < host.len() ==> #[trigger] host[i] != '\\',
        host.len() > 0,
{
    reveal_strlit("127.0.0.1");
    reveal_strlit("localhost");
    reveal_strlit("::1");
}

/// The base of an address that is already a base is that address, and may be used too.
pub proof fn law_bases_are_stable(url: Seq<char>)
    requires
        is_acceptable(url),
    ensures
        slashed(url).last() == '/',
        slashed(slashed(url)) == slashed(url),
        is_acceptable(slashed(url)),
{
    if slashed(url) != url {
        reveal_strlit("http://");
        reveal_strlit("https://");
        let base = url.push('/');
        let (rest, encrypted) = scheme_cut(url)->0;
        let scheme = if encrypted {
            "https://"@
        } else {
            "http://"@
        };
        let n = scheme.len() as int;
        assert(scheme.is_prefix_of(base)) by {
            assert(base.subrange(0, n) == url.subrange(0, n));
        }
        assert(base.skip(n) == rest.push('/'));
        if !encrypted {
            assert(!"https://"@.is_prefix_of(base)) by {
                if "https://"@.is_prefix_of(base) {
                    assert(base.subrange(0, 8)[4] == 's');
                    assert(base.subrange(0, 7)[4] == ':');
                }
            }
        }
        assert(scheme_cut(base) == Some((rest.push('/'), encrypted)));
        lemma_authority_ignores_slash(rest);
    }
}

proof fn lemma_authority_ignores_slash(rest: Seq<char>)
    ensures
        authority_in(rest.push('/')) == authority_in(rest),
{
    reveal_strlit("/?#");
    let stops = "/?#"@;
    assert(stops.contains('/')) by {
        assert(stops[0] == '/');
    }
    let longer = rest.push('/');
    lemma_first_index(rest, stops);
    lemma_first_index(longer, stops);
    let a = first_index(rest, stops);
    let b = first_index(longer, stops);
    assert(a == b) by {
        if a < rest.len() {
            assert(longer[a] == rest[a]);
            if b < a {
                assert(longer[b] == rest[b]);
            }
        } else {
            assert(longer[rest.len() as int] == '/');
            if b < rest.len() {
                assert(longer[b] == rest[b]);
            }
        }
    }
    assert(longer.take(b) == rest.take(a));
}

/// What a server says of a request that it refused.
#[derive(Debug, PartialEq, Eq)]
pub struct ApiError {
    pub code: String,
    pub message: String,
}

/// The message for the user about a request that was refused.
pub open spec fn refusal_text(status: u16, error: ApiError, retry_after: Option<u32>) -> Seq<char> {
    if error.code@ == "invalid_credentials"@ {
        "Wrong username or password."@
    } else if error.code@ == "username_taken"@ {
        "That username is already taken."@
    } else if error.code@ == "rate_limited"@ {
        match retry_after {
            Some(secs) => "Too many attempts; try again in "@ + decimal(secs as nat)
                + " seconds."@,
            None => "Too many attempts; try again shortly."@,
        }
    } else {
        error.message@ + " (HTTP "@ + decimal(status as nat) + ")"@
    }
}

/// See [`refusal_text`].
pub fn friendly_api_error(status: u16, error: ApiError, retry_after: Option<u32>) -> (r: String)
    ensures
        r@ == refusal_text(status, error, retry_after),
{
    let code: &str = error.code.as_str();
    if same(code, "invalid_credentials") {
        return "Wrong username or password.".to_owned();
    }
    if same(code, "username_taken") {
        return "That username is already taken.".to_owned();
    }
    if same(code, "rate_limited") {
        return match retry_after {
            Some(secs) => {
                let mut out: String = "Too many attempts; try again in ".to_owned();
                out.append(decimal_text(secs as u64).as_str());
                out.append(" seconds.");
                out
            },
            None => "Too many attempts; try again shortly.".to_owned(),
        };
    }
    let mut out: String = error.message;
    out.append(" (HTTP ");
    out.append(decimal_text(status as u64).as_str());
    out.append(")");
    out
}

/// How a request failed.
#[derive(Debug, PartialEq, Eq)]
pub enum PostFailure {
    /// The server refused it. `retry_after` is the text of that header; `error` is there where
    /// the body is as it must be.
    Refused { status: u16, retry_after: Option<String>, error: Option<ApiError> },
    /// There was no answer.
    Unreachable(String),
}

impl PostFailure {
    /// The message for the user.
    pub open spec fn text(self) -> Seq<char> {
        match self {
            PostFailure::Refused { status, retry_after, error } => match error {
                Some(error) => refusal_text(
                    status,
                    error,
                    match retry_after {
                        Some(value) => u32_value(trimmed(value@)),
                        None => None,
                    },
                ),
                None => "server returned HTTP "@ + decimal(status as nat),
            },
            PostFailure::Unreachable(e) => "could not reach the server: "@ + e@,
        }
    }

    /// See [`PostFailure::text`].
    pub fn into_message(self) -> (r: String)
        ensures
            r@ == self.text(),
    {
        match self {
            PostFailure::Refused { status, retry_after, error } => {
                let secs: Option<u32> = match &retry_after {
                    Some(value) => parse_u32(trim(value.as_str())),
                    None => None,
                };
                match error {
                    Some(error) => friendly_api_error(status, error, secs),
                    None => {
                        let mut out: String = "server returned HTTP ".to_owned();
                        out.append(decimal_text(status as u64).as_str());
                        out
                    },
                }
            },
            PostFailure::Unreachable(e) => {
                let mut out: String = "could not reach the server: ".to_owned();
                out.append(e.as_str());
                out
            },
        }
    }
}

/// Whether the text can be a session id.
pub open spec fn is_session_id(sid: Seq<char>) -> bool {
    &&& byte_len(sid) == SESSION_ID_LEN
    &&& forall|i: int| 0 <= i < sid.len() ==> is_hex_digit(#[trigger] sid[i])
}

/// The session id that a server returned, if it can be one.
pub fn check_session_id(sid: String) -> (r: Result<String, String>)
    ensures
        r is Ok <==> is_session_id(sid@),
        r is Ok <==> sid@.len() == 56 && forall|i: int|
            0 <= i < sid@.len() ==> '0' <= #[trigger] sid@[i] <= '9' || 'a' <= sid@[i] <= 'f' || 'A'
                <= sid@[i] <= 'F',
        match r {
            Ok(id) => id == sid,
            Err(message) => message@ == "server returned a malformed session id ("@ + decimal(
                byte_len(sid@),
            ) + " chars; expected 56 hex)"@,
        },
{
    proof {
        law_session_ids_are_rows_of_hex_digits(sid@);
    }
    let length: usize = size_of_text(sid.as_str());
    if length == SESSION_ID_LEN && all_hex_digits(sid.as_str()) {
        return Ok(sid);
    }
    let mut message: String = "server returned a malformed session id (".to_owned();
    message.append(decimal_text(length as u64).as_str());
    message.append(" chars; expected 56 hex)");
    Err(message)
}

/// What a login does next.
#[derive(Debug, Clone, Copy, PartialEq, Eq, Structural)]
pub enum AuthStep {
    /// Send name and password to create the account.
    Register,
    /// Send name and password to get a session.
    LogIn,
    Finished,
}

/// One login, with a sign-up before it where that was asked for.
#[derive(Debug)]
pub struct NativeAuthTask {
    pub step: AuthStep,
    pub api_base: String,
    pub username: String,
    pub password: String,
    /// How it ended, until that was handed out.
    pub outcome: Option<NativeAuthOutcome>,
}

impl NativeAuthTask {
    /// The base may be used, an outcome is there only at the end, and a success carries a session
    /// id.
    pub open spec fn wf(self) -> bool {
        &&& is_acceptable(self.api_base@)
        &&& self.api_base@.last() == '/'
        &&& self.outcome is Some ==> self.step == AuthStep::Finished
        &&& match self.outcome {
            Some(NativeAuthOutcome::Success(sid)) => is_session_id(sid@),
            _ => true,
        }
    }

    /// Whether the credentials are those of `old`.
    pub open spec fn same_request(self, old: NativeAuthTask) -> bool {
        &&& self.api_base == old.api_base
        &&& self.username == old.username
        &&& self.password == old.password
    }

    /// Whether the login has ended with the given message.
    pub open spec fn failed(self, message: Seq<char>) -> bool {
        &&& self.step == AuthStep::Finished
        &&& self.outcome is Some
        &&& self.outcome->0 is Error
        &&& self.outcome->0->Error_0@ == message
    }

    /// Begins a login, unless the address may not be used.
    pub fn start(
        api_url: &str,
        username: String,
        password: String,
        create_account: bool,
    ) -> (r: Result<NativeAuthTask, String>)
        ensures
            r is Ok <==> is_acceptable(api_url@),
            match r {
                Ok(task) => {
                    &&& task.wf()
                    &&& task.step == if create_account {
                        AuthStep::Register
                    } else {
                        AuthStep::LogIn
                    }
                    &&& task.api_base@ == slashed(api_url@)
                    &&& task.username == username
                    &&& task.password == password
                    &&& task.outcome is None
                },
                Err(message) => message@ == rejection(api_url@),
            },
    {
        match validate_api_base(api_url) {
            Ok(api_base) => {
                proof {
                    law_bases_are_stable(api_url@);
                }
                Ok(
                    NativeAuthTask {
                        step: if create_account {
                            AuthStep::Register
                        } else {
                            AuthStep::LogIn
                        },
                        api_base,
                        username,
                        password,
                        outcome: None,
                    },
                )
            },
            Err(message) => Err(message),
        }
    }

    /// The address to which name and password are sent next.
    pub fn request_url(&self) -> (r: Option<String>)
        ensures
            crate::text::text_of(r) == match self.step {
                AuthStep::Register => Some(self.api_base@ + "accounts"@),
                AuthStep::LogIn => Some(self.api_base@ + "sessions"@),
                AuthStep::Finished => None,
            },
    {
        match self.step {
            AuthStep::Register => {
                let mut url: String = self.api_base.clone();
                url.append("accounts");
                Some(url)
            },
            AuthStep::LogIn => {
                let mut url: String = self.api_base.clone();
                url.append("sessions");
                Some(url)
            },
            AuthStep::Finished => None,
        }
    }

    fn finish(&mut self, outcome: NativeAuthOutcome)
        requires
            old(self).wf(),
            outcome is Success ==> is_session_id(outcome->Success_0@),
        ensures
            final(self).wf(),
            final(self).same_request(*old(self)),
            final(self).step == AuthStep::Finished,
            final(self).outcome == Some(outcome),
    {
        self.step = AuthStep::Finished;
        self.outcome = Some(outcome);
    }

    /// The sign-up was answered. An account has no session yet, so a login follows.
    pub fn registered(&mut self, failure: Option<PostFailure>)
        requires
            old(self).wf(),
            old(self).step == AuthStep::Register,
        ensures
            final(self).wf(),
            final(self).same_request(*old(self)),
            match failure {
                None => final(self).step == AuthStep::LogIn && final(self).outcome is None,
                Some(failure) => final(self).failed(failure.text()),
            },
    {
        match failure {
            None => {
                self.step = AuthStep::LogIn;
            },
            Some(failure) => {
                let message: String = failure.into_message();
                self.finish(NativeAuthOutcome::Error(message));
            },
        }
    }

    /// The login was answered: with the session id out of the body, or why that could not be
    /// read, or not at all.
    pub fn logged_in(&mut self, answer: Result<Result<String, String>, PostFailure>)
        requires
            old(self).wf(),
            old(self).step == AuthStep::LogIn,
        ensures
            final(self).wf(),
            final(self).same_request(*old(self)),
            final(self).step == AuthStep::Finished,
            match answer {
                Ok(Ok(sid)) => if is_session_id(sid@) {
                    final(self).outcome == Some(NativeAuthOutcome::Success(sid))
                } else {
                    final(self).failed(
                        "server returned a malformed session id ("@ + decimal(byte_len(sid@))
                            + " chars; expected 56 hex)"@,
                    )
                },
                Ok(Err(e)) => final(self).failed("malformed login response: "@ + e@),
                Err(failure) => final(self).failed(failure.text()),
            },
    {
        let outcome: NativeAuthOutcome = match answer {
            Ok(Ok(sid)) => match check_session_id(sid) {
                Ok(sid) => NativeAuthOutcome::Success(sid),
                Err(message) => NativeAuthOutcome::Error(message),
            },
            Ok(Err(e)) => {
                let mut message: String = "malformed login response: ".to_owned();
                message.append(e.as_str());
                NativeAuthOutcome::Error(message)
            },
            Err(failure) => NativeAuthOutcome::Error(failure.into_message()),
        };
        self.finish(outcome);
    }

    /// Hands out how the login ended, once.
    pub fn try_recv(&mut self) -> (r: Option<NativeAuthOutcome>)
        requires
            old(self).wf(),
        ensures
            r == old(self).outcome,
            final(self).wf(),
            final(self).outcome is None,
            final(self).step == old(self).step,
            final(self).same_request(*old(self)),
            r is Some && r->0 is Success ==> is_session_id(r->0->Success_0@),
    {
        self.outcome.take()
    }
}

/// A session id is a text of 56 characters, each one of `0` to `9`, `a` to `f` and `A` to `F`, and
/// every such text is one.
pub proof fn law_session_ids_are_rows_of_hex_digits(sid: Seq<char>)
    ensures
        is_session_id(sid) <==> sid.len() == 56 && forall|i: int|
            0 <= i < sid.len() ==> '0' <= #[trigger] sid[i] <= '9' || 'a' <= sid[i] <= 'f' || 'A'
                <= sid[i] <= 'F',
{
    if forall|i: int|
        0 <= i < sid.len() ==> '0' <= #[trigger] sid[i] <= '9' || 'a' <= sid[i] <= 'f' || 'A'
            <= sid[i] <= 'F' {
        crate::text::law_ascii_takes_a_byte_each(sid);
    }
    if is_session_id(sid) {
        assert forall|i: int| 0 <= i < sid.len() implies '0' <= #[trigger] sid[i] <= '9' || 'a'
            <= sid[i] <= 'f' || 'A' <= sid[i] <= 'F' by {
            assert(is_hex_digit(sid[i]));
        }
    }
}

/// Where an address leads: behind what names a user, and up to a slash, a question mark or a hash.
pub proof fn law_what_names_a_user_is_no_host(user: Seq<char>, text: Seq<char>, rest: Seq<char>)
    requires
        user.len() == 0 || user.last() == '@',
        is_free_of(user, "/?#\\"@),
        is_free_of(text, "/?#\\@"@),
        rest.len() == 0 || "/?#"@.contains(rest[0]),
    ensures
        authority_in(user + text + rest) == user + text,
        after_last(user + text, '@') == text,
        !(user + text).contains('\\'),
        host_in(user + text + rest) == host_at(text),
{
    reveal_strlit("/?#\\");
    reveal_strlit("/?#\\@");
    reveal_strlit("/?#");
    let front = user + text;
    let stops = "/?#"@;
    let wide = "/?#\\"@;
    let all = "/?#\\@"@;
    assert forall|c: char| #[trigger] stops.contains(c) implies wide.contains(c) && all.contains(
        c,
    ) by {
        let i = choose|i: int| 0 <= i < stops.len() && stops[i] == c;
        assert(wide[i] == c && all[i] == c);
    }
    assert(wide[3] == '\\' && all[3] == '\\' && all[4] == '@');
    assert forall|i: int| 0 <= i < front.len() implies !stops.contains(#[trigger] front[i])
        && front[i] != '\\' by {
        if i < user.len() {
            assert(front[i] == user[i]);
            assert(!wide.contains(user[i]));
        } else {
            assert(front[i] == text[i - user.len()]);
            assert(!all.contains(text[i - user.len()]));
        }
    }
    let whole = user + text + rest;
    if rest.len() == 0 {
        assert(whole =~= front);
        lemma_first_index_none(front, stops);
    } else {
        assert(whole =~= front + seq![rest[0]] + rest.skip(1));
        lemma_first_index_at(front, rest.skip(1), rest[0], stops);
    }
    assert(!text.contains('@')) by {
        if text.contains('@') {
            let i = choose|i: int| 0 <= i < text.len() && text[i] == '@';
            assert(all.contains(text[i]));
        }
    }
    if user.len() == 0 {
        assert(front =~= text);
        law_tail_of_a_whole_text(text, '@');
    } else {
        assert(front =~= user.drop_last() + seq!['@'] + text);
        law_tail_behind_the_last(user.drop_last(), text, '@');
    }
}

/// What comes of an address whose host is known, and what the user is told where it is refused.
pub proof fn law_what_comes_of_a_known_host(tail: Seq<char>, host: Seq<char>)
    requires
        host_in(tail) == host,
        !authority_in(tail).contains('\\'),
    ensures
        is_acceptable("https://"@ + tail) <==> host.len() > 0,
        is_acceptable("http://"@ + tail) <==> is_loopback(host),
        !is_acceptable("http://"@ + tail) ==> rejection("http://"@ + tail)
            == "refusing to send a password over unencrypted http to "@ + debug_form(host)
            + "; the server's api_url must use https (http is allowed only for localhost)"@,
        !is_acceptable("https://"@ + tail) ==> rejection("https://"@ + tail)
            == "server api_url "@ + debug_form("https://"@ + tail) + " has no host"@,
{
    reveal_strlit("http://");
    reveal_strlit("https://");
    let plain = "http://"@ + tail;
    let coded = "https://"@ + tail;
    assert("https://"@.is_prefix_of(coded));
    assert(coded.skip(8) =~= tail);
    assert("http://"@.is_prefix_of(plain));
    assert(plain.skip(7) =~= tail);
    if "https://"@.is_prefix_of(plain) {
        assert("https://"@[4] == plain.subrange(0, 8)[4]);
        assert(plain[4] == ':');
    }
}

/// The host of an address decides whether it may be used, whatever user, port and path stand
/// around it: with encryption any host will do, without it only this machine.
pub proof fn law_the_host_decides(
    user: Seq<char>,
    host: Seq<char>,
    port: Seq<char>,
    rest: Seq<char>,
)
    requires
        user.len() == 0 || user.last() == '@',
        is_free_of(user, "/?#\\"@),
        is_free_of(host, "/?#\\@"@),
        is_free_of(host, ":["@),
        port.len() == 0 || port[0] == ':',
        is_free_of(port, "/?#\\@"@),
        rest.len() == 0 || "/?#"@.contains(rest[0]),
    ensures
        host_in(user + (host + port) + rest) == host,
        is_acceptable("https://"@ + (user + (host + port) + rest)) <==> host.len() > 0,
        is_acceptable("http://"@ + (user + (host + port) + rest)) <==> host == "127.0.0.1"@ || host
            == "localhost"@,
{
    let text = host + port;
    reveal_strlit(":[");
    reveal_strlit(":");
    reveal_strlit("::1");
    assert(":["@[0] == ':' && ":["@[1] == '[');
    assert(":"@[0] == ':');
    assert forall|i: int| 0 <= i < text.len() implies !"/?#\\@"@.contains(#[trigger] text[i]) by {
        if i < host.len() {
            assert(text[i] == host[i]);
        } else {
            assert(text[i] == port[i - host.len()]);
        }
    }
    law_what_names_a_user_is_no_host(user, text, rest);
    assert forall|i: int| 0 <= i < host.len() implies !":"@.contains(#[trigger] host[i]) by {
        assert(!":["@.contains(host[i]));
    }
    assert(host.len() > 0 ==> host[0] != '[' && text[0] == host[0]) by {
        if host.len() > 0 {
            assert(!":["@.contains(host[0]));
        }
    }
    if port.len() == 0 {
        assert(text =~= host);
        lemma_first_index_none(host, ":"@);
    } else {
        assert(text =~= host + seq![':'] + port.skip(1));
        lemma_first_index_at(host, port.skip(1), ':', ":"@);
    }
    assert(host_at(text) == host);
    assert(host != "::1"@) by {
        if host == "::1"@ {
            assert(!":"@.contains(host[0]));
        }
    }
    law_what_comes_of_a_known_host(user + text + rest, host);
}

/// The same of a host in brackets, which is then free to hold colons.
pub proof fn law_the_host_in_brackets_decides(
    user: Seq<char>,
    host: Seq<char>,
    port: Seq<char>,
    rest: Seq<char>,
)
    requires
        user.len() == 0 || user.last() == '@',
        is_free_of(user, "/?#\\"@),
        is_free_of(host, "/?#\\@"@),
        !host.contains(']'),
        is_free_of(port, "/?#\\@"@),
        rest.len() == 0 || "/?#"@.contains(rest[0]),
    ensures
        ({
            let tail = user + (seq!['['] + host + seq![']'] + port) + rest;
            &&& host_in(tail) == host
            &&& is_acceptable("https://"@ + tail) <==> host.len() > 0
            &&& is_acceptable("http://"@ + tail) <==> host == "127.0.0.1"@ || host == "localhost"@
                || host == "::1"@
        }),
{
    let text = seq!['['] + host + seq![']'] + port;
    reveal_strlit("/?#\\@");
    reveal_strlit("]");
    assert("]"@ =~= seq![']']);
    assert("]"@[0] == ']');
    assert forall|i: int| 0 <= i < text.len() implies !"/?#\\@"@.contains(#[trigger] text[i]) by {
        if 0 < i <= host.len() {
            assert(text[i] == host[i - 1]);
        } else if i > host.len() + 1 {
            assert(text[i] == port[i - host.len() - 2]);
        }
    }
    law_what_names_a_user_is_no_host(user, text, rest);
    let inner = text.skip(1);
    assert(inner =~= host + seq![']'] + port);
    assert forall|i: int| 0 <= i < host.len() implies !"]"@.contains(#[trigger] host[i]) by {
        if "]"@.contains(host[i]) {
            assert(host[i] == ']');
        }
    }
    lemma_first_index_at(host, port, ']', "]"@);
    assert(host_at(text) == host);
    law_what_comes_of_a_known_host(user + text + rest, host);
}

/// An address with neither of the two schemes may not be used.
pub proof fn law_other_schemes_are_refused(url: Seq<char>, fault: ApiUrlFault)
    requires
        !"https://"@.is_prefix_of(url),
        !"http://"@.is_prefix_of(url),
        is_fault_of(fault, url),
    ensures
        !is_acceptable(url),
        fault is Scheme,
        rejection(url) == "server api_url "@ + debug_form(url)
            + " must start with https:// (or http:// for localhost)"@,
{
}

/// A base is the address with a slash at its end, and with no more than that.
pub proof fn law_a_base_ends_in_a_slash(url: Seq<char>)
    ensures
        slashed(url).len() > 0,
        slashed(url).last() == '/',
        url.is_prefix_of(slashed(url)),
        slashed(url).len() <= url.len() + 1,
        url.len() > 0 && url.last() == '/' ==> slashed(url) == url,
{
}

/// What the user is told of a refused request: of some codes the reason in plain words, of all
/// others what the server says, with the status.
pub proof fn law_refusals_are_told(status: u16, error: ApiError, secs: u32)
    ensures
        error.code@ == "invalid_credentials"@ ==> forall|after: Option<u32>| #[trigger]
            refusal_text(status, error, after) == "Wrong username or password."@,
        error.code@ == "username_taken"@ ==> forall|after: Option<u32>| #[trigger]
            refusal_text(status, error, after) == "That username is already taken."@,
        error.code@ == "rate_limited"@ ==> refusal_text(status, error, Some(secs))
            == "Too many attempts; try again in "@ + decimal(secs as nat) + " seconds."@,
        error.code@ == "rate_limited"@ ==> refusal_text(status, error, None)
            == "Too many attempts; try again shortly."@,
        error.code@ != "invalid_credentials"@ && error.code@ != "username_taken"@ && error.code@
            != "rate_limited"@ ==> forall|after: Option<u32>| #[trigger]
            refusal_text(status, error, after) == error.message@ + " (HTTP "@ + decimal(
                status as nat,
            ) + ")"@,
{
    reveal_strlit("invalid_credentials");
    reveal_strlit("username_taken");
    reveal_strlit("rate_limited");
    assert("invalid_credentials"@.len() == 19);
    assert("username_taken"@.len() == 14);
    assert("rate_limited"@.len() == 12);
}

/// A time to wait that the server gives in seconds, with white space around it or not, is the time
/// that the user is told.
pub proof fn law_the_time_to_wait_is_told(
    status: u16,
    header: String,
    error: ApiError,
    lead: Seq<char>,
    secs: u32,
    trail: Seq<char>,
)
    requires
        is_blank(lead),
        is_blank(trail),
        header@ == lead + decimal(secs as nat) + trail,
        error.code@ == "rate_limited"@,
    ensures
        (PostFailure::Refused { status, retry_after: Some(header), error: Some(error) }).text()
            == "Too many attempts; try again in "@ + decimal(secs as nat) + " seconds."@,
{
    let digits = decimal(secs as nat);
    crate::text::law_decimal_spells_the_number(secs as nat);
    assert(crate::text::is_digit(digits[0]));
    assert(crate::text::is_digit(digits[digits.len() - 1]));
    crate::text::law_trimming_takes_off_what_is_around(lead, digits, trail);
    crate::text::law_decimal_is_read_back(secs);
    law_refusals_are_told(status, error, secs);
}

/// A failure without a reason that can be read is told by its status, and no answer by its cause.
pub proof fn law_other_failures_are_told(status: u16, header: Option<String>, cause: String)
    ensures
        (PostFailure::Refused { status, retry_after: header, error: None }).text()
            == "server returned HTTP "@ + decimal(status as nat),
        PostFailure::Unreachable(cause).text() == "could not reach the server: "@ + cause@,
{
}

/// A login that failed has ended with its message, and was made for the same account.
pub proof fn law_how_a_login_fails(
    task: NativeAuthTask,
    old: NativeAuthTask,
    message: Seq<char>,
)
    requires
        task.failed(message),
        task.same_request(old),
    ensures
        task.step == AuthStep::Finished,
        task.outcome matches Some(NativeAuthOutcome::Error(text)) && text@ == message,
        task.api_base == old.api_base && task.username == old.username && task.password
            == old.password,
{
}

/// What a task may send and may hand out: to an address that may be used, and a session id where
/// it succeeds.
pub proof fn law_what_a_login_holds(task: NativeAuthTask)
    requires
        task.wf(),
    ensures
        is_acceptable(task.api_base@),
        task.api_base@.last() == '/',
        task.outcome is Some ==> task.step == AuthStep::Finished,
        task.outcome is Some && task.outcome->0 is Success ==> {
            let sid = task.outcome->0->Success_0@;
            sid.len() == 56 && forall|i: int|
                0 <= i < sid.len() ==> '0' <= #[trigger] sid[i] <= '9' || 'a' <= sid[i] <= 'f'
                    || 'A' <= sid[i] <= 'F'
        },
{
    if task.outcome is Some && task.outcome->0 is Success {
        law_session_ids_are_rows_of_hex_digits(task.outcome->0->Success_0@);
    }
}

/// The text of a fault says what is wrong with the address.
pub proof fn law_faults_are_told(host: String, name: Seq<char>)
    ensures
        ApiUrlFault::Unencrypted(host).text(name)
            == "refusing to send a password over unencrypted http to "@ + name
            + "; the server's api_url must use https (http is allowed only for localhost)"@,
        ApiUrlFault::Scheme.text(name) == "server api_url "@ + name
            + " must start with https:// (or http:// for localhost)"@,
        ApiUrlFault::NoHost.text(name) == "server api_url "@ + name + " has no host"@,
{
}

/// The fault of an address that may not be used: without encryption, the host that it leads to;
/// with it, that there is none.
pub proof fn law_which_fault_an_address_has(tail: Seq<char>, host: Seq<char>, fault: ApiUrlFault)
    requires
        host_in(tail) == host,
        !authority_in(tail).contains('\\'),
    ensures
        is_fault_of(fault, "http://"@ + tail) ==> fault is Unencrypted
            && fault->Unencrypted_0@ == host && !is_acceptable("http://"@ + tail),
        is_fault_of(fault, "https://"@ + tail) ==> fault is NoHost && host.len() == 0
            && !is_acceptable("https://"@ + tail),
{
    law_what_comes_of_a_known_host(tail, host);
    reveal_strlit("http://");
    reveal_strlit("https://");
    let plain = "http://"@ + tail;
    let coded = "https://"@ + tail;
    assert("https://"@.is_prefix_of(coded));
    assert(coded.skip(8) =~= tail);
    assert("http://"@.is_prefix_of(plain));
    assert(plain.skip(7) =~= tail);
    if "https://"@.is_prefix_of(plain) {
        assert("https://"@[4] == plain.subrange(0, 8)[4]);
        assert(plain[4] == ':');
    }
}

/// The part that tells where an address leads ends at the first slash, question mark or hash, and
/// at no other character.
pub proof fn law_where_an_authority_ends(front: Seq<char>, rest: Seq<char>)
    requires
        is_free_of(front, "/?#"@),
        rest.len() == 0 || "/?#"@.contains(rest[0]),
    ensures
        authority_in(front + rest) == front,
{
    if rest.len() == 0 {
        assert(front + rest =~= front);
        lemma_first_index_none(front, "/?#"@);
    } else {
        assert(front + rest =~= front + seq![rest[0]] + rest.skip(1));
        lemma_first_index_at(front, rest.skip(1), rest[0], "/?#"@);
    }
}

/// The host at the head of a text: up to the first colon, or what stands in brackets.
pub proof fn law_the_host_at_the_head(host: Seq<char>, port: Seq<char>)
    ensures
        !host.contains(':') && (host.len() == 0 || host[0] != '[') && (port.len() == 0 || port[0]
            == ':') ==> host_at(host + port) == host,
        !host.contains(']') ==> host_at(seq!['['] + host + seq![']'] + port) == host,
        !host.contains(']') ==> host_at(seq!['['] + host) == host,
{
    reveal_strlit(":");
    reveal_strlit("]");
    assert(":"@[0] == ':' && "]"@[0] == ']');
    assert(":"@ =~= seq![':'] && "]"@ =~= seq![']']);
    if !host.contains(':') && (host.len() == 0 || host[0] != '[') && (port.len() == 0 || port[0]
        == ':') {
        assert forall|i: int| 0 <= i < host.len() implies !":"@.contains(#[trigger] host[i]) by {
            if ":"@.contains(host[i]) {
                assert(host[i] == ':');
            }
        }
        let text = host + port;
        if port.len() == 0 {
            assert(text =~= host);
            lemma_first_index_none(host, ":"@);
        } else {
            assert(text =~= host + seq![':'] + port.skip(1));
            lemma_first_index_at(host, port.skip(1), ':', ":"@);
        }
        assert(host.len() > 0 ==> text[0] == host[0]);
    }
    if !host.contains(']') {
        assert forall|i: int| 0 <= i < host.len() implies !"]"@.contains(#[trigger] host[i]) by {
            if "]"@.contains(host[i]) {
                assert(host[i] == ']');
            }
        }
        let text = seq!['['] + host + seq![']'] + port;
        assert(text.skip(1) =~= host + seq![']'] + port);
        lemma_first_index_at(host, port, ']', "]"@);
        assert((seq!['['] + host).skip(1) =~= host);
        lemma_first_index_none(host, "]"@);
    }
}

/// A backslash belongs to the host that it stands in, which is then no host that may be used
/// without encryption; behind a port it changes nothing, whatever follows it.
pub proof fn law_a_backslash_makes_no_loopback(
    host: Seq<char>,
    port: Seq<char>,
    junk: Seq<char>,
    rest: Seq<char>,
)
    requires
        is_free_of(host, "/?#\\@"@),
        is_free_of(host, ":["@),
        port.len() > 0 ==> port[0] == ':',
        is_free_of(port, "/?#\\@"@),
        is_free_of(junk, "/?#"@),
        rest.len() == 0 || "/?#"@.contains(rest[0]),
    ensures
        is_acceptable("http://"@ + (host + port + seq!['\\'] + junk + rest)) <==> port.len() > 0 && (
        host == "127.0.0.1"@ || host == "localhost"@),
{
    reveal_strlit("/?#\\@");
    reveal_strlit("/?#");
    reveal_strlit("\\");
    reveal_strlit(":");
    reveal_strlit(":[");
    reveal_strlit("::1");
    reveal_strlit("http://");
    reveal_strlit("https://");
    let all = "/?#\\@"@;
    let stops = "/?#"@;
    let near = host + port;
    let authority = near + seq!['\\'] + junk;
    let tail = authority + rest;
    assert(all[3] == '\\' && all[4] == '@');
    assert(":["@[0] == ':' && ":["@[1] == '[');
    assert("\\"@ =~= seq!['\\']);
    assert("\\"@[0] == '\\' && ":"@[0] == ':');
    assert forall|c: char| #[trigger] stops.contains(c) implies all.contains(c) by {
        let i = choose|i: int| 0 <= i < stops.len() && stops[i] == c;
        assert(all[i] == c);
    }
    assert forall|i: int| 0 <= i < near.len() implies !all.contains(#[trigger] near[i]) by {
        if i < host.len() {
            assert(near[i] == host[i]);
        } else {
            assert(near[i] == port[i - host.len()]);
        }
    }
    assert forall|i: int| 0 <= i < authority.len() implies !stops.contains(
        #[trigger] authority[i],
    ) by {
        if i < near.len() {
            assert(authority[i] == near[i]);
        } else if i > near.len() {
            assert(authority[i] == junk[i - near.len() - 1]);
        }
    }
    law_where_an_authority_ends(authority, rest);
    assert(authority[near.len() as int] == '\\');
    assert(authority.contains('\\'));
    assert forall|i: int| 0 <= i < near.len() implies !"\\"@.contains(#[trigger] near[i]) by {
        if "\\"@.contains(near[i]) {
            assert(all.contains(near[i]));
        }
    }
    lemma_first_index_at(near, junk, '\\', "\\"@);
    assert(!near.contains('@')) by {
        if near.contains('@') {
            let i = choose|i: int| 0 <= i < near.len() && near[i] == '@';
            assert(all.contains(near[i]));
        }
    }
    law_tail_of_a_whole_text(near, '@');
    assert(!host.contains(':')) by {
        if host.contains(':') {
            let i = choose|i: int| 0 <= i < host.len() && host[i] == ':';
            assert(":["@.contains(host[i]));
        }
    }
    assert(host.len() > 0 ==> host[0] != '[') by {
        if host.len() > 0 {
            assert(!":["@.contains(host[0]));
        }
    }
    assert(host != "::1"@) by {
        if host == "::1"@ {
            assert(host[0] == ':');
            assert(host.contains(':'));
        }
    }
    let plain = "http://"@ + tail;
    assert("http://"@.is_prefix_of(plain));
    assert(plain.skip(7) =~= tail);
    if "https://"@.is_prefix_of(plain) {
        assert("https://"@[4] == plain.subrange(0, 8)[4]);
        assert(plain[4] == ':');
    }
    if port.len() > 0 {
        law_the_host_at_the_head(host, port);
        law_the_host_at_the_head(host, port + seq!['\\'] + junk);
        assert(authority =~= host + (port + seq!['\\'] + junk));
        assert(host_at(authority) == host);
        assert(reached_host(tail) == host);
    } else {
        assert(near =~= host);
        let named = host_at(authority);
        let at = first_index(authority, ":"@);
        lemma_first_index(authority, ":"@);
        assert(at > host.len()) by {
            if at < host.len() {
                assert(authority[at] == host[at]);
                assert(":"@ =~= seq![':']);
                assert(host.contains(':'));
            } else if at == host.len() {
                assert(":"@ =~= seq![':']);
                assert(authority[at] == ':');
            }
        }
        assert(authority[0] != '[');
        assert(named[host.len() as int] == '\\');
        if is_loopback(named) {
            lemma_loopback_has_no_backslash(named);
        }
        assert(plain_host(tail) == named);
    }
}

} // verus!
