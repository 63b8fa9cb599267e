//! The window for a login through a server's JSON interface.

use vstd::prelude::*;
use crate::login::native::{
    is_acceptable, is_session_id, rejection, slashed, AuthStep, NativeAuthOutcome, NativeAuthTask,
};
use crate::text::{same, trim, trimmed};

verus! {

/// What came of the window this time.
#[derive(Debug, PartialEq, Eq)]
pub enum NativeLoginOutcome {
    Open,
    Cancelled,
    /// A login with this session id.
    Success(String),
}

/// The window's fields.
#[derive(Debug)]
pub struct NativeLoginModal {
    pub server_name: String,
    pub api_url: String,
    pub username: String,
    pub password: String,
    pub confirm_password: String,
    pub create_account: bool,
    /// Whether a login is under way.
    pub busy: bool,
    pub error: Option<String>,
    pub open: bool,
}

impl NativeLoginModal {
    /// An empty window for the given server.
    pub fn new(server_name: String, api_url: String) -> (r: NativeLoginModal)
        ensures
            r.server_name == server_name,
            r.api_url == api_url,
            r.username@.len() == 0,
            r.password@.len() == 0,
            r.confirm_password@.len() == 0,
            !r.create_account,
            !r.busy,
            r.error is None,
            r.open,
    {
        NativeLoginModal {
            server_name,
            api_url,
            username: String::new(),
            password: String::new(),
            confirm_password: String::new(),
            create_account: false,
            busy: false,
            error: None,
            open: true,
        }
    }

    /// Whether the fields are those of `other`.
    pub open spec fn same_fields(self, other: NativeLoginModal) -> bool {
        &&& self.server_name == other.server_name
        &&& self.api_url == other.api_url
        &&& self.username == other.username
        &&& self.password == other.password
        &&& self.confirm_password == other.confirm_password
        &&& self.create_account == other.create_account
        &&& self.open == other.open
    }

    /// Why the fields cannot be sent, if they cannot.
    pub open spec fn complaint(self) -> Option<Seq<char>> {
        if trimmed(self.username@).len() == 0 || self.password@.len() == 0 {
            Some("Enter a username and password."@)
        } else if self.create_account && self.password@ != self.confirm_password@ {
            Some("Passwords do not match."@)
        } else if !is_acceptable(self.api_url@) {
            Some(rejection(self.api_url@))
        } else {
            None
        }
    }

    fn complain(&mut self, message: String)
        ensures
            final(self).same_fields(*old(self)),
            final(self).busy == old(self).busy,
            final(self).error == Some(message),
    {
        self.error = Some(message);
    }

    /// Sends the fields: the returned login is to be run. There is none where the fields cannot
    /// be sent, and the window says why.
    pub fn submit(&mut self) -> (r: Option<NativeAuthTask>)
        ensures
            final(self).same_fields(*old(self)),
            match old(self).complaint() {
                Some(message) => {
                    &&& r is None
                    &&& final(self).busy == old(self).busy
                    &&& final(self).error is Some
                    &&& final(self).error->0@ == message
                },
                None => {
                    &&& r is Some
                    &&& r->0.wf()
                    &&& r->0.api_base@ == slashed(old(self).api_url@)
                    &&& r->0.username@ == trimmed(old(self).username@)
                    &&& r->0.password@ == old(self).password@
                    &&& r->0.step == if old(self).create_account {
                        AuthStep::Register
                    } else {
                        AuthStep::LogIn
                    }
                    &&& r->0.outcome is None
                    &&& final(self).busy
                    &&& final(self).error is None
                },
            },
    {
        let username: String = trim(self.username.as_str()).to_owned();
        if username.as_str().is_empty() || self.password.as_str().is_empty() {
            self.complain("Enter a username and password.".to_owned());
            return None;
        }
        if self.create_account && !same(self.password.as_str(), self.confirm_password.as_str()) {
            self.complain("Passwords do not match.".to_owned());
            return None;
        }
        match NativeAuthTask::start(
            self.api_url.as_str(),
            username,
            self.password.clone(),
            self.create_account,
        ) {
            Ok(task) => {
                self.error = None;
                self.busy = true;
                Some(task)
            },
            Err(message) => {
                self.complain(message);
                None
            },
        }
    }

    /// Takes up the end of the login that is under way, before the window is shown.
    pub fn poll(&mut self, ended: Option<NativeAuthOutcome>) -> (r: Option<String>)
        requires
            ended is Some && ended->0 is Success ==> is_session_id(ended->0->Success_0@),
        ensures
            final(self).same_fields(*old(self)),
            match ended {
                None => {
                    &&& r is None
                    &&& final(self).busy == old(self).busy
                    &&& final(self).error == old(self).error
                },
                Some(NativeAuthOutcome::Success(id)) => {
                    &&& r == Some(id)
                    &&& is_session_id(id@)
                    &&& !final(self).busy
                    &&& final(self).error == old(self).error
                },
                Some(NativeAuthOutcome::Error(message)) => {
                    &&& r is None
                    &&& !final(self).busy
                    &&& final(self).error == Some(message)
                },
            },
    {
        match ended {
            None => None,
            Some(NativeAuthOutcome::Success(id)) => {
                self.busy = false;
                Some(id)
            },
            Some(NativeAuthOutcome::Error(message)) => {
                self.busy = false;
                self.error = Some(message);
                None
            },
        }
    }

    /// The window's title.
    pub fn title(&self) -> (r: String)
        ensures
            r@ == "Log in to "@ + self.server_name@,
    {
        let mut out: String = "Log in to ".to_owned();
        out.append(self.server_name.as_str());
        out
    }

    /// The button that sends the fields.
    pub fn submit_label(&self) -> (r: &'static str)
        ensures
            r@ == if self.create_account {
                "Create account and log in"@
            } else {
                "Log in"@
            },
    {
        if self.create_account {
            "Create account and log in"
        } else {
            "Log in"
        }
    }

    /// What is shown while a login is under way.
    pub fn busy_label(&self) -> (r: &'static str)
        ensures
            r@ == if self.create_account {
                "Creating account…"@
            } else {
                "Logging in…"@
            },
    {
        if self.create_account {
            "Creating account…"
        } else {
            "Logging in…"
        }
    }

    /// What comes of the window, which was shown. Closing it gives up a login that is under way.
    pub fn shown(&mut self, window_open: bool) -> (r: NativeLoginOutcome)
        ensures
            r is Cancelled <==> !window_open,
            r is Open <==> window_open,
            final(self).open == window_open,
            final(self).server_name == old(self).server_name,
            final(self).api_url == old(self).api_url,
            final(self).username == old(self).username,
            final(self).password == old(self).password,
            final(self).confirm_password == old(self).confirm_password,
            final(self).create_account == old(self).create_account,
            final(self).busy == old(self).busy,
            final(self).error == old(self).error,
    {
        self.open = window_open;
        if window_open {
            NativeLoginOutcome::Open
        } else {
            NativeLoginOutcome::Cancelled
        }
    }
}

/// The fields are sent exactly where there is a user name besides white space and a password, the
/// password was repeated where an account is made, and the server's address may be used.
pub proof fn law_which_fields_are_sent(
    modal: NativeLoginModal,
    lead: Seq<char>,
    name: Seq<char>,
    trail: Seq<char>,
)
    requires
        modal.username@ == lead + name + trail,
        crate::text::is_blank(lead),
        crate::text::is_tight(name),
        crate::text::is_blank(trail),
    ensures
        modal.complaint() is None <==> name.len() > 0 && modal.password@.len() > 0 && (
        modal.create_account ==> modal.password@ == modal.confirm_password@) && is_acceptable(
            modal.api_url@,
        ),
        name.len() == 0 || modal.password@.len() == 0 ==> modal.complaint() == Some(
            "Enter a username and password."@,
        ),
        name.len() > 0 && modal.password@.len() > 0 && modal.create_account && modal.password@
            != modal.confirm_password@ ==> modal.complaint() == Some("Passwords do not match."@),
        name.len() > 0 && modal.password@.len() > 0 && (modal.create_account ==> modal.password@
            == modal.confirm_password@) && !is_acceptable(modal.api_url@) ==> modal.complaint()
            == Some(rejection(modal.api_url@)),
        trimmed(modal.username@) == name,
{
    crate::text::law_trimming_takes_off_what_is_around(lead, name, trail);
}

/// Whether the fields are the same says so of every one of them.
pub proof fn law_what_the_fields_are(modal: NativeLoginModal, other: NativeLoginModal)
    requires
        modal.same_fields(other),
    ensures
        modal.server_name == other.server_name && modal.api_url == other.api_url,
        modal.username == other.username && modal.password == other.password,
        modal.confirm_password == other.confirm_password,
        modal.create_account == other.create_account && modal.open == other.open,
{
}

} // verus!
