//! Signing in and the profile page: the forms, their checks, and what
//! their answers change.

use vstd::prelude::*;

use crate::text::{to_string, trim, trim_str};
use crate::text_std::str_eq;
use crate::types::{AuthSession, LoginInput, UpdateUserInfoInput, User};

verus! {

/// The login form.
#[derive(Clone, Debug)]
pub struct LoginForm {
    pub identifier: String,
    pub password: String,
    pub error: Option<String>,
    pub is_submitting: bool,
}

impl LoginForm {
    /// An empty form.
    pub fn new() -> (r: LoginForm)
        ensures
            r.identifier@ == Seq::<char>::empty(),
            r.password@ == Seq::<char>::empty(),
            r.error is None,
            !r.is_submitting,
    {
        LoginForm {
            identifier: String::new(),
            password: String::new(),
            error: None,
            is_submitting: false,
        }
    }

    /// Submits the form: the trimmed identifier and the password must not
    /// be empty. The form then shows that it is submitting and the login
    /// request is returned.
    pub fn submit(&mut self) -> (r: Option<LoginInput>)
        ensures
            (trim(old(self).identifier@).len() == 0 || old(self).password@.len() == 0) ==> {
                &&& r is None
                &&& final(self).error matches Some(e) && e@ == "Username and password are required."@
                &&& final(self).is_submitting == old(self).is_submitting
                &&& final(self).identifier == old(self).identifier
                &&& final(self).password == old(self).password
            },
            !(trim(old(self).identifier@).len() == 0 || old(self).password@.len() == 0) ==> {
                &&& r matches Some(input) && input.identifier@ == trim(old(self).identifier@)
                    && input.password@ == old(self).password@
                &&& *final(self) == (LoginForm { is_submitting: true, error: None, ..*old(self) })
            },
    {
        let identifier = to_string(&trim_str(self.identifier.as_str()));
        if identifier.as_str().is_empty() || self.password.as_str().is_empty() {
            self.error = Some("Username and password are required.".to_owned());
            return None;
        }
        self.is_submitting = true;
        self.error = None;
        Some(LoginInput { identifier, password: self.password.clone() })
    }

    /// The login answer arrived: a session to keep, or the message to show.
    pub fn finished(&mut self, outcome: Result<AuthSession, String>) -> (r: Option<AuthSession>)
        ensures
            !final(self).is_submitting,
            outcome matches Ok(s) ==> r == Some(s) && *final(self) == (LoginForm {
                is_submitting: false,
                ..*old(self)
            }),
            outcome matches Err(m) ==> r is None && *final(self) == (LoginForm {
                is_submitting: false,
                error: Some(m),
                ..*old(self)
            }),
    {
        self.is_submitting = false;
        match outcome {
            Ok(s) => Some(s),
            Err(m) => {
                self.error = Some(m);
                None
            },
        }
    }
}

/// How a login request ended.
#[derive(Clone, Debug)]
pub enum LoginReply {
    /// The request could not be built.
    NotBuilt,
    /// The request could not be sent.
    NotSent,
    /// The server answered with a failure status.
    Refused,
    /// The server answered with success: the session, when its answer could
    /// be read.
    Accepted(Option<AuthSession>),
}

/// The session a login gives, or the message the form shows.
pub open spec fn login_outcome(reply: LoginReply) -> Result<AuthSession, Seq<char>> {
    match reply {
        LoginReply::NotBuilt => Err("Unable to build login request."@),
        LoginReply::NotSent => Err("Unable to login."@),
        LoginReply::Refused => Err("Invalid username or password."@),
        LoginReply::Accepted(Some(s)) => Ok(s),
        LoginReply::Accepted(None) => Err("Unable to read login response."@),
    }
}

/// Turns the end of a login request into the session or the message for
/// `LoginForm::finished`.
pub fn login_result(reply: LoginReply) -> (r: Result<AuthSession, String>)
    ensures
        match login_outcome(reply) {
            Ok(s) => r == Ok::<AuthSession, String>(s),
            Err(m) => r matches Err(e) && e@ == m,
        },
{
    match reply {
        LoginReply::NotBuilt => Err("Unable to build login request.".to_owned()),
        LoginReply::NotSent => Err("Unable to login.".to_owned()),
        LoginReply::Refused => Err("Invalid username or password.".to_owned()),
        LoginReply::Accepted(Some(s)) => Ok(s),
        LoginReply::Accepted(None) => Err("Unable to read login response.".to_owned()),
    }
}

/// The notice shown on the profile page without a session.
pub fn profile_unavailable_notice() -> (r: &'static str)
    ensures
        r@ == "You need to be authenticated to access this section."@,
{
    "You need to be authenticated to access this section."
}

/// The user-info form of the profile page.
#[derive(Clone, Debug)]
pub struct ProfileForm {
    pub first_name: String,
    pub last_name: String,
    pub email: String,
    pub username: String,
    pub current_password: String,
    pub new_password: String,
    pub error: Option<String>,
    pub status: Option<String>,
    pub is_submitting: bool,
}

impl ProfileForm {
    /// The form filled from the signed-in user.
    pub fn new(user: &User) -> (r: ProfileForm)
        ensures
            r.first_name@ == user.first_name@,
            r.last_name@ == user.last_name@,
            r.email@ == user.email@,
            r.username@ == user.username@,
            r.current_password@ == Seq::<char>::empty(),
            r.new_password@ == Seq::<char>::empty(),
            r.error is None,
            r.status is None,
            !r.is_submitting,
    {
        ProfileForm {
            first_name: user.first_name.clone(),
            last_name: user.last_name.clone(),
            email: user.email.clone(),
            username: user.username.clone(),
            current_password: String::new(),
            new_password: String::new(),
            error: None,
            status: None,
            is_submitting: false,
        }
    }

    /// Whether the password button is enabled: both passwords are typed.
    pub fn can_update_password(&self) -> (r: bool)
        ensures
            r == (self.current_password@.len() > 0 && self.new_password@.len() > 0),
    {
        !self.current_password.as_str().is_empty() && !self.new_password.as_str().is_empty()
    }

    /// Submits the user info: the form shows that it is submitting and the
    /// trimmed values are returned for the request.
    pub fn submit_info(&mut self) -> (r: UpdateUserInfoInput)
        ensures
            r.email@ == trim(old(self).email@),
            r.first_name@ == trim(old(self).first_name@),
            r.last_name@ == trim(old(self).last_name@),
            r.username@ == trim(old(self).username@),
            *final(self) == (ProfileForm {
                is_submitting: true,
                error: None,
                status: None,
                ..*old(self)
            }),
    {
        self.is_submitting = true;
        self.error = None;
        self.status = None;
        UpdateUserInfoInput {
            email: to_string(&trim_str(self.email.as_str())),
            first_name: to_string(&trim_str(self.first_name.as_str())),
            last_name: to_string(&trim_str(self.last_name.as_str())),
            username: to_string(&trim_str(self.username.as_str())),
        }
    }

    /// The answer to the user info arrived. On success the form shows the
    /// updated user and a confirmation, and the session with the updated
    /// user is returned; on failure the message shows.
    pub fn info_updated(&mut self, session_key: String, outcome: Result<User, String>) -> (r: Option<
        AuthSession,
    >)
        ensures
            !final(self).is_submitting,
            outcome matches Ok(u) ==> {
                &&& r matches Some(s) && s.session_key == session_key && s.user == u
                &&& final(self).first_name@ == u.first_name@
                &&& final(self).last_name@ == u.last_name@
                &&& final(self).email@ == u.email@
                &&& final(self).username@ == u.username@
                &&& final(self).status matches Some(t) && t@ == "User info updated."@
                &&& final(self).error == old(self).error
                &&& final(self).current_password == old(self).current_password
                &&& final(self).new_password == old(self).new_password
            },
            outcome matches Err(m) ==> r is None && *final(self) == (ProfileForm {
                is_submitting: false,
                error: Some(m),
                ..*old(self)
            }),
    {
        self.is_submitting = false;
        match outcome {
            Ok(u) => {
                self.first_name = u.first_name.clone();
                self.last_name = u.last_name.clone();
                self.email = u.email.clone();
                self.username = u.username.clone();
                self.status = Some("User info updated.".to_owned());
                Some(AuthSession { session_key, user: u })
            },
            Err(m) => {
                self.error = Some(m);
                None
            },
        }
    }
}

/// The built-in admin cannot rename itself.
pub fn is_username_readonly(user: &User) -> (r: bool)
    ensures
        r == (user.username@ == "admin"@),
{
    str_eq(user.username.as_str(), "admin")
}

} // verus!
