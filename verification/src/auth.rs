//! Signing up and logging in: what is looked up and stored, in which order,
//! and what the visitor is told. The driver queries the user table and sets
//! the cookies; every decision is taken here.

use crate::error::AppError;
use crate::forms::{LoginForm, SignupForm};
use crate::toast::ToastKind;
use vstd::prelude::*;
use vstd::string::StringExecFns;

verus! {

/// The work factor with which passwords are hashed.
pub const HASH_COST: u32 = 12;

/// A notice shown to the visitor.
#[derive(Debug)]
pub struct Toast {
    pub kind: ToastKind,
    pub title: String,
    pub message: String,
}

/// A notice as plain text.
pub struct ToastView {
    pub kind: ToastKind,
    pub title: Seq<char>,
    pub message: Seq<char>,
}

impl View for Toast {
    type V = ToastView;

    open spec fn view(&self) -> ToastView {
        ToastView { kind: self.kind, title: self.title@, message: self.message@ }
    }
}

/// What is answered to a form that was handled without error.
#[derive(Debug)]
pub enum AuthReply {
    /// The form was turned down: only the notice is shown.
    Rejected { toast: Toast },
    /// The visitor is let in: the cookies `user_id` and `username` are set,
    /// the form is closed, and the notice and the header for the user are
    /// shown.
    Welcomed { toast: Toast, user_id: i32, username: String },
}

/// A reply as plain values.
pub enum AuthReplyView {
    Rejected { toast: ToastView },
    Welcomed { toast: ToastView, user_id: i32, username: Seq<char> },
}

impl View for AuthReply {
    type V = AuthReplyView;

    open spec fn view(&self) -> AuthReplyView {
        match self {
            AuthReply::Rejected { toast } => AuthReplyView::Rejected { toast: toast@ },
            AuthReply::Welcomed { toast, user_id, username } => AuthReplyView::Welcomed {
                toast: toast@,
                user_id: *user_id,
                username: username@,
            },
        }
    }
}

/// What the login reads of a stored user.
#[derive(Debug)]
pub struct StoredUser {
    pub id: i32,
    pub username: String,
    pub password_hash: String,
}

/// The notice for an email address that is registered already.
pub open spec fn email_taken_toast() -> ToastView {
    ToastView {
        kind: ToastKind::Error,
        title: "Email exists"@,
        message: "This email is already registered"@,
    }
}

/// The notice for a user name that is taken already.
pub open spec fn username_taken_toast() -> ToastView {
    ToastView {
        kind: ToastKind::Error,
        title: "Username exists"@,
        message: "This username is already taken"@,
    }
}

/// The notice for a login that is turned down. It does not say whether the
/// email or the password was wrong.
pub open spec fn login_failed_toast() -> ToastView {
    ToastView {
        kind: ToastKind::Error,
        title: "Login failed"@,
        message: "Invalid email or password"@,
    }
}

/// The notice for a new user.
pub open spec fn signed_up_toast() -> ToastView {
    ToastView { kind: ToastKind::Success, title: ""@, message: "Welcome to EpiFlipBoard!"@ }
}

/// The notice for a user who logged in.
pub open spec fn logged_in_toast(username: Seq<char>) -> ToastView {
    ToastView {
        kind: ToastKind::Success,
        title: ""@,
        message: "Welcome back, "@ + username + "!"@,
    }
}

fn toast(kind: ToastKind, title: &str, message: &str) -> (t: Toast)
    ensures
        t@ == (ToastView { kind, title: title@, message: message@ }),
{
    Toast { kind, title: title.to_owned(), message: message.to_owned() }
}

/// Whether `bcrypt` finds that a password matches a hash; `None` where it
/// cannot read the hash.
pub uninterp spec fn bcrypt_verdict(password: Seq<char>, hash: Seq<char>) -> Option<bool>;

/// Calls `bcrypt::verify`. The contract only names the result.
#[verifier::external_body]
fn verify_password(password: &str, hash: &str) -> (r: Option<bool>)
    ensures
        r == bcrypt_verdict(password@, hash@),
{
    bcrypt::verify(password, hash).ok()
}

/// Calls `bcrypt::hash`. The salt is drawn at random, so nothing is claimed
/// of the hash that comes back; `None` where `bcrypt` fails.
#[verifier::external_body]
fn hash_password(password: &str, cost: u32) -> Option<String> {
    bcrypt::hash(password, cost).ok()
}

/// What is answered to a login, given the user found under the email of the
/// form and what the password check said of the stored hash.
pub open spec fn login_outcome(
    found: Option<(i32, Seq<char>)>,
    verdict: Option<bool>,
) -> Result<AuthReplyView, AppError> {
    match found {
        None => Ok(AuthReplyView::Rejected { toast: login_failed_toast() }),
        Some((id, username)) => match verdict {
            None => Err(AppError::HashError),
            Some(false) => Ok(AuthReplyView::Rejected { toast: login_failed_toast() }),
            Some(true) => Ok(
                AuthReplyView::Welcomed {
                    toast: logged_in_toast(username),
                    user_id: id,
                    username,
                },
            ),
        },
    }
}

/// The reply as plain values, on both sides of a result.
pub open spec fn reply_view(r: Result<AuthReply, AppError>) -> Result<AuthReplyView, AppError> {
    match r {
        Ok(reply) => Ok(reply@),
        Err(e) => Err(e),
    }
}

/// Answers a login for a user that was found, given what the password check
/// said: a failed check is an error, a wrong password is turned down, a
/// right one lets the user in.
pub fn judge_login(user: &StoredUser, verdict: Option<bool>) -> (r: Result<AuthReply, AppError>)
    ensures
        reply_view(r) == login_outcome(Some((user.id, user.username@)), verdict),
{
    match verdict {
        None => Err(AppError::HashError),
        Some(false) => Ok(
            AuthReply::Rejected {
                toast: toast(ToastKind::Error, "Login failed", "Invalid email or password"),
            },
        ),
        Some(true) => {
            let mut message = String::from_str("Welcome back, ");
            message.append(user.username.as_str());
            message.append("!");
            Ok(
                AuthReply::Welcomed {
                    toast: Toast { kind: ToastKind::Success, title: "".to_owned(), message },
                    user_id: user.id,
                    username: user.username.clone(),
                },
            )
        },
    }
}

/// Answers a login, given the user found under the email of the form, if
/// there is one. An unknown email and a wrong password get the same notice.
pub fn login_reply(form: &LoginForm, found: Option<&StoredUser>) -> (r: Result<AuthReply, AppError>)
    ensures
        reply_view(r) == login_outcome(
            match found {
                Some(user) => Some((user.id, user.username@)),
                None => None,
            },
            match found {
                Some(user) => bcrypt_verdict(form.password@, user.password_hash@),
                None => None,
            },
        ),
{
    match found {
        None => Ok(
            AuthReply::Rejected {
                toast: toast(ToastKind::Error, "Login failed", "Invalid email or password"),
            },
        ),
        Some(user) => judge_login(
            user,
            verify_password(form.password.as_str(), user.password_hash.as_str()),
        ),
    }
}

/// Where a sign-up stands.
#[derive(Debug, Clone, Copy, PartialEq, Eq, Structural)]
pub enum SignupStep {
    /// Whether the email is registered is awaited.
    CheckEmail,
    /// Whether the user name is taken is awaited.
    CheckUsername,
    /// The insert of the new user is awaited.
    StoreUser,
    /// The sign-up is answered.
    Done,
}

/// What the driver is to do next for a sign-up.
#[derive(Debug)]
pub enum SignupAction {
    FindEmail { email: String },
    FindUsername { username: String },
    InsertUser { email: String, password_hash: String, username: String },
    Reply { reply: AuthReply },
    Fail { error: AppError },
}

/// A sign-up action as plain values.
pub enum SignupActionView {
    FindEmail { email: Seq<char> },
    FindUsername { username: Seq<char> },
    InsertUser { email: Seq<char>, password_hash: Seq<char>, username: Seq<char> },
    Reply { reply: AuthReplyView },
    Fail { error: AppError },
}

impl View for SignupAction {
    type V = SignupActionView;

    open spec fn view(&self) -> SignupActionView {
        match self {
            SignupAction::FindEmail { email } => SignupActionView::FindEmail { email: email@ },
            SignupAction::FindUsername { username } => SignupActionView::FindUsername {
                username: username@,
            },
            SignupAction::InsertUser { email, password_hash, username } => {
                SignupActionView::InsertUser {
                    email: email@,
                    password_hash: password_hash@,
                    username: username@,
                }
            },
            SignupAction::Reply { reply } => SignupActionView::Reply { reply: reply@ },
            SignupAction::Fail { error } => SignupActionView::Fail { error: *error },
        }
    }
}

/// How a sign-up ended.
#[derive(Debug, Clone, Copy, PartialEq, Eq, Structural)]
pub enum SignupEnd {
    EmailTaken,
    UsernameTaken,
    HashFailed,
    LookupFailed,
    StoreFailed,
    Stored { user_id: i32 },
}

/// The handling of one sign-up form.
pub struct SignupFlow {
    form: SignupForm,
    step: SignupStep,
    password_hash: String,
    end: Option<SignupEnd>,
}

/// A sign-up as plain values. `password_hash` is read only while the user
/// is being stored; `end` is set once the sign-up is answered.
pub struct SignupView {
    pub email: Seq<char>,
    pub username: Seq<char>,
    pub password: Seq<char>,
    pub step: SignupStep,
    pub password_hash: Seq<char>,
    pub end: Option<SignupEnd>,
}

/// A sign-up as it begins.
pub open spec fn signup_start(
    email: Seq<char>,
    password: Seq<char>,
    username: Seq<char>,
) -> SignupView {
    SignupView {
        email,
        username,
        password,
        step: SignupStep::CheckEmail,
        password_hash: Seq::empty(),
        end: None,
    }
}

/// A sign-up that ended.
pub open spec fn signup_ended(v: SignupView, end: SignupEnd) -> SignupView {
    SignupView { step: SignupStep::Done, end: Some(end), ..v }
}

/// The sign-up after a lookup came back: `found` says whether a user was
/// found, `None` that the lookup failed. `hashed` is the hash of the
/// password, `None` where hashing failed; it is read only where the user
/// name proved free.
pub open spec fn after_lookup(
    v: SignupView,
    found: Option<bool>,
    hashed: Option<Seq<char>>,
) -> SignupView {
    match v.step {
        SignupStep::CheckEmail => match found {
            None => signup_ended(v, SignupEnd::LookupFailed),
            Some(true) => signup_ended(v, SignupEnd::EmailTaken),
            Some(false) => SignupView { step: SignupStep::CheckUsername, ..v },
        },
        SignupStep::CheckUsername => match found {
            None => signup_ended(v, SignupEnd::LookupFailed),
            Some(true) => signup_ended(v, SignupEnd::UsernameTaken),
            Some(false) => match hashed {
                None => signup_ended(v, SignupEnd::HashFailed),
                Some(hash) => SignupView { step: SignupStep::StoreUser, password_hash: hash, ..v },
            },
        },
        _ => v,
    }
}

/// The sign-up after the insert came back, with the id of the new user or
/// without.
pub open spec fn after_store(v: SignupView, user_id: Option<i32>) -> SignupView {
    match v.step {
        SignupStep::StoreUser => match user_id {
            Some(id) => signup_ended(v, SignupEnd::Stored { user_id: id }),
            None => signup_ended(v, SignupEnd::StoreFailed),
        },
        _ => v,
    }
}

/// What is answered to a sign-up that ended.
pub open spec fn signup_answer(v: SignupView, end: SignupEnd) -> SignupActionView {
    match end {
        SignupEnd::EmailTaken => SignupActionView::Reply {
            reply: AuthReplyView::Rejected { toast: email_taken_toast() },
        },
        SignupEnd::UsernameTaken => SignupActionView::Reply {
            reply: AuthReplyView::Rejected { toast: username_taken_toast() },
        },
        SignupEnd::HashFailed => SignupActionView::Fail { error: AppError::HashError },
        SignupEnd::LookupFailed => SignupActionView::Fail { error: AppError::DatabaseError },
        SignupEnd::StoreFailed => SignupActionView::Fail { error: AppError::DatabaseError },
        SignupEnd::Stored { user_id } => SignupActionView::Reply {
            reply: AuthReplyView::Welcomed {
                toast: signed_up_toast(),
                user_id,
                username: v.username,
            },
        },
    }
}

/// What a sign-up awaits.
pub open spec fn signup_pending(v: SignupView) -> SignupActionView {
    match v.step {
        SignupStep::CheckEmail => SignupActionView::FindEmail { email: v.email },
        SignupStep::CheckUsername => SignupActionView::FindUsername { username: v.username },
        SignupStep::StoreUser => SignupActionView::InsertUser {
            email: v.email,
            password_hash: v.password_hash,
            username: v.username,
        },
        SignupStep::Done => signup_answer(v, v.end->0),
    }
}

impl View for SignupFlow {
    type V = SignupView;

    closed spec fn view(&self) -> SignupView {
        SignupView {
            email: self.form.email@,
            username: self.form.username@,
            password: self.form.password@,
            step: self.step,
            password_hash: self.password_hash@,
            end: self.end,
        }
    }
}

/// What holds of a sign-up at all times: it has an end exactly when it is
/// done.
pub open spec fn signup_inv(v: SignupView) -> bool {
    v.step == SignupStep::Done <==> v.end is Some
}

impl SignupFlow {
    /// The flow is well formed: it meets what holds of a sign-up at all
    /// times.
    pub closed spec fn wf(&self) -> bool {
        signup_inv(self@)
    }

    /// A well-formed flow has an end exactly when it is done, and then what
    /// it awaits is the answer to that end.
    pub proof fn lemma_wf_inv(&self)
        requires
            self.wf(),
        ensures
            signup_inv(self@),
            self@.step == SignupStep::Done ==> self@.end is Some && signup_pending(self@)
                == signup_answer(self@, self@.end->0),
    {
    }

    /// The handling of a form, before anything was looked up.
    pub fn new(form: SignupForm) -> (flow: SignupFlow)
        ensures
            flow.wf(),
            flow@ == signup_start(form.email@, form.password@, form.username@),
    {
        SignupFlow { form, step: SignupStep::CheckEmail, password_hash: String::new(), end: None }
    }

    /// Where the sign-up stands.
    pub fn step(&self) -> (step: SignupStep)
        ensures
            step == self@.step,
    {
        self.step
    }

    /// How the sign-up ended, once it has.
    pub fn end(&self) -> (end: Option<SignupEnd>)
        ensures
            end == self@.end,
    {
        self.end
    }

    /// What the driver is to do next.
    pub fn pending(&self) -> (action: SignupAction)
        requires
            self.wf(),
        ensures
            action@ == signup_pending(self@),
    {
        match self.step {
            SignupStep::CheckEmail => SignupAction::FindEmail { email: self.form.email.clone() },
            SignupStep::CheckUsername => SignupAction::FindUsername {
                username: self.form.username.clone(),
            },
            SignupStep::StoreUser => SignupAction::InsertUser {
                email: self.form.email.clone(),
                password_hash: self.password_hash.clone(),
                username: self.form.username.clone(),
            },
            SignupStep::Done => match self.end {
                Some(SignupEnd::EmailTaken) => SignupAction::Reply {
                    reply: AuthReply::Rejected {
                        toast: toast(
                            ToastKind::Error,
                            "Email exists",
                            "This email is already registered",
                        ),
                    },
                },
                Some(SignupEnd::UsernameTaken) => SignupAction::Reply {
                    reply: AuthReply::Rejected {
                        toast: toast(
                            ToastKind::Error,
                            "Username exists",
                            "This username is already taken",
                        ),
                    },
                },
                Some(SignupEnd::HashFailed) => SignupAction::Fail { error: AppError::HashError },
                Some(SignupEnd::LookupFailed) => SignupAction::Fail {
                    error: AppError::DatabaseError,
                },
                Some(SignupEnd::StoreFailed) => SignupAction::Fail {
                    error: AppError::DatabaseError,
                },
                Some(SignupEnd::Stored { user_id }) => SignupAction::Reply {
                    reply: AuthReply::Welcomed {
                        toast: toast(ToastKind::Success, "", "Welcome to EpiFlipBoard!"),
                        user_id,
                        username: self.form.username.clone(),
                    },
                },
                None => SignupAction::Fail { error: AppError::DatabaseError },
            },
        }
    }

    /// Takes what a lookup found, and the hash of the password for the case
    /// that the user name proved free. Outside the two lookups nothing
    /// changes.
    pub fn looked_up_with(&mut self, found: Option<bool>, hashed: Option<String>)
        requires
            old(self).wf(),
        ensures
            final(self).wf(),
            final(self)@ == after_lookup(old(self)@, found, hashed.deep_view()),
    {
        match self.step {
            SignupStep::CheckEmail => match found {
                None => {
                    self.step = SignupStep::Done;
                    self.end = Some(SignupEnd::LookupFailed);
                },
                Some(true) => {
                    self.step = SignupStep::Done;
                    self.end = Some(SignupEnd::EmailTaken);
                },
                Some(false) => {
                    self.step = SignupStep::CheckUsername;
                },
            },
            SignupStep::CheckUsername => match found {
                None => {
                    self.step = SignupStep::Done;
                    self.end = Some(SignupEnd::LookupFailed);
                },
                Some(true) => {
                    self.step = SignupStep::Done;
                    self.end = Some(SignupEnd::UsernameTaken);
                },
                Some(false) => match hashed {
                    None => {
                        self.step = SignupStep::Done;
                        self.end = Some(SignupEnd::HashFailed);
                    },
                    Some(hash) => {
                        self.password_hash = hash;
                        self.step = SignupStep::StoreUser;
                    },
                },
            },
            _ => {},
        }
    }

    /// Takes what a lookup found. Where the user name proved free the
    /// password is hashed, with a salt drawn at random: whatever hash comes
    /// back, the sign-up moves as `looked_up_with` moves it for that hash.
    pub fn looked_up(&mut self, found: Option<bool>)
        requires
            old(self).wf(),
        ensures
            final(self).wf(),
            exists|hashed: Option<Seq<char>>|
                final(self)@ == #[trigger] after_lookup(old(self)@, found, hashed),
    {
        let free_name = match (self.step, found) {
            (SignupStep::CheckUsername, Some(false)) => true,
            _ => false,
        };
        let hashed = if free_name {
            hash_password(self.form.password.as_str(), HASH_COST)
        } else {
            None
        };
        self.looked_up_with(found, hashed);
    }

    /// Takes the outcome of the insert: the id of the new user, or `None`
    /// where the insert failed. Outside the storing step nothing changes.
    pub fn stored(&mut self, user_id: Option<i32>)
        requires
            old(self).wf(),
        ensures
            final(self).wf(),
            final(self)@ == after_store(old(self)@, user_id),
    {
        match self.step {
            SignupStep::StoreUser => {
                self.step = SignupStep::Done;
                self.end = Some(
                    match user_id {
                        Some(id) => SignupEnd::Stored { user_id: id },
                        None => SignupEnd::StoreFailed,
                    },
                );
            },
            _ => {},
        }
    }
}

/// Every step of a sign-up keeps what holds of it at all times.
pub proof fn lemma_signup_steps_keep_inv(
    v: SignupView,
    found: Option<bool>,
    hashed: Option<Seq<char>>,
    user_id: Option<i32>,
)
    requires
        signup_inv(v),
    ensures
        signup_inv(signup_start(v.email, v.password, v.username)),
        signup_inv(after_lookup(v, found, hashed)),
        signup_inv(after_store(v, user_id)),
{
}

} // verus!
