//! What signing in exchanges with the service, and how an attempt can end.

use crate::client::error::{Error, ErrorView};
use crate::client::request::Post;
use crate::client::session::{CookieJar, CookieView};
use crate::client::{signed_in_by, verification, Client, ClientView, SignedIn, SignedOut};
use crate::text::opt_view;
use serde_json::Value;
use vstd::prelude::*;

verus! {

/// The reason given when a second factor is required and the answer names none.
pub const MISSING_METHOD: &'static str = "Bad sign-in response, missing 2FA method.";

/// The reason given when a second factor is required and the answer carries
/// no data for it.
pub const MISSING_AUTH_DATA: &'static str = "Bad sign-in response, missing auth data.";

/// The reason given when confirmation by email is required and the answer
/// carries no data for it.
pub const MISSING_EMAIL_DATA: &'static str = "Bad sign-in response, missing email auth data.";

/// The reason given when confirmation by email is required and the answer
/// does not identify the confirmation.
pub const MISSING_EMAIL_ID: &'static str = "Bad sign-in response, missing email id.";

/// The reason given when a one-time code is required and the answer carries
/// no marker for it.
pub const MISSING_TOTP: &'static str = "Bad sign-in response, missing TOTP.";

/// The reason given when the email continuation is resumed on a client that
/// holds no pending sign-in.
pub const MISSING_CONTEXT_EMAIL: &'static str = "Missing 2FA data, needed for email 2FA.";

/// The reason given when the one-time-code continuation is resumed on a
/// client that holds no pending sign-in.
pub const MISSING_CONTEXT_TOTP: &'static str = "Missing 2FA data, needed for TOTP 2FA.";

/// The reason given when the transport holds no session cookie.
pub const MISSING_COOKIE: &'static str = "Sign-in verification failed, missing cookie.";

/// The path of the sign-in endpoint.
pub const SIGN_IN_PATH: &'static str = "/sign-in";

/// The path of the endpoint that sends the confirmation email again.
pub const RESEND_EMAIL_PATH: &'static str = "/me/two-factor/resend-email";

/// The body of a sign-in request.
#[derive(Clone, Debug, PartialEq, Eq)]
pub struct SigninParameters {
    pub email: String,
    pub password: String,
    pub auth: Option<AuthParameters>,
}

/// The second factor in a sign-in request.
#[derive(Clone, Debug, PartialEq, Eq)]
pub struct AuthParameters {
    /// The identifier of the confirmation email.
    pub email: Option<String>,
    /// The one-time code.
    pub totp: Option<String>,
}

/// [`AuthParameters`] as a mathematical value.
pub ghost struct AuthParametersView {
    pub email: Option<Seq<char>>,
    pub totp: Option<Seq<char>>,
}

/// [`SigninParameters`] as a mathematical value.
pub ghost struct SigninParametersView {
    pub email: Seq<char>,
    pub password: Seq<char>,
    pub auth: Option<AuthParametersView>,
}

impl View for AuthParameters {
    type V = AuthParametersView;

    open spec fn view(&self) -> AuthParametersView {
        AuthParametersView { email: opt_view(self.email), totp: opt_view(self.totp) }
    }
}

impl View for SigninParameters {
    type V = SigninParametersView;

    open spec fn view(&self) -> SigninParametersView {
        SigninParametersView {
            email: self.email@,
            password: self.password@,
            auth: match self.auth {
                Some(a) => Some(a@),
                None => None,
            },
        }
    }
}

/// The answer to a sign-in request.
#[derive(Clone, Debug)]
pub struct AuthReply {
    pub auth_data: Option<AuthData>,
    pub default_auth_type: Option<Auth2FAMethod>,
    pub needs_2fa: bool,
}

/// What a sign-in answer carries for the second factor.
#[derive(Clone, Debug)]
pub struct AuthData {
    pub email: Option<AuthDataEmail>,
    /// Present and not null where a one-time code can be given.
    pub totp: Option<Value>,
}

/// The confirmation email that the service sent.
#[derive(Clone, Debug)]
pub struct AuthDataEmail {
    pub id: Option<String>,
    pub email: Option<String>,
}

/// The kinds of second factor.
#[derive(Copy, Clone, Debug, PartialEq, Eq, Structural)]
pub enum Auth2FAMethod {
    Email,
    Totp,
}

/// What a client keeps of a sign-in that waits for its second factor.
#[derive(Debug)]
pub struct SavedAuthDetails {
    pub email: String,
    pub email_id: Option<String>,
    pub password: String,
}

/// [`SavedAuthDetails`] as a mathematical value.
pub ghost struct PendingAuth {
    pub email: Seq<char>,
    pub email_id: Option<Seq<char>>,
    pub password: Seq<char>,
}

impl View for SavedAuthDetails {
    type V = PendingAuth;

    open spec fn view(&self) -> PendingAuth {
        PendingAuth {
            email: self.email@,
            email_id: opt_view(self.email_id),
            password: self.password@,
        }
    }
}

impl PendingAuth {
    /// The body that resumes the sign-in once the email was confirmed.
    pub open spec fn email_body(self) -> SigninParametersView {
        SigninParametersView {
            email: self.email,
            password: self.password,
            auth: Some(AuthParametersView { email: self.email_id, totp: None }),
        }
    }

    /// The body that resumes the sign-in with a one-time code.
    pub open spec fn totp_body(self, code: Seq<char>) -> SigninParametersView {
        SigninParametersView {
            email: self.email,
            password: self.password,
            auth: Some(AuthParametersView { email: None, totp: Some(code) }),
        }
    }
}

/// Where the answer to the first sign-in request leads.
pub ghost enum SignInBranch {
    /// No second factor is asked for: the session is verified at once.
    Verify,
    /// The sign-in waits for the confirmation email with this identifier.
    Email(Seq<char>),
    /// The sign-in waits for a one-time code.
    Totp,
    /// A second factor is asked for and the answer lacks a part, for this
    /// reason.
    Malformed(Seq<char>),
}

/// Where the answer to the first sign-in request leads. An answer that could
/// not be had, whatever the failure, leads to verification like one that asks
/// for no second factor.
pub open spec fn sign_in_branch(reply: Result<AuthReply, Error>) -> SignInBranch {
    match reply {
        Ok(r) => if !r.needs_2fa {
            SignInBranch::Verify
        } else {
            match (r.default_auth_type, r.auth_data) {
                (None, _) => SignInBranch::Malformed(MISSING_METHOD@),
                (Some(_), None) => SignInBranch::Malformed(MISSING_AUTH_DATA@),
                (Some(Auth2FAMethod::Email), Some(data)) => match data.email {
                    None => SignInBranch::Malformed(MISSING_EMAIL_DATA@),
                    Some(mail) => match mail.id {
                        None => SignInBranch::Malformed(MISSING_EMAIL_ID@),
                        Some(id) => SignInBranch::Email(id@),
                    },
                },
                (Some(Auth2FAMethod::Totp), Some(data)) => if data.totp is Some {
                    SignInBranch::Totp
                } else {
                    SignInBranch::Malformed(MISSING_TOTP@)
                },
            }
        },
        Err(_) => SignInBranch::Verify,
    }
}

/// Whether the answer to a resumed sign-in lets the session be verified: it
/// was read, or the transport reported the status 200 as an error.
pub open spec fn reply_advances(reply: Result<AuthReply, Error>) -> bool {
    match reply {
        Ok(_) => true,
        Err(e) => e@.status() == Some(200u16),
    }
}


/// Where the answer to the opening request leads when a one-time code is at
/// hand.
pub ghost enum TotpBranch {
    /// A second factor is asked for and the answer names none.
    Malformed,
    /// The code is to be submitted.
    Submit,
    /// The session is verified at once; the credentials are kept first where
    /// the answer asked for a second factor other than a one-time code.
    Verify(bool),
}

/// Where the answer to the opening request leads when a one-time code is at
/// hand.
pub open spec fn totp_branch(reply: Result<AuthReply, Error>) -> TotpBranch {
    match reply {
        Ok(r) => if !r.needs_2fa {
            TotpBranch::Verify(false)
        } else {
            match r.default_auth_type {
                None => TotpBranch::Malformed,
                Some(Auth2FAMethod::Totp) => TotpBranch::Submit,
                Some(Auth2FAMethod::Email) => TotpBranch::Verify(true),
            }
        },
        Err(_) => TotpBranch::Verify(false),
    }
}

/// How a sign-in attempt can end.
pub enum SignInOutcome {
    /// The account asks for no second factor: the client is signed in.
    Authenticated(Client<SignedIn>),
    /// The account asks for a confirmation by email: resume until the user
    /// has confirmed.
    Email(EmailCallback),
    /// The account asks for a one-time code: resume with the code.
    TOTP(TOTPCallback),
}

/// How a sign-in with a one-time code at hand goes on after its opening
/// request.
pub enum TotpSignIn {
    /// The client is signed in.
    Authenticated(Client<SignedIn>),
    /// The code is to be submitted with this request; its answer goes to
    /// [`Client::try_mfa_signin`].
    Resume(Post<SigninParameters>),
}

/// The continuation of a sign-in that waits for a confirmation by email.
///
/// It holds nothing itself: what it resumes is the sign-in that is pending on
/// the client it is given.
pub struct EmailCallback {
    token: (),
}

/// The continuation of a sign-in that waits for a one-time code.
///
/// It holds nothing itself: what it resumes is the sign-in that is pending on
/// the client it is given.
pub struct TOTPCallback {
    token: (),
}

impl EmailCallback {
    pub(crate) fn new() -> EmailCallback {
        EmailCallback { token: () }
    }

    /// The request that resumes the sign-in pending on `client`, or the error
    /// that says that none is pending.
    pub fn request(&self, client: &Client<SignedOut>) -> (res: Result<
        Post<SigninParameters>,
        Error,
    >)
        ensures
            match client@.pending {
                Some(pending) => {
                    &&& res matches Ok(post)
                    &&& post.request@ == client@.sign_in_request()
                    &&& post.data matches Some(body) && body@ == pending.email_body()
                },
                None => res matches Err(e) && e@ == ErrorView::SignIn(MISSING_CONTEXT_EMAIL@),
            },
    {
        client.mfa_callback_email()
    }

    /// Resumes the sign-in pending on `client` with the answer to the request
    /// of [`EmailCallback::request`] and the cookies that the transport holds
    /// after it.
    ///
    /// Without a pending sign-in this fails at once. A failure of any kind
    /// leaves the client as it was, so that the call can be repeated.
    pub fn resume(
        &self,
        client: &mut Client<SignedOut>,
        reply: Result<AuthReply, Error>,
        cookies: &CookieJar,
    ) -> (res: Result<Client<SignedIn>, Error>)
        ensures
            resumed(
                old(client)@,
                reply,
                cookies@,
                MISSING_CONTEXT_EMAIL@,
                final(client)@,
                res,
            ),
            res matches Ok(c) ==> signed_in_by(c@, cookies@),
            res is Err ==> final(client)@ == old(client)@,
    {
        if !client.has_pending() {
            return Err(Error::SignIn(MISSING_CONTEXT_EMAIL));
        }
        client.try_mfa_signin(reply, cookies)
    }
}

impl TOTPCallback {
    pub(crate) fn new() -> TOTPCallback {
        TOTPCallback { token: () }
    }

    /// The request that resumes the sign-in pending on `client` with a
    /// one-time code, or the error that says that none is pending.
    pub fn request(&self, client: &Client<SignedOut>, code: String) -> (res: Result<
        Post<SigninParameters>,
        Error,
    >)
        ensures
            match client@.pending {
                Some(pending) => {
                    &&& res matches Ok(post)
                    &&& post.request@ == client@.sign_in_request()
                    &&& post.data matches Some(body) && body@ == pending.totp_body(code@)
                },
                None => res matches Err(e) && e@ == ErrorView::SignIn(MISSING_CONTEXT_TOTP@),
            },
    {
        client.mfa_callback_totp(code)
    }

    /// Resumes the sign-in pending on `client` with the answer to the request
    /// of [`TOTPCallback::request`] and the cookies that the transport holds
    /// after it.
    ///
    /// Without a pending sign-in this fails at once. A failure of any kind
    /// leaves the client as it was.
    pub fn resume(
        &self,
        client: &mut Client<SignedOut>,
        reply: Result<AuthReply, Error>,
        cookies: &CookieJar,
    ) -> (res: Result<Client<SignedIn>, Error>)
        ensures
            resumed(
                old(client)@,
                reply,
                cookies@,
                MISSING_CONTEXT_TOTP@,
                final(client)@,
                res,
            ),
            res matches Ok(c) ==> signed_in_by(c@, cookies@),
            res is Err ==> final(client)@ == old(client)@,
    {
        if !client.has_pending() {
            return Err(Error::SignIn(MISSING_CONTEXT_TOTP));
        }
        client.try_mfa_signin(reply, cookies)
    }
}

/// Whether `res` and `after` are what resuming a continuation on `before`
/// gives, from the answer `reply` and the cookies that the transport holds.
pub open spec fn resumed(
    before: ClientView,
    reply: Result<AuthReply, Error>,
    cookies: Seq<CookieView>,
    missing: Seq<char>,
    after: ClientView,
    res: Result<Client<SignedIn>, Error>,
) -> bool {
    if before.pending is None {
        after == before && (res matches Err(e) && e@ == ErrorView::SignIn(missing))
    } else if reply_advances(reply) {
        verification(before, cookies, after, res)
    } else {
        after == before && res == Err::<Client<SignedIn>, Error>(reply->Err_0)
    }
}

} // verus!
