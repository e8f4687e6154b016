//! The client: what it holds, the requests it makes, and signing in.

pub mod auth;
pub mod endpoints;
pub mod error;
pub mod protocol;
pub mod request;
pub mod response;
pub mod session;

pub use auth::{
    Auth2FAMethod, AuthData, AuthDataEmail, AuthParameters, AuthReply, EmailCallback,
    PendingAuth, SavedAuthDetails, SignInBranch, SignInOutcome, SigninParameters,
    SigninParametersView, TOTPCallback, TotpBranch, TotpSignIn,
};
pub use endpoints::{
    Endpoint, EndpointArtist, EndpointMood, EndpointPlaylist, EndpointRelease, EndpointUser,
    TargetAPI,
};
pub use error::{Error, ErrorView, RequestError};
pub use request::{
    Expect, ExpectView, Field, FieldView, Method, PaginationParameters, PlaylistItemMod,
    PlaylistItemOperations, PlaylistItemsMod, PlaylistItemsOperations, Post, Request,
    RequestParameters, RequestParametersView, RequestView,
};
pub use response::{Paginated, Wrapped};
pub use session::{Cookie, CookieJar, CookieView};

use crate::client::auth::{
    reply_advances, sign_in_branch, totp_branch, MISSING_AUTH_DATA, MISSING_CONTEXT_EMAIL,
    MISSING_CONTEXT_TOTP, MISSING_COOKIE, MISSING_EMAIL_DATA, MISSING_EMAIL_ID, MISSING_METHOD,
    MISSING_TOTP, RESEND_EMAIL_PATH, SIGN_IN_PATH,
};
use crate::client::request::standard_headers;
use crate::client::session::{
    lemma_find_cookie, session_proof, SESSION_COOKIE, SESSION_HOST, SESSION_PATH,
};
use crate::text::{opt_view, pairs_view};
use core::marker::PhantomData;
use vstd::prelude::*;
use vstd::string::*;

verus! {

/// The name under which the client presents itself.
pub const USER_AGENT: &'static str = "bombay v0.1.0";

/// The root of the player API.
pub const URL_PLAYER_API: &'static str = "https://player.monstercat.app/api";

/// The root of the website's API.
pub const URL_WWW_API: &'static str = "https://www.monstercat.com/";

/// What a client may do: a marker type says whether its holder is signed in.
pub trait AuthState {
    /// Whether a client in this state may use what belongs to an account.
    spec fn privileged() -> bool;
}

/// The state of a client that nobody is signed in to.
#[derive(Debug)]
pub struct SignedOut;

/// The state of a client that a user is signed in to.
#[derive(Debug)]
pub struct SignedIn;

impl AuthState for SignedOut {
    open spec fn privileged() -> bool {
        false
    }
}

impl AuthState for SignedIn {
    open spec fn privileged() -> bool {
        true
    }
}

/// A client of the service.
///
/// Its state parameter decides what it offers. A client in the state
/// [`SignedIn`] comes only out of [`Client::verify_signin_cookie`], and holds
/// the cookie that proved the session.
#[derive(Debug)]
pub struct Client<ClientAuthState: AuthState = SignedOut> {
    auth: Option<SavedAuthDetails>,
    session: Option<Cookie>,
    url_player_api: String,
    url_www_api: String,
    user_agent: String,
    user_state: PhantomData<ClientAuthState>,
}

/// A [`Client`] as a mathematical value.
pub ghost struct ClientView {
    /// The sign-in that waits for its second factor.
    pub pending: Option<PendingAuth>,
    /// The cookie that proved the session.
    pub session: Option<CookieView>,
    pub player_api: Seq<char>,
    pub www_api: Seq<char>,
    pub user_agent: Seq<char>,
}

impl ClientView {
    /// The root that requests to `api` start with.
    pub open spec fn base(self, api: TargetAPI) -> Seq<char> {
        match api {
            TargetAPI::Player => self.player_api,
            TargetAPI::WWW => self.www_api,
        }
    }

    /// The request that a client makes of a method, a target, a path and
    /// query parameters.
    pub open spec fn request(
        self,
        method: Method,
        api: TargetAPI,
        path: Seq<char>,
        queries: Seq<(Seq<char>, Seq<char>)>,
        expect: ExpectView,
    ) -> RequestView {
        RequestView {
            method,
            url: self.base(api) + path,
            headers: standard_headers(self.user_agent),
            queries,
            expect,
        }
    }

    /// The request that submits a sign-in body.
    pub open spec fn sign_in_request(self) -> RequestView {
        self.request(
            Method::Post,
            TargetAPI::Player,
            SIGN_IN_PATH@,
            Seq::empty(),
            ExpectView::Json,
        )
    }

    /// The same client with another pending sign-in.
    pub open spec fn with_pending(self, pending: Option<PendingAuth>) -> ClientView {
        ClientView { pending, ..self }
    }

    /// The signed-in client that comes of this one when the transport holds
    /// `cookies`, if they prove a session.
    pub open spec fn verified(self, cookies: Seq<CookieView>) -> Option<ClientView> {
        match session_proof(cookies) {
            Some(proof) => Some(ClientView { pending: None, session: Some(proof), ..self }),
            None => None,
        }
    }

    /// This client after a verification against `cookies`: the pending
    /// sign-in is gone where they prove a session, and stays where not.
    pub open spec fn after_verification(self, cookies: Seq<CookieView>) -> ClientView {
        if session_proof(cookies) is Some {
            self.with_pending(None)
        } else {
            self
        }
    }
}

/// The views of the queries that a request is given, none where it is given none.
pub open spec fn queries_view(queries: Option<Vec<(String, String)>>) -> Seq<(Seq<char>, Seq<char>)> {
    match queries {
        Some(q) => pairs_view(q@),
        None => Seq::empty(),
    }
}

impl<ClientAuthState: AuthState> View for Client<ClientAuthState> {
    type V = ClientView;

    closed spec fn view(&self) -> ClientView {
        ClientView {
            pending: match self.auth {
                Some(a) => Some(a@),
                None => None,
            },
            session: match self.session {
                Some(c) => Some(c@),
                None => None,
            },
            player_api: self.url_player_api@,
            www_api: self.url_www_api@,
            user_agent: self.user_agent@,
        }
    }
}

fn clone_opt(text: &Option<String>) -> (copy: Option<String>)
    ensures
        opt_view(copy) == opt_view(*text),
{
    match text {
        Some(t) => Some(t.clone()),
        None => None,
    }
}

impl<ClientAuthState: AuthState> Client<ClientAuthState> {
    #[verifier::type_invariant]
    spec fn well_formed(self) -> bool {
        if ClientAuthState::privileged() {
            self.auth is None && (self.session matches Some(c) && c@.is_session_proof())
        } else {
            self.session is None
        }
    }

    /// The part of the service that knows the artists.
    pub fn artist(&self) -> (endpoint: EndpointArtist<'_, ClientAuthState>)
        ensures
            endpoint.client == self,
    {
        EndpointArtist { client: self }
    }

    /// The part of the service that knows the moods.
    pub fn mood(&self) -> (endpoint: EndpointMood<'_, ClientAuthState>)
        ensures
            endpoint.client == self,
    {
        EndpointMood { client: self }
    }

    /// The part of the service that knows the playlists.
    pub fn playlist(&self) -> (endpoint: EndpointPlaylist<'_, ClientAuthState>)
        ensures
            endpoint.client == self,
    {
        EndpointPlaylist { client: self }
    }

    /// The part of the service that knows the releases.
    pub fn release(&self) -> (endpoint: EndpointRelease<'_, ClientAuthState>)
        ensures
            endpoint.client == self,
    {
        EndpointRelease { client: self }
    }

    /// Makes a GET request to the API, the answer to be read as JSON.
    pub fn get(
        &self,
        api_type: TargetAPI,
        path: &str,
        queries: Option<Vec<(String, String)>>,
    ) -> (request: Request)
        ensures
            request@ == self@.request(
                Method::Get,
                api_type,
                path@,
                queries_view(queries),
                ExpectView::Json,
            ),
    {
        self.build_get_request(api_type, path, queries)
    }

    /// Makes a GET request to the API, the answer to be handed on as bytes.
    pub fn get_reader(
        &self,
        api_type: TargetAPI,
        path: &str,
        queries: Option<Vec<(String, String)>>,
    ) -> (request: Request)
        ensures
            request@ == self@.request(
                Method::Get,
                api_type,
                path@,
                queries_view(queries),
                ExpectView::Bytes,
            ),
    {
        let mut request = self.build_get_request(api_type, path, queries);
        request.expect = Expect::Bytes;
        request
    }

    /// Makes a POST request to the API, the answer to be read as JSON.
    pub fn post<B>(
        &self,
        api_type: TargetAPI,
        path: &str,
        queries: Option<Vec<(String, String)>>,
        data: Option<B>,
    ) -> (post: Post<B>)
        ensures
            post.request@ == self@.request(
                Method::Post,
                api_type,
                path@,
                queries_view(queries),
                ExpectView::Json,
            ),
            post.data == data,
    {
        Post { request: self.build_post_request(api_type, path, queries), data }
    }

    /// Makes a POST request to the API whose answer carries nothing.
    pub fn post_empty_response<B>(
        &self,
        api_type: TargetAPI,
        path: &str,
        queries: Option<Vec<(String, String)>>,
        data: Option<B>,
    ) -> (post: Post<B>)
        ensures
            post.request@ == self@.request(
                Method::Post,
                api_type,
                path@,
                queries_view(queries),
                ExpectView::Nothing,
            ),
            post.data == data,
    {
        let mut request = self.build_post_request(api_type, path, queries);
        request.expect = Expect::Nothing;
        Post { request, data }
    }

    /// The address of `path` under the root of `api`.
    fn address(&self, api: TargetAPI, path: &str) -> (url: String)
        ensures
            url@ == self@.base(api) + path@,
    {
        match api {
            TargetAPI::Player => self.url_player_api.clone().concat(path),
            TargetAPI::WWW => self.url_www_api.clone().concat(path),
        }
    }

    /// The headers that every request carries.
    fn headers(&self) -> (headers: Vec<(String, String)>)
        ensures
            pairs_view(headers@) == standard_headers(self@.user_agent),
    {
        let mut headers: Vec<(String, String)> = Vec::new();
        headers.push((String::from_str("User-Agent"), self.user_agent.clone()));
        headers.push((String::from_str("Accept"), String::from_str("application/json")));
        assert(pairs_view(headers@) =~= standard_headers(self@.user_agent));
        headers
    }

    /// Builds the GET request for a path of the targeted API, with its query
    /// parameters.
    pub fn build_get_request(
        &self,
        api: TargetAPI,
        path: &str,
        queries: Option<Vec<(String, String)>>,
    ) -> (request: Request)
        ensures
            request@ == self@.request(Method::Get, api, path@, queries_view(queries), ExpectView::Json),
    {
        let request = Request {
            method: Method::Get,
            url: self.address(api, path),
            headers: self.headers(),
            queries: Vec::new(),
            expect: Expect::Json,
        };
        assert(pairs_view(request.queries@) =~= Seq::empty());
        self.add_request_queries(request, queries)
    }

    /// Builds the POST request for a path of the targeted API, with its query
    /// parameters.
    pub fn build_post_request(
        &self,
        api: TargetAPI,
        path: &str,
        queries: Option<Vec<(String, String)>>,
    ) -> (request: Request)
        ensures
            request@ == self@.request(
                Method::Post,
                api,
                path@,
                queries_view(queries),
                ExpectView::Json,
            ),
    {
        let request = Request {
            method: Method::Post,
            url: self.address(api, path),
            headers: self.headers(),
            queries: Vec::new(),
            expect: Expect::Json,
        };
        assert(pairs_view(request.queries@) =~= Seq::empty());
        self.add_request_queries(request, queries)
    }

    /// Adds query parameters to a request, behind those that it has.
    pub fn add_request_queries(
        &self,
        req: Request,
        queries: Option<Vec<(String, String)>>,
    ) -> (request: Request)
        ensures
            request@ == (RequestView { queries: req@.queries + queries_view(queries), ..req@ }),
    {
        let mut req = req;
        if let Some(parameters) = queries {
            let mut parameters = parameters;
            let ghost before = req.queries@;
            let ghost added = parameters@;
            req.queries.append(&mut parameters);
            assert(pairs_view(before + added) =~= pairs_view(before) + pairs_view(added));
        } else {
            assert(req@.queries + Seq::empty() =~= req@.queries);
        }
        req
    }
}


/// Whether `res` and `after` are what verifying the session of `before`
/// against `cookies` gives: with a session cookie, the signed-in client and no
/// pending sign-in any more; without one, the error and the client as it was.
pub open spec fn verification(
    before: ClientView,
    cookies: Seq<CookieView>,
    after: ClientView,
    res: Result<Client<SignedIn>, Error>,
) -> bool {
    &&& after == before.after_verification(cookies)
    &&& match before.verified(cookies) {
        Some(v) => res matches Ok(c) && c@ == v,
        None => res matches Err(e) && e@ == ErrorView::SignIn(MISSING_COOKIE@),
    }
}

/// Whether a signed-in client is one that a verification against `cookies`
/// makes: the cookies hold a session cookie, the client holds the first such,
/// and no sign-in is pending on it.
pub open spec fn signed_in_by(client: ClientView, cookies: Seq<CookieView>) -> bool {
    &&& client.pending is None
    &&& client.session matches Some(proof) && proof.is_session_proof() && cookies.contains(proof)
    &&& client.session == session_proof(cookies)
}

/// Whether `res` and `after` are what the answer `reply` to the opening
/// request of a sign-in, with the cookies that the transport holds after it,
/// makes of the client `before`.
///
/// Where the answer asks for no second factor, or could not be had, the
/// session is verified. Where it asks for one, the credentials are kept, with
/// the identifier of the confirmation email where that is the factor. Where
/// it lacks what its second factor needs, the error says what is missing and
/// the client stays as it was.
pub open spec fn sign_in_step(
    before: ClientView,
    email: Seq<char>,
    password: Seq<char>,
    reply: Result<AuthReply, Error>,
    cookies: Seq<CookieView>,
    after: ClientView,
    res: Result<SignInOutcome, Error>,
) -> bool {
    match sign_in_branch(reply) {
        SignInBranch::Verify => {
            &&& after == before.after_verification(cookies)
            &&& match before.verified(cookies) {
                Some(v) => res matches Ok(SignInOutcome::Authenticated(c)) && c@ == v,
                None => res matches Err(e) && e@ == ErrorView::SignIn(MISSING_COOKIE@),
            }
        },
        SignInBranch::Email(id) => {
            &&& after == before.with_pending(
                Some(PendingAuth { email, email_id: Some(id), password }),
            )
            &&& res matches Ok(SignInOutcome::Email(_))
        },
        SignInBranch::Totp => {
            &&& after == before.with_pending(Some(PendingAuth { email, email_id: None, password }))
            &&& res matches Ok(SignInOutcome::TOTP(_))
        },
        SignInBranch::Malformed(reason) => {
            &&& after == before
            &&& res matches Err(e) && e@ == ErrorView::SignIn(reason)
        },
    }
}

/// Whether `res` and `after` are what the answer `reply` to the opening
/// request of a sign-in with the one-time code `code` at hand, with the
/// cookies that the transport holds after it, makes of the client `before`.
///
/// Where the answer asks for a second factor, the credentials are kept; where
/// that factor is a one-time code, the request that submits the code comes
/// back. In every other case the session is verified. An answer that asks for
/// a second factor and names none is an error, and the client stays as it was.
pub open spec fn totp_sign_in_step(
    before: ClientView,
    email: Seq<char>,
    password: Seq<char>,
    code: Seq<char>,
    reply: Result<AuthReply, Error>,
    cookies: Seq<CookieView>,
    after: ClientView,
    res: Result<TotpSignIn, Error>,
) -> bool {
    let pending = PendingAuth { email, email_id: None, password };
    match totp_branch(reply) {
        TotpBranch::Malformed => {
            &&& after == before
            &&& res matches Err(e) && e@ == ErrorView::SignIn(MISSING_METHOD@)
        },
        TotpBranch::Submit => {
            &&& after == before.with_pending(Some(pending))
            &&& res matches Ok(TotpSignIn::Resume(post))
            &&& post.request@ == before.sign_in_request()
            &&& post.data matches Some(body) && body@ == pending.totp_body(code)
        },
        TotpBranch::Verify(keeps) => {
            let kept = if keeps {
                before.with_pending(Some(pending))
            } else {
                before
            };
            &&& after == kept.after_verification(cookies)
            &&& match kept.verified(cookies) {
                Some(v) => res matches Ok(TotpSignIn::Authenticated(c)) && c@ == v,
                None => res matches Err(e) && e@ == ErrorView::SignIn(MISSING_COOKIE@),
            }
        },
    }
}

impl Default for Client<SignedOut> {
    /// A signed-out client of the service's own addresses.
    fn default() -> (client: Client<SignedOut>)
        ensures
            client@ == (ClientView {
                pending: None,
                session: None,
                player_api: URL_PLAYER_API@,
                www_api: URL_WWW_API@,
                user_agent: USER_AGENT@,
            }),
    {
        Client {
            auth: None,
            session: None,
            url_player_api: String::from_str(URL_PLAYER_API),
            url_www_api: String::from_str(URL_WWW_API),
            user_agent: String::from_str(USER_AGENT),
            user_state: PhantomData,
        }
    }
}

impl Client<SignedOut> {
    /// Creates a signed-out client of the given addresses.
    pub fn new(player_api: String, www_api: String) -> (client: Client<SignedOut>)
        ensures
            client@ == (ClientView {
                pending: None,
                session: None,
                player_api: player_api@,
                www_api: www_api@,
                user_agent: USER_AGENT@,
            }),
    {
        Client {
            auth: None,
            session: None,
            url_player_api: player_api,
            url_www_api: www_api,
            user_agent: String::from_str(USER_AGENT),
            user_state: PhantomData,
        }
    }

    /// Whether a sign-in waits for its second factor.
    pub fn has_pending(&self) -> (pending: bool)
        ensures
            pending == self@.pending is Some,
    {
        self.auth.is_some()
    }

    /// The request that opens a sign-in: the credentials, without a second
    /// factor, for the sign-in endpoint.
    pub fn sign_in_request(&self, email: String, password: String) -> (post: Post<
        SigninParameters,
    >)
        ensures
            post.request@ == self@.sign_in_request(),
            post.data matches Some(body) && body@ == (SigninParametersView {
                email: email@,
                password: password@,
                auth: None,
            }),
    {
        let request = self.build_post_request(TargetAPI::Player, SIGN_IN_PATH, None);
        Post { request, data: Some(SigninParameters { email, password, auth: None }) }
    }

    /// Decides how a sign-in goes on, from the answer to its opening request
    /// and the cookies that the transport holds after it.
    ///
    /// Where the answer asks for no second factor, or could not be had at
    /// all, the session is verified at once. Where it asks for one, the
    /// credentials are kept and the continuation for it comes back; an
    /// answer that lacks what its second factor needs is an error that says
    /// what is missing, and changes nothing.
    pub fn sign_in(
        &mut self,
        email: String,
        password: String,
        reply: Result<AuthReply, Error>,
        cookies: &CookieJar,
    ) -> (res: Result<SignInOutcome, Error>)
        ensures
            sign_in_step(
                old(self)@,
                email@,
                password@,
                reply,
                cookies@,
                final(self)@,
                res,
            ),
            res matches Ok(SignInOutcome::Authenticated(c)) ==> signed_in_by(c@, cookies@),
            res is Err ==> final(self)@ == old(self)@,
    {
        proof {
            use_type_invariant(&*self);
        }
        if let Ok(resp) = reply {
            if resp.needs_2fa {
                let second_factor = match resp.default_auth_type {
                    Some(method) => method,
                    None => {
                        return Err(Error::SignIn(MISSING_METHOD));
                    },
                };
                let auth_data = match resp.auth_data {
                    Some(data) => data,
                    None => {
                        return Err(Error::SignIn(MISSING_AUTH_DATA));
                    },
                };
                match second_factor {
                    Auth2FAMethod::Email => {
                        let mail = match auth_data.email {
                            Some(mail) => mail,
                            None => {
                                return Err(Error::SignIn(MISSING_EMAIL_DATA));
                            },
                        };
                        let id = match mail.id {
                            Some(id) => id,
                            None => {
                                return Err(Error::SignIn(MISSING_EMAIL_ID));
                            },
                        };
                        self.auth = Some(SavedAuthDetails { email, email_id: Some(id), password });
                        return Ok(SignInOutcome::Email(EmailCallback::new()));
                    },
                    Auth2FAMethod::Totp => match auth_data.totp {
                        Some(_) => {
                            self.auth = Some(SavedAuthDetails { email, email_id: None, password });
                            return Ok(SignInOutcome::TOTP(TOTPCallback::new()));
                        },
                        None => {
                            return Err(Error::SignIn(MISSING_TOTP));
                        },
                    },
                }
            }
        }
        match self.verify_signin_cookie(cookies) {
            Ok(client) => Ok(SignInOutcome::Authenticated(client)),
            Err(e) => Err(e),
        }
    }

    /// Decides what follows from the answer to a resumed sign-in.
    ///
    /// The session is verified where the answer was read, or where the
    /// transport reported the status 200 as an error. Any other error comes
    /// back as it is, and the client stays as it was.
    pub fn try_mfa_signin(&mut self, reply: Result<AuthReply, Error>, cookies: &CookieJar) -> (res:
        Result<Client<SignedIn>, Error>)
        ensures
            reply_advances(reply) ==> verification(old(self)@, cookies@, final(self)@, res),
            !reply_advances(reply) ==> final(self)@ == old(self)@ && res == Err::<
                Client<SignedIn>,
                Error,
            >(reply->Err_0),
            res matches Ok(c) ==> signed_in_by(c@, cookies@),
            res is Err ==> final(self)@ == old(self)@,
    {
        match reply {
            Ok(_) => self.verify_signin_cookie(cookies),
            Err(err) => {
                match err.status() {
                    Some(200) => self.verify_signin_cookie(cookies),
                    _ => Err(err),
                }
            },
        }
    }

    /// The request that opens a sign-in which is to be confirmed by email:
    /// the credentials, for the endpoint that sends the confirmation email.
    pub fn sign_in_2fa_email_request(&self, email: String, password: String) -> (post: Post<
        SigninParameters,
    >)
        ensures
            post.request@ == self@.request(
                Method::Post,
                TargetAPI::Player,
                RESEND_EMAIL_PATH@,
                Seq::empty(),
                ExpectView::Json,
            ),
            post.data matches Some(body) && body@ == (SigninParametersView {
                email: email@,
                password: password@,
                auth: None,
            }),
    {
        let request = self.build_post_request(TargetAPI::Player, RESEND_EMAIL_PATH, None);
        Post { request, data: Some(SigninParameters { email, password, auth: None }) }
    }

    /// Decides how a sign-in that is to be confirmed by email goes on, from
    /// the answer to its opening request.
    ///
    /// Where the answer identifies the confirmation email, the credentials
    /// are kept with that identifier and the email continuation comes back.
    /// An answer that was read and identifies no email is a sign-in error
    /// that says so. Where no answer could be had, the failure comes back as
    /// it was given. Either error changes nothing.
    pub fn sign_in_2fa_email(
        &mut self,
        email: String,
        password: String,
        reply: Result<AuthDataEmail, Error>,
    ) -> (res: Result<EmailCallback, Error>)
        ensures
            match reply {
                Ok(AuthDataEmail { id: Some(id), email: _ }) => {
                    &&& final(self)@ == old(self)@.with_pending(
                        Some(
                            PendingAuth { email: email@, email_id: Some(id@), password: password@ },
                        ),
                    )
                    &&& res is Ok
                },
                Ok(_) => {
                    &&& final(self)@ == old(self)@
                    &&& res matches Err(e) && e@ == ErrorView::SignIn(MISSING_EMAIL_ID@)
                },
                Err(failure) => {
                    &&& final(self)@ == old(self)@
                    &&& res == Err::<EmailCallback, Error>(failure)
                },
            },
            res is Err ==> final(self)@ == old(self)@,
    {
        proof {
            use_type_invariant(&*self);
        }
        match reply {
            Ok(email_auth_data) => {
                let id = match email_auth_data.id {
                    Some(id) => id,
                    None => {
                        return Err(Error::SignIn(MISSING_EMAIL_ID));
                    },
                };
                self.auth = Some(SavedAuthDetails { email, email_id: Some(id), password });
                Ok(EmailCallback::new())
            },
            Err(failure) => Err(failure),
        }
    }

    /// Decides how a sign-in with a one-time code at hand goes on, from the
    /// answer to its opening request and the cookies that the transport holds
    /// after it.
    ///
    /// Where the answer asks for a second factor, the credentials are kept;
    /// where that factor is a one-time code, the request that submits `code`
    /// comes back, and its answer goes to [`Client::try_mfa_signin`]. In every
    /// other case the session is verified at once. An answer that asks for a
    /// second factor and names none is an error, and changes nothing.
    pub fn sign_in_2fa_totp(
        &mut self,
        email: String,
        password: String,
        code: String,
        reply: Result<AuthReply, Error>,
        cookies: &CookieJar,
    ) -> (res: Result<TotpSignIn, Error>)
        ensures
            totp_sign_in_step(
                old(self)@,
                email@,
                password@,
                code@,
                reply,
                cookies@,
                final(self)@,
                res,
            ),
            res matches Ok(TotpSignIn::Authenticated(c)) ==> signed_in_by(c@, cookies@),
    {
        proof {
            use_type_invariant(&*self);
        }
        if let Ok(resp) = reply {
            if resp.needs_2fa {
                let second_factor = match resp.default_auth_type {
                    Some(method) => method,
                    None => {
                        return Err(Error::SignIn(MISSING_METHOD));
                    },
                };
                self.auth = Some(SavedAuthDetails { email, email_id: None, password });
                if let Auth2FAMethod::Totp = second_factor {
                    return match self.mfa_callback_totp(code) {
                        Ok(post) => Ok(TotpSignIn::Resume(post)),
                        Err(e) => Err(e),
                    };
                }
            }
        }
        match self.verify_signin_cookie(cookies) {
            Ok(client) => Ok(TotpSignIn::Authenticated(client)),
            Err(e) => Err(e),
        }
    }

    /// The request that resumes the pending sign-in once the email was
    /// confirmed, or the error that says that no sign-in is pending.
    pub fn mfa_callback_email(&self) -> (res: Result<Post<SigninParameters>, Error>)
        ensures
            match self@.pending {
                Some(pending) => {
                    &&& res matches Ok(post)
                    &&& post.request@ == self@.sign_in_request()
                    &&& post.data matches Some(body) && body@ == pending.email_body()
                },
                None => res matches Err(e) && e@ == ErrorView::SignIn(MISSING_CONTEXT_EMAIL@),
            },
    {
        let auth = match &self.auth {
            Some(auth) => auth,
            None => {
                return Err(Error::SignIn(MISSING_CONTEXT_EMAIL));
            },
        };
        let body = SigninParameters {
            email: auth.email.clone(),
            password: auth.password.clone(),
            auth: Some(AuthParameters { email: clone_opt(&auth.email_id), totp: None }),
        };
        let request = self.build_post_request(TargetAPI::Player, SIGN_IN_PATH, None);
        Ok(Post { request, data: Some(body) })
    }

    /// The request that resumes the pending sign-in with a one-time code, or
    /// the error that says that no sign-in is pending.
    pub fn mfa_callback_totp(&self, code: String) -> (res: Result<Post<SigninParameters>, Error>)
        ensures
            match self@.pending {
                Some(pending) => {
                    &&& res matches Ok(post)
                    &&& post.request@ == self@.sign_in_request()
                    &&& post.data matches Some(body) && body@ == pending.totp_body(code@)
                },
                None => res matches Err(e) && e@ == ErrorView::SignIn(MISSING_CONTEXT_TOTP@),
            },
    {
        let auth = match &self.auth {
            Some(auth) => auth,
            None => {
                return Err(Error::SignIn(MISSING_CONTEXT_TOTP));
            },
        };
        let body = SigninParameters {
            email: auth.email.clone(),
            password: auth.password.clone(),
            auth: Some(AuthParameters { email: None, totp: Some(code) }),
        };
        let request = self.build_post_request(TargetAPI::Player, SIGN_IN_PATH, None);
        Ok(Post { request, data: Some(body) })
    }

    /// Verifies the session: looks for the session cookie among the cookies
    /// that the transport holds.
    ///
    /// With the cookie, the signed-in client of the same addresses comes
    /// back, and the pending sign-in is dropped. Without it, signing in has
    /// failed, and the client stays as it was. No other function makes a
    /// signed-in client.
    pub fn verify_signin_cookie(&mut self, cookies: &CookieJar) -> (res: Result<
        Client<SignedIn>,
        Error,
    >)
        ensures
            verification(old(self)@, cookies@, final(self)@, res),
            res is Ok <==> session_proof(cookies@) is Some,
            res matches Ok(c) ==> signed_in_by(c@, cookies@),
            res is Err ==> final(self)@ == old(self)@,
    {
        proof {
            use_type_invariant(&*self);
        }
        proof {
            lemma_find_cookie(cookies@, SESSION_HOST@, SESSION_PATH@, SESSION_COOKIE@);
        }
        match cookies.get(SESSION_HOST, SESSION_PATH, SESSION_COOKIE) {
            Some(found) => {
                self.auth = None;
                Ok(
                    Client {
                        auth: None,
                        session: Some(found.copy()),
                        url_player_api: self.url_player_api.clone(),
                        url_www_api: self.url_www_api.clone(),
                        user_agent: self.user_agent.clone(),
                        user_state: PhantomData,
                    },
                )
            },
            None => Err(Error::SignIn(MISSING_COOKIE)),
        }
    }
}

impl Client<SignedIn> {
    /// The part of the service that knows the account of the user. Only a
    /// signed-in client has it.
    pub fn user(&self) -> (endpoint: EndpointUser<'_, SignedIn>)
        ensures
            endpoint.client == self,
    {
        EndpointUser { client: self }
    }

    /// The cookie that proved the session of this client.
    pub fn session(&self) -> (proof: &Cookie)
        ensures
            self@.session == Some(proof@),
            proof@.is_session_proof(),
            self@.pending is None,
    {
        proof {
            use_type_invariant(self);
        }
        match &self.session {
            Some(proof) => proof,
            None => {
                proof {
                    assert(false);
                }
                unreached()
            },
        }
    }
}

} // verus!
