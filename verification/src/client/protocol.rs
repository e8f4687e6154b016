//! What holds of signing in as a whole: of the steps of one attempt taken
//! together, whatever the service answers.

use crate::client::auth::{
    reply_advances, resumed, sign_in_branch, AuthReply, PendingAuth, SignInBranch, SignInOutcome,
    MISSING_COOKIE,
};
use crate::client::error::{Error, ErrorView};
use crate::client::session::{session_proof, CookieView};
use crate::client::session::{lemma_find_cookie, SESSION_COOKIE, SESSION_HOST, SESSION_PATH};
use crate::client::{sign_in_step, signed_in_by, verification, Client, ClientView, SignedIn};
use vstd::prelude::*;

verus! {

/// A verification makes a signed-in client exactly when the transport holds
/// a session cookie, and the client then holds that cookie: without the
/// cookie no signed-in client comes to be.
pub proof fn lemma_signed_in_only_by_proof(before: ClientView, cookies: Seq<CookieView>)
    ensures
        before.verified(cookies) is Some <==> exists|i: int|
            0 <= i < cookies.len() && (#[trigger] cookies[i]).is_session_proof(),
        before.verified(cookies) matches Some(client) ==> signed_in_by(client, cookies),
{
    lemma_find_cookie(cookies, SESSION_HOST@, SESSION_PATH@, SESSION_COOKIE@);
}

/// A verification that fails leaves the client as it was, and one that
/// succeeds changes nothing but to drop the pending sign-in.
pub proof fn lemma_verification_keeps_client(
    before: ClientView,
    cookies: Seq<CookieView>,
    after: ClientView,
    res: Result<Client<SignedIn>, Error>,
)
    requires
        verification(before, cookies, after, res),
    ensures
        res is Err ==> after == before,
        res is Ok ==> after == before.with_pending(None),
{
}

/// Where the service asks for no second factor, a sign-in ends with a
/// signed-in client exactly when the transport then holds a session cookie;
/// without the cookie it fails for want of it, and the client stays as it
/// was.
pub proof fn lemma_sign_in_without_second_factor(
    before: ClientView,
    email: Seq<char>,
    password: Seq<char>,
    reply: Result<AuthReply, Error>,
    cookies: Seq<CookieView>,
    after: ClientView,
    res: Result<SignInOutcome, Error>,
)
    requires
        sign_in_step(before, email, password, reply, cookies, after, res),
        reply matches Ok(r) && !r.needs_2fa,
    ensures
        session_proof(cookies) is Some ==> (res matches Ok(SignInOutcome::Authenticated(c))
            && signed_in_by(c@, cookies)) && after == before.with_pending(None),
        session_proof(cookies) is None ==> (res matches Err(e) && e@ == ErrorView::SignIn(
            MISSING_COOKIE@,
        )) && after == before,
{
    lemma_signed_in_only_by_proof(before, cookies);
}

/// A failure of the opening request, whatever its kind or status, does not
/// keep a sign-in from succeeding: where the transport holds a session cookie
/// after it, the client is signed in.
pub proof fn lemma_sign_in_survives_failure(
    before: ClientView,
    email: Seq<char>,
    password: Seq<char>,
    failure: Error,
    cookies: Seq<CookieView>,
    after: ClientView,
    res: Result<SignInOutcome, Error>,
)
    requires
        sign_in_step(before, email, password, Err(failure), cookies, after, res),
        session_proof(cookies) is Some,
    ensures
        res matches Ok(SignInOutcome::Authenticated(c)) && signed_in_by(c@, cookies),
{
    lemma_signed_in_only_by_proof(before, cookies);
}

/// Where the service asks for a one-time code, the sign-in waits for it with
/// the credentials kept. Resumed with an answer that lets the session be
/// verified, it ends with a signed-in client exactly when the transport then
/// holds a session cookie. Resumed to no avail, it fails, no client is signed
/// in, and the sign-in still waits.
pub proof fn lemma_sign_in_with_totp(
    before: ClientView,
    email: Seq<char>,
    password: Seq<char>,
    reply: Result<AuthReply, Error>,
    cookies: Seq<CookieView>,
    waiting: ClientView,
    res: Result<SignInOutcome, Error>,
    missing: Seq<char>,
    answer: Result<AuthReply, Error>,
    later_cookies: Seq<CookieView>,
    after: ClientView,
    resumption: Result<Client<SignedIn>, Error>,
)
    requires
        sign_in_step(before, email, password, reply, cookies, waiting, res),
        sign_in_branch(reply) is Totp,
        resumed(waiting, answer, later_cookies, missing, after, resumption),
    ensures
        res matches Ok(SignInOutcome::TOTP(_)),
        waiting.pending == Some(PendingAuth { email, email_id: None, password }),
        reply_advances(answer) && session_proof(later_cookies) is Some ==> (resumption matches Ok(
            c,
        ) && signed_in_by(c@, later_cookies)) && after.pending is None,
        reply_advances(answer) && session_proof(later_cookies) is None ==> (resumption matches Err(
            e,
        ) && e@ == ErrorView::SignIn(MISSING_COOKIE@)),
        !reply_advances(answer) || session_proof(later_cookies) is None ==> resumption is Err
            && after == waiting,
{
    lemma_signed_in_only_by_proof(waiting, later_cookies);
}

/// Where the service asks for a confirmation by email, the sign-in waits for
/// it with the credentials and the identifier of the email kept. Resumed
/// before the user has confirmed, when the transport holds no session cookie,
/// it fails and still waits, unchanged; resumed again once the cookie is
/// there, it ends with a signed-in client.
pub proof fn lemma_sign_in_with_email(
    before: ClientView,
    email: Seq<char>,
    password: Seq<char>,
    reply: Result<AuthReply, Error>,
    cookies: Seq<CookieView>,
    waiting: ClientView,
    res: Result<SignInOutcome, Error>,
    missing: Seq<char>,
    early_answer: Result<AuthReply, Error>,
    early_cookies: Seq<CookieView>,
    still_waiting: ClientView,
    early: Result<Client<SignedIn>, Error>,
    late_answer: Result<AuthReply, Error>,
    late_cookies: Seq<CookieView>,
    after: ClientView,
    late: Result<Client<SignedIn>, Error>,
)
    requires
        sign_in_step(before, email, password, reply, cookies, waiting, res),
        sign_in_branch(reply) is Email,
        resumed(waiting, early_answer, early_cookies, missing, still_waiting, early),
        session_proof(early_cookies) is None,
        resumed(still_waiting, late_answer, late_cookies, missing, after, late),
        reply_advances(late_answer),
        session_proof(late_cookies) is Some,
    ensures
        res matches Ok(SignInOutcome::Email(_)),
        waiting.pending == Some(
            PendingAuth { email, email_id: Some(sign_in_branch(reply)->Email_0), password },
        ),
        early is Err,
        reply_advances(early_answer) ==> (early matches Err(e) && e@ == ErrorView::SignIn(
            MISSING_COOKIE@,
        )),
        still_waiting == waiting,
        late matches Ok(c) && signed_in_by(c@, late_cookies),
        after.pending is None,
{
    lemma_signed_in_only_by_proof(waiting, early_cookies);
    lemma_signed_in_only_by_proof(still_waiting, late_cookies);
}

/// Whether `states` are the states of one client through a run of
/// resumptions of a continuation, the attempt `i` made with the answer
/// `replies[i]` and the cookies `cookies[i]` and ending as `results[i]`.
pub open spec fn resumptions(
    states: Seq<ClientView>,
    replies: Seq<Result<AuthReply, Error>>,
    cookies: Seq<Seq<CookieView>>,
    missing: Seq<char>,
    results: Seq<Result<Client<SignedIn>, Error>>,
) -> bool {
    &&& states.len() == replies.len() + 1
    &&& cookies.len() == replies.len()
    &&& results.len() == replies.len()
    &&& forall|i: int|
        0 <= i < replies.len() ==> resumed(
            states[i],
            replies[i],
            cookies[i],
            missing,
            states[i + 1],
            #[trigger] results[i],
        )
}

/// However often a continuation is resumed without success, the client is
/// afterwards what it was before the first attempt; the sign-in that is
/// pending on it is the same, and can be resumed again.
pub proof fn lemma_failed_resumptions_keep_client(
    states: Seq<ClientView>,
    replies: Seq<Result<AuthReply, Error>>,
    cookies: Seq<Seq<CookieView>>,
    missing: Seq<char>,
    results: Seq<Result<Client<SignedIn>, Error>>,
)
    requires
        resumptions(states, replies, cookies, missing, results),
        forall|i: int| 0 <= i < results.len() ==> (#[trigger] results[i]) is Err,
    ensures
        forall|i: int| 0 <= i < states.len() ==> #[trigger] states[i] == states[0],
        states.last() == states.first(),
        states.last().pending == states.first().pending,
{
    assert forall|i: int| 0 <= i < states.len() implies #[trigger] states[i] == states[0] by {
        lemma_failed_prefix(states, replies, cookies, missing, results, i);
    }
}

proof fn lemma_failed_prefix(
    states: Seq<ClientView>,
    replies: Seq<Result<AuthReply, Error>>,
    cookies: Seq<Seq<CookieView>>,
    missing: Seq<char>,
    results: Seq<Result<Client<SignedIn>, Error>>,
    n: int,
)
    requires
        resumptions(states, replies, cookies, missing, results),
        forall|i: int| 0 <= i < results.len() ==> (#[trigger] results[i]) is Err,
        0 <= n < states.len(),
    ensures
        states[n] == states[0],
    decreases n,
{
    if n > 0 {
        lemma_failed_prefix(states, replies, cookies, missing, results, n - 1);
        assert(results[n - 1] is Err);
        assert(resumed(
            states[n - 1],
            replies[n - 1],
            cookies[n - 1],
            missing,
            states[n - 1 + 1],
            results[n - 1],
        ));
    }
}

} // verus!
