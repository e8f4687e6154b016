//! The parts of the service, each with the requests that it answers.

mod artist;
mod mood;
mod playlist;
mod release;
mod sealed;
mod user;

pub use playlist::{MISSING_MOVE_TO, TOP_30};

use crate::client::request::RequestParameters;
use crate::client::{queries_view, AuthState, Client, SignedIn};
use vstd::prelude::*;

verus! {

/// The two roots of the service.
#[derive(Clone, Copy, Debug, PartialEq, Eq, Structural)]
pub enum TargetAPI {
    Player,
    WWW,
}

impl Default for TargetAPI {
    fn default() -> (api: TargetAPI)
        ensures
            api == TargetAPI::Player,
    {
        TargetAPI::Player
    }
}

/// What gives access to a part of the service.
pub trait Endpoint: sealed::Sealed {

}

/// The artists.
pub struct EndpointArtist<'a, ClientAuthState: AuthState> {
    pub client: &'a Client<ClientAuthState>,
}

/// The moods.
pub struct EndpointMood<'a, ClientAuthState: AuthState> {
    pub client: &'a Client<ClientAuthState>,
}

/// The playlists.
pub struct EndpointPlaylist<'a, ClientAuthState: AuthState> {
    pub client: &'a Client<ClientAuthState>,
}

/// The releases.
pub struct EndpointRelease<'a, ClientAuthState: AuthState> {
    pub client: &'a Client<ClientAuthState>,
}

/// The account of the user who is signed in.
pub struct EndpointUser<'a, ClientAuthState: AuthState = SignedIn> {
    pub client: &'a Client<ClientAuthState>,
}

impl<ClientAuthState: AuthState> Endpoint for EndpointArtist<'_, ClientAuthState> {

}

impl<ClientAuthState: AuthState> Endpoint for EndpointMood<'_, ClientAuthState> {

}

impl<ClientAuthState: AuthState> Endpoint for EndpointPlaylist<'_, ClientAuthState> {

}

impl<ClientAuthState: AuthState> Endpoint for EndpointRelease<'_, ClientAuthState> {

}

impl<ClientAuthState: AuthState> Endpoint for EndpointUser<'_, ClientAuthState> {

}

/// The query parameters that stand for request parameters, none where there
/// are none.
pub open spec fn parameters_queries(parameters: Option<RequestParameters>) -> Seq<
    (Seq<char>, Seq<char>),
> {
    match parameters {
        Some(p) => p@.queries(),
        None => Seq::empty(),
    }
}

/// The query parameters that stand for request parameters, where there are
/// any.
pub(crate) fn queries_of(parameters: Option<RequestParameters>) -> (queries: Option<
    Vec<(String, String)>,
>)
    ensures
        queries_view(queries) == parameters_queries(parameters),
        queries is Some <==> parameters is Some,
{
    match parameters {
        Some(p) => Some(p.into_queries()),
        None => None,
    }
}

} // verus!
