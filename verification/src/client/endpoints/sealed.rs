use crate::client::endpoints::{
    EndpointArtist, EndpointMood, EndpointPlaylist, EndpointRelease, EndpointUser,
};
use crate::client::AuthState;
use vstd::prelude::*;

verus! {

/// Keeps [`Endpoint`](crate::client::endpoints::Endpoint) to the types of
/// this library.
pub trait Sealed {

}

impl<ClientAuthState: AuthState> Sealed for EndpointArtist<'_, ClientAuthState> {

}

impl<ClientAuthState: AuthState> Sealed for EndpointMood<'_, ClientAuthState> {

}

impl<ClientAuthState: AuthState> Sealed for EndpointPlaylist<'_, ClientAuthState> {

}

impl<ClientAuthState: AuthState> Sealed for EndpointRelease<'_, ClientAuthState> {

}

impl<ClientAuthState: AuthState> Sealed for EndpointUser<'_, ClientAuthState> {

}

} // verus!
