use crate::client::endpoints::{parameters_queries, queries_of, EndpointArtist, TargetAPI};
use crate::client::request::{member, Expect, ExpectView, Field, Method, Request, RequestParameters};
use crate::client::AuthState;
use crate::text::{join, join3};
use vstd::prelude::*;

verus! {

impl<ClientAuthState: AuthState> EndpointArtist<'_, ClientAuthState> {
    /// Asks for all artists, narrowed by the parameters; the answer holds
    /// them as `Artists`.
    pub fn get_all(&self, parameters: Option<RequestParameters>) -> (request: Request)
        ensures
            request@ == self.client@.request(
                Method::Get,
                TargetAPI::Player,
                "/artists"@,
                parameters_queries(parameters),
                member("Artists"@, "all artists"@),
            ),
    {
        let mut request = self.client.get(TargetAPI::Player, "/artists", queries_of(parameters));
        request.expect = Expect::Member(Field { key: "Artists", item: "all artists" });
        request
    }

    /// Asks for the artist with the given name in its URI form.
    pub fn get_by_name_uri(&self, artist_name_uri: &str) -> (request: Request)
        ensures
            request@ == self.client@.request(
                Method::Get,
                TargetAPI::Player,
                "/artist/"@ + artist_name_uri@,
                Seq::empty(),
                ExpectView::Json,
            ),
    {
        let path = join("/artist/", artist_name_uri);
        self.client.get(TargetAPI::Player, path.as_str(), None)
    }

    /// Asks for the latest artists, narrowed by the parameters; the answer
    /// holds them as `LatestArtists`.
    pub fn get_latest(&self, parameters: Option<RequestParameters>) -> (request: Request)
        ensures
            request@ == self.client@.request(
                Method::Get,
                TargetAPI::Player,
                "/latest-artists"@,
                parameters_queries(parameters),
                member("LatestArtists"@, "latest artists"@),
            ),
    {
        let mut request = self.client.get(
            TargetAPI::Player,
            "/latest-artists",
            queries_of(parameters),
        );
        request.expect = Expect::Member(Field { key: "LatestArtists", item: "latest artists" });
        request
    }

    /// Asks for the photo of the artist with the given name in its URI form.
    pub fn get_photo(&self, artist_name_uri: &str) -> (request: Request)
        ensures
            request@ == self.client@.request(
                Method::Get,
                TargetAPI::WWW,
                "artist/"@ + artist_name_uri@ + "/photo"@,
                Seq::empty(),
                ExpectView::Bytes,
            ),
    {
        let path = join3("artist/", artist_name_uri, "/photo");
        self.client.get_reader(TargetAPI::WWW, path.as_str(), None)
    }
}

} // verus!
