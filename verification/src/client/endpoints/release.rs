use crate::client::endpoints::{parameters_queries, queries_of, EndpointRelease, TargetAPI};
use crate::client::request::{
    member, Expect, ExpectView, Field, FieldView, Method, Request, RequestParameters,
    RequestParametersView,
};
use crate::client::{AuthState, SignedIn};
use crate::mc::release::{CatalogID, ReleaseID, TrackID};
use crate::mc::util::Codec;
use crate::text::{join, join3, uuid_text};
use vstd::prelude::*;
use vstd::string::*;

verus! {

impl<ClientAuthState: AuthState> EndpointRelease<'_, ClientAuthState> {
    /// Asks for all releases, narrowed by the parameters; the answer holds
    /// them as `Releases`.
    pub fn get_all(&self, parameters: Option<RequestParameters>) -> (request: Request)
        ensures
            request@ == self.client@.request(
                Method::Get,
                TargetAPI::Player,
                "/releases"@,
                parameters_queries(parameters),
                member("Releases"@, "all releases"@),
            ),
    {
        let mut request = self.client.get(TargetAPI::Player, "/releases", queries_of(parameters));
        request.expect = Expect::Member(Field { key: "Releases", item: "all releases" });
        request
    }

    /// Asks for the latest releases, narrowed by the parameters; without
    /// parameters, for the first three.
    pub fn get_latest(&self, parameters: Option<RequestParameters>) -> (request: Request)
        ensures
            request@ == self.client@.request(
                Method::Get,
                TargetAPI::Player,
                "/catalog/latest-releases"@,
                match parameters {
                    Some(p) => p@.queries(),
                    None => seq![("limit"@, seq!['3']), ("offset"@, seq!['0'])],
                },
                ExpectView::Json,
            ),
    {
        let parameters = match parameters {
            Some(p) => p,
            None => {
                let p = RequestParameters::default();
                assert(p@.queries() =~= seq![("limit"@, seq!['3']), ("offset"@, seq!['0'])]) by {
                    reveal_with_fuel(crate::text::decimal, 2);
                }
                p
            },
        };
        self.client.get(
            TargetAPI::Player,
            "/catalog/latest-releases",
            Some(parameters.into_queries()),
        )
    }

    /// Asks for the releases of the artist with the given name in its URI
    /// form, narrowed by the parameters; the answer holds them as `Releases`.
    pub fn get_by_artist_name_uri(
        &self,
        artist_name_uri: &str,
        parameters: Option<RequestParameters>,
    ) -> (request: Request)
        ensures
            request@ == self.client@.request(
                Method::Get,
                TargetAPI::Player,
                "/artist/"@ + artist_name_uri@ + "/releases"@,
                parameters_queries(parameters),
                member("Releases"@, "artist releases"@),
            ),
    {
        let path = join3("/artist/", artist_name_uri, "/releases");
        let mut request = self.client.get(TargetAPI::Player, path.as_str(), queries_of(parameters));
        request.expect = Expect::Member(Field { key: "Releases", item: "artist releases" });
        request
    }

    /// Asks for a release by its identifier in the catalog; the answer holds
    /// the release as `Release` and its tracks as `Tracks`.
    pub fn get_by_catalog_id(&self, catalog_id: &CatalogID) -> (request: Request)
        ensures
            request@ == self.client@.request(
                Method::Get,
                TargetAPI::Player,
                "/catalog/release/"@ + catalog_id@ + "?idType=catalogId"@,
                Seq::empty(),
                ExpectView::Members(
                    FieldView { key: "Release"@, item: "release"@ },
                    FieldView { key: "Tracks"@, item: "release tracks"@ },
                ),
            ),
    {
        let path = join3("/catalog/release/", catalog_id.0.as_str(), "?idType=catalogId");
        let mut request = self.client.get(TargetAPI::Player, path.as_str(), None);
        request.expect = Expect::Members(
            Field { key: "Release", item: "release" },
            Field { key: "Tracks", item: "release tracks" },
        );
        request
    }

    /// Asks for the cover art of a release.
    pub fn get_cover_art(&self, catalog_id: &CatalogID) -> (request: Request)
        ensures
            request@ == self.client@.request(
                Method::Get,
                TargetAPI::WWW,
                "release/"@ + catalog_id@ + "/cover"@,
                Seq::empty(),
                ExpectView::Bytes,
            ),
    {
        let path = join3("release/", catalog_id.0.as_str(), "/cover");
        self.client.get_reader(TargetAPI::WWW, path.as_str(), None)
    }

    /// Asks for the releases that are related to a release, narrowed by the
    /// parameters.
    pub fn get_related_by_id(&self, id: &ReleaseID, parameters: Option<RequestParameters>) -> (request:
        Request)
        ensures
            request@ == self.client@.request(
                Method::Get,
                TargetAPI::Player,
                "/related-releases/"@ + uuid_text(id.0),
                parameters_queries(parameters),
                ExpectView::Json,
            ),
    {
        let path = join("/related-releases/", id.to_string().as_str());
        self.client.get(TargetAPI::Player, path.as_str(), queries_of(parameters))
    }

    /// Asks for the stream of a track of a release.
    pub fn stream_by_ids(&self, release_id: &ReleaseID, track_id: &TrackID) -> (request: Request)
        ensures
            request@ == self.client@.request(
                Method::Get,
                TargetAPI::Player,
                "/release/"@ + uuid_text(release_id.0) + "/track-stream/"@ + uuid_text(track_id.0),
                Seq::empty(),
                ExpectView::Bytes,
            ),
    {
        let path = join3("/release/", release_id.to_string().as_str(), "/track-stream/").concat(
            track_id.to_string().as_str(),
        );
        self.client.get_reader(TargetAPI::Player, path.as_str(), None)
    }
}

impl EndpointRelease<'_, SignedIn> {
    /// Asks for the download of a track of a release in a codec; without one,
    /// in MP3.
    pub fn download_by_ids(
        &self,
        release_id: &ReleaseID,
        track_id: &TrackID,
        codec: Option<Codec>,
    ) -> (request: Request)
        ensures
            request@ == self.client@.request(
                Method::Get,
                TargetAPI::Player,
                "/release/"@ + uuid_text(release_id.0) + "/track-download/"@ + uuid_text(
                    track_id.0,
                ),
                seq![
                    (
                        "format"@,
                        match codec {
                            Some(c) => c.text(),
                            None => Codec::MP3.text(),
                        },
                    ),
                ],
                ExpectView::Bytes,
            ),
    {
        let path = join3("/release/", release_id.to_string().as_str(), "/track-download/").concat(
            track_id.to_string().as_str(),
        );
        let codec = match codec {
            Some(c) => c,
            None => Codec::default(),
        };
        let parameters = RequestParameters::from_codec(codec);
        assert(parameters@.queries() =~= seq![("format"@, codec.text())]);
        self.client.get_reader(TargetAPI::Player, path.as_str(), Some(parameters.into_queries()))
    }
}

} // verus!
