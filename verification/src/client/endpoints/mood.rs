use crate::client::endpoints::{parameters_queries, queries_of, EndpointMood, TargetAPI};
use crate::client::request::{member, Expect, Field, Method, Request, RequestParameters};
use crate::client::AuthState;
use crate::text::join;
use vstd::prelude::*;

verus! {

impl<ClientAuthState: AuthState> EndpointMood<'_, ClientAuthState> {
    /// Asks for all moods, narrowed by the parameters; the answer holds them
    /// as `Moods`.
    pub fn get_all(&self, parameters: Option<RequestParameters>) -> (request: Request)
        ensures
            request@ == self.client@.request(
                Method::Get,
                TargetAPI::Player,
                "/moods"@,
                parameters_queries(parameters),
                member("Moods"@, "all moods"@),
            ),
    {
        let mut request = self.client.get(TargetAPI::Player, "/moods", queries_of(parameters));
        request.expect = Expect::Member(Field { key: "Moods", item: "all moods" });
        request
    }

    /// Asks for the mood with the given name in its URI form; the answer
    /// holds it as `Mood`.
    pub fn get_by_name_uri(&self, mood_name_uri: &str) -> (request: Request)
        ensures
            request@ == self.client@.request(
                Method::Get,
                TargetAPI::Player,
                "/mood/"@ + mood_name_uri@,
                Seq::empty(),
                member("Mood"@, "mood"@),
            ),
    {
        let path = join("/mood/", mood_name_uri);
        let mut request = self.client.get(TargetAPI::Player, path.as_str(), None);
        request.expect = Expect::Member(Field { key: "Mood", item: "mood" });
        request
    }
}

} // verus!
