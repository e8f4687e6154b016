use crate::client::endpoints::{EndpointPlaylist, TargetAPI};
use crate::client::error::{Error, ErrorView};
use crate::client::request::{
    member, Expect, ExpectView, Field, Method, PlaylistItemMod, PlaylistItemOperations,
    PlaylistItemsMod, PlaylistItemsOperations, Post, Request,
};
use crate::client::{AuthState, SignedIn};
use crate::mc::playlist::{Playlist, PlaylistID};
use crate::text::{join, join3, uuid_text};
use vstd::prelude::*;

verus! {

/// The value of the identifier of the public playlist of the top 30 tracks.
pub const TOP_30: u128 = 0x991334fbca5e48c6bc73cb83c364357d;

/// The reason given when an item is to be moved and no place is named.
pub const MISSING_MOVE_TO: &'static str = "Playlist item move operation requires a move_to index.";

impl<ClientAuthState: AuthState> EndpointPlaylist<'_, ClientAuthState> {
    /// The identifier of the public playlist of the top 30 tracks.
    pub fn get_top_30_playlist_id(&self) -> (id: PlaylistID)
        ensures
            id == PlaylistID(TOP_30),
    {
        PlaylistID(TOP_30)
    }

    /// Asks for a playlist; the answer holds it as `Playlist`.
    pub fn by_id(&self, id: PlaylistID) -> (request: Request)
        ensures
            request@ == self.client@.request(
                Method::Get,
                TargetAPI::Player,
                "/playlist/"@ + uuid_text(id.0),
                Seq::empty(),
                member("Playlist"@, "latest artists"@),
            ),
    {
        let path = join("/playlist/", id.to_string().as_str());
        let mut request = self.client.get(TargetAPI::Player, path.as_str(), None);
        request.expect = Expect::Member(Field { key: "Playlist", item: "latest artists" });
        request
    }

    /// Asks for the tracks of a playlist.
    pub fn get_tracks_by_playlist_id(&self, id: PlaylistID) -> (request: Request)
        ensures
            request@ == self.client@.request(
                Method::Get,
                TargetAPI::Player,
                "/playlist/"@ + uuid_text(id.0) + "/catalog"@,
                Seq::empty(),
                ExpectView::Json,
            ),
    {
        let path = join3("/playlist/", id.to_string().as_str(), "/catalog");
        self.client.get(TargetAPI::Player, path.as_str(), None)
    }

    /// Asks for the tile image of a playlist.
    pub fn get_tile_image(&self, playlist_id: PlaylistID) -> (request: Request)
        ensures
            request@ == self.client@.request(
                Method::Get,
                TargetAPI::Player,
                "/playlist/"@ + uuid_text(playlist_id.0) + "/tile"@,
                Seq::empty(),
                ExpectView::Bytes,
            ),
    {
        let path = join3("/playlist/", playlist_id.to_string().as_str(), "/tile");
        self.client.get_reader(TargetAPI::Player, path.as_str(), None)
    }

    /// Asks for the background image of a playlist.
    pub fn get_background_image(&self, playlist_id: PlaylistID) -> (request: Request)
        ensures
            request@ == self.client@.request(
                Method::Get,
                TargetAPI::Player,
                "/playlist/"@ + uuid_text(playlist_id.0) + "/background"@,
                Seq::empty(),
                ExpectView::Bytes,
            ),
    {
        let path = join3("/playlist/", playlist_id.to_string().as_str(), "/background");
        self.client.get_reader(TargetAPI::Player, path.as_str(), None)
    }
}

impl EndpointPlaylist<'_, SignedIn> {
    /// Asks for all playlists of the user; the answer holds them as
    /// `Playlists`.
    pub fn get_all(&self) -> (request: Request)
        ensures
            request@ == self.client@.request(
                Method::Get,
                TargetAPI::Player,
                "/playlists"@,
                Seq::empty(),
                member("Playlists"@, "Playlists not found."@),
            ),
    {
        let mut request = self.client.get(TargetAPI::Player, "/playlists", None);
        request.expect = Expect::Member(Field { key: "Playlists", item: "Playlists not found." });
        request
    }

    /// Creates a playlist; the answer holds its identifier as `Id`.
    pub fn create(&self, playlist: Playlist) -> (post: Post<Playlist>)
        ensures
            post.request@ == self.client@.request(
                Method::Post,
                TargetAPI::Player,
                "/playlist"@,
                Seq::empty(),
                member("Id"@, "Playlist not found."@),
            ),
            post.data == Some(playlist),
    {
        let mut post = self.client.post(TargetAPI::Player, "/playlist", None, Some(playlist));
        post.request.expect = Expect::Member(Field { key: "Id", item: "Playlist not found." });
        post
    }

    /// Changes a playlist to what is given.
    pub fn edit(&self, playlist: Playlist) -> (post: Post<Playlist>)
        ensures
            post.request@ == self.client@.request(
                Method::Post,
                TargetAPI::Player,
                "/playlist/"@ + uuid_text(playlist.id.0),
                Seq::empty(),
                ExpectView::Json,
            ),
            post.data == Some(playlist),
    {
        let path = join("/playlist/", playlist.id.to_string().as_str());
        self.client.post(TargetAPI::Player, path.as_str(), None, Some(playlist))
    }

    /// Changes one item of a playlist. An item can be moved only to a place
    /// that is named.
    pub fn modify_item(
        &self,
        playlist_id: PlaylistID,
        operation: PlaylistItemOperations,
        item_mod: PlaylistItemMod,
    ) -> (res: Result<Post<PlaylistItemMod>, Error>)
        ensures
            match res {
                Ok(post) => {
                    &&& !(operation == PlaylistItemOperations::To && item_mod.move_to is None)
                    &&& post.request@ == self.client@.request(
                        Method::Post,
                        TargetAPI::Player,
                        "/playlist/"@ + uuid_text(playlist_id.0) + "/modify-item"@,
                        seq![("type"@, operation.text())],
                        ExpectView::Nothing,
                    )
                    &&& post.data == Some(item_mod)
                },
                Err(e) => {
                    &&& operation == PlaylistItemOperations::To && item_mod.move_to is None
                    &&& e@ == ErrorView::Message(MISSING_MOVE_TO@)
                },
            },
    {
        if operation == PlaylistItemOperations::To && item_mod.move_to.is_none() {
            Err(Error::Message(MISSING_MOVE_TO))
        } else {
            let path = join3("/playlist/", playlist_id.to_string().as_str(), "/modify-item");
            Ok(
                self.client.post_empty_response(
                    TargetAPI::Player,
                    path.as_str(),
                    Some(operation.into_queries()),
                    Some(item_mod),
                ),
            )
        }
    }

    /// Changes several items of a playlist.
    pub fn modify_items(
        &self,
        playlist_id: PlaylistID,
        operation: PlaylistItemsOperations,
        items_mod: PlaylistItemsMod,
    ) -> (post: Post<PlaylistItemsMod>)
        ensures
            post.request@ == self.client@.request(
                Method::Post,
                TargetAPI::Player,
                "/playlist/"@ + uuid_text(playlist_id.0) + "/modify-items"@,
                seq![("type"@, operation.text())],
                ExpectView::Nothing,
            ),
            post.data == Some(items_mod),
    {
        let path = join3("/playlist/", playlist_id.to_string().as_str(), "/modify-items");
        self.client.post_empty_response(
            TargetAPI::Player,
            path.as_str(),
            Some(operation.into_queries()),
            Some(items_mod),
        )
    }

    /// Deletes a playlist.
    pub fn delete(&self, playlist_id: PlaylistID) -> (post: Post<()>)
        ensures
            post.request@ == self.client@.request(
                Method::Post,
                TargetAPI::Player,
                "/playlist/"@ + uuid_text(playlist_id.0) + "/delete"@,
                Seq::empty(),
                ExpectView::Nothing,
            ),
            post.data is None,
    {
        let path = join3("/playlist/", playlist_id.to_string().as_str(), "/delete");
        self.client.post_empty_response(TargetAPI::Player, path.as_str(), None, None)
    }
}

} // verus!
