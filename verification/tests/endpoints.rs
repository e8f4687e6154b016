use bombay::client::error::found_or;
use bombay::client::session::{SESSION_COOKIE, SESSION_HOST, SESSION_PATH};
use bombay::client::{
    AuthDataEmail, AuthReply, Client, Cookie, CookieJar, Error, Expect, Field, Method, PaginationParameters,
    PlaylistItemMod, PlaylistItemOperations, PlaylistItemsMod, PlaylistItemsOperations, Request,
    RequestParameters, SignInOutcome, SignedIn, TotpSignIn,
};
use bombay::mc::playlist::{Playlist, PlaylistID, PlaylistItem};
use bombay::mc::release::{AnyRelease, CatalogID, Release, ReleaseID, ReleaseSummary, Track, TrackID};
use bombay::mc::user::NotificationInterests;
use bombay::mc::util::{Codec, LicenseID};
use iso8601_timestamp::Timestamp;
use std::collections::HashMap;
use uuid::Uuid;

/// One member of an answer about a release.
enum Part {
    Release(AnyRelease),
    Tracks(Vec<Track>),
}

const PLAYER: &str = "https://player.monstercat.app/api";
const WWW: &str = "https://www.monstercat.com/";

fn pair(key: &str, value: &str) -> (String, String) {
    (key.to_owned(), value.to_owned())
}

fn id(text: &str) -> u128 {
    Uuid::parse_str(text).expect("a UUID").as_u128()
}

fn authed_client() -> Client<SignedIn> {
    let mut jar = CookieJar::new();
    jar.insert(Cookie {
        domain: SESSION_HOST.to_owned(),
        path: SESSION_PATH.to_owned(),
        name: SESSION_COOKIE.to_owned(),
        value: "abc".to_owned(),
    });
    let reply = AuthReply { auth_data: None, default_auth_type: None, needs_2fa: false };
    let step = Client::default()
        .sign_in_2fa_totp("u".to_owned(), "p".to_owned(), "000000".to_owned(), Ok(reply), &jar)
        .expect("Failed to sign in");
    match step {
        TotpSignIn::Authenticated(client) => client,
        TotpSignIn::Resume(_) => panic!("Failed to sign in"),
    }
}

fn assert_get(request: &Request, url: String, queries: Vec<(String, String)>, expect: Expect) {
    assert_eq!(request.method, Method::Get);
    assert_eq!(request.url, url);
    assert_eq!(request.queries, queries);
    assert_eq!(request.expect, expect);
    assert_eq!(
        request.headers,
        vec![pair("User-Agent", "bombay v0.1.0"), pair("Accept", "application/json")]
    );
}

fn assert_post(request: &Request, url: String, queries: Vec<(String, String)>, expect: Expect) {
    assert_eq!(request.method, Method::Post);
    assert_eq!(request.url, url);
    assert_eq!(request.queries, queries);
    assert_eq!(request.expect, expect);
    assert_eq!(
        request.headers,
        vec![pair("User-Agent", "bombay v0.1.0"), pair("Accept", "application/json")]
    );
}

fn member(key: &'static str, item: &'static str) -> Expect {
    Expect::Member(Field { key, item })
}

fn summary() -> ReleaseSummary {
    ReleaseSummary {
        artists_title: "Whales feat. Dutch Melrose".to_owned(),
        catalog_id: "MCS1186".to_owned(),
        copyright_p_line: None,
        description: String::new(),
        id: ReleaseID(id("6a58b6d2-bbec-4847-8dcf-45023a930968")),
        release_date: Timestamp::UNIX_EPOCH,
        release_date_timezone: "America/Vancouver".to_owned(),
        tags: None,
        title: "Souvenir".to_owned(),
        kind: "Single".to_owned(),
        upc: None,
        version: String::new(),
    }
}

fn souvenir_track() -> Track {
    Track {
        artists: None,
        artists_title: "Whales feat. Dutch Melrose".to_owned(),
        bpm: 150,
        brand: "Uncaged".to_owned(),
        brand_id: 1,
        creator_friendly: true,
        debut_date: None,
        downloadable: true,
        duration: 200,
        explicit: false,
        genre_primary: "Dance".to_owned(),
        genre_secondary: "Dubstep".to_owned(),
        isrc: "CA6D22100326".to_owned(),
        id: TrackID(id("00164f5c-3a1e-44ad-8b73-bfdde22b8b6e")),
        in_early_access: false,
        lock_status: String::new(),
        public: true,
        playlist_sort: None,
        release: summary(),
        streamable: true,
        tags: None,
        title: "Souvenir".to_owned(),
        track_number: 1,
        version: String::new(),
    }
}

fn souvenir() -> Release {
    Release {
        album_notes: None,
        artists: None,
        artists_title: "Whales feat. Dutch Melrose".to_owned(),
        brand_id: None,
        brand_title: None,
        cache_details: None,
        catalog_id: CatalogID("MCS1186".to_owned()),
        copyright_p_line: None,
        cover_file_id: None,
        description: String::new(),
        downloadable: None,
        featured_artists_title: String::new(),
        grid: Some("A10443ZXECUUYVB2CO".to_owned()),
        genre_primary: None,
        genre_secondary: None,
        id: ReleaseID(id("6a58b6d2-bbec-4847-8dcf-45023a930968")),
        in_early_access: None,
        links: None,
        prerelease_date: None,
        presave_date: None,
        release_date: Timestamp::UNIX_EPOCH,
        release_date_timezone: "America/Vancouver".to_owned(),
        spotify_id: None,
        streamable: None,
        tags: None,
        title: "Souvenir".to_owned(),
        tracks: None,
        kind: "Single".to_owned(),
        upc: None,
        version: String::new(),
        youtube_url: None,
    }
}

#[test]
fn find_bishu() {
    let request = Client::default().artist().get_by_name_uri("bishu");
    assert_get(&request, format!("{PLAYER}/artist/bishu"), vec![], Expect::Json);
}

#[test]
fn artist_find_latest() {
    let request = Client::default().artist().get_latest(None);
    assert_get(
        &request,
        format!("{PLAYER}/latest-artists"),
        vec![],
        member("LatestArtists", "latest artists"),
    );
}

#[test]
fn get_100() {
    let request = Client::default().artist().get_all(Some(RequestParameters::from_pagination(
        PaginationParameters { limit: 100, offset: 0 },
    )));
    assert_get(
        &request,
        format!("{PLAYER}/artists"),
        vec![pair("limit", "100"), pair("offset", "0")],
        member("Artists", "all artists"),
    );
}

#[test]
fn count_all() {
    let request = Client::default().artist().get_all(None);
    assert_get(&request, format!("{PLAYER}/artists"), vec![], member("Artists", "all artists"));
}

#[test]
fn search_latest() {
    let search_term = "are";
    let paginated_search =
        RequestParameters::from_pagination(PaginationParameters { limit: 10, offset: 0 })
            .set_search(search_term.to_owned());
    let request = Client::default().artist().get_latest(Some(paginated_search));
    assert_get(
        &request,
        format!("{PLAYER}/latest-artists"),
        vec![pair("search", "are"), pair("limit", "10"), pair("offset", "0")],
        member("LatestArtists", "latest artists"),
    );
}

#[test]
fn search_all() {
    let paginated_search =
        RequestParameters::from_pagination(PaginationParameters { limit: 10, offset: 0 })
            .set_search("and".to_owned());
    let request = Client::default().artist().get_all(Some(paginated_search));
    assert_get(
        &request,
        format!("{PLAYER}/artists"),
        vec![pair("search", "and"), pair("limit", "10"), pair("offset", "0")],
        member("Artists", "all artists"),
    );
}

#[test]
fn get_lani_daye_photo() {
    let request = Client::default().artist().get_photo("lanidaye");
    assert_get(&request, format!("{WWW}artist/lanidaye/photo"), vec![], Expect::Bytes);
}

#[test]
fn find_and_fetch_all() {
    let client = Client::default();
    let request = client.mood().get_all(None);
    assert_get(&request, format!("{PLAYER}/moods"), vec![], member("Moods", "all moods"));
    let request = client.mood().get_by_name_uri("chill");
    assert_get(&request, format!("{PLAYER}/mood/chill"), vec![], member("Mood", "mood"));
}

#[test]
fn get_top_30() {
    let client = Client::default();
    let playlist_endpoint = client.playlist();
    let top_30 = playlist_endpoint.get_top_30_playlist_id();
    assert_eq!(top_30, PlaylistID(id("991334fb-ca5e-48c6-bc73-cb83c364357d")));
    let request = playlist_endpoint.by_id(top_30);
    assert_get(
        &request,
        format!("{PLAYER}/playlist/991334fb-ca5e-48c6-bc73-cb83c364357d"),
        vec![],
        member("Playlist", "latest artists"),
    );
}

#[test]
fn get_top_30_tracks() {
    let client = Client::default();
    let playlist_endpoint = client.playlist();
    let request =
        playlist_endpoint.get_tracks_by_playlist_id(playlist_endpoint.get_top_30_playlist_id());
    assert_get(
        &request,
        format!("{PLAYER}/playlist/991334fb-ca5e-48c6-bc73-cb83c364357d/catalog"),
        vec![],
        Expect::Json,
    );
    let hottest_track = AnyRelease::Track(souvenir_track());
    assert_eq!(hottest_track.get_title(), "Souvenir");
}

#[test]
fn playlist_images() {
    let client = Client::default();
    let top_30 = client.playlist().get_top_30_playlist_id();
    assert_get(
        &client.playlist().get_tile_image(top_30),
        format!("{PLAYER}/playlist/991334fb-ca5e-48c6-bc73-cb83c364357d/tile"),
        vec![],
        Expect::Bytes,
    );
    assert_get(
        &client.playlist().get_background_image(top_30),
        format!("{PLAYER}/playlist/991334fb-ca5e-48c6-bc73-cb83c364357d/background"),
        vec![],
        Expect::Bytes,
    );
}

#[test]
fn get_user_playlists() {
    let request = authed_client().playlist().get_all();
    assert_get(
        &request,
        format!("{PLAYER}/playlists"),
        vec![],
        member("Playlists", "Playlists not found."),
    );
}

#[test]
fn get_test_playlist() {
    let request = authed_client()
        .playlist()
        .by_id(PlaylistID(id("f6cbaba8-5a86-4fb8-bd4a-1cc3d6ad22e0")));
    assert_get(
        &request,
        format!("{PLAYER}/playlist/f6cbaba8-5a86-4fb8-bd4a-1cc3d6ad22e0"),
        vec![],
        member("Playlist", "latest artists"),
    );
}

#[test]
fn get_test_playlist_items() {
    let request = authed_client()
        .playlist()
        .get_tracks_by_playlist_id(PlaylistID(id("f6cbaba8-5a86-4fb8-bd4a-1cc3d6ad22e0")));
    assert_get(
        &request,
        format!("{PLAYER}/playlist/f6cbaba8-5a86-4fb8-bd4a-1cc3d6ad22e0/catalog"),
        vec![],
        Expect::Json,
    );
}

#[test]
fn many_playlist_tests() {
    let client = authed_client();
    let playlist_endpoint = client.playlist();
    let playlist_id = PlaylistID(id("f6cbaba8-5a86-4fb8-bd4a-1cc3d6ad22e0"));
    let playlist = Playlist {
        archived: false,
        background_file_id: None,
        created_at: "2023-01-01".to_owned(),
        description: String::new(),
        id: playlist_id,
        is_public: false,
        items: None,
        my_library: false,
        num_records: 2,
        tile_file_id: None,
        title: "Test".to_owned(),
        updated_at: "2023-01-02".to_owned(),
        user_id: None,
    };
    let tracks = vec![
        AnyRelease::Track(souvenir_track()),
        AnyRelease::Release(souvenir()),
        AnyRelease::Track(souvenir_track()),
    ];
    let playlist_items: Vec<PlaylistItem> = tracks
        .iter()
        .enumerate()
        .filter_map(|(index, any_rel)| match any_rel {
            AnyRelease::Track(track) => Some(PlaylistItem {
                playlist_id: playlist.id,
                sort: index,
                release_id: track.release.id,
                track_id: track.id,
            }),
            _ => None,
        })
        .collect();
    assert_eq!(playlist_items.len(), 2);

    let mut new_playlist = playlist.clone();
    new_playlist.title = "TestDuplicate".to_owned();
    let post = playlist_endpoint.create(new_playlist.clone());
    assert_post(
        &post.request,
        format!("{PLAYER}/playlist"),
        vec![],
        member("Id", "Playlist not found."),
    );
    assert_eq!(post.data, Some(new_playlist.clone()));

    let post = playlist_endpoint.edit(new_playlist.clone());
    assert_post(
        &post.request,
        format!("{PLAYER}/playlist/f6cbaba8-5a86-4fb8-bd4a-1cc3d6ad22e0"),
        vec![],
        Expect::Json,
    );
    assert_eq!(post.data, Some(new_playlist));

    let new_playlist_id = PlaylistID(id("00000000-0000-0000-0000-0000000000ff"));
    let post = playlist_endpoint.modify_items(
        new_playlist_id,
        PlaylistItemsOperations::Add,
        PlaylistItemsMod { records: playlist_items.clone() },
    );
    assert_post(
        &post.request,
        format!("{PLAYER}/playlist/00000000-0000-0000-0000-0000000000ff/modify-items"),
        vec![pair("type", "add")],
        Expect::Nothing,
    );
    assert_eq!(post.data, Some(PlaylistItemsMod { records: playlist_items.clone() }));

    let post = playlist_endpoint
        .modify_item(
            new_playlist_id,
            PlaylistItemOperations::Down,
            PlaylistItemMod { move_to: None, record: playlist_items[0].clone() },
        )
        .expect("nothing is moved to a place");
    assert_post(
        &post.request,
        format!("{PLAYER}/playlist/00000000-0000-0000-0000-0000000000ff/modify-item"),
        vec![pair("type", "down")],
        Expect::Nothing,
    );

    let post = playlist_endpoint.delete(new_playlist_id);
    assert_post(
        &post.request,
        format!("{PLAYER}/playlist/00000000-0000-0000-0000-0000000000ff/delete"),
        vec![],
        Expect::Nothing,
    );
    assert_eq!(post.data, None);
}

#[test]
fn moving_an_item_needs_a_place() {
    let client = authed_client();
    let item = PlaylistItem {
        playlist_id: PlaylistID(1),
        release_id: ReleaseID(2),
        sort: 0,
        track_id: TrackID(3),
    };
    let res = client.playlist().modify_item(
        PlaylistID(1),
        PlaylistItemOperations::To,
        PlaylistItemMod { move_to: None, record: item.clone() },
    );
    match res {
        Err(Error::Message(m)) => {
            assert_eq!(m, "Playlist item move operation requires a move_to index.");
            assert_eq!(m, bombay::client::endpoints::MISSING_MOVE_TO);
        }
        _ => panic!("the item was moved"),
    }
    let post = client
        .playlist()
        .modify_item(
            PlaylistID(1),
            PlaylistItemOperations::To,
            PlaylistItemMod { move_to: Some(4), record: item.clone() },
        )
        .expect("the place is named");
    assert_eq!(post.request.queries, vec![pair("type", "to")]);
    assert_eq!(post.data, Some(PlaylistItemMod { move_to: Some(4), record: item }));
}

#[test]
fn release_find_latest() {
    let request = Client::default().release().get_latest(None);
    assert_get(
        &request,
        format!("{PLAYER}/catalog/latest-releases"),
        vec![pair("limit", "3"), pair("offset", "0")],
        Expect::Json,
    );
    let request = Client::default()
        .release()
        .get_latest(Some(RequestParameters::from_search("oxygen".to_owned())));
    assert_eq!(
        request.queries,
        vec![pair("search", "oxygen"), pair("limit", "3"), pair("offset", "0")]
    );
}

#[test]
fn find_latest_from_rogue() {
    let request = Client::default().release().get_by_artist_name_uri("rogue", None);
    assert_get(
        &request,
        format!("{PLAYER}/artist/rogue/releases"),
        vec![],
        member("Releases", "artist releases"),
    );
}

#[test]
fn get_souvenir_details() {
    let request = Client::default().release().get_by_catalog_id(&CatalogID("MCS1186".to_owned()));
    assert_get(
        &request,
        format!("{PLAYER}/catalog/release/MCS1186?idType=catalogId"),
        vec![],
        Expect::Members(
            Field { key: "Release", item: "release" },
            Field { key: "Tracks", item: "release tracks" },
        ),
    );

    // The answer as the service gives it, its two members under their keys.
    let mut answer: HashMap<String, Part> = HashMap::new();
    answer.insert("Release".to_owned(), Part::Release(AnyRelease::Release(souvenir())));
    answer.insert("Tracks".to_owned(), Part::Tracks(vec![souvenir_track()]));
    answer.insert("Related".to_owned(), Part::Tracks(vec![]));

    // It is taken apart by the members that the request names.
    let (first, second) = match request.expect {
        Expect::Members(first, second) => (first, second),
        _ => panic!("the request names no two members"),
    };
    let any_release = match found_or(answer.remove(first.key), first.item) {
        Ok(Part::Release(release)) => release,
        Ok(Part::Tracks(_)) => panic!("the first member is not the release"),
        Err(err) => panic!("{}", err.to_string()),
    };
    let tracks = match found_or(answer.remove(second.key), second.item) {
        Ok(Part::Tracks(tracks)) => tracks,
        Ok(Part::Release(_)) => panic!("the second member is not the tracks"),
        Err(err) => panic!("{}", err.to_string()),
    };

    assert_eq!(any_release.get_title(), "Souvenir");
    assert_eq!(any_release.get_artists(), "Whales feat. Dutch Melrose");

    match &any_release {
        AnyRelease::Release(release) => {
            assert_eq!(release.grid, Some("A10443ZXECUUYVB2CO".to_owned()))
        }
        _ => panic!("This release should be of Release type!"),
    }

    assert_eq!(tracks.len(), 1);
    assert_eq!(tracks[0].isrc, "CA6D22100326");

    // Each member is there once; an answer that lacks one is an error that names it.
    match found_or(answer.remove(first.key), first.item) {
        Err(Error::NotFound(item)) => assert_eq!(item, "release"),
        _ => panic!("the release was found twice"),
    }
    match found_or(answer.remove(second.key), second.item) {
        Err(Error::NotFound(item)) => assert_eq!(item, "release tracks"),
        _ => panic!("the tracks were found twice"),
    }
    assert_eq!(Error::NotFound(second.item).to_string(), "Could not find release tracks.");
}

#[test]
fn any_release_reads_through_both_forms() {
    let release = AnyRelease::Release(souvenir());
    let track = AnyRelease::Track(souvenir_track());
    assert_eq!(release.get_type(), "Single");
    assert_eq!(track.get_type(), "Track");
    assert_eq!(track.get_title(), "Souvenir");
    assert_eq!(track.get_artists(), "Whales feat. Dutch Melrose");
    assert_eq!(release.get_date(), &Timestamp::UNIX_EPOCH);
    assert_eq!(track.get_date(), &Timestamp::UNIX_EPOCH);
    assert_eq!(release.get_release_id(), &ReleaseID(id("6a58b6d2-bbec-4847-8dcf-45023a930968")));
    assert_eq!(track.get_release_id(), &ReleaseID(id("6a58b6d2-bbec-4847-8dcf-45023a930968")));
}

#[test]
fn get_related_to_oxygen() {
    let request = Client::default()
        .release()
        .get_related_by_id(&ReleaseID(id("6a58b6d2-bbec-4847-8dcf-45023a930968")), None);
    assert_get(
        &request,
        format!("{PLAYER}/related-releases/6a58b6d2-bbec-4847-8dcf-45023a930968"),
        vec![],
        Expect::Json,
    );
}

#[test]
fn find_latest_related() {
    let client = Client::default();
    let latest_release = AnyRelease::Track(souvenir_track());
    let request = client.release().get_related_by_id(latest_release.get_release_id(), None);
    assert_get(
        &request,
        format!("{PLAYER}/related-releases/6a58b6d2-bbec-4847-8dcf-45023a930968"),
        vec![],
        Expect::Json,
    );
}

#[test]
fn stream_no_service() {
    let request = Client::default().release().stream_by_ids(
        &ReleaseID(id("3efe8e1e-8ec9-440b-8c00-d825f777c83e")),
        &TrackID(id("6b5401bc-06d0-41e8-ab16-7742f2aa40bf")),
    );
    assert_get(
        &request,
        format!(
            "{PLAYER}/release/3efe8e1e-8ec9-440b-8c00-d825f777c83e/track-stream/6b5401bc-06d0-41e8-ab16-7742f2aa40bf"
        ),
        vec![],
        Expect::Bytes,
    );
}

#[test]
fn download_every_little_thing() {
    let client = authed_client();
    let request = client.release().download_by_ids(
        &ReleaseID(id("e7c6a280-6af3-4101-af9f-5c809afb6541")),
        &TrackID(id("2399321a-b7ba-406d-976f-0c30054ab938")),
        Some(Codec::FLAC),
    );
    assert_get(
        &request,
        format!(
            "{PLAYER}/release/e7c6a280-6af3-4101-af9f-5c809afb6541/track-download/2399321a-b7ba-406d-976f-0c30054ab938"
        ),
        vec![pair("format", "flac")],
        Expect::Bytes,
    );
    let request = client.release().download_by_ids(&ReleaseID(1), &TrackID(2), None);
    assert_eq!(request.queries, vec![pair("format", "mp3_320")]);
}

#[test]
fn download_feelings_cover_art() {
    let request =
        Client::default().release().get_cover_art(&CatalogID("742779546913".to_owned()));
    assert_get(&request, format!("{WWW}release/742779546913/cover"), vec![], Expect::Bytes);
}

#[test]
fn get_user_info_any_login() {
    let mut client_unauth = Client::default();
    let mut jar = CookieJar::new();
    jar.insert(Cookie {
        domain: SESSION_HOST.to_owned(),
        path: SESSION_PATH.to_owned(),
        name: SESSION_COOKIE.to_owned(),
        value: "abc".to_owned(),
    });
    let reply = AuthReply { auth_data: None, default_auth_type: None, needs_2fa: false };
    let outcome =
        client_unauth.sign_in("u".to_owned(), "p".to_owned(), Ok(reply), &jar).expect("Failed to sign in");
    let client = match outcome {
        SignInOutcome::Authenticated(new_client) => new_client,
        _ => panic!("Failed to sign in"),
    };
    let request = client.user().get_info();
    assert_get(
        &request,
        format!("{PLAYER}/me"),
        vec![],
        Expect::Members(
            Field { key: "Settings", item: "user settings" },
            Field { key: "User", item: "user information" },
        ),
    );
}

#[test]
fn get_user_info_2fa_totp_login() {
    let request = authed_client().user().get_info();
    assert_eq!(request.url, format!("{PLAYER}/me"));
}

#[test]
fn get_user_info_2fa_email_login() {
    let mut client_unauth = Client::default();
    let outcome = client_unauth
        .sign_in_2fa_email(
            "u".to_owned(),
            "p".to_owned(),
            Ok(AuthDataEmail { id: Some("mail-1".to_owned()), email: None }),
        )
        .expect("Failed to sign in");

    let mut jar = CookieJar::new();
    jar.insert(Cookie {
        domain: SESSION_HOST.to_owned(),
        path: SESSION_PATH.to_owned(),
        name: SESSION_COOKIE.to_owned(),
        value: "abc".to_owned(),
    });
    let reply = AuthReply { auth_data: None, default_auth_type: None, needs_2fa: false };
    let client = outcome.resume(&mut client_unauth, Ok(reply), &jar).expect("Failed to sign in");
    let request = client.user().get_info();
    assert_eq!(request.url, format!("{PLAYER}/me"));
}

#[test]
fn get_totp_qr_code_image() {
    let request = authed_client().user().get_totp_qr_code_image();
    assert_get(&request, format!("{PLAYER}/me/two-factor/totp-qr"), vec![], Expect::Bytes);
}

#[test]
fn get_licenses() {
    let request = authed_client().user().get_licenses(None);
    assert_get(
        &request,
        format!("{PLAYER}/self/licenses"),
        vec![],
        member("Licenses", "licenses"),
    );
}

#[test]
fn get_shop_discount_code() {
    let post = authed_client().user().generate_shop_discount_code();
    assert_post(
        &post.request,
        format!("{PLAYER}/me/benefits/shop-code"),
        vec![],
        member("ShopCode", "shop code"),
    );
    assert_eq!(post.data, None);
}

#[test]
fn generate_player_code() {
    let post = authed_client().user().generate_player_code();
    assert_post(&post.request, format!("{PLAYER}/me/player-code"), vec![], Expect::Nothing);
}

#[test]
fn get_player_code() {
    let request = authed_client().user().get_player_code();
    assert_get(&request, format!("{PLAYER}/me/player-code"), vec![], Expect::Json);
}

#[test]
fn set_email() {
    let post = authed_client().user().set_email("u@example.org".to_owned());
    assert_post(&post.request, format!("{PLAYER}/me/email"), vec![], Expect::Nothing);
    assert_eq!(post.data.expect("a body").new_email, "u@example.org");
}

#[test]
fn set_password() {
    let post = authed_client().user().set_password("old".to_owned(), "new".to_owned());
    assert_post(&post.request, format!("{PLAYER}/me/password"), vec![], Expect::Nothing);
    let body = post.data.expect("a body");
    assert_eq!(body.old_password, "old");
    assert_eq!(body.new_password, "new");
}

#[test]
fn account_requests() {
    let client = authed_client();
    let user = client.user();
    assert_post(
        &user.enable_2fa_totp().request,
        format!("{PLAYER}/me/two-factor/enable-totp"),
        vec![],
        Expect::Nothing,
    );
    assert_post(
        &user.disable_2fa_totp().request,
        format!("{PLAYER}/me/two-factor/disable-totp"),
        vec![],
        Expect::Nothing,
    );
    assert_post(
        &user.enable_2fa_email().request,
        format!("{PLAYER}/me/two-factor/enable-email"),
        vec![],
        Expect::Nothing,
    );
    assert_post(
        &user.disable_2fa_email().request,
        format!("{PLAYER}/me/two-factor/disable-email"),
        vec![],
        Expect::Nothing,
    );
    let post = user.set_notification_interests(vec![NotificationInterests::News]);
    assert_post(&post.request, format!("{PLAYER}/me/notifications"), vec![], Expect::Nothing);
    assert_eq!(post.data, Some(vec![NotificationInterests::News]));
    let post = user.remove_license(LicenseID(id("27063fd3-4fba-4119-9af0-5001e925b0d2")));
    assert_post(
        &post.request,
        format!("{PLAYER}/self/license/27063fd3-4fba-4119-9af0-5001e925b0d2/delete"),
        vec![],
        Expect::Nothing,
    );
    let post = user.remove_video_claim("dQw4w9WgXcQ".to_owned());
    assert_post(&post.request, format!("{PLAYER}/me/remove-claims"), vec![], Expect::Nothing);
    assert_eq!(post.data.expect("a body").video_id, "dQw4w9WgXcQ");
}

#[test]
fn about_grant() {
    let mc = Client::default();

    let request = mc.artist().get_all(Some(RequestParameters::from_search("Grant".to_owned())));
    assert_get(
        &request,
        format!("{PLAYER}/artists"),
        vec![pair("search", "Grant"), pair("limit", "3"), pair("offset", "0")],
        member("Artists", "all artists"),
    );

    let request = mc.release().get_by_artist_name_uri(
        "grant",
        Some(RequestParameters::from_pagination(PaginationParameters { limit: 3, offset: 0 })),
    );
    assert_get(
        &request,
        format!("{PLAYER}/artist/grant/releases"),
        vec![pair("limit", "3"), pair("offset", "0")],
        member("Releases", "artist releases"),
    );

    let releases = vec![
        AnyRelease::Release(souvenir()),
        AnyRelease::Track(souvenir_track()),
        AnyRelease::Release(souvenir()),
    ];
    assert_eq!(releases.len(), 3);
    for release in &releases {
        println!(
            "  {} by {}. A {} released on {}.",
            release.get_title(),
            release.get_artists(),
            release.get_type(),
            release.get_date()
        );
    }
}
