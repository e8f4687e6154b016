use bombay::client::error::found_or;
use bombay::client::session::{SESSION_COOKIE, SESSION_HOST, SESSION_PATH};
use bombay::client::{
    Cookie, CookieJar, Error, Expect, Method, PaginationParameters, PlaylistItemOperations,
    PlaylistItemsOperations, RequestParameters, TargetAPI,
};
use bombay::client::Client;
use bombay::mc::artist::either_spelling;
use bombay::mc::label::Brand;
use bombay::mc::mood::MoodParam;
use bombay::mc::playlist::PlaylistID;
use bombay::mc::release::{CatalogID, ReleaseID, TrackID};
use bombay::mc::user::{ShopCodeID, UserID};
use bombay::mc::util::{Codec, LicenseID, Platform};
use bombay::text::{decimal_string, join, join3, normalize, str_eq, without_whitespace};

fn entry(key: &str, value: &str) -> (String, String) {
    (key.to_owned(), value.to_owned())
}

#[test]
fn default_parameters_ask_for_three_items() {
    let parameters = RequestParameters::default();
    assert_eq!(parameters.pagination, Some(PaginationParameters { limit: 3, offset: 0 }));
    assert_eq!(parameters.filters, None);
    assert_eq!(parameters.codec, None);
    assert_eq!(parameters.search, None);
    assert_eq!(parameters.sort, None);
    assert_eq!(parameters.into_queries(), vec![entry("limit", "3"), entry("offset", "0")]);
    assert_eq!(PaginationParameters::default(), PaginationParameters { limit: 3, offset: 0 });
}

#[test]
fn parameters_from_each_source() {
    let page = PaginationParameters { limit: 25, offset: 50 };
    let parameters = RequestParameters::from_pagination(page);
    assert_eq!(parameters.pagination, Some(page));
    assert_eq!(parameters.search, None);
    assert_eq!(parameters.into_queries(), vec![entry("limit", "25"), entry("offset", "50")]);

    let parameters = RequestParameters::from_search("Grant".to_owned());
    assert_eq!(parameters.search, Some("Grant".to_owned()));
    assert_eq!(parameters.pagination, Some(PaginationParameters { limit: 3, offset: 0 }));

    let parameters = RequestParameters::from_codec(Codec::WAV);
    assert_eq!(parameters.codec, Some(Codec::WAV));
    assert_eq!(parameters.pagination, None);
    assert_eq!(parameters.into_queries(), vec![entry("format", "wav")]);
}

#[test]
fn setters_change_one_parameter() {
    let parameters = RequestParameters::from_codec(Codec::FLAC)
        .set_search("rogue".to_owned())
        .set_pagination(PaginationParameters { limit: 7, offset: 14 });
    assert_eq!(parameters.codec, Some(Codec::FLAC));
    assert_eq!(parameters.search, Some("rogue".to_owned()));
    assert_eq!(parameters.pagination, Some(PaginationParameters { limit: 7, offset: 14 }));
    let parameters = parameters.set_search("grant".to_owned());
    assert_eq!(parameters.search, Some("grant".to_owned()));
    assert_eq!(parameters.pagination, Some(PaginationParameters { limit: 7, offset: 14 }));
}

#[test]
fn queries_come_in_order_and_once() {
    let mut parameters = RequestParameters::from_codec(Codec::MP3)
        .set_search("a b".to_owned())
        .set_pagination(PaginationParameters { limit: 100, offset: 1234567 });
    parameters.sort = Some("-date".to_owned());
    parameters.creator_friendly = Some(true);
    let queries = parameters.into_queries();
    assert_eq!(
        queries,
        vec![
            entry("format", "mp3_320"),
            entry("search", "a b"),
            entry("sort", "-date"),
            entry("limit", "100"),
            entry("offset", "1234567"),
        ]
    );
    for i in 0..queries.len() {
        for j in (i + 1)..queries.len() {
            assert_ne!(queries[i].0, queries[j].0);
        }
    }
    let none = RequestParameters { pagination: None, ..RequestParameters::default() };
    assert!(none.into_queries().is_empty());
}

#[test]
fn numbers_are_written_in_decimal() {
    assert_eq!(decimal_string(0), "0");
    assert_eq!(decimal_string(9), "9");
    assert_eq!(decimal_string(10), "10");
    assert_eq!(decimal_string(1905), "1905");
    assert_eq!(decimal_string(usize::MAX), usize::MAX.to_string());
    let page = PaginationParameters { limit: usize::MAX, offset: 0 };
    assert_eq!(page.into_queries(), vec![entry("limit", &usize::MAX.to_string()), entry("offset", "0")]);
}

#[test]
fn playlist_operations_have_their_words() {
    assert_eq!(PlaylistItemOperations::Add.to_string(), "add");
    assert_eq!(PlaylistItemOperations::Remove.to_string(), "remove");
    assert_eq!(PlaylistItemOperations::Up.to_string(), "up");
    assert_eq!(PlaylistItemOperations::Down.to_string(), "down");
    assert_eq!(PlaylistItemOperations::To.to_string(), "to");
    assert_eq!(PlaylistItemOperations::Up.into_queries(), vec![entry("type", "up")]);
    assert_eq!(PlaylistItemsOperations::Add.to_string(), "add");
    assert_eq!(PlaylistItemsOperations::Remove.to_string(), "remove");
    assert_eq!(PlaylistItemsOperations::Remove.into_queries(), vec![entry("type", "remove")]);
}

#[test]
fn codecs_are_read_in_any_case() {
    assert_eq!(Codec::default(), Codec::MP3);
    assert_eq!(Codec::MP3.to_string(), "mp3_320");
    assert_eq!(Codec::FLAC.to_string(), "flac");
    assert_eq!(Codec::WAV.to_string(), "wav");
    assert_eq!(Codec::from_str("mp3_320"), Codec::MP3);
    assert_eq!(Codec::from_str("FLAC"), Codec::FLAC);
    assert_eq!(Codec::from_str(" W a\tV\n"), Codec::WAV);
    assert_eq!(Codec::from_str("ogg"), Codec::MP3);
    assert_eq!(Codec::from_str(""), Codec::MP3);
    assert_eq!(Codec::from_normalized("flac"), Codec::FLAC);
    assert_eq!(Codec::from_normalized("FLAC"), Codec::MP3);
}

#[test]
fn platforms_are_read_in_any_case() {
    assert_eq!(Platform::from_str("Amazon"), Platform::Amazon);
    assert_eq!(Platform::from_str("Apple Music"), Platform::AppleMusic);
    assert_eq!(Platform::from_str("AUDIOMACK"), Platform::Audiomack);
    assert_eq!(Platform::from_str("audius"), Platform::Audius);
    assert_eq!(Platform::from_str("Bandcamp"), Platform::Bandcamp);
    assert_eq!(Platform::from_str("Deezer"), Platform::Deezer);
    assert_eq!(Platform::from_str("Facebook"), Platform::Facebook);
    assert_eq!(Platform::from_str("Google Play"), Platform::GooglePlay);
    assert_eq!(Platform::from_str("ig"), Platform::Instagram);
    assert_eq!(Platform::from_str("Instagram"), Platform::Instagram);
    assert_eq!(Platform::from_str("Patreon"), Platform::Patreon);
    assert_eq!(Platform::from_str("SoundCloud"), Platform::SoundCloud);
    assert_eq!(Platform::from_str("Spotify"), Platform::Spotify);
    assert_eq!(Platform::from_str("Tidal"), Platform::Tidal);
    assert_eq!(Platform::from_str("Tik Tok"), Platform::TikTok);
    assert_eq!(Platform::from_str("Twitch"), Platform::Twitch);
    assert_eq!(Platform::from_str("Twitter"), Platform::Twitter);
    assert_eq!(Platform::from_str("Website"), Platform::Website);
    assert_eq!(Platform::from_str("You Tube"), Platform::YouTube);
    assert_eq!(Platform::from_str("My Space"), Platform::Other("myspace".to_owned()));
    assert_eq!(Platform::from_normalized("Spotify".to_owned()), Platform::Other("Spotify".to_owned()));
}

#[test]
fn platforms_are_shown_by_name() {
    assert_eq!(Platform::Amazon.to_string(), "Amazon");
    assert_eq!(Platform::AppleMusic.to_string(), "Apple Music");
    assert_eq!(Platform::Audiomack.to_string(), "Audiomack");
    assert_eq!(Platform::Audius.to_string(), "Audius");
    assert_eq!(Platform::Bandcamp.to_string(), "Bandcamp");
    assert_eq!(Platform::Deezer.to_string(), "Deezer");
    assert_eq!(Platform::Facebook.to_string(), "Facebook");
    assert_eq!(Platform::GooglePlay.to_string(), "Google Play");
    assert_eq!(Platform::Instagram.to_string(), "Instagram");
    assert_eq!(Platform::Other("myspace".to_owned()).to_string(), "myspace");
    assert_eq!(Platform::Patreon.to_string(), "Patreon");
    assert_eq!(Platform::SoundCloud.to_string(), "SoundCloud");
    assert_eq!(Platform::Spotify.to_string(), "Spotify");
    assert_eq!(Platform::Tidal.to_string(), "Tidal");
    assert_eq!(Platform::TikTok.to_string(), "TikTok");
    assert_eq!(Platform::Twitch.to_string(), "Twitch");
    assert_eq!(Platform::Twitter.to_string(), "Twitter");
    assert_eq!(Platform::Website.to_string(), "Website");
    assert_eq!(Platform::YouTube.to_string(), "YouTube");
}

#[test]
fn text_is_normalized() {
    assert_eq!(normalize("  Apple\u{a0}MUSIC \r\n"), "applemusic");
    assert_eq!(normalize("ÀÉÎ õ"), "àéîõ");
    assert_eq!(without_whitespace(" a b\tc\u{2003}d "), "abcd");
    assert_eq!(without_whitespace(""), "");
    assert!(str_eq("cid", "cid"));
    assert!(!str_eq("cid", "cie"));
    assert!(!str_eq("cid", "ci"));
    assert!(str_eq("", ""));
    assert!(str_eq("päth", "päth"));
    assert_eq!(join("/mood/", "chill"), "/mood/chill");
    assert_eq!(join3("a", "", "c"), "ac");
}

#[test]
fn mood_parameters_have_their_words() {
    assert_eq!(MoodParam::Acousticness.to_string(), "acousticness");
    assert_eq!(MoodParam::Danceability.to_string(), "danceability");
    assert_eq!(MoodParam::Energy.to_string(), "energy");
    assert_eq!(MoodParam::Instrumentalness.to_string(), "instrumentalness");
    assert_eq!(MoodParam::Liveness.to_string(), "liveness");
    assert_eq!(MoodParam::Loudness.to_string(), "loudness");
    assert_eq!(MoodParam::Speechiness.to_string(), "speechniess");
    assert_eq!(MoodParam::Valence.to_string(), "valance");
}

#[test]
fn identifiers_are_written_as_uuids() {
    let value = 0xa1a2a3a4b1b2c1c2d1d2d3d4d5d6d7d8u128;
    let written = "a1a2a3a4-b1b2-c1c2-d1d2-d3d4d5d6d7d8";
    assert_eq!(PlaylistID(value).to_string(), written);
    assert_eq!(ReleaseID(value).to_string(), written);
    assert_eq!(TrackID(value).to_string(), written);
    assert_eq!(UserID(value).to_string(), written);
    assert_eq!(ShopCodeID(value).to_string(), written);
    assert_eq!(LicenseID(value).to_string(), written);
    assert_eq!(PlaylistID(0).to_string(), "00000000-0000-0000-0000-000000000000");
    assert_eq!(PlaylistID(u128::MAX).to_string(), "ffffffff-ffff-ffff-ffff-ffffffffffff");
    assert_eq!(PlaylistID(0x0123456789abcdef).to_string(), "00000000-0000-0000-0123-456789abcdef");
    assert_eq!(CatalogID("MCS1186".to_owned()).to_string(), "MCS1186");
}

#[test]
fn brands_have_their_numbers() {
    let brands = [
        (Brand::Uncaged, 1u8),
        (Brand::Instinct, 2),
        (Brand::CallofTheWild, 3),
        (Brand::Silk, 4),
        (Brand::MonstercatSilkShowcase, 5),
    ];
    for (brand, number) in brands {
        assert_eq!(brand.number(), number);
        assert_eq!(Brand::from_number(number), Some(brand));
    }
    assert_eq!(Brand::from_number(0), None);
    assert_eq!(Brand::from_number(6), None);
    assert_eq!(Brand::from_number(255), None);
}

#[test]
fn either_spelling_prefers_the_first() {
    let a = Some("A".to_owned());
    let b = Some("b".to_owned());
    assert_eq!(either_spelling(a.clone(), b.clone()), a);
    assert_eq!(either_spelling(None, b.clone()), b);
    assert_eq!(either_spelling(a.clone(), None), a);
    assert_eq!(either_spelling(None, None), None);
}

#[test]
fn found_or_names_what_is_missing() {
    assert_eq!(found_or(Some(7), "release").ok(), Some(7));
    match found_or::<u8>(None, "release") {
        Err(Error::NotFound(item)) => assert_eq!(item, "release"),
        _ => panic!("found"),
    }
}

#[test]
fn cookie_jar_finds_by_domain_path_and_name() {
    let mut jar = CookieJar::new();
    assert!(!jar.contains("a.example", "/", "cid"));
    assert_eq!(jar.get("a.example", "/", "cid"), None);
    let first = Cookie {
        domain: "a.example".to_owned(),
        path: "/".to_owned(),
        name: "cid".to_owned(),
        value: "1".to_owned(),
    };
    let second = Cookie { value: "2".to_owned(), ..first.clone() };
    let other = Cookie { name: "sid".to_owned(), ..first.clone() };
    jar.insert(other.clone());
    jar.insert(first.clone());
    jar.insert(second);
    assert_eq!(jar.cookies.len(), 3);
    assert_eq!(jar.get("a.example", "/", "cid"), Some(&first));
    assert_eq!(jar.get("a.example", "/", "sid"), Some(&other));
    assert_eq!(jar.get("a.example", "/x", "cid"), None);
    assert_eq!(jar.get("b.example", "/", "cid"), None);
    assert!(jar.contains("a.example", "/", "cid"));
    assert!(!jar.contains("a.example", "/", "CID"));
    assert_eq!(first.copy(), first);
    assert_eq!(SESSION_HOST, "player.monstercat.app");
    assert_eq!(SESSION_PATH, "/");
    assert_eq!(SESSION_COOKIE, "cid");
}

#[test]
fn requests_are_built_for_both_targets() {
    let client = Client::new("http://p".to_owned(), "http://w/".to_owned());
    let request = client.get(TargetAPI::Player, "/x", Some(vec![entry("k", "v")]));
    assert_eq!(request.method, Method::Get);
    assert_eq!(request.url, "http://p/x");
    assert_eq!(request.queries, vec![entry("k", "v")]);
    assert_eq!(request.expect, Expect::Json);
    let request = client.get_reader(TargetAPI::WWW, "y", None);
    assert_eq!(request.url, "http://w/y");
    assert_eq!(request.expect, Expect::Bytes);
    let post = client.post(TargetAPI::default(), "/z", None, Some(5u8));
    assert_eq!(post.request.method, Method::Post);
    assert_eq!(post.request.url, "http://p/z");
    assert_eq!(post.request.expect, Expect::Json);
    assert_eq!(post.data, Some(5));
    let post = client.post_empty_response::<u8>(TargetAPI::WWW, "z", Some(vec![entry("a", "1")]), None);
    assert_eq!(post.request.url, "http://w/z");
    assert_eq!(post.request.expect, Expect::Nothing);
    assert_eq!(post.request.queries, vec![entry("a", "1")]);
    assert_eq!(post.data, None);

    let request = client.build_get_request(TargetAPI::Player, "/q", None);
    let request = client.add_request_queries(request, Some(vec![entry("a", "1")]));
    let request = client.add_request_queries(request, Some(vec![entry("b", "2")]));
    let request = client.add_request_queries(request, None);
    assert_eq!(request.queries, vec![entry("a", "1"), entry("b", "2")]);
    assert_eq!(client.build_post_request(TargetAPI::Player, "/q", None).method, Method::Post);
}
