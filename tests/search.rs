use spotify_search::args::parse_args;
use spotify_search::dispatch::{on_status, respond, unexpected_status_message, Outcome, StatusAction};
use spotify_search::records::{APIResponse, Album, Artist, ExternalUrls, Items, Track};
use spotify_search::report::track_lines;
use spotify_search::request::{bearer_value, build_request, search_url};

fn link(s: &str) -> ExternalUrls {
    ExternalUrls { spotify: s.to_string() }
}

fn artist(name: &str) -> Artist {
    Artist { name: name.to_string(), external_urls: link(&format!("https://open.spotify.com/artist/{}", name)) }
}

fn track(name: &str, album: &str, artists: &[&str], url: &str) -> Track {
    Track {
        name: name.to_string(),
        href: format!("https://api.spotify.com/v1/tracks/{}", name),
        popularity: 50,
        album: Album {
            name: album.to_string(),
            artists: artists.iter().map(|a| artist(a)).collect(),
            external_urls: link("https://open.spotify.com/album/x"),
        },
        external_urls: link(url),
    }
}

fn response(tracks: Vec<Track>) -> APIResponse {
    APIResponse { tracks: Items { items: tracks } }
}

fn strings(v: &[&str]) -> Vec<String> {
    v.iter().map(|s| s.to_string()).collect()
}

#[test]
fn wrong_argument_counts_are_refused() {
    assert!(parse_args(&strings(&["prog"])).is_none());
    assert!(parse_args(&strings(&["prog", "query"])).is_none());
    assert!(parse_args(&strings(&["prog", "query", "token", "extra"])).is_none());
    assert!(parse_args(&Vec::new()).is_none());
}

#[test]
fn two_arguments_are_query_and_token() {
    let a = parse_args(&strings(&["prog", "daft punk", "tok"])).unwrap();
    assert_eq!(a.query, "daft punk");
    assert_eq!(a.token, "tok");
}

#[test]
fn url_embeds_raw_query() {
    assert_eq!(search_url("a b&c"), "https://api.spotify.com/v1/search?q=a b&c&type=track,artist");
    assert_eq!(search_url(""), "https://api.spotify.com/v1/search?q=&type=track,artist");
}

#[test]
fn request_carries_headers() {
    let a = parse_args(&strings(&["prog", "muse", "abc123"])).unwrap();
    let r = build_request(&a);
    assert_eq!(r.url, "https://api.spotify.com/v1/search?q=muse&type=track,artist");
    assert_eq!(r.authorization, "Bearer abc123");
    assert_eq!(r.content_type, "application/json");
    assert_eq!(r.accept, "application/json");
    assert_eq!(bearer_value("t"), "Bearer t");
}

#[test]
fn status_dispatch() {
    assert_eq!(on_status(200), StatusAction::ReadBody);
    assert_eq!(on_status(401), StatusAction::NeedNewToken);
    assert_eq!(on_status(418), StatusAction::Unexpected);
    assert_eq!(on_status(500), StatusAction::Unexpected);
    assert_eq!(on_status(201), StatusAction::Unexpected);
}

#[test]
fn artist_names_run_together() {
    let t = track("song", "record", &["A", "B"], "u");
    assert_eq!(t.album.artist_names(), "AB");
    let none = track("song", "record", &[], "u");
    assert_eq!(none.album.artist_names(), "");
}

#[test]
fn blocks_of_five_lines_in_order() {
    let tracks = vec![
        track("One", "First", &["A", "B"], "https://open.spotify.com/track/1"),
        track("Two", "Second", &["C"], "https://open.spotify.com/track/2"),
        track("Three", "Third", &[], "https://open.spotify.com/track/3"),
    ];
    let lines = track_lines(&tracks);
    assert_eq!(
        lines,
        strings(&[
            "One", "First", "AB", "https://open.spotify.com/track/1", "---------",
            "Two", "Second", "C", "https://open.spotify.com/track/2", "---------",
            "Three", "Third", "", "https://open.spotify.com/track/3", "---------",
        ])
    );
}

#[test]
fn no_tracks_print_nothing() {
    assert!(track_lines(&Vec::new()).is_empty());
    match respond(200, Some(&response(Vec::new()))) {
        Outcome::Print(lines) => assert!(lines.is_empty()),
        Outcome::Abort(_) => panic!("a success must not abort"),
    }
}

#[test]
fn success_prints_the_tracks() {
    let r = response(vec![track("Song", "Album", &["X", "Y"], "https://open.spotify.com/track/s")]);
    match respond(200, Some(&r)) {
        Outcome::Print(lines) => {
            assert_eq!(lines, strings(&["Song", "Album", "XY", "https://open.spotify.com/track/s", "---------"]))
        }
        Outcome::Abort(_) => panic!("a success must not abort"),
    }
}

#[test]
fn shape_mismatch_is_reported_softly() {
    match respond(200, None) {
        Outcome::Print(lines) => {
            assert_eq!(lines, strings(&["Hm, the response didn't match the shape we expected."]))
        }
        Outcome::Abort(_) => panic!("a shape mismatch must not abort"),
    }
}

#[test]
fn unauthorized_asks_for_new_token() {
    let r = response(vec![track("Song", "Album", &["X"], "u")]);
    for parsed in [None, Some(&r)] {
        match respond(401, parsed) {
            Outcome::Print(lines) => assert_eq!(lines, strings(&["Need to grab a new token"])),
            Outcome::Abort(_) => panic!("401 must not abort"),
        }
    }
}

#[test]
fn unexpected_status_aborts_with_status() {
    match respond(418, None) {
        Outcome::Abort(msg) => {
            assert_eq!(msg, "Uh oh! Something unexpected happened: 418");
            assert!(msg.contains("418"));
        }
        Outcome::Print(_) => panic!("418 must abort"),
    }
    assert_eq!(unexpected_status_message(0), "Uh oh! Something unexpected happened: 0");
    assert_eq!(unexpected_status_message(9), "Uh oh! Something unexpected happened: 9");
    assert_eq!(unexpected_status_message(10), "Uh oh! Something unexpected happened: 10");
    assert_eq!(unexpected_status_message(503), "Uh oh! Something unexpected happened: 503");
    assert_eq!(unexpected_status_message(65535), "Uh oh! Something unexpected happened: 65535");
}

#[test]
fn repeated_runs_give_identical_output() {
    let make = || response(vec![track("Song", "Album", &["A", "B"], "https://open.spotify.com/track/s")]);
    let first = match respond(200, Some(&make())) {
        Outcome::Print(lines) => lines,
        Outcome::Abort(_) => panic!("a success must not abort"),
    };
    let second = match respond(200, Some(&make())) {
        Outcome::Print(lines) => lines,
        Outcome::Abort(_) => panic!("a success must not abort"),
    };
    assert_eq!(first, second);
}
