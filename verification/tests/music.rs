use downloader_hub::music::{
    exhausted, resolve_chain, succeeded, DownloadHandler, FallbackStep, Handler, Music,
    PrefixHandler,
};
use downloader_hub::pipeline::{DownloadRequest, MediaItem};

fn backend(host: &str, on: bool) -> PrefixHandler {
    PrefixHandler { prefixes: vec![format!("https://{host}."), format!("http://{host}.")], on }
}

fn chain(backends: Vec<PrefixHandler>) -> Music<PrefixHandler> {
    Music::new(backends.into_iter().map(DownloadHandler::new).collect())
}

fn ok(path: &str) -> Option<Result<String, String>> {
    Some(Ok(path.to_string()))
}

fn err(reason: &str) -> Option<Result<String, String>> {
    Some(Err(reason.to_string()))
}

#[test]
fn the_chain_succeeds_through_the_second_backend_when_the_first_fails() {
    let result = resolve_chain(&vec![err("a is down"), ok("/tmp/song.mp3")]);
    assert_eq!(result, Ok((1, "/tmp/song.mp3".to_string())));
}

#[test]
fn the_chain_takes_the_first_backend_that_succeeds() {
    let result = resolve_chain(&vec![err("x"), ok("b"), ok("c")]);
    assert_eq!(result, Ok((1, "b".to_string())));
    let result = resolve_chain(&vec![ok("a"), ok("b")]);
    assert_eq!(result, Ok((0, "a".to_string())));
}

#[test]
fn a_backend_that_does_not_serve_the_address_is_passed_over() {
    let result = resolve_chain(&vec![None, ok("b")]);
    assert_eq!(result, Ok((1, "b".to_string())));
    let result = resolve_chain(&vec![None, err("b"), None, ok("d")]);
    assert_eq!(result, Ok((3, "d".to_string())));
    let result = resolve_chain(&vec![None, None]);
    assert_eq!(result, Err("No handler succeeded for song".to_string()));
}

#[test]
fn the_chain_fails_only_when_every_backend_has_failed() {
    let result = resolve_chain(&vec![err("a"), err("b")]);
    assert_eq!(result, Err("No handler succeeded for song".to_string()));
    assert_eq!(resolve_chain(&Vec::new()), Err("No handler succeeded for song".to_string()));
}

#[test]
fn the_downloader_keeps_the_backends_that_are_switched_on() {
    let music = chain(vec![backend("one", true), backend("two", false), backend("three", true)]);
    assert_eq!(music.len(), 2);
    assert_eq!(music.handler(0).unwrap().provider().prefixes[0], "https://one.");
    assert_eq!(music.handler(1).unwrap().provider().prefixes[0], "https://three.");
    assert!(music.handler(2).is_none());
    assert!(music.handler(0).unwrap().enabled());
    assert!(music.handler(1).unwrap().supports("https://three.example/x"));
    assert!(!music.handler(1).unwrap().supports("https://one.example/x"));
}

#[test]
fn the_downloader_supports_what_one_of_its_backends_serves() {
    let music = chain(vec![backend("one", true), backend("two", false), backend("three", true)]);
    assert!(music.supports("https://three.example/song"));
    assert!(music.supports("https://one.example/song"));
    assert!(!music.supports("https://two.example/song"));
    assert!(!music.supports("https://four.example/song"));
    assert!(!chain(Vec::new()).supports("https://one.example/song"));
}

#[test]
fn backends_are_tried_in_order_and_the_chain_goes_on_after_a_failure() {
    let music = chain(vec![backend("music", true), backend("other", true), backend("music", true)]);
    let url = "https://music.example/song";
    assert_eq!(music.first_attempt(url), FallbackStep::Try(0));
    assert_eq!(music.after_failure(url, 0), FallbackStep::Try(2));
    assert_eq!(music.after_failure(url, 2), FallbackStep::Exhausted);
    assert_eq!(music.after_failure(url, 3), FallbackStep::Exhausted);
    assert_eq!(music.after_failure(url, usize::MAX), FallbackStep::Exhausted);
    assert_eq!(music.first_attempt("https://nowhere/"), FallbackStep::Exhausted);
    assert_eq!(music.next_handler(url, 1), Some(2));
    assert_eq!(music.next_handler(url, 3), None);
}

#[test]
fn the_downloader_says_what_it_does() {
    assert_eq!(
        chain(Vec::new()).description(),
        "Download songs from Spotify, Deezer, Tidal, and various other music providers. Depends on external services so may be randomly unavailable."
    );
}

#[test]
fn a_download_that_succeeded_keeps_its_request() {
    let request = DownloadRequest {
        item: MediaItem {
            url: "https://music.example/song".to_string(),
            suggested_name: None,
            extension: None,
        },
        download_dir: "/tmp/x".to_string(),
    };
    let done = succeeded("/tmp/x/song.mp3".to_string(), &request).unwrap();
    assert_eq!(done.path, "/tmp/x/song.mp3");
    assert_eq!(done.request.item.url, "https://music.example/song");
    assert_eq!(done.request.download_dir, "/tmp/x");
    assert_eq!(exhausted().unwrap_err(), "No handler succeeded for song");
}

#[test]
fn a_backend_serves_the_addresses_that_begin_as_it_lists() {
    let spotify = PrefixHandler {
        prefixes: vec!["https://open.spotify.com/".to_string(), "spotify:".to_string()],
        on: true,
    };
    assert!(spotify.supports("https://open.spotify.com/track/1"));
    assert!(spotify.supports("spotify:track:1"));
    assert!(spotify.supports("spotify:"));
    assert!(!spotify.supports("https://open.spotify.co"));
    assert!(!spotify.supports("x https://open.spotify.com/track/1"));
    assert!(!spotify.supports(""));
    assert!(spotify.enabled());
    let fresh = PrefixHandler::new(vec!["spotify:".to_string()]);
    assert!(fresh.enabled());
    assert!(fresh.supports("spotify:track:1"));
    let nothing = PrefixHandler { prefixes: Vec::new(), on: false };
    assert!(!nothing.supports("spotify:track:1"));
    assert!(!nothing.enabled());
    let anything = PrefixHandler { prefixes: vec![String::new()], on: true };
    assert!(anything.supports(""));
    assert!(anything.supports("whatever"));
}
