use mace_reforge::route::{href, parse_route, ws_url, Route};

fn s(x: &str) -> String {
    x.to_string()
}

#[test]
fn parse_pages() {
    assert_eq!(parse_route("#/topic/5/question/7"), Route::Question(s("5"), s("7")));
    assert_eq!(parse_route("#/topic/5"), Route::Topic(s("5")));
    assert_eq!(parse_route("#/"), Route::Home);
    assert_eq!(parse_route(""), Route::Home);
}

#[test]
fn parse_ignores_empty_segments_and_leading_hashes() {
    assert_eq!(parse_route("##//topic//5//"), Route::Topic(s("5")));
    assert_eq!(parse_route("topic/a/question/b"), Route::Question(s("a"), s("b")));
}

#[test]
fn parse_unknown_shapes_go_home() {
    assert_eq!(parse_route("#/topic/5/extra"), Route::Home);
    assert_eq!(parse_route("#/topics/5"), Route::Home);
    assert_eq!(parse_route("#/topic/5/answer/7"), Route::Home);
    assert_eq!(parse_route("#/topic"), Route::Home);
}

#[test]
fn links_lead_back_to_their_page() {
    for r in [Route::Home, Route::Topic(s("12")), Route::Question(s("12"), s("40"))] {
        assert_eq!(parse_route(&href(&r)), r);
    }
    assert_eq!(href(&Route::Question(s("3"), s("9"))), "#/topic/3/question/9");
    assert_eq!(href(&Route::Topic(s("3"))), "#/topic/3");
    assert_eq!(href(&Route::Home), "#/");
}

#[test]
fn live_channel_url() {
    assert_eq!(
        ws_url("https:", "example.org", "1", "2"),
        "wss://example.org/api/topics/1/questions/2/ws"
    );
    assert_eq!(
        ws_url("http:", "localhost:4849", "1", "2"),
        "ws://localhost:4849/api/topics/1/questions/2/ws"
    );
}
