use hyper::header::{HeaderMap, HeaderName, HeaderValue};
use smtc2web_dev::encode::{compose_data_uri, data_uri_of};
use smtc2web_dev::page::{inject_sse, try_inject_sse, SSE_RELOAD_SCRIPT};
use smtc2web_dev::proxy::{
    downstream_headers, is_hop_by_hop, pass_headers, skip_request_header, upstream_headers,
    upstream_target, Direction,
};
use smtc2web_dev::server::{
    bad_gateway, event_stream, file_reply, may_read, not_found, now_playing, route, serve_static,
    theme_file_of, Reply, Route, RELOAD_PATH,
};
use smtc2web_dev::watch::{ChangeKind, ThemeWatch, WatchAction, WatchEvent};

fn file(path: &str) -> Route {
    Route::File { path: path.to_string() }
}

fn parts(path: &[&str]) -> Option<Vec<Vec<u8>>> {
    Some(path.iter().map(|p| p.as_bytes().to_vec()).collect())
}

fn text_of(reply: &Reply) -> String {
    String::from_utf8(reply.body.clone()).unwrap()
}

#[test]
fn requests_find_their_way_without_a_dev_server() {
    assert_eq!(route("/api/now", false), Route::NowPlaying);
    assert_eq!(route("/__dev_reload", false), Route::ReloadEvents);
    assert_eq!(route("/", false), file(""));
    assert_eq!(route("", false), file(""));
    assert_eq!(route("///", false), file(""));
    assert_eq!(route("/js/app.js", false), file("js/app.js"));
    assert_eq!(route("//a//b/", false), file("a//b/"));
    assert_eq!(route("/api/now/", false), file("api/now/"));
    assert_eq!(route("/../Cargo.toml", false), file("../Cargo.toml"));
}

#[test]
fn requests_find_their_way_with_a_dev_server() {
    assert_eq!(route("/api/now", true), Route::NowPlaying);
    for path in ["/", "/foo", "/__dev_reload", "/api/now2", ""] {
        assert_eq!(route(path, true), Route::Proxy);
    }
}

#[test]
fn the_index_stands_for_the_root() {
    assert_eq!(theme_file_of(""), "index.html");
    assert_eq!(theme_file_of("a.css"), "a.css");
}

#[test]
fn the_index_is_served_with_the_script() {
    let base = parts(&["/", "themes", "a"]);
    let index = parts(&["/", "themes", "a", "index.html"]);
    let data = b"<html><body>hi</body></html>".to_vec();
    let reply = serve_static("", &base, &index, Some(data)).unwrap();
    assert_eq!(reply.status, 200);
    assert_eq!(reply.content_type, "text/html");
    assert_eq!(
        text_of(&reply),
        format!("<html><body>hi{}</body></html>", SSE_RELOAD_SCRIPT)
    );
    assert!(text_of(&reply).contains("__dev_reload"));
}

#[test]
fn nothing_outside_the_theme_is_served() {
    let base = parts(&["/", "themes", "a"]);
    let missing = Some(not_found());
    let data = || Some(b"secret".to_vec());
    let outside = parts(&["/", "themes", "Cargo.toml"]);
    assert_eq!(serve_static("../Cargo.toml", &base, &outside, data()), missing);
    // A directory whose name begins like the theme's is another one.
    let beside = parts(&["/", "themes", "ab", "x.txt"]);
    assert_eq!(serve_static("../ab/x.txt", &base, &beside, data()), missing);
    assert_eq!(serve_static("x.txt", &None, &beside, data()), missing);
    assert_eq!(serve_static("x.txt", &base, &None, data()), missing);
    let inside = parts(&["/", "themes", "a", "x.txt"]);
    assert_eq!(serve_static("x.txt", &base, &inside, None), missing);
    assert_eq!(serve_static("x.txt", &base, &inside, data()).unwrap().status, 200);
}

#[test]
fn files_may_be_read_below_the_base_only() {
    let base = parts(&["/", "t"]);
    assert!(may_read(&base, &parts(&["/", "t"])));
    assert!(may_read(&base, &parts(&["/", "t", "x", "y"])));
    assert!(!may_read(&base, &parts(&["/"])));
    assert!(!may_read(&base, &parts(&["/", "tt", "x"])));
    assert!(!may_read(&base, &parts(&["/", "u", "t"])));
    assert!(!may_read(&None, &base));
    assert!(!may_read(&base, &None));
}

#[test]
fn other_files_are_served_as_they_are() {
    let base = parts(&["/", "t"]);
    let inside = parts(&["/", "t", "x"]);
    let bytes = vec![0u8, 255, 60, 47, 98, 111, 100, 121, 62];
    for (path, kind) in [
        ("x.css", "text/css"),
        ("x.png", "image/png"),
        ("x", "application/octet-stream"),
        ("a/b.json", "application/json"),
    ] {
        let reply = serve_static(path, &base, &inside, Some(bytes.clone())).unwrap();
        assert_eq!(reply.content_type, kind);
        assert_eq!(reply.body, bytes);
        assert_eq!(reply.status, 200);
    }
    let page = serve_static("sub/page.htm", &base, &inside, Some(b"x".to_vec())).unwrap();
    assert_eq!(page.content_type, "text/html");
    assert_eq!(text_of(&page), format!("x{}", SSE_RELOAD_SCRIPT));
}

#[test]
fn types_are_told_by_extension() {
    let base = parts(&["/", "t"]);
    let inside = parts(&["/", "t", "x"]);
    let kind = |path: &str| {
        serve_static(path, &base, &inside, Some(b"x".to_vec())).unwrap().content_type
    };
    for path in ["a.html", "a/b:c.html", "c:name.html", "a\\b.html", "..html", "a.b.html", "a.html/."] {
        assert_eq!(kind(path), "text/html", "{}", path);
    }
    for path in [".html", "a/.html", "a.html.", "a.html/b", "a/..", "a.unknown", "a.html:x"] {
        assert_eq!(kind(path), "application/octet-stream", "{}", path);
    }
    let page = serve_static("b:c.html", &base, &inside, Some(b"x".to_vec())).unwrap();
    assert_eq!(text_of(&page), format!("x{}", SSE_RELOAD_SCRIPT));
}

#[test]
fn pages_that_are_not_valid_text_are_mended() {
    let reply = file_reply("text/html", vec![97, 255, 98]).unwrap();
    assert_eq!(text_of(&reply), format!("a\u{fffd}b{}", SSE_RELOAD_SCRIPT));
    let reply = file_reply("text/html; charset=utf-8", b"a".to_vec()).unwrap();
    assert_eq!(reply.content_type, "text/html; charset=utf-8");
    assert_eq!(text_of(&reply), format!("a{}", SSE_RELOAD_SCRIPT));
    assert_eq!(file_reply("text/plain", vec![255]).unwrap().body, vec![255]);
}

#[test]
fn the_script_goes_before_the_last_end_of_the_body() {
    assert_eq!(inject_sse(""), SSE_RELOAD_SCRIPT);
    assert_eq!(inject_sse("<p>"), format!("<p>{}", SSE_RELOAD_SCRIPT));
    assert_eq!(
        inject_sse("a</body>b</BODY>c"),
        format!("a</body>b{}</BODY>c", SSE_RELOAD_SCRIPT)
    );
    assert_eq!(
        try_inject_sse("中文</body>"),
        Some(format!("中文{}</body>", SSE_RELOAD_SCRIPT))
    );
    assert!(SSE_RELOAD_SCRIPT.contains(RELOAD_PATH));
    assert!(SSE_RELOAD_SCRIPT.starts_with("<script>\n(function(){"));
    assert!(SSE_RELOAD_SCRIPT.ends_with("})();\n</script>"));
}

#[test]
fn letters_that_grow_move_the_script() {
    // The lowercase form of the first letter is one byte longer, so the place is found one byte
    // late.
    assert_eq!(
        try_inject_sse("\u{130}</body>"),
        Some(format!("\u{130}<{}/body>", SSE_RELOAD_SCRIPT))
    );
    // That of the next one is two bytes shorter, and the place falls inside another letter.
    assert_eq!(try_inject_sse("\u{212a}\u{4e2d}</body>"), None);
    assert_eq!(file_reply("text/html", "\u{212a}\u{4e2d}</body>".as_bytes().to_vec()), None);
}

#[test]
fn the_song_is_told_as_json() {
    let reply = now_playing(Some(b"{\"is_playing\":false}".to_vec()));
    assert_eq!(reply.status, 200);
    assert_eq!(reply.content_type, "application/json");
    assert_eq!(text_of(&reply), "{\"is_playing\":false}");
    assert_eq!(text_of(&now_playing(None)), "{}");
}

#[test]
fn errors_are_told_in_plain_text() {
    let reply = not_found();
    assert_eq!(reply.status, 404);
    assert_eq!(reply.content_type, "text/plain; charset=utf-8");
    assert_eq!(text_of(&reply), "Not Found");
    let reply = bad_gateway(5173, "connection refused");
    assert_eq!(reply.status, 502);
    assert_eq!(reply.content_type, "text/plain; charset=utf-8");
    assert_eq!(
        text_of(&reply),
        "上游 dev server 不可用 (localhost:5173): connection refused"
    );
}

#[test]
fn changes_are_told_as_events() {
    let stream = event_stream();
    assert_eq!(stream.status, 200);
    assert_eq!(stream.content_type, "text/event-stream");
    assert_eq!(stream.cache_control, "no-cache");
    assert_eq!(stream.event, b"data: reload\n\n".to_vec());
    assert_eq!(stream.interval_secs, 15);
}

#[test]
fn data_uris_hold_type_and_text() {
    assert_eq!(data_uri_of("image/png", &b"any carnal pleas".to_vec()),
        "data:image/png;base64,YW55IGNhcm5hbCBwbGVhcw==");
    assert_eq!(compose_data_uri("a/b", "eA=="), "data:a/b;base64,eA==");
}

#[test]
fn a_burst_of_changes_reloads_once() {
    let mut watch = ThemeWatch::new();
    let events = [
        (WatchEvent::Quiet, WatchAction::Wait),
        (WatchEvent::Changed(ChangeKind::Access), WatchAction::Wait),
        (WatchEvent::Changed(ChangeKind::Modify), WatchAction::Drain),
        (WatchEvent::Changed(ChangeKind::Access), WatchAction::Drain),
        (WatchEvent::Changed(ChangeKind::Create), WatchAction::Drain),
        (WatchEvent::Quiet, WatchAction::Reload),
        (WatchEvent::Quiet, WatchAction::Wait),
        (WatchEvent::Changed(ChangeKind::Remove), WatchAction::Drain),
        (WatchEvent::Failed, WatchAction::Reload),
        (WatchEvent::Failed, WatchAction::Wait),
        (WatchEvent::Changed(ChangeKind::Other), WatchAction::Wait),
        (WatchEvent::Changed(ChangeKind::Any), WatchAction::Wait),
        (WatchEvent::Changed(ChangeKind::Create), WatchAction::Drain),
        (WatchEvent::Closed, WatchAction::Reload),
        (WatchEvent::Closed, WatchAction::Stop),
    ];
    for (event, action) in events {
        assert_eq!(watch.on_event(event), action, "{:?}", event);
    }
}

fn headers(list: &[(&str, &str)]) -> HeaderMap {
    let mut map = HeaderMap::new();
    for (name, value) in list {
        map.append(
            HeaderName::from_bytes(name.as_bytes()).unwrap(),
            HeaderValue::from_str(value).unwrap(),
        );
    }
    map
}

fn listed(map: &HeaderMap) -> Vec<(String, String)> {
    let mut list: Vec<(String, String)> = map
        .iter()
        .map(|(n, v)| (n.as_str().to_string(), v.to_str().unwrap().to_string()))
        .collect();
    list.sort();
    list
}

#[test]
fn requests_are_rewritten_for_the_dev_server() {
    let request = headers(&[
        ("Host", "127.0.0.1:3031"),
        ("Accept", "a"),
        ("Accept", "b"),
        ("TE", "x"),
        ("Keep-Alive", "5"),
        ("Transfer-Encoding", "chunked"),
        ("Proxy-Authorization", "p"),
        ("Connection", "Upgrade"),
        ("Upgrade", "websocket"),
        ("Origin", "http://127.0.0.1:3031"),
    ]);
    let sent = upstream_headers(&request, 5173).unwrap();
    let expected = headers(&[
        ("accept", "a"),
        ("accept", "b"),
        ("connection", "Upgrade"),
        ("host", "localhost:5173"),
        ("origin", "http://localhost:5173"),
        ("upgrade", "websocket"),
    ]);
    assert_eq!(listed(&sent), listed(&expected));
    let accepts: Vec<&HeaderValue> = sent.get_all("accept").iter().collect();
    assert_eq!(accepts, vec!["a", "b"]);
    // Once more changes nothing more.
    assert_eq!(listed(&upstream_headers(&sent, 5173).unwrap()), listed(&sent));
}

#[test]
fn an_origin_is_not_made_up() {
    let sent = upstream_headers(&headers(&[]), 80).unwrap();
    assert_eq!(listed(&sent), vec![("host".to_string(), "localhost:80".to_string())]);
}

#[test]
fn answers_lose_what_speaks_of_the_connection() {
    let answer = headers(&[
        ("content-type", "text/html"),
        ("set-cookie", "a=1"),
        ("set-cookie", "b=2"),
        ("connection", "upgrade"),
        ("upgrade", "websocket"),
        ("keep-alive", "5"),
        ("transfer-encoding", "chunked"),
    ]);
    let plain = headers(&[
        ("content-type", "text/html"),
        ("set-cookie", "a=1"),
        ("set-cookie", "b=2"),
    ]);
    assert_eq!(listed(&downstream_headers(&answer, 200).unwrap()), listed(&plain));
    let upgraded = headers(&[
        ("content-type", "text/html"),
        ("set-cookie", "a=1"),
        ("set-cookie", "b=2"),
        ("connection", "upgrade"),
        ("upgrade", "websocket"),
        ("keep-alive", "5"),
    ]);
    assert_eq!(listed(&downstream_headers(&answer, 101).unwrap()), listed(&upgraded));
    assert_eq!(
        listed(&pass_headers(&answer, Direction::ToClient).unwrap()),
        listed(&plain)
    );
}

#[test]
fn headers_of_the_connection_are_known() {
    for name in [
        "host",
        "transfer-encoding",
        "proxy-connection",
        "proxy-authorization",
        "proxy-authenticate",
        "te",
        "trailer",
        "keep-alive",
    ] {
        assert!(skip_request_header(name));
    }
    for name in ["connection", "upgrade", "origin", "accept", "Host", ""] {
        assert!(!skip_request_header(name));
    }
    for name in [
        "connection",
        "keep-alive",
        "proxy-authenticate",
        "proxy-authorization",
        "te",
        "trailer",
        "transfer-encoding",
        "upgrade",
    ] {
        assert!(is_hop_by_hop(name));
    }
    for name in ["host", "proxy-connection", "content-length", "TE"] {
        assert!(!is_hop_by_hop(name));
    }
}

#[test]
fn targets_are_passed_on() {
    assert_eq!(upstream_target(Some("/a?b=c")), "/a?b=c");
    assert_eq!(upstream_target(None), "/");
}
