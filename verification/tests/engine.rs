use acestream_client::Engine;
use acestream_client::Stream;

fn stream_fixture() -> Stream {
    Stream {
        command_url: Some("http://127.0.0.1:6878/ace/c/abc/cmd".to_owned()),
        is_live: Some(0),
        playback_session_id: Some("abc".to_owned()),
        playback_url: Some("http://127.0.0.1:6878/ace/c/abc".to_owned()),
        stat_url: Some("http://127.0.0.1:6878/ace/stat/abc".to_owned()),
    }
}

#[test]
fn new_normalizes_the_base_address() {
    let e = match Engine::new("http://127.0.0.1:6878") {
        Ok(e) => e,
        Err(_) => panic!("valid address refused"),
    };
    assert_eq!(e.engine_url, "http://127.0.0.1:6878/");
    assert_eq!(e.streams.len(), 0);
}

#[test]
fn new_rejects_a_relative_address() {
    assert!(matches!(Engine::new("no scheme here"), Err(_)));
}

#[test]
fn default_engine_points_at_the_local_control_port() {
    let e: Engine = Default::default();
    assert_eq!(e.engine_url, "http://127.0.0.1:6878/");
    assert_eq!(e.streams.len(), 0);
}

#[test]
fn build_url_joins_path_and_encodes_pairs() {
    let e = Engine::new("http://127.0.0.1:6878").unwrap_or_else(|_| panic!());
    let qs = vec![
        ("method".to_owned(), "get_version".to_owned()),
        ("format".to_owned(), "json".to_owned()),
    ];
    let u = match e.build_url("webui/api/service", &qs) {
        Ok(u) => u,
        Err(_) => panic!("build failed"),
    };
    assert_eq!(u, "http://127.0.0.1:6878/webui/api/service?method=get_version&format=json");
}

#[test]
fn build_url_percent_encodes_values() {
    let e = Engine::new("http://127.0.0.1:6878").unwrap_or_else(|_| panic!());
    let qs = vec![("q".to_owned(), "a b&c".to_owned())];
    let u = match e.build_url("server/api", &qs) {
        Ok(u) => u,
        Err(_) => panic!("build failed"),
    };
    assert_eq!(u, "http://127.0.0.1:6878/server/api?q=a+b%26c");
}

#[test]
fn version_url_carries_the_version_method() {
    let e = Engine::new("http://127.0.0.1:6878").unwrap_or_else(|_| panic!());
    let u = match e.version_url() {
        Ok(u) => u,
        Err(_) => panic!("build failed"),
    };
    assert_eq!(u, "http://127.0.0.1:6878/webui/api/service?method=get_version&format=json");
}

#[test]
fn get_stream_url_carries_the_identifier() {
    let e = Engine::new("http://127.0.0.1:6878").unwrap_or_else(|_| panic!());
    let u = match e.get_stream_url("94c2fd8fb9bc8f2fc71a2cbe9d4b866f227a0209") {
        Ok(u) => u,
        Err(_) => panic!("build failed"),
    };
    assert_eq!(
        u,
        "http://127.0.0.1:6878/ace/getstream?id=94c2fd8fb9bc8f2fc71a2cbe9d4b866f227a0209&format=json"
    );
}

#[test]
fn get_players_url_names_the_enumeration_method() {
    let e = Engine::new("http://127.0.0.1:6878").unwrap_or_else(|_| panic!());
    let u = match e.get_players_url() {
        Ok(u) => u,
        Err(_) => panic!("build failed"),
    };
    assert_eq!(
        u,
        "http://127.0.0.1:6878/server/api?method=get_available_players&content_id=94c2fd8fb9bc8f2fc71a2cbe9d4b866f227a0209&format=json"
    );
}

#[test]
fn play_on_player_url_names_stream_and_player() {
    let e = Engine::new("http://127.0.0.1:6878").unwrap_or_else(|_| panic!());
    let u = match e.play_on_player_url("abc", "vlc1") {
        Ok(u) => u,
        Err(_) => panic!("build failed"),
    };
    assert_eq!(
        u,
        "http://127.0.0.1:6878/server/api?method=open_in_player&content_id=abc&player_id=vlc1&format=json"
    );
}

#[test]
fn add_stream_registers_under_exactly_that_identifier() {
    let mut e = Engine::new("http://127.0.0.1:6878").unwrap_or_else(|_| panic!());
    e.add_stream("abc", stream_fixture());
    assert_eq!(e.streams.len(), 1);
    assert!(e.streams.contains_key("abc"));
    assert!(!e.streams.contains_key("ab"));
    assert!(!e.streams.contains_key("abcd"));
}

#[test]
fn add_stream_replaces_an_existing_registration() {
    let mut e = Engine::new("http://127.0.0.1:6878").unwrap_or_else(|_| panic!());
    e.add_stream("abc", stream_fixture());
    let mut other = stream_fixture();
    other.playback_url = Some("http://127.0.0.1:6878/ace/c/other".to_owned());
    e.add_stream("abc", other);
    assert_eq!(e.streams.len(), 1);
    assert_eq!(e.get_stream_link("abc"), "http://127.0.0.1:6878/ace/c/other");
}

#[test]
fn get_stream_link_returns_the_playback_url() {
    let mut e = Engine::new("http://127.0.0.1:6878").unwrap_or_else(|_| panic!());
    e.add_stream("abc", stream_fixture());
    assert_eq!(e.get_stream_link("abc"), "http://127.0.0.1:6878/ace/c/abc");
}

#[test]
fn is_stream_live_is_true_only_for_a_positive_flag() {
    let mut e = Engine::new("http://127.0.0.1:6878").unwrap_or_else(|_| panic!());
    e.add_stream("vod", stream_fixture());
    let mut live = stream_fixture();
    live.is_live = Some(1);
    e.add_stream("live", live);
    assert!(!e.is_stream_live("vod"));
    assert!(e.is_stream_live("live"));
}

#[test]
fn get_stream_stat_url_returns_the_stat_url() {
    let mut e = Engine::new("http://127.0.0.1:6878").unwrap_or_else(|_| panic!());
    e.add_stream("abc", stream_fixture());
    assert_eq!(e.get_stream_stat_url("abc"), "http://127.0.0.1:6878/ace/stat/abc");
}

#[test]
fn stop_stream_url_appends_the_stop_method() {
    let mut e = Engine::new("http://127.0.0.1:6878").unwrap_or_else(|_| panic!());
    e.add_stream("abc", stream_fixture());
    let u = match e.stop_stream_url("abc") {
        Ok(u) => u,
        Err(_) => panic!("build failed"),
    };
    assert_eq!(u, "http://127.0.0.1:6878/ace/c/abc/cmd?method=stop");
}
