use acestream_client::decode::players_from_body;
use acestream_client::decode::stream_response_from_body;
use acestream_client::decode::stat_from_body;
use acestream_client::decode::stream_from_body;
use acestream_client::decode::string_response_from_body;
use acestream_client::decode::string_result_from_body;
use acestream_client::decode::version_from_body;
use acestream_client::decode::DecodeError;

#[test]
fn stream_fixture_round_trips_every_field() {
    let body = "{\"response\": {\"command_url\": \"http://127.0.0.1:6878/ace/c/abc/cmd\", \"is_live\": 1, \"playback_session_id\": \"abc\", \"playback_url\": \"http://127.0.0.1:6878/ace/c/abc\", \"stat_url\": \"http://127.0.0.1:6878/ace/stat/abc\"}, \"error\": null}";
    let s = match stream_from_body(body) {
        Ok(s) => s,
        Err(_) => panic!("decode failed"),
    };
    assert_eq!(s.command_url.as_deref(), Some("http://127.0.0.1:6878/ace/c/abc/cmd"));
    assert_eq!(s.is_live, Some(1));
    assert_eq!(s.playback_session_id.as_deref(), Some("abc"));
    assert_eq!(s.playback_url.as_deref(), Some("http://127.0.0.1:6878/ace/c/abc"));
    assert_eq!(s.stat_url.as_deref(), Some("http://127.0.0.1:6878/ace/stat/abc"));
}

#[test]
fn stream_envelope_keeps_the_error_text() {
    let body = "{\"response\": {\"is_live\": 0}, \"error\": \"got no results\"}";
    let envelope = match stream_response_from_body(body) {
        Ok(e) => e,
        Err(_) => panic!("decode failed"),
    };
    assert_eq!(envelope.response.is_live, Some(0));
    assert_eq!(envelope.error.as_deref(), Some("got no results"));
}

#[test]
fn stat_fixture_round_trips_every_field() {
    let body = "{\"response\": {\"downloaded\": 1000, \"peers\": 7, \"playback_session_id\": \"abc\", \"progress\": 55, \"speed_down\": 120, \"speed_up\": 3, \"status\": \"dl\", \"time\": 12, \"total_progress\": 60, \"uploaded\": 42}, \"error\": null}";
    let s = match stat_from_body(body) {
        Ok(s) => s,
        Err(_) => panic!("decode failed"),
    };
    assert_eq!(s.downloaded, Some(1000));
    assert_eq!(s.peers, Some(7));
    assert_eq!(s.playback_session_id.as_deref(), Some("abc"));
    assert_eq!(s.progress, Some(55));
    assert_eq!(s.speed_down, Some(120));
    assert_eq!(s.speed_up, Some(3));
    assert_eq!(s.status.as_deref(), Some("dl"));
    assert_eq!(s.time, Some(12));
    assert_eq!(s.total_progress, Some(60));
    assert_eq!(s.uploaded, Some(42));
}

#[test]
fn absent_fields_decode_as_none_not_zero() {
    let s = match stat_from_body("{\"response\": {}}") {
        Ok(s) => s,
        Err(_) => panic!("decode failed"),
    };
    assert_eq!(s.downloaded, None);
    assert_eq!(s.peers, None);
    assert_eq!(s.playback_session_id, None);
    assert_eq!(s.progress, None);
    assert_eq!(s.speed_down, None);
    assert_eq!(s.speed_up, None);
    assert_eq!(s.status, None);
    assert_eq!(s.time, None);
    assert_eq!(s.total_progress, None);
    assert_eq!(s.uploaded, None);
}

#[test]
fn null_fields_decode_as_none() {
    let s = match stat_from_body("{\"response\": {\"status\": null, \"peers\": null}}") {
        Ok(s) => s,
        Err(_) => panic!("decode failed"),
    };
    assert_eq!(s.status, None);
    assert_eq!(s.peers, None);
}

#[test]
fn a_field_of_the_wrong_type_is_an_error() {
    assert_eq!(
        stat_from_body("{\"response\": {\"speed_down\": \"fast\"}}").err(),
        Some(DecodeError::WrongType)
    );
    assert_eq!(
        stat_from_body("{\"response\": {\"status\": 3}}").err(),
        Some(DecodeError::WrongType)
    );
    assert_eq!(
        stat_from_body("{\"response\": {\"peers\": 1.5}}").err(),
        Some(DecodeError::WrongType)
    );
}

#[test]
fn a_malformed_body_is_a_syntax_error() {
    assert_eq!(stat_from_body("not json at all").err(), Some(DecodeError::Syntax));
    assert_eq!(stream_from_body("{\"response\":").err(), Some(DecodeError::Syntax));
}

#[test]
fn a_missing_envelope_key_is_an_error() {
    assert_eq!(stat_from_body("{\"foo\": 1}").err(), Some(DecodeError::MissingField));
    assert_eq!(stream_from_body("{}").err(), Some(DecodeError::MissingField));
    assert_eq!(players_from_body("{\"result\": {}}").err(), Some(DecodeError::MissingField));
}

#[test]
fn player_fixture_round_trips_every_field() {
    let body = "{\"result\": {\"players\": [{\"protocol\": \"http\", \"icon\": \"vlc.png\", \"type\": \"ext\", \"id\": \"p1\", \"name\": \"VLC\"}, {\"name\": \"Other\"}]}, \"error\": null}";
    let ps = match players_from_body(body) {
        Ok(ps) => ps,
        Err(_) => panic!("decode failed"),
    };
    assert_eq!(ps.len(), 2);
    assert_eq!(ps[0].protocol.as_deref(), Some("http"));
    assert_eq!(ps[0].icon.as_deref(), Some("vlc.png"));
    assert_eq!(ps[0].kind.as_deref(), Some("ext"));
    assert_eq!(ps[0].id.as_deref(), Some("p1"));
    assert_eq!(ps[0].name.as_deref(), Some("VLC"));
    assert_eq!(ps[1].protocol, None);
    assert_eq!(ps[1].icon, None);
    assert_eq!(ps[1].kind, None);
    assert_eq!(ps[1].id, None);
    assert_eq!(ps[1].name.as_deref(), Some("Other"));
}

#[test]
fn a_players_value_that_is_no_array_is_an_error() {
    assert_eq!(
        players_from_body("{\"result\": {\"players\": 3}}").err(),
        Some(DecodeError::WrongType)
    );
}

#[test]
fn stop_response_decodes_its_string_payload() {
    let r = match string_response_from_body("{\"response\": \"ok\", \"error\": null}") {
        Ok(r) => r,
        Err(_) => panic!("decode failed"),
    };
    assert_eq!(r, "ok");
}

#[test]
fn play_result_keeps_payload_and_error_text() {
    let r = match string_result_from_body("{\"result\": \"ok\", \"error\": null}") {
        Ok(r) => r,
        Err(_) => panic!("decode failed"),
    };
    assert_eq!(r.result, "ok");
    assert_eq!(r.error, None);
    let r = match string_result_from_body("{\"result\": \"no\", \"error\": \"boom\"}") {
        Ok(r) => r,
        Err(_) => panic!("decode failed"),
    };
    assert_eq!(r.result, "no");
    assert_eq!(r.error.as_deref(), Some("boom"));
}

#[test]
fn version_body_parses_into_a_value_tree() {
    let v = match version_from_body("{\"result\": {\"version\": \"3.1.74\"}, \"error\": null}") {
        Ok(v) => v,
        Err(_) => panic!("decode failed"),
    };
    let ver = v.get("result").and_then(|r| r.get("version")).and_then(|x| x.as_str());
    assert_eq!(ver, Some("3.1.74"));
    assert_eq!(version_from_body("][").err(), Some(DecodeError::Syntax));
}
