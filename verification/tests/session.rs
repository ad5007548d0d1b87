use acestream_client::session::live_label;
use acestream_client::session::on_probe;
use acestream_client::session::parse_id;
use acestream_client::session::status_label;
use acestream_client::session::Session;
use acestream_client::session::StartupAction;

#[test]
fn parse_id_strips_scheme_prefix() {
    let id = parse_id("acestream://94c2fd8fb9bc8f2fc71a2cbe9d4b866f227a0209");
    assert_eq!(id, "94c2fd8fb9bc8f2fc71a2cbe9d4b866f227a0209");
}

#[test]
fn parse_id_keeps_plain_identifier() {
    let id = parse_id("94c2fd8fb9bc8f2fc71a2cbe9d4b866f227a0209");
    assert_eq!(id, "94c2fd8fb9bc8f2fc71a2cbe9d4b866f227a0209");
}

#[test]
fn parse_id_takes_text_after_last_separator() {
    assert_eq!(parse_id("http://host//x//y"), "y");
}

#[test]
fn parse_id_of_empty_input_is_empty() {
    assert_eq!(parse_id(""), "");
}

#[test]
fn parse_id_of_bare_scheme_is_empty() {
    assert_eq!(parse_id("acestream://"), "");
}

#[test]
fn status_label_maps_prebuf_to_buffer() {
    assert_eq!(status_label(&Some("prebuf".to_owned())), "BUFFER");
}

#[test]
fn status_label_maps_dl_to_stream() {
    assert_eq!(status_label(&Some("dl".to_owned())), "STREAM");
}

#[test]
fn status_label_passes_other_codes_through() {
    assert_eq!(status_label(&Some("idle".to_owned())), "idle");
    assert_eq!(status_label(&Some("check".to_owned())), "check");
}

#[test]
fn status_label_of_missing_status_is_placeholder() {
    assert_eq!(status_label(&None), "N/A");
}

#[test]
fn live_label_distinguishes_live_from_vod() {
    assert_eq!(live_label(true), "LIVE");
    assert_eq!(live_label(false), "VOD");
}

#[test]
fn probe_waits_while_engine_is_unreachable() {
    assert!(matches!(on_probe(false), StartupAction::Wait));
}

#[test]
fn probe_proceeds_once_engine_answers() {
    assert!(matches!(on_probe(true), StartupAction::Proceed));
}

#[test]
fn ready_flag_follows_downloading_status_and_never_clears() {
    let mut s = Session::new();
    assert!(!s.is_ready());
    s.observe_status(&Some("prebuf".to_owned()));
    assert!(!s.is_ready());
    s.observe_status(&Some("dl".to_owned()));
    assert!(s.is_ready());
    s.observe_status(&Some("prebuf".to_owned()));
    assert!(s.is_ready());
    s.observe_status(&None);
    assert!(s.is_ready());
}

#[test]
fn vod_buffer_buffer_stream_scenario() {
    // A stream that is not live and reports prebuf, prebuf, dl.
    let mut s = Session::new();
    let statuses = vec![
        Some("prebuf".to_owned()),
        Some("prebuf".to_owned()),
        Some("dl".to_owned()),
    ];
    let mut labels: Vec<String> = Vec::new();
    let mut ready_trace: Vec<bool> = Vec::new();
    for st in &statuses {
        s.observe_status(st);
        labels.push(status_label(st));
        ready_trace.push(s.is_ready());
    }
    assert_eq!(live_label(false), "VOD");
    assert_eq!(labels, vec!["BUFFER", "BUFFER", "STREAM"]);
    assert_eq!(ready_trace, vec![false, false, true]);
}

#[test]
fn player_exit_owes_one_stop_and_ends_polling() {
    let mut s = Session::new();
    assert!(s.should_poll());
    let first = s.on_player_exit();
    assert!(first);
    assert!(!s.should_poll());
    let second = s.on_player_exit();
    assert!(!second);
    assert!(!s.should_poll());
}
