//! Decoders for the engine's JSON response envelopes.
//!
//! Every control call answers with an object holding the payload under a
//! `response` or `result` key. Payload fields are all optional: a missing or
//! null field decodes to `None`, a field of the wrong type is a decode
//! error, and a payload of the wrong shape is a decode error as well. Each
//! decoder's contract states its whole result — fields and errors, if and
//! only if — over the named model of the parsed body.

use vstd::prelude::*;

use crate::jsonx::JsonVal;
use crate::jsonx::as_arr;
use crate::jsonx::as_text;
use crate::jsonx::as_uint;
use crate::jsonx::json_as_array;
use crate::jsonx::json_as_str;
use crate::jsonx::json_as_u64;
use crate::jsonx::json_doc_of;
use crate::jsonx::json_get;
use crate::jsonx::json_is_null;
use crate::jsonx::json_of;
use crate::jsonx::json_parse;
use crate::jsonx::obj_field;
use crate::jsonx::seq_json_of;
use crate::types::AceResponse;
use crate::types::AceResult;
use crate::types::Player;
use crate::types::PlayerView;
use crate::types::Stat;
use crate::types::StatView;
use crate::types::Stream;
use crate::types::StreamView;
use crate::types::opt_str_view;

verus! {

/// Why a response body could not be decoded.
#[derive(Clone, Copy, Debug, PartialEq, Eq, Structural)]
pub enum DecodeError {
    /// The body is not well-formed JSON.
    Syntax,
    /// The envelope lacks its payload key.
    MissingField,
    /// A field holds a value of an unexpected type.
    WrongType,
}

/// Spec decode of an optional string field: `None` where the field is
/// missing or null, its text where it is a string, an error otherwise.
pub open spec fn spec_opt_string(obj: JsonVal, key: Seq<char>) -> Result<
    Option<Seq<char>>,
    DecodeError,
> {
    match obj_field(obj, key) {
        None => Ok(None),
        Some(v) => if v == JsonVal::Null {
            Ok(None)
        } else {
            match as_text(v) {
                Some(t) => Ok(Some(t)),
                None => Err(DecodeError::WrongType),
            }
        },
    }
}

/// Spec decode of an optional unsigned integer field, under the same
/// conventions as the string fields.
pub open spec fn spec_opt_usize(obj: JsonVal, key: Seq<char>) -> Result<
    Option<usize>,
    DecodeError,
> {
    match obj_field(obj, key) {
        None => Ok(None),
        Some(v) => if v == JsonVal::Null {
            Ok(None)
        } else {
            match as_uint(v) {
                Some(n) => if n <= usize::MAX as u64 {
                    Ok(Some(n as usize))
                } else {
                    Err(DecodeError::WrongType)
                },
                None => Err(DecodeError::WrongType),
            }
        },
    }
}

/// An optional string field of a payload object.
fn opt_string_field(obj: &serde_json::Value, key: &str) -> (r: Result<Option<String>, DecodeError>)
    ensures
        match r {
            Ok(o) => spec_opt_string(json_of(*obj), key@) == Ok::<Option<Seq<char>>, DecodeError>(
                opt_str_view(o),
            ),
            Err(e) => spec_opt_string(json_of(*obj), key@) == Err::<Option<Seq<char>>, DecodeError>(
                e,
            ),
        },
{
    match json_get(obj, key) {
        None => Ok(None),
        Some(v) => {
            if json_is_null(v) {
                Ok(None)
            } else {
                match json_as_str(v) {
                    Some(s) => Ok(Some(s)),
                    None => Err(DecodeError::WrongType),
                }
            }
        },
    }
}

/// An optional unsigned integer field of a payload object.
fn opt_usize_field(obj: &serde_json::Value, key: &str) -> (r: Result<Option<usize>, DecodeError>)
    ensures
        match r {
            Ok(o) => spec_opt_usize(json_of(*obj), key@) == Ok::<Option<usize>, DecodeError>(o),
            Err(e) => spec_opt_usize(json_of(*obj), key@) == Err::<Option<usize>, DecodeError>(e),
        },
{
    match json_get(obj, key) {
        None => Ok(None),
        Some(v) => {
            if json_is_null(v) {
                Ok(None)
            } else {
                match json_as_u64(v) {
                    Some(x) => {
                        if x <= usize::MAX as u64 {
                            Ok(Some(x as usize))
                        } else {
                            Err(DecodeError::WrongType)
                        }
                    },
                    None => Err(DecodeError::WrongType),
                }
            }
        },
    }
}

/// Spec decode of the stream metadata object, field by field; the first
/// ill-typed field decides the error.
pub open spec fn spec_stream(resp: JsonVal) -> Result<StreamView, DecodeError> {
    match spec_opt_string(resp, "command_url"@) {
        Err(e) => Err(e),
        Ok(command_url) => match spec_opt_usize(resp, "is_live"@) {
            Err(e) => Err(e),
            Ok(is_live) => match spec_opt_string(resp, "playback_session_id"@) {
                Err(e) => Err(e),
                Ok(playback_session_id) => match spec_opt_string(resp, "playback_url"@) {
                    Err(e) => Err(e),
                    Ok(playback_url) => match spec_opt_string(resp, "stat_url"@) {
                        Err(e) => Err(e),
                        Ok(stat_url) => Ok(
                            StreamView {
                                command_url,
                                is_live,
                                playback_session_id,
                                playback_url,
                                stat_url,
                            },
                        ),
                    },
                },
            },
        },
    }
}

/// Spec decode of a registration response body: syntax errors first, then
/// the `response` payload, then the optional `error` text.
pub open spec fn spec_stream_response_from_body(body: Seq<char>) -> Result<
    (StreamView, Option<Seq<char>>),
    DecodeError,
> {
    match json_doc_of(body) {
        None => Err(DecodeError::Syntax),
        Some(doc) => match obj_field(doc, "response"@) {
            None => Err(DecodeError::MissingField),
            Some(resp) => match spec_stream(resp) {
                Err(e) => Err(e),
                Ok(sv) => match spec_opt_string(doc, "error"@) {
                    Err(e) => Err(e),
                    Ok(err) => Ok((sv, err)),
                },
            },
        },
    }
}

/// Decode the envelope of a registration response body: the stream metadata
/// under its `response` key, next to the optional error text.
pub fn stream_response_from_body(body: &str) -> (r: Result<AceResponse<Stream>, DecodeError>)
    ensures
        match r {
            Ok(env) => spec_stream_response_from_body(body@) == Ok::<
                (StreamView, Option<Seq<char>>),
                DecodeError,
            >((env.response@, opt_str_view(env.error))),
            Err(e) => spec_stream_response_from_body(body@) == Err::<
                (StreamView, Option<Seq<char>>),
                DecodeError,
            >(e),
        },
{
    let parsed = match json_parse(body) {
        Some(v) => v,
        None => {
            return Err(DecodeError::Syntax);
        },
    };
    let resp = match json_get(&parsed, "response") {
        Some(v) => v,
        None => {
            return Err(DecodeError::MissingField);
        },
    };
    let command_url = match opt_string_field(resp, "command_url") {
        Ok(v) => v,
        Err(e) => {
            return Err(e);
        },
    };
    let is_live = match opt_usize_field(resp, "is_live") {
        Ok(v) => v,
        Err(e) => {
            return Err(e);
        },
    };
    let playback_session_id = match opt_string_field(resp, "playback_session_id") {
        Ok(v) => v,
        Err(e) => {
            return Err(e);
        },
    };
    let playback_url = match opt_string_field(resp, "playback_url") {
        Ok(v) => v,
        Err(e) => {
            return Err(e);
        },
    };
    let stat_url = match opt_string_field(resp, "stat_url") {
        Ok(v) => v,
        Err(e) => {
            return Err(e);
        },
    };
    let error = match opt_string_field(&parsed, "error") {
        Ok(v) => v,
        Err(e) => {
            return Err(e);
        },
    };
    Ok(
        AceResponse {
            response: Stream { command_url, is_live, playback_session_id, playback_url, stat_url },
            error,
        },
    )
}

/// Decode the stream metadata of a registration response body, dropping the
/// envelope.
pub fn stream_from_body(body: &str) -> (r: Result<Stream, DecodeError>)
    ensures
        match r {
            Ok(s) => spec_stream_response_from_body(body@) matches Ok(p) && p.0 == s@,
            Err(e) => spec_stream_response_from_body(body@) == Err::<
                (StreamView, Option<Seq<char>>),
                DecodeError,
            >(e),
        },
{
    match stream_response_from_body(body) {
        Ok(envelope) => Ok(envelope.response),
        Err(e) => Err(e),
    }
}

/// Spec decode of the transfer snapshot object, field by field; the first
/// ill-typed field decides the error.
pub open spec fn spec_stat(resp: JsonVal) -> Result<StatView, DecodeError> {
    match spec_opt_usize(resp, "downloaded"@) {
        Err(e) => Err(e),
        Ok(downloaded) => match spec_opt_usize(resp, "peers"@) {
            Err(e) => Err(e),
            Ok(peers) => match spec_opt_string(resp, "playback_session_id"@) {
                Err(e) => Err(e),
                Ok(playback_session_id) => match spec_opt_usize(resp, "progress"@) {
                    Err(e) => Err(e),
                    Ok(progress) => match spec_opt_usize(resp, "speed_down"@) {
                        Err(e) => Err(e),
                        Ok(speed_down) => match spec_opt_usize(resp, "speed_up"@) {
                            Err(e) => Err(e),
                            Ok(speed_up) => match spec_opt_string(resp, "status"@) {
                                Err(e) => Err(e),
                                Ok(status) => match spec_opt_usize(resp, "time"@) {
                                    Err(e) => Err(e),
                                    Ok(time) => match spec_opt_usize(resp, "total_progress"@) {
                                        Err(e) => Err(e),
                                        Ok(total_progress) => match spec_opt_usize(
                                            resp,
                                            "uploaded"@,
                                        ) {
                                            Err(e) => Err(e),
                                            Ok(uploaded) => Ok(
                                                StatView {
                                                    downloaded,
                                                    peers,
                                                    playback_session_id,
                                                    progress,
                                                    speed_down,
                                                    speed_up,
                                                    status,
                                                    time,
                                                    total_progress,
                                                    uploaded,
                                                },
                                            ),
                                        },
                                    },
                                },
                            },
                        },
                    },
                },
            },
        },
    }
}

/// Spec decode of a stat response body.
pub open spec fn spec_stat_from_body(body: Seq<char>) -> Result<StatView, DecodeError> {
    match json_doc_of(body) {
        None => Err(DecodeError::Syntax),
        Some(doc) => match obj_field(doc, "response"@) {
            None => Err(DecodeError::MissingField),
            Some(resp) => spec_stat(resp),
        },
    }
}

/// Decode the transfer snapshot under the `response` key of a stat response
/// body.
pub fn stat_from_body(body: &str) -> (r: Result<Stat, DecodeError>)
    ensures
        match r {
            Ok(s) => spec_stat_from_body(body@) == Ok::<StatView, DecodeError>(s@),
            Err(e) => spec_stat_from_body(body@) == Err::<StatView, DecodeError>(e),
        },
{
    let parsed = match json_parse(body) {
        Some(v) => v,
        None => {
            return Err(DecodeError::Syntax);
        },
    };
    let resp = match json_get(&parsed, "response") {
        Some(v) => v,
        None => {
            return Err(DecodeError::MissingField);
        },
    };
    let downloaded = match opt_usize_field(resp, "downloaded") {
        Ok(v) => v,
        Err(e) => {
            return Err(e);
        },
    };
    let peers = match opt_usize_field(resp, "peers") {
        Ok(v) => v,
        Err(e) => {
            return Err(e);
        },
    };
    let playback_session_id = match opt_string_field(resp, "playback_session_id") {
        Ok(v) => v,
        Err(e) => {
            return Err(e);
        },
    };
    let progress = match opt_usize_field(resp, "progress") {
        Ok(v) => v,
        Err(e) => {
            return Err(e);
        },
    };
    let speed_down = match opt_usize_field(resp, "speed_down") {
        Ok(v) => v,
        Err(e) => {
            return Err(e);
        },
    };
    let speed_up = match opt_usize_field(resp, "speed_up") {
        Ok(v) => v,
        Err(e) => {
            return Err(e);
        },
    };
    let status = match opt_string_field(resp, "status") {
        Ok(v) => v,
        Err(e) => {
            return Err(e);
        },
    };
    let time = match opt_usize_field(resp, "time") {
        Ok(v) => v,
        Err(e) => {
            return Err(e);
        },
    };
    let total_progress = match opt_usize_field(resp, "total_progress") {
        Ok(v) => v,
        Err(e) => {
            return Err(e);
        },
    };
    let uploaded = match opt_usize_field(resp, "uploaded") {
        Ok(v) => v,
        Err(e) => {
            return Err(e);
        },
    };
    Ok(
        Stat {
            downloaded,
            peers,
            playback_session_id,
            progress,
            speed_down,
            speed_up,
            status,
            time,
            total_progress,
            uploaded,
        },
    )
}

/// Spec decode of one player description object; the first ill-typed field
/// decides the error.
pub open spec fn spec_player(v: JsonVal) -> Result<PlayerView, DecodeError> {
    match spec_opt_string(v, "protocol"@) {
        Err(e) => Err(e),
        Ok(protocol) => match spec_opt_string(v, "icon"@) {
            Err(e) => Err(e),
            Ok(icon) => match spec_opt_string(v, "type"@) {
                Err(e) => Err(e),
                Ok(kind) => match spec_opt_string(v, "id"@) {
                    Err(e) => Err(e),
                    Ok(id) => match spec_opt_string(v, "name"@) {
                        Err(e) => Err(e),
                        Ok(name) => Ok(PlayerView { protocol, icon, kind, id, name }),
                    },
                },
            },
        },
    }
}

/// Decode one player description object.
fn player_from_value(v: &serde_json::Value) -> (r: Result<Player, DecodeError>)
    ensures
        match r {
            Ok(p) => spec_player(json_of(*v)) == Ok::<PlayerView, DecodeError>(p@),
            Err(e) => spec_player(json_of(*v)) == Err::<PlayerView, DecodeError>(e),
        },
{
    let protocol = match opt_string_field(v, "protocol") {
        Ok(x) => x,
        Err(e) => {
            return Err(e);
        },
    };
    let icon = match opt_string_field(v, "icon") {
        Ok(x) => x,
        Err(e) => {
            return Err(e);
        },
    };
    let kind = match opt_string_field(v, "type") {
        Ok(x) => x,
        Err(e) => {
            return Err(e);
        },
    };
    let id = match opt_string_field(v, "id") {
        Ok(x) => x,
        Err(e) => {
            return Err(e);
        },
    };
    let name = match opt_string_field(v, "name") {
        Ok(x) => x,
        Err(e) => {
            return Err(e);
        },
    };
    Ok(Player { protocol, icon, kind, id, name })
}

/// The views of a list of players.
pub open spec fn players_view(ps: Seq<Player>) -> Seq<PlayerView> {
    ps.map_values(|p: Player| p@)
}

/// Spec decode of a list of player objects, in order; the first failing
/// element decides the error.
pub open spec fn spec_players_list(items: Seq<JsonVal>) -> Result<Seq<PlayerView>, DecodeError>
    decreases items.len(),
{
    if items.len() == 0 {
        Ok(Seq::empty())
    } else {
        match spec_player(items[0]) {
            Err(e) => Err(e),
            Ok(p) => match spec_players_list(items.drop_first()) {
                Err(e) => Err(e),
                Ok(rest) => Ok(seq![p] + rest),
            },
        }
    }
}

/// Prefix a decoded player list with already-decoded views, keeping errors.
pub open spec fn spec_prepend(
    pre: Seq<PlayerView>,
    r: Result<Seq<PlayerView>, DecodeError>,
) -> Result<Seq<PlayerView>, DecodeError> {
    match r {
        Ok(s) => Ok(pre + s),
        Err(e) => Err(e),
    }
}

proof fn lemma_prepend_empty(r: Result<Seq<PlayerView>, DecodeError>)
    ensures
        spec_prepend(Seq::empty(), r) == r,
{
    match r {
        Ok(s) => {
            assert(Seq::<PlayerView>::empty() + s =~= s);
        },
        Err(_) => {},
    }
}

proof fn lemma_prepend_push(
    pre: Seq<PlayerView>,
    p: PlayerView,
    r: Result<Seq<PlayerView>, DecodeError>,
)
    ensures
        spec_prepend(pre, spec_prepend(seq![p], r)) == spec_prepend(pre.push(p), r),
{
    match r {
        Ok(s) => {
            assert(pre + (seq![p] + s) =~= pre.push(p) + s);
        },
        Err(_) => {},
    }
}

proof fn lemma_players_list_step(items: Seq<JsonVal>, p: PlayerView)
    requires
        items.len() > 0,
        spec_player(items[0]) == Ok::<PlayerView, DecodeError>(p),
    ensures
        spec_players_list(items) == spec_prepend(seq![p], spec_players_list(items.drop_first())),
{
    match spec_players_list(items.drop_first()) {
        Ok(_) => {},
        Err(_) => {},
    }
}

/// Spec decode of a player enumeration response body.
pub open spec fn spec_players_from_body(body: Seq<char>) -> Result<Seq<PlayerView>, DecodeError> {
    match json_doc_of(body) {
        None => Err(DecodeError::Syntax),
        Some(doc) => match obj_field(doc, "result"@) {
            None => Err(DecodeError::MissingField),
            Some(res) => match obj_field(res, "players"@) {
                None => Err(DecodeError::MissingField),
                Some(pl) => match as_arr(pl) {
                    None => Err(DecodeError::WrongType),
                    Some(items) => spec_players_list(items),
                },
            },
        },
    }
}

/// Decode the player list under the `players` key of the `result` envelope
/// of an enumeration response body.
pub fn players_from_body(body: &str) -> (r: Result<Vec<Player>, DecodeError>)
    ensures
        match r {
            Ok(ps) => spec_players_from_body(body@) == Ok::<Seq<PlayerView>, DecodeError>(
                players_view(ps@),
            ),
            Err(e) => spec_players_from_body(body@) == Err::<Seq<PlayerView>, DecodeError>(e),
        },
{
    let parsed = match json_parse(body) {
        Some(v) => v,
        None => {
            return Err(DecodeError::Syntax);
        },
    };
    let result = match json_get(&parsed, "result") {
        Some(v) => v,
        None => {
            return Err(DecodeError::MissingField);
        },
    };
    let players = match json_get(result, "players") {
        Some(v) => v,
        None => {
            return Err(DecodeError::MissingField);
        },
    };
    let arr = match json_as_array(players) {
        Some(a) => a,
        None => {
            return Err(DecodeError::WrongType);
        },
    };
    let ghost items = seq_json_of(arr@);
    let mut out: Vec<Player> = Vec::new();
    let mut i: usize = 0;
    proof {
        assert(items.skip(0) =~= items);
        assert(players_view(out@) =~= Seq::<PlayerView>::empty());
        lemma_prepend_empty(spec_players_list(items));
    }
    while i < arr.len()
        invariant
            i <= arr.len(),
            items == seq_json_of(arr@),
            spec_players_from_body(body@) == spec_prepend(
                players_view(out@),
                spec_players_list(items.skip(i as int)),
            ),
        decreases arr.len() - i,
    {
        proof {
            assert(items[i as int] == json_of(arr@[i as int]));
            assert(items.skip(i as int)[0] == items[i as int]);
            assert(items.skip(i as int).drop_first() =~= items.skip(i as int + 1));
        }
        let p = match player_from_value(&arr[i]) {
            Ok(p) => p,
            Err(e) => {
                return Err(e);
            },
        };
        proof {
            lemma_players_list_step(items.skip(i as int), p@);
            lemma_prepend_push(players_view(out@), p@, spec_players_list(items.skip(i as int + 1)));
        }
        let ghost prev = players_view(out@);
        out.push(p);
        proof {
            assert(players_view(out@) =~= prev.push(p@));
        }
        i = i + 1;
    }
    proof {
        assert(items.skip(i as int).len() == 0);
        assert(players_view(out@) + Seq::<PlayerView>::empty() =~= players_view(out@));
    }
    Ok(out)
}

/// Spec decode of a response body whose payload is a plain string, as the
/// stop command answers it.
pub open spec fn spec_string_response_from_body(body: Seq<char>) -> Result<Seq<char>, DecodeError> {
    match json_doc_of(body) {
        None => Err(DecodeError::Syntax),
        Some(doc) => match obj_field(doc, "response"@) {
            None => Err(DecodeError::MissingField),
            Some(resp) => match as_text(resp) {
                Some(t) => Ok(t),
                None => Err(DecodeError::WrongType),
            },
        },
    }
}

/// Decode the string payload under the `response` key of a response body,
/// as the stop command answers it.
pub fn string_response_from_body(body: &str) -> (r: Result<String, DecodeError>)
    ensures
        match r {
            Ok(s) => spec_string_response_from_body(body@) == Ok::<Seq<char>, DecodeError>(s@),
            Err(e) => spec_string_response_from_body(body@) == Err::<Seq<char>, DecodeError>(e),
        },
{
    let parsed = match json_parse(body) {
        Some(v) => v,
        None => {
            return Err(DecodeError::Syntax);
        },
    };
    let resp = match json_get(&parsed, "response") {
        Some(v) => v,
        None => {
            return Err(DecodeError::MissingField);
        },
    };
    match json_as_str(resp) {
        Some(s) => Ok(s),
        None => Err(DecodeError::WrongType),
    }
}

/// Spec decode of the full `result` envelope of a play-on-player response
/// body: its string payload and the optional error text.
pub open spec fn spec_string_result_from_body(body: Seq<char>) -> Result<
    (Seq<char>, Option<Seq<char>>),
    DecodeError,
> {
    match json_doc_of(body) {
        None => Err(DecodeError::Syntax),
        Some(doc) => match obj_field(doc, "result"@) {
            None => Err(DecodeError::MissingField),
            Some(res) => match as_text(res) {
                None => Err(DecodeError::WrongType),
                Some(payload) => match spec_opt_string(doc, "error"@) {
                    Err(e) => Err(e),
                    Ok(err) => Ok((payload, err)),
                },
            },
        },
    }
}

/// Decode the full `result` envelope of a play-on-player response body: its
/// string payload together with the optional error text.
pub fn string_result_from_body(body: &str) -> (r: Result<AceResult<String>, DecodeError>)
    ensures
        match r {
            Ok(env) => spec_string_result_from_body(body@) == Ok::<
                (Seq<char>, Option<Seq<char>>),
                DecodeError,
            >((env.result@, opt_str_view(env.error))),
            Err(e) => spec_string_result_from_body(body@) == Err::<
                (Seq<char>, Option<Seq<char>>),
                DecodeError,
            >(e),
        },
{
    let parsed = match json_parse(body) {
        Some(v) => v,
        None => {
            return Err(DecodeError::Syntax);
        },
    };
    let result = match json_get(&parsed, "result") {
        Some(v) => v,
        None => {
            return Err(DecodeError::MissingField);
        },
    };
    let payload = match json_as_str(result) {
        Some(s) => s,
        None => {
            return Err(DecodeError::WrongType);
        },
    };
    let error = match opt_string_field(&parsed, "error") {
        Ok(v) => v,
        Err(e) => {
            return Err(e);
        },
    };
    Ok(AceResult { result: payload, error })
}

/// Decode a version response body into its raw value tree: the parsed
/// document itself, or a syntax error.
pub fn version_from_body(body: &str) -> (r: Result<serde_json::Value, DecodeError>)
    ensures
        match r {
            Ok(v) => json_doc_of(body@) == Some(json_of(v)),
            Err(e) => json_doc_of(body@) is None && e == DecodeError::Syntax,
        },
{
    match json_parse(body) {
        Some(v) => Ok(v),
        None => Err(DecodeError::Syntax),
    }
}

} // verus!
