//! The engine handle: its control URL and the map of registered streams.
//!
//! Every control call of the engine is an HTTP GET against a URL built here.
//! The functions below construct those URLs and maintain the stream map; the
//! caller performs the GET and hands the response body to the decoders.

use vstd::prelude::*;
use vstd::hash_map::StringHashMap;

use crate::types::Stream;
use crate::urlx::UrlError;
use crate::urlx::url_append_pair;
use crate::urlx::url_append_pair_of;
use crate::urlx::url_join;
use crate::urlx::url_join_of;
use crate::urlx::url_join_ok;
use crate::urlx::url_parse;
use crate::urlx::url_parse_of;
use crate::urlx::url_parse_ok;

verus! {

/// The views of a list of query pairs.
pub open spec fn pairs_view(qs: Seq<(String, String)>) -> Seq<(Seq<char>, Seq<char>)> {
    qs.map_values(|p: (String, String)| (p.0@, p.1@))
}

/// The URL text left after appending each pair of `ps`, in order, to `u`.
pub open spec fn with_pairs(u: Seq<char>, ps: Seq<(Seq<char>, Seq<char>)>) -> Seq<char>
    decreases ps.len(),
{
    if ps.len() == 0 {
        u
    } else {
        with_pairs(url_append_pair_of(u, ps[0].0, ps[0].1), ps.drop_first())
    }
}

/// The request URL for endpoint `path` with query pairs `ps`, against the
/// engine base address `base`.
pub open spec fn query_url(base: Seq<char>, path: Seq<char>, ps: Seq<(Seq<char>, Seq<char>)>) -> Seq<
    char,
> {
    with_pairs(url_join_of(base, path), ps)
}

/// Query pairs of the version call.
pub open spec fn version_pairs() -> Seq<(Seq<char>, Seq<char>)> {
    seq![("method"@, "get_version"@), ("format"@, "json"@)]
}

/// Query pairs of the stream registration call for identifier `id`.
pub open spec fn get_stream_pairs(id: Seq<char>) -> Seq<(Seq<char>, Seq<char>)> {
    seq![("id"@, id), ("format"@, "json"@)]
}

/// Query pairs of the player enumeration call.
pub open spec fn players_pairs() -> Seq<(Seq<char>, Seq<char>)> {
    seq![
        ("method"@, "get_available_players"@),
        ("content_id"@, "94c2fd8fb9bc8f2fc71a2cbe9d4b866f227a0209"@),
        ("format"@, "json"@),
    ]
}

/// Query pairs of the play-on-player call.
pub open spec fn play_pairs(id: Seq<char>, player_id: Seq<char>) -> Seq<(Seq<char>, Seq<char>)> {
    seq![
        ("method"@, "open_in_player"@),
        ("content_id"@, id),
        ("player_id"@, player_id),
        ("format"@, "json"@),
    ]
}

/// A handle on the engine's control endpoint: the normalized base URL and
/// the streams registered so far, keyed by their identifier.
pub struct Engine {
    pub engine_url: String,
    pub streams: StringHashMap<Stream>,
}

impl Engine {
    /// Validate and normalize the engine's base address; the stream map
    /// starts empty. Succeeds exactly when the address parses as an
    /// absolute URL.
    pub fn new(http_link: &str) -> (r: Result<Engine, UrlError>)
        ensures
            r is Ok <==> url_parse_ok(http_link@),
            r matches Ok(e) ==> {
                &&& e.engine_url@ == url_parse_of(http_link@)
                &&& url_parse_ok(e.engine_url@)
                &&& e.streams@ == Map::<Seq<char>, Stream>::empty()
            },
    {
        match url_parse(http_link) {
            Ok(u) => Ok(Engine { engine_url: u, streams: StringHashMap::new() }),
            Err(e) => Err(e),
        }
    }

    /// Build the request URL for endpoint `path` with the given query pairs.
    /// Succeeds exactly when `path` resolves against the base address;
    /// appending the pairs never fails.
    pub fn build_url(&self, path: &str, queries: &Vec<(String, String)>) -> (r: Result<
        String,
        UrlError,
    >)
        ensures
            r is Ok <==> url_join_ok(self.engine_url@, path@),
            r matches Ok(u) ==> u@ == query_url(self.engine_url@, path@, pairs_view(queries@)),
    {
        let mut u = match url_join(self.engine_url.as_str(), path) {
            Ok(w) => w,
            Err(e) => {
                return Err(e);
            },
        };
        let mut i: usize = 0;
        proof {
            assert(pairs_view(queries@).skip(0) =~= pairs_view(queries@));
        }
        while i < queries.len()
            invariant
                i <= queries.len(),
                url_parse_ok(u@),
                url_join_ok(self.engine_url@, path@),
                query_url(self.engine_url@, path@, pairs_view(queries@)) == with_pairs(
                    u@,
                    pairs_view(queries@).skip(i as int),
                ),
            decreases queries.len() - i,
        {
            let next = url_append_pair(u.as_str(), queries[i].0.as_str(), queries[i].1.as_str());
            proof {
                let ps = pairs_view(queries@);
                assert(ps.skip(i as int)[0] == ps[i as int]);
                assert(ps[i as int] == (queries@[i as int].0@, queries@[i as int].1@));
                assert(ps.skip(i as int).drop_first() =~= ps.skip(i as int + 1));
            }
            u = match next {
                Ok(w) => w,
                Err(e) => {
                    return Err(e);
                },
            };
            i = i + 1;
        }
        proof {
            assert(pairs_view(queries@).skip(queries.len() as int).len() == 0);
        }
        Ok(u)
    }

    /// The URL of the version query.
    pub fn version_url(&self) -> (r: Result<String, UrlError>)
        ensures
            r is Ok <==> url_join_ok(self.engine_url@, "webui/api/service"@),
            r matches Ok(u) ==> u@ == query_url(
                self.engine_url@,
                "webui/api/service"@,
                version_pairs(),
            ),
    {
        let mut qs: Vec<(String, String)> = Vec::new();
        qs.push((String::from_str("method"), String::from_str("get_version")));
        qs.push((String::from_str("format"), String::from_str("json")));
        proof {
            assert(pairs_view(qs@) =~= version_pairs());
        }
        self.build_url("webui/api/service", &qs)
    }

    /// The URL of the stream registration call for identifier `id`.
    pub fn get_stream_url(&self, id: &str) -> (r: Result<String, UrlError>)
        ensures
            r is Ok <==> url_join_ok(self.engine_url@, "ace/getstream"@),
            r matches Ok(u) ==> u@ == query_url(
                self.engine_url@,
                "ace/getstream"@,
                get_stream_pairs(id@),
            ),
    {
        let mut qs: Vec<(String, String)> = Vec::new();
        qs.push((String::from_str("id"), id.to_owned()));
        qs.push((String::from_str("format"), String::from_str("json")));
        proof {
            assert(pairs_view(qs@) =~= get_stream_pairs(id@));
        }
        self.build_url("ace/getstream", &qs)
    }

    /// The URL of the player enumeration call.
    pub fn get_players_url(&self) -> (r: Result<String, UrlError>)
        ensures
            r is Ok <==> url_join_ok(self.engine_url@, "server/api"@),
            r matches Ok(u) ==> u@ == query_url(self.engine_url@, "server/api"@, players_pairs()),
    {
        let mut qs: Vec<(String, String)> = Vec::new();
        qs.push((String::from_str("method"), String::from_str("get_available_players")));
        qs.push(
            (
                String::from_str("content_id"),
                String::from_str("94c2fd8fb9bc8f2fc71a2cbe9d4b866f227a0209"),
            ),
        );
        qs.push((String::from_str("format"), String::from_str("json")));
        proof {
            assert(pairs_view(qs@) =~= players_pairs());
        }
        self.build_url("server/api", &qs)
    }

    /// The URL of the play-on-player call for a stream and a player.
    pub fn play_on_player_url(&self, id: &str, player_id: &str) -> (r: Result<String, UrlError>)
        ensures
            r is Ok <==> url_join_ok(self.engine_url@, "server/api"@),
            r matches Ok(u) ==> u@ == query_url(
                self.engine_url@,
                "server/api"@,
                play_pairs(id@, player_id@),
            ),
    {
        let mut qs: Vec<(String, String)> = Vec::new();
        qs.push((String::from_str("method"), String::from_str("open_in_player")));
        qs.push((String::from_str("content_id"), id.to_owned()));
        qs.push((String::from_str("player_id"), player_id.to_owned()));
        qs.push((String::from_str("format"), String::from_str("json")));
        proof {
            assert(pairs_view(qs@) =~= play_pairs(id@, player_id@));
        }
        self.build_url("server/api", &qs)
    }

    /// Record the stream the engine returned for `id` in the stream map,
    /// under exactly that identifier.
    pub fn add_stream(&mut self, id: &str, stream: Stream)
        ensures
            final(self).streams@ == old(self).streams@.insert(id@, stream),
            final(self).engine_url == old(self).engine_url,
    {
        self.streams.insert(id.to_owned(), stream);
    }

    /// The playback URL of a registered stream. Looking up an identifier
    /// that was never registered, or a stream without a playback URL, is a
    /// caller error, ruled out up front.
    pub fn get_stream_link(&self, id: &str) -> (r: String)
        requires
            self.streams@.contains_key(id@),
            self.streams@[id@].playback_url is Some,
        ensures
            Some(r) == self.streams@[id@].playback_url,
    {
        match self.streams.get(id) {
            Some(stream) => match &stream.playback_url {
                Some(u) => u.clone(),
                None => vstd::pervasive::unreached(),
            },
            None => vstd::pervasive::unreached(),
        }
    }

    /// Whether a registered stream reported itself live: true exactly when
    /// its live flag is a positive count.
    pub fn is_stream_live(&self, id: &str) -> (r: bool)
        requires
            self.streams@.contains_key(id@),
            self.streams@[id@].is_live is Some,
        ensures
            r == (self.streams@[id@].is_live matches Some(n) && n > 0),
    {
        match self.streams.get(id) {
            Some(stream) => match stream.is_live {
                Some(n) => n > 0,
                None => vstd::pervasive::unreached(),
            },
            None => vstd::pervasive::unreached(),
        }
    }

    /// The stat URL of a registered stream, polled for transfer snapshots.
    pub fn get_stream_stat_url(&self, id: &str) -> (r: String)
        requires
            self.streams@.contains_key(id@),
            self.streams@[id@].stat_url is Some,
        ensures
            Some(r) == self.streams@[id@].stat_url,
    {
        match self.streams.get(id) {
            Some(stream) => match &stream.stat_url {
                Some(u) => u.clone(),
                None => vstd::pervasive::unreached(),
            },
            None => vstd::pervasive::unreached(),
        }
    }

    /// The URL of the stop command of a registered stream: its command URL
    /// with the stop method appended as a query pair.
    pub fn stop_stream_url(&self, id: &str) -> (r: Result<String, UrlError>)
        requires
            self.streams@.contains_key(id@),
            self.streams@[id@].command_url is Some,
        ensures
            self.streams@[id@].command_url matches Some(c) ==> (r is Ok <==> url_parse_ok(c@)),
            r matches Ok(u) ==> (self.streams@[id@].command_url matches Some(c) && u@
                == url_append_pair_of(c@, "method"@, "stop"@)),
    {
        let cmd = match self.streams.get(id) {
            Some(stream) => match &stream.command_url {
                Some(c) => c.clone(),
                None => vstd::pervasive::unreached(),
            },
            None => vstd::pervasive::unreached(),
        };
        url_append_pair(cmd.as_str(), "method", "stop")
    }
}

impl Default for Engine {
    /// An engine handle on the conventional local control address, with an
    /// empty stream map.
    fn default() -> (e: Engine)
        ensures
            e.streams@ == Map::<Seq<char>, Stream>::empty(),
            e.engine_url@ == url_parse_of("http://127.0.0.1:6878"@) || e.engine_url@
                == "http://127.0.0.1:6878/"@,
    {
        match Engine::new("http://127.0.0.1:6878") {
            Ok(e) => e,
            Err(_) => Engine {
                engine_url: String::from_str("http://127.0.0.1:6878/"),
                streams: StringHashMap::new(),
            },
        }
    }
}

} // verus!
