//! Session logic for the polling/playback workflow.
//!
//! A caller drives two concurrent activities: a status loop that polls the
//! engine once per tick, and a playback activity that launches an external
//! player and stops the stream when the player exits. The decisions of both
//! loops live here as verified functions over plain values; the caller only
//! performs the waiting, spawning and HTTP traffic around them.

use vstd::prelude::*;

use crate::types::opt_str_view;

verus! {

/// There is a separator `//` starting at position `i` of `s`.
pub open spec fn sep_at(s: Seq<char>, i: int) -> bool {
    &&& 0 <= i
    &&& i + 2 <= s.len()
    &&& s[i] == '/'
    &&& s[i + 1] == '/'
}

/// Position of the first `//` separator in `s`, if any.
pub open spec fn first_sep(s: Seq<char>) -> Option<int>
    decreases s.len(),
{
    if s.len() < 2 {
        None
    } else if s[0] == '/' && s[1] == '/' {
        Some(0)
    } else {
        match first_sep(s.skip(1)) {
            Some(j) => Some(j + 1),
            None => None,
        }
    }
}

/// The stream identifier carried by a command-line argument: the text after
/// the last `//` separator, scanning separators left to right, or the whole
/// text when no separator occurs.
pub open spec fn stream_id_of(s: Seq<char>) -> Seq<char>
    decreases s.len(),
{
    match first_sep(s) {
        Some(i) => if 0 <= i && i + 2 <= s.len() {
            stream_id_of(s.skip(i + 2))
        } else {
            s
        },
        None => s,
    }
}

proof fn lemma_first_sep_none(s: Seq<char>)
    requires
        forall|j: int| !sep_at(s, j),
    ensures
        first_sep(s) is None,
    decreases s.len(),
{
    if s.len() < 2 {
    } else {
        assert(!sep_at(s, 0));
        assert forall|j: int| !sep_at(s.skip(1), j) by {
            if sep_at(s.skip(1), j) {
                assert(s.skip(1)[j] == s[j + 1]);
                assert(s.skip(1)[j + 1] == s[j + 2]);
                assert(sep_at(s, j + 1));
            }
        }
        lemma_first_sep_none(s.skip(1));
    }
}

proof fn lemma_first_sep_at(s: Seq<char>, k: int)
    requires
        sep_at(s, k),
        forall|j: int| 0 <= j < k ==> !sep_at(s, j),
    ensures
        first_sep(s) == Some(k),
    decreases k,
{
    if k == 0 {
    } else {
        assert(!sep_at(s, 0));
        assert(s.skip(1)[k - 1] == s[k]);
        assert(s.skip(1)[k] == s[k + 1]);
        assert(sep_at(s.skip(1), k - 1));
        assert forall|j: int| 0 <= j < k - 1 implies !sep_at(s.skip(1), j) by {
            assert(s.skip(1)[j] == s[j + 1]);
            assert(s.skip(1)[j + 1] == s[j + 2]);
            assert(!sep_at(s, j + 1));
        }
        lemma_first_sep_at(s.skip(1), k - 1);
    }
}

/// Extract the stream identifier from a link such as a scheme-prefixed
/// stream address: the text after the last `//`, or the input unchanged
/// when it holds no `//`.
pub fn parse_id(input: &str) -> (r: String)
    ensures
        r@ == stream_id_of(input@),
{
    let n = input.unicode_len();
    let mut start: usize = 0;
    let mut i: usize = 0;
    proof {
        assert(input@.skip(0) =~= input@);
    }
    while i < n && i + 1 < n
        invariant
            n == input@.len(),
            start <= i,
            i <= n,
            stream_id_of(input@) == stream_id_of(input@.skip(start as int)),
            forall|j: int| 0 <= j < i - start ==> !sep_at(input@.skip(start as int), j),
        decreases n - i,
    {
        if input.get_char(i) == '/' && input.get_char(i + 1) == '/' {
            proof {
                let tail = input@.skip(start as int);
                assert(tail[i - start] == input@[i as int]);
                assert(tail[i - start + 1] == input@[i as int + 1]);
                assert(sep_at(tail, i - start));
                lemma_first_sep_at(tail, i - start);
                assert(tail.skip(i - start + 2) =~= input@.skip(i as int + 2));
            }
            start = i + 2;
            i = i + 2;
        } else {
            proof {
                let tail = input@.skip(start as int);
                assert(tail[i - start] == input@[i as int]);
                assert(tail[i - start + 1] == input@[i as int + 1]);
                assert(!sep_at(tail, i - start));
                assert(forall|j: int| 0 <= j < i + 1 - start ==> !sep_at(
                    input@.skip(start as int),
                    j,
                ));
            }
            i = i + 1;
        }
    }
    proof {
        let tail = input@.skip(start as int);
        assert forall|j: int| !sep_at(tail, j) by {
            if sep_at(tail, j) {
                assert(j + 2 <= n - start);
                assert(j < i - start);
            }
        }
        lemma_first_sep_none(tail);
        assert(stream_id_of(tail) == tail);
        assert(input@.subrange(start as int, n as int) =~= tail);
    }
    let r = input.substring_char(start, n);
    String::from_str(r)
}

/// Display label for a reported status: the buffering and downloading codes
/// get fixed labels, any other reported code passes through unchanged, and a
/// missing status gets a placeholder.
pub open spec fn label_of(status: Option<Seq<char>>) -> Seq<char> {
    match status {
        None => "N/A"@,
        Some(s) => if s == "prebuf"@ {
            "BUFFER"@
        } else if s == "dl"@ {
            "STREAM"@
        } else {
            s
        },
    }
}

/// Map a reported status to its display label.
pub fn status_label(status: &Option<String>) -> (r: String)
    ensures
        r@ == label_of(opt_str_view(*status)),
{
    match status {
        None => String::from_str("N/A"),
        Some(s) => {
            if *s == String::from_str("prebuf") {
                String::from_str("BUFFER")
            } else if *s == String::from_str("dl") {
                String::from_str("STREAM")
            } else {
                s.clone()
            }
        },
    }
}

/// Display label for the live flag of a stream.
pub open spec fn live_label_of(is_live: bool) -> Seq<char> {
    if is_live {
        "LIVE"@
    } else {
        "VOD"@
    }
}

/// Map the live flag of a stream to its display label.
pub fn live_label(is_live: bool) -> (r: String)
    ensures
        r@ == live_label_of(is_live),
{
    if is_live {
        String::from_str("LIVE")
    } else {
        String::from_str("VOD")
    }
}

/// A status report shows the stream is downloading and playback may start.
pub open spec fn is_dl(status: Option<Seq<char>>) -> bool {
    status == Some("dl"@)
}

/// What the startup loop does after one liveness probe of the engine.
pub enum StartupAction {
    /// The engine did not answer: wait one tick and probe again.
    Wait,
    /// The engine answered some HTTP response: move on to registration.
    Proceed,
}

/// Decide the next startup step from the outcome of one liveness probe.
/// The decision sees only whether the engine answered at all, never the
/// payload of the answer.
pub fn on_probe(answered: bool) -> (a: StartupAction)
    ensures
        a is Proceed <==> answered,
{
    if answered {
        StartupAction::Proceed
    } else {
        StartupAction::Wait
    }
}

/// Shared state of the two session activities: the status loop keeps running
/// while `polling` holds, the player may start once `ready` holds, and
/// `stopped` records that the stop command was already issued.
pub struct Session {
    pub polling: bool,
    pub ready: bool,
    pub stopped: bool,
}

impl Session {
    /// A fresh session polls, is not yet ready, and has not stopped anything.
    pub fn new() -> (s: Session)
        ensures
            s.polling,
            !s.ready,
            !s.stopped,
    {
        Session { polling: true, ready: false, stopped: false }
    }

    /// Record one polled status. The ready flag becomes true exactly when it
    /// already was true or the observed status is the downloading code; it is
    /// never cleared. Nothing else changes.
    pub fn observe_status(&mut self, status: &Option<String>)
        ensures
            final(self).ready == (old(self).ready || is_dl(opt_str_view(*status))),
            final(self).polling == old(self).polling,
            final(self).stopped == old(self).stopped,
    {
        let dl = match status {
            Some(s) => *s == String::from_str("dl"),
            None => false,
        };
        if dl {
            self.ready = true;
        }
    }

    /// Whether the status loop should run another tick.
    pub fn should_poll(&self) -> (r: bool)
        ensures
            r == self.polling,
    {
        self.polling
    }

    /// Whether playback may start without a further grace delay.
    pub fn is_ready(&self) -> (r: bool)
        ensures
            r == self.ready,
    {
        self.ready
    }

    /// React to the exit of the player process: the stop command is owed
    /// exactly once, and the status loop must end at its next tick.
    pub fn on_player_exit(&mut self) -> (issue_stop: bool)
        ensures
            issue_stop == !old(self).stopped,
            final(self).stopped,
            !final(self).polling,
            final(self).ready == old(self).ready,
    {
        let first = !self.stopped;
        self.stopped = true;
        self.polling = false;
        first
    }
}

/// The ready flag left by a run of status observations, starting from `init`.
pub open spec fn ready_after(init: bool, statuses: Seq<Option<Seq<char>>>) -> bool
    decreases statuses.len(),
{
    if statuses.len() == 0 {
        init
    } else {
        ready_after(init || is_dl(statuses[0]), statuses.drop_first())
    }
}

/// Once the ready flag is set, no run of further observations clears it.
pub proof fn lemma_ready_never_cleared(statuses: Seq<Option<Seq<char>>>)
    ensures
        ready_after(true, statuses),
    decreases statuses.len(),
{
    if statuses.len() == 0 {
    } else {
        lemma_ready_never_cleared(statuses.drop_first());
    }
}

/// After a run of observations the ready flag holds exactly when it held at
/// the start or some observed status was the downloading code.
pub proof fn lemma_ready_after_characterization(init: bool, statuses: Seq<Option<Seq<char>>>)
    ensures
        ready_after(init, statuses) == (init || exists|k: int|
            0 <= k < statuses.len() && is_dl(statuses[k])),
    decreases statuses.len(),
{
    if statuses.len() == 0 {
    } else {
        lemma_ready_after_characterization(init || is_dl(statuses[0]), statuses.drop_first());
        let rest = statuses.drop_first();
        if exists|k: int| 0 <= k < rest.len() && is_dl(rest[k]) {
            let k = choose|k: int| 0 <= k < rest.len() && is_dl(rest[k]);
            assert(rest[k] == statuses[k + 1]);
            assert(is_dl(statuses[k + 1]));
        }
        if is_dl(statuses[0]) {
            assert(0 <= 0 < statuses.len() && is_dl(statuses[0]));
        }
        if exists|k: int| 0 <= k < statuses.len() && is_dl(statuses[k]) {
            let k = choose|k: int| 0 <= k < statuses.len() && is_dl(statuses[k]);
            if k > 0 {
                assert(rest[k - 1] == statuses[k]);
                assert(0 <= k - 1 < rest.len() && is_dl(rest[k - 1]));
            }
        }
    }
}

} // verus!
