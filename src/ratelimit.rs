//! Per-command sliding-window rate limiting. Time is given by the caller in
//! milliseconds from any fixed origin, never going backwards.
use vstd::prelude::*;

use crate::text::text_eq;
use crate::validation::{ValidationError, ValidationFault};

verus! {

/// Length of every rate-limit window, in milliseconds.
pub const RATE_WINDOW_MS: u64 = 60_000;

/// Calls allowed per window to a command without its own limit.
pub const DEFAULT_MAX_REQUESTS: usize = 100;

/// How long the periodic sweep keeps a timestamp, in milliseconds.
pub const HISTORY_RETENTION_MS: u64 = 3_600_000;

/// Calls allowed per window, and the window in milliseconds, for a command.
pub open spec fn limit_of(c: Seq<char>) -> (nat, nat) {
    if c == "resize_window"@ {
        (10, 60_000)
    } else if c == "capture_screen"@ {
        (30, 60_000)
    } else if c == "secure_store"@ {
        (20, 60_000)
    } else if c == "secure_load"@ {
        (50, 60_000)
    } else if c == "toggle_stealth_cmd"@ {
        (5, 60_000)
    } else if c == "panel_show"@ {
        (100, 60_000)
    } else if c == "panel_hide"@ {
        (100, 60_000)
    } else {
        (100, 60_000)
    }
}

/// The limit for `command`: calls per window, and the window in milliseconds.
pub fn rate_limit_for(command: &str) -> (r: (usize, u64))
    ensures
        (r.0 as nat, r.1 as nat) == limit_of(command@),
{
    if text_eq(command, "resize_window") {
        (10, RATE_WINDOW_MS)
    } else if text_eq(command, "capture_screen") {
        (30, RATE_WINDOW_MS)
    } else if text_eq(command, "secure_store") {
        (20, RATE_WINDOW_MS)
    } else if text_eq(command, "secure_load") {
        (50, RATE_WINDOW_MS)
    } else if text_eq(command, "toggle_stealth_cmd") {
        (5, RATE_WINDOW_MS)
    } else if text_eq(command, "panel_show") {
        (100, RATE_WINDOW_MS)
    } else if text_eq(command, "panel_hide") {
        (100, RATE_WINDOW_MS)
    } else {
        (DEFAULT_MAX_REQUESTS, RATE_WINDOW_MS)
    }
}

/// The timestamps of `h` that are at most `window` old at time `now`, in order.
pub open spec fn recent(h: Seq<u64>, now: int, window: int) -> Seq<u64> {
    h.filter(|t: u64| now <= t + window)
}

/// One call at time `now` against history `h`: the entries older than the
/// window are dropped; the call is accepted when fewer than `max` remain,
/// and then recorded.
pub open spec fn rate_step(h: Seq<u64>, now: u64, max: nat, window: nat) -> (bool, Seq<u64>) {
    let kept = recent(h, now as int, window as int);
    if kept.len() < max {
        (true, kept.push(now))
    } else {
        (false, kept)
    }
}

/// History of `c` in `m`; empty for a command never seen.
pub open spec fn history_of(m: Map<Seq<char>, Seq<u64>>, c: Seq<char>) -> Seq<u64> {
    if m.contains_key(c) {
        m[c]
    } else {
        Seq::empty()
    }
}

/// `m` after a sweep at `now`: each history keeps its timestamps that are at
/// most `retention` old, and commands left with none are forgotten.
pub open spec fn swept(m: Map<Seq<char>, Seq<u64>>, now: u64, retention: nat) -> Map<
    Seq<char>,
    Seq<u64>,
> {
    Map::new(
        |k: Seq<char>| m.contains_key(k) && recent(m[k], now as int, retention as int).len() > 0,
        |k: Seq<char>| recent(m[k], now as int, retention as int),
    )
}

struct CommandHistory {
    command: String,
    stamps: Vec<u64>,
}

/// Timestamps of the recent calls of each command.
pub struct RateLimiter {
    entries: Vec<CommandHistory>,
}

spec fn entries_map(e: Seq<CommandHistory>) -> Map<Seq<char>, Seq<u64>>
    decreases e.len(),
{
    if e.len() == 0 {
        Map::empty()
    } else {
        entries_map(e.drop_last()).insert(e.last().command@, e.last().stamps@)
    }
}

spec fn distinct_commands(e: Seq<CommandHistory>) -> bool {
    forall|i: int, j: int| 0 <= i < j < e.len() ==> e[i].command@ != e[j].command@
}

proof fn lemma_map_absent(e: Seq<CommandHistory>, c: Seq<char>)
    requires
        forall|i: int| 0 <= i < e.len() ==> e[i].command@ != c,
    ensures
        !entries_map(e).contains_key(c),
    decreases e.len(),
{
    if e.len() > 0 {
        lemma_map_absent(e.drop_last(), c);
    }
}

proof fn lemma_map_at(e: Seq<CommandHistory>, i: int)
    requires
        distinct_commands(e),
        0 <= i < e.len(),
    ensures
        entries_map(e).contains_key(e[i].command@),
        entries_map(e)[e[i].command@] == e[i].stamps@,
    decreases e.len(),
{
    if i < e.len() - 1 {
        lemma_map_at(e.drop_last(), i);
        assert(e[i].command@ != e.last().command@);
    }
}

proof fn lemma_map_update(e: Seq<CommandHistory>, i: int, x: CommandHistory)
    requires
        distinct_commands(e),
        0 <= i < e.len(),
        x.command@ == e[i].command@,
    ensures
        entries_map(e.update(i, x)) == entries_map(e).insert(x.command@, x.stamps@),
        distinct_commands(e.update(i, x)),
    decreases e.len(),
{
    let u = e.update(i, x);
    if i == e.len() - 1 {
        assert(u.drop_last() =~= e.drop_last());
        assert(entries_map(u) =~= entries_map(e).insert(x.command@, x.stamps@));
    } else {
        assert(u.drop_last() =~= e.drop_last().update(i, x));
        lemma_map_update(e.drop_last(), i, x);
        assert(e[i].command@ != e.last().command@);
        assert(entries_map(u) =~= entries_map(e).insert(x.command@, x.stamps@));
    }
    assert(distinct_commands(u)) by {
        assert forall|a: int, b: int| 0 <= a < b < u.len() implies u[a].command@ != u[b].command@ by {
            assert(e[a].command@ != e[b].command@);
        }
    }
}

proof fn lemma_map_push(e: Seq<CommandHistory>, x: CommandHistory)
    ensures
        entries_map(e.push(x)) == entries_map(e).insert(x.command@, x.stamps@),
{
    assert(e.push(x).drop_last() =~= e);
}

fn recent_stamps(stamps: &Vec<u64>, now: u64, window: u64) -> (r: Vec<u64>)
    ensures
        r@ == recent(stamps@, now as int, window as int),
{
    let mut out: Vec<u64> = Vec::new();
    let mut i: usize = 0;
    while i < stamps.len()
        invariant
            i <= stamps@.len(),
            out@ == recent(stamps@.subrange(0, i as int), now as int, window as int),
        decreases stamps@.len() - i,
    {
        let t = stamps[i];
        proof {
            reveal(Seq::filter);
            assert(stamps@.subrange(0, i + 1).drop_last() =~= stamps@.subrange(0, i as int));
            assert(stamps@.subrange(0, i + 1).last() == t);
        }
        if t >= now || now - t <= window {
            out.push(t);
        }
        i = i + 1;
    }
    proof {
        assert(stamps@.subrange(0, stamps@.len() as int) =~= stamps@);
    }
    out
}

impl View for RateLimiter {
    type V = Map<Seq<char>, Seq<u64>>;

    closed spec fn view(&self) -> Map<Seq<char>, Seq<u64>> {
        entries_map(self.entries@)
    }
}

impl RateLimiter {
    pub closed spec fn wf(&self) -> bool {
        distinct_commands(self.entries@)
    }

    /// A limiter that has seen no calls.
    pub fn new() -> (r: RateLimiter)
        ensures
            r.wf(),
            r@ == Map::<Seq<char>, Seq<u64>>::empty(),
    {
        RateLimiter { entries: Vec::new() }
    }

    fn find(&self, command: &str) -> (r: Option<usize>)
        ensures
            r matches Some(i) ==> i < self.entries@.len() && self.entries@[i as int].command@
                == command@,
            r is None ==> forall|i: int|
                0 <= i < self.entries@.len() ==> self.entries@[i].command@ != command@,
    {
        let mut i: usize = 0;
        while i < self.entries.len()
            invariant
                i <= self.entries@.len(),
                forall|j: int| 0 <= j < i ==> self.entries@[j].command@ != command@,
            decreases self.entries@.len() - i,
        {
            if text_eq(self.entries[i].command.as_str(), command) {
                return Some(i);
            }
            i = i + 1;
        }
        None
    }

    /// Records a call of `command` at time `now` if the command is under its
    /// limit: the timestamps older than the command's window are dropped
    /// first, and the call is refused with `RateLimitExceeded` when as many
    /// calls as the limit allows remain.
    pub fn check(&mut self, command: &str, now: u64) -> (r: Result<(), ValidationError>)
        requires
            old(self).wf(),
        ensures
            final(self).wf(),
            ({
                let (max, window) = limit_of(command@);
                let (ok, h) = rate_step(history_of(old(self)@, command@), now, max, window);
                &&& final(self)@ == old(self)@.insert(command@, h)
                &&& r is Ok <==> ok
                &&& r is Err ==> r->Err_0@ == ValidationFault::RateLimitExceeded(command@)
            }),
    {
        let (max, window) = rate_limit_for(command);
        let found = self.find(command);
        let ghost before = self.entries@;
        let mut kept = match found {
            Some(i) => {
                proof {
                    lemma_map_at(before, i as int);
                }
                recent_stamps(&self.entries[i].stamps, now, window)
            },
            None => {
                proof {
                    lemma_map_absent(before, command@);
                    reveal(Seq::filter);
                }
                Vec::new()
            },
        };
        let ok = kept.len() < max;
        if ok {
            kept.push(now);
        }
        let entry = CommandHistory { command: String::from_str(command), stamps: kept };
        match found {
            Some(i) => {
                proof {
                    lemma_map_update(before, i as int, entry);
                }
                self.entries.set(i, entry);
            },
            None => {
                proof {
                    lemma_map_push(before, entry);
                    assert forall|a: int, b: int|
                        0 <= a < b < before.len() + 1 implies #[trigger] before.push(entry)[a].command@
                        != #[trigger] before.push(entry)[b].command@ by {
                        if b < before.len() {
                            assert(before[a].command@ != before[b].command@);
                        }
                    }
                }
                self.entries.push(entry);
            },
        }
        if ok {
            Ok(())
        } else {
            Err(ValidationError::RateLimitExceeded { command: String::from_str(command) })
        }
    }

    /// Drops every timestamp more than an hour old, and forgets the commands
    /// left without any.
    pub fn cleanup(&mut self, now: u64)
        requires
            old(self).wf(),
        ensures
            final(self).wf(),
            final(self)@ == swept(old(self)@, now, HISTORY_RETENTION_MS as nat),
    {
        let ghost e = self.entries@;
        let n = self.entries.len();
        let mut out: Vec<CommandHistory> = Vec::new();
        let mut i: usize = 0;
        while i < n
            invariant
                n == e.len(),
                e == self.entries@,
                distinct_commands(e),
                i <= n,
                distinct_commands(out@),
                entries_map(out@) == swept(
                    entries_map(e.subrange(0, i as int)),
                    now,
                    HISTORY_RETENTION_MS as nat,
                ),
                forall|j: int|
                    0 <= j < out@.len() ==> entries_map(e.subrange(0, i as int)).contains_key(
                        #[trigger] out@[j].command@,
                    ),
            decreases n - i,
        {
            let ghost pre = e.subrange(0, i as int);
            let ghost c = e[i as int].command@;
            let kept = recent_stamps(&self.entries[i].stamps, now, HISTORY_RETENTION_MS);
            proof {
                assert(e.subrange(0, i + 1) =~= pre.push(e[i as int]));
                lemma_map_push(pre, e[i as int]);
                assert forall|j: int| 0 <= j < pre.len() implies pre[j].command@ != c by {
                    assert(e[j].command@ != e[i as int].command@);
                }
                lemma_map_absent(pre, c);
            }
            let ghost m0 = entries_map(pre);
            let ghost m1 = entries_map(e.subrange(0, i + 1));
            if kept.len() > 0 {
                let entry = CommandHistory { command: self.entries[i].command.clone(), stamps: kept };
                proof {
                    lemma_map_push(out@, entry);
                    assert(swept(m1, now, HISTORY_RETENTION_MS as nat) =~= swept(
                        m0,
                        now,
                        HISTORY_RETENTION_MS as nat,
                    ).insert(c, kept@));
                    assert forall|a: int, b: int|
                        0 <= a < b < out@.len() + 1 implies #[trigger] out@.push(entry)[a].command@
                        != #[trigger] out@.push(entry)[b].command@ by {
                        if b < out@.len() {
                            assert(out@[a].command@ != out@[b].command@);
                        } else {
                            assert(m0.contains_key(out@[a].command@));
                        }
                    }
                }
                out.push(entry);
            } else {
                proof {
                    assert(swept(m1, now, HISTORY_RETENTION_MS as nat) =~= swept(
                        m0,
                        now,
                        HISTORY_RETENTION_MS as nat,
                    ));
                }
            }
            i = i + 1;
        }
        proof {
            assert(e.subrange(0, n as int) =~= e);
        }
        self.entries = out;
    }
}

impl Default for RateLimiter {
    fn default() -> (r: RateLimiter)
        ensures
            r.wf(),
            r@ == Map::<Seq<char>, Seq<u64>>::empty(),
    {
        RateLimiter::new()
    }
}

proof fn lemma_recent_keeps_all(h: Seq<u64>, now: int, window: int)
    requires
        forall|i: int| 0 <= i < h.len() ==> now <= #[trigger] h[i] + window,
    ensures
        recent(h, now, window) == h,
    decreases h.len(),
{
    reveal(Seq::filter);
    if h.len() > 0 {
        lemma_recent_keeps_all(h.drop_last(), now, window);
        assert(h.drop_last().push(h.last()) =~= h);
    }
}

proof fn lemma_recent_drops_first(h: Seq<u64>, now: int, window: int)
    requires
        h.len() > 0,
        now > h[0] + window,
    ensures
        recent(h, now, window).len() < h.len(),
{
    broadcast use vstd::seq_lib::group_filter_ensures;

    let pred = |t: u64| now <= t + window;
    let head = h.subrange(0, 1);
    let rest = h.subrange(1, h.len() as int);
    assert(h =~= head + rest);
    Seq::filter_distributes_over_add(head, rest, pred);
    reveal(Seq::filter);
    assert(head.drop_last() =~= Seq::<u64>::empty());
    assert(head.drop_last().filter(pred) =~= Seq::<u64>::empty());
    assert(head.last() == h[0]);
    assert(!pred(head.last()));
    assert(head.filter(pred) =~= Seq::<u64>::empty());
    rest.lemma_filter_len(pred);
}

/// With a limit of five calls per minute, as `toggle_stealth_cmd` has: five
/// calls within one minute of the first are accepted, a sixth in that
/// minute is refused, and a call more than a minute after the first is
/// accepted again. `t` holds the seven call times, in order.
pub proof fn lemma_rate_limit_boundary(t: Seq<u64>)
    requires
        t.len() == 7,
        forall|i: int, j: int| 0 <= i <= j < 7 ==> t[i] <= t[j],
        t[5] <= t[0] + 60_000,
        t[6] > t[0] + 60_000,
    ensures
        ({
            let w = 60_000nat;
            let (ok1, h1) = rate_step(Seq::empty(), t[0], 5, w);
            let (ok2, h2) = rate_step(h1, t[1], 5, w);
            let (ok3, h3) = rate_step(h2, t[2], 5, w);
            let (ok4, h4) = rate_step(h3, t[3], 5, w);
            let (ok5, h5) = rate_step(h4, t[4], 5, w);
            let (ok6, h6) = rate_step(h5, t[5], 5, w);
            let (ok7, h7) = rate_step(h6, t[6], 5, w);
            &&& ok1 && ok2 && ok3 && ok4 && ok5
            &&& !ok6
            &&& ok7
        }),
        limit_of("toggle_stealth_cmd"@) == (5nat, 60_000nat),
{
    reveal_strlit("toggle_stealth_cmd");
    reveal_strlit("resize_window");
    reveal_strlit("capture_screen");
    reveal_strlit("secure_store");
    reveal_strlit("secure_load");
    assert("toggle_stealth_cmd"@.len() == 18);
    assert("resize_window"@.len() == 13);
    assert("capture_screen"@.len() == 14);
    assert("secure_store"@.len() == 12);
    assert("secure_load"@.len() == 11);
    let w = 60_000int;
    reveal(Seq::filter);
    let h1 = seq![t[0]];
    assert(recent(Seq::<u64>::empty(), t[0] as int, w) =~= Seq::<u64>::empty());
    assert(Seq::<u64>::empty().push(t[0]) =~= h1);
    lemma_recent_keeps_all(h1, t[1] as int, w);
    let h2 = h1.push(t[1]);
    lemma_recent_keeps_all(h2, t[2] as int, w);
    let h3 = h2.push(t[2]);
    lemma_recent_keeps_all(h3, t[3] as int, w);
    let h4 = h3.push(t[3]);
    lemma_recent_keeps_all(h4, t[4] as int, w);
    let h5 = h4.push(t[4]);
    lemma_recent_keeps_all(h5, t[5] as int, w);
    assert(h5.len() == 5);
    assert(h5[0] == t[0]);
    lemma_recent_drops_first(h5, t[6] as int, w);
}

/// Records a call of `command` at `now_ms` in `limiter`, or refuses it; see
/// `RateLimiter::check`.
pub fn check_rate_limit(limiter: &mut RateLimiter, command: &str, now_ms: u64) -> (r: Result<
    (),
    ValidationError,
>)
    requires
        old(limiter).wf(),
    ensures
        final(limiter).wf(),
        ({
            let (max, window) = limit_of(command@);
            let (ok, h) = rate_step(history_of(old(limiter)@, command@), now_ms, max, window);
            &&& final(limiter)@ == old(limiter)@.insert(command@, h)
            &&& r is Ok <==> ok
            &&& r is Err ==> r->Err_0@ == ValidationFault::RateLimitExceeded(command@)
        }),
{
    limiter.check(command, now_ms)
}

/// Periodic sweep of `limiter` at `now_ms`; see `RateLimiter::cleanup`.
pub fn cleanup_rate_limiter(limiter: &mut RateLimiter, now_ms: u64)
    requires
        old(limiter).wf(),
    ensures
        final(limiter).wf(),
        final(limiter)@ == swept(old(limiter)@, now_ms, HISTORY_RETENTION_MS as nat),
{
    limiter.cleanup(now_ms)
}

} // verus!
