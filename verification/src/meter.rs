//! The input level and its recent peaks.
//!
//! Levels are tenths of dBFS. Moments are nanoseconds since some moment that
//! does not change.

use std::collections::VecDeque;

use vstd::prelude::*;

verus! {

/// Stands for a level that is not known: no sound has arrived yet, or none can
/// be captured.
pub const METER_SILENT: i32 = i32::MIN;

/// The lowest level that is shown: -60 dBFS.
pub const METER_FLOOR: i32 = -600;

/// The level to show: the level of the loudest sample, where there is a sample
/// that is not silent, but no less than the lowest level shown.
pub open spec fn shown_level(level: Option<i32>) -> i32 {
    match level {
        Some(level) => if level < METER_FLOOR {
            METER_FLOOR
        } else {
            level
        },
        None => METER_FLOOR,
    }
}

/// Brings the level of the loudest sample, where there is a sample that is not
/// silent, into the range that is shown.
pub fn clamp_level(level: Option<i32>) -> (shown: i32)
    ensures
        shown == shown_level(level),
{
    match level {
        Some(level) => if level < METER_FLOOR {
            METER_FLOOR
        } else {
            level
        },
        None => METER_FLOOR,
    }
}

/// Whether a moment lies more than `keep` nanoseconds before `now`.
pub open spec fn is_expired(at: u64, now: u64, keep: u64) -> bool {
    now - at > keep
}

/// What is left of `samples` when expired ones are taken from the front.
pub open spec fn live(samples: Seq<(u64, i32)>, now: u64, keep: u64) -> Seq<(u64, i32)>
    decreases samples.len(),
{
    if samples.len() > 0 && is_expired(samples[0].0, now, keep) {
        live(samples.drop_first(), now, keep)
    } else {
        samples
    }
}

/// Whether moments do not go backward.
pub open spec fn in_order(samples: Seq<(u64, i32)>) -> bool {
    forall|i: int, j: int| 0 <= i <= j < samples.len() ==> samples[i].0 <= samples[j].0
}

/// Whether `m` is the greatest level of `samples`.
pub open spec fn is_greatest(samples: Seq<(u64, i32)>, m: i32) -> bool {
    &&& exists|i: int| 0 <= i < samples.len() && #[trigger] samples[i].1 == m
    &&& forall|i: int| 0 <= i < samples.len() ==> #[trigger] samples[i].1 <= m
}

/// Levels of the recent past, each with its moment, and the greatest of them.
pub struct RollingWindow {
    keep_nanos: u64,
    samples: VecDeque<(u64, i32)>,
}

impl RollingWindow {
    /// How far back the window reaches, in nanoseconds.
    pub closed spec fn keep(self) -> u64 {
        self.keep_nanos
    }

    /// The levels in the window, oldest first.
    pub closed spec fn samples(self) -> Seq<(u64, i32)> {
        self.samples@
    }

    /// An empty window that reaches back so many nanoseconds.
    pub fn new(keep_nanos: u64) -> (window: RollingWindow)
        ensures
            window.keep() == keep_nanos,
            window.samples() == Seq::<(u64, i32)>::empty(),
    {
        RollingWindow { keep_nanos, samples: VecDeque::new() }
    }

    fn front_is_expired(&self, now: u64) -> (b: bool)
        ensures
            b == (self.samples@.len() > 0 && is_expired(
                self.samples@[0].0,
                now,
                self.keep_nanos,
            )),
    {
        if self.samples.len() == 0 {
            return false;
        }
        let at: u64 = self.samples[0].0;
        now > at && now - at > self.keep_nanos
    }

    /// Adds a level and takes out those that are too old.
    pub fn push(&mut self, now: u64, value: i32)
        ensures
            final(self).keep() == old(self).keep(),
            final(self).samples() == live(
                old(self).samples().push((now, value)),
                now,
                old(self).keep(),
            ),
    {
        self.samples.push_back((now, value));
        let ghost all = self.samples@;
        while self.front_is_expired(now)
            invariant
                self.keep_nanos == old(self).keep_nanos,
                live(all, now, self.keep_nanos) == live(self.samples@, now, self.keep_nanos),
            decreases self.samples@.len(),
        {
            let ghost before = self.samples@;
            let _ = self.samples.pop_front();
            proof {
                assert(self.samples@ =~= before.drop_first());
            }
        }
    }

    /// The greatest level in the window; none while it is empty.
    pub fn max(&self) -> (greatest: Option<i32>)
        ensures
            match greatest {
                None => self.samples().len() == 0,
                Some(m) => is_greatest(self.samples(), m),
            },
    {
        if self.samples.len() == 0 {
            return None;
        }
        let mut m: i32 = self.samples[0].1;
        proof {
            assert(self.samples()[0].1 == m);
        }
        for i in 1..self.samples.len()
            invariant
                self.samples@.len() >= 1,
                exists|k: int| 0 <= k < i && #[trigger] self.samples()[k].1 == m,
                forall|k: int| 0 <= k < i ==> #[trigger] self.samples()[k].1 <= m,
        {
            let v: i32 = self.samples[i].1;
            proof {
                assert(self.samples()[i as int].1 == v);
            }
            if v > m {
                m = v;
            }
        }
        Some(m)
    }
}

/// Reach of the window that drives the level bar, in nanoseconds: 0.3 s.
pub const SHORT_NANOS: u64 = 300_000_000;

/// Reach of the window that drives the peak marker, in nanoseconds: 3.0 s.
pub const LONG_NANOS: u64 = 3_000_000_000;

/// The window for the level bar and the one for the peak marker.
pub struct PeakWindow {
    pub short: RollingWindow,
    pub long: RollingWindow,
}

impl PeakWindow {
    /// Whether the short window holds the latest levels of the long one.
    pub open spec fn wf(self) -> bool {
        &&& self.short.keep() == SHORT_NANOS
        &&& self.long.keep() == LONG_NANOS
        &&& is_suffix(self.short.samples(), self.long.samples())
    }

    /// Two empty windows.
    pub fn new() -> (windows: PeakWindow)
        ensures
            windows.wf(),
            windows.short.samples() == Seq::<(u64, i32)>::empty(),
            windows.long.samples() == Seq::<(u64, i32)>::empty(),
    {
        let short = RollingWindow::new(SHORT_NANOS);
        let long = RollingWindow::new(LONG_NANOS);
        proof {
            assert(long.samples().skip(0) =~= short.samples());
        }
        PeakWindow { short, long }
    }

    /// Adds a level to both windows.
    pub fn push(&mut self, now: u64, value: i32)
        ensures
            final(self).short.keep() == old(self).short.keep(),
            final(self).long.keep() == old(self).long.keep(),
            final(self).short.samples() == live(
                old(self).short.samples().push((now, value)),
                now,
                old(self).short.keep(),
            ),
            final(self).long.samples() == live(
                old(self).long.samples().push((now, value)),
                now,
                old(self).long.keep(),
            ),
            old(self).wf() ==> final(self).wf(),
    {
        proof {
            if self.wf() {
                let s = self.short.samples();
                let l = self.long.samples();
                let x = (now, value);
                assert(l.push(x).skip(l.len() - s.len()) =~= s.push(x));
                lemma_live_suffix(s.push(x), l.push(x), now, SHORT_NANOS, LONG_NANOS);
            }
        }
        self.short.push(now, value);
        self.long.push(now, value);
    }
}

impl Default for PeakWindow {
    fn default() -> (windows: PeakWindow)
        ensures
            windows.wf(),
            windows.short.samples() == Seq::<(u64, i32)>::empty(),
            windows.long.samples() == Seq::<(u64, i32)>::empty(),
    {
        PeakWindow::new()
    }
}

/// Whether `tail` is the end of `whole`.
pub open spec fn is_suffix(tail: Seq<(u64, i32)>, whole: Seq<(u64, i32)>) -> bool {
    tail.len() <= whole.len() && tail == whole.skip(whole.len() - tail.len())
}

proof fn lemma_live_is_suffix(s: Seq<(u64, i32)>, now: u64, keep: u64)
    ensures
        is_suffix(live(s, now, keep), s),
    decreases s.len(),
{
    if s.len() > 0 && is_expired(s[0].0, now, keep) {
        let t = live(s.drop_first(), now, keep);
        lemma_live_is_suffix(s.drop_first(), now, keep);
        assert(s.skip(s.len() - t.len()) =~= s.drop_first().skip(s.len() - 1 - t.len()));
    } else {
        assert(s.skip(0) =~= s);
    }
}

proof fn lemma_live_suffix(
    s: Seq<(u64, i32)>,
    l: Seq<(u64, i32)>,
    now: u64,
    keep_s: u64,
    keep_l: u64,
)
    requires
        is_suffix(s, l),
        keep_s <= keep_l,
    ensures
        is_suffix(live(s, now, keep_s), live(l, now, keep_l)),
    decreases l.len(),
{
    if l.len() > 0 && is_expired(l[0].0, now, keep_l) {
        let rest = l.drop_first();
        if s.len() == l.len() {
            assert(s =~= l);
            assert(rest.skip(0) =~= rest);
            lemma_live_suffix(rest, rest, now, keep_s, keep_l);
        } else {
            assert(rest.skip(rest.len() - s.len()) =~= l.skip(l.len() - s.len()));
            lemma_live_suffix(s, rest, now, keep_s, keep_l);
        }
    } else {
        let t = live(s, now, keep_s);
        lemma_live_is_suffix(s, now, keep_s);
        assert(l.skip(l.len() - t.len()) =~= s.skip(s.len() - t.len()));
    }
}

/// A level that has just been added is in the window, and is the latest in it.
pub proof fn latest_level_is_kept(samples: Seq<(u64, i32)>, now: u64, value: i32, keep: u64)
    ensures
        live(samples.push((now, value)), now, keep).len() > 0,
        live(samples.push((now, value)), now, keep).last() == (now, value),
    decreases samples.len(),
{
    let all = samples.push((now, value));
    if samples.len() > 0 && is_expired(all[0].0, now, keep) {
        assert(all.drop_first() =~= samples.drop_first().push((now, value)));
        latest_level_is_kept(samples.drop_first(), now, value, keep);
    }
}

/// While moments do not go backward, a push leaves exactly the levels that are
/// no older than the window reaches back, in their order.
pub proof fn window_holds_the_recent_levels(samples: Seq<(u64, i32)>, now: u64, keep: u64)
    requires
        in_order(samples),
    ensures
        live(samples, now, keep) == samples.filter(
            |sample: (u64, i32)| now - sample.0 <= keep,
        ),
        in_order(live(samples, now, keep)),
    decreases samples.len(),
{
    let recent = |sample: (u64, i32)| now - sample.0 <= keep;
    if samples.len() == 0 {
        reveal(Seq::filter);
        assert(samples.filter(recent) =~= samples);
    } else if now - samples[0].0 > keep {
        let rest = samples.drop_first();
        assert(in_order(rest)) by {
            assert forall|i: int, j: int| 0 <= i <= j < rest.len() implies rest[i].0
                <= rest[j].0 by {
                assert(samples[i + 1].0 <= samples[j + 1].0);
            }
        }
        window_holds_the_recent_levels(rest, now, keep);
        lemma_filter_first(samples, recent);
    } else {
        assert forall|i: int| 0 <= i < samples.len() implies recent(#[trigger] samples[i]) by {
            assert(samples[0].0 <= samples[i].0);
        }
        lemma_filter_all(samples, recent);
    }
}

/// What a window that reaches back `keep` nanoseconds holds after levels have
/// been pushed one by one.
pub open spec fn pushed(history: Seq<(u64, i32)>, keep: u64) -> Seq<(u64, i32)>
    decreases history.len(),
{
    if history.len() == 0 {
        Seq::empty()
    } else {
        live(pushed(history.drop_last(), keep).push(history.last()), history.last().0, keep)
    }
}

/// A window holds, of all levels that were ever pushed, exactly those that are no
/// older at the latest push than it reaches back, while moments do not go
/// backward.
pub proof fn window_remembers_what_is_recent(history: Seq<(u64, i32)>, keep: u64)
    requires
        in_order(history),
        history.len() > 0,
    ensures
        pushed(history, keep) == history.filter(
            |sample: (u64, i32)| history.last().0 - sample.0 <= keep,
        ),
    decreases history.len(),
{
    let before = history.drop_last();
    let x = history.last();
    let now = x.0;
    let recent = |sample: (u64, i32)| now - sample.0 <= keep;
    assert(in_order(before)) by {
        assert forall|i: int, j: int| 0 <= i <= j < before.len() implies before[i].0
            <= before[j].0 by {
            assert(history[i].0 <= history[j].0);
        }
    }
    if before.len() == 0 {
        assert(pushed(before, keep) =~= before);
        assert(before.push(x) =~= history);
        window_holds_the_recent_levels(history, now, keep);
    } else {
        let then = before.last().0;
        let older = |sample: (u64, i32)| then - sample.0 <= keep;
        assert(history[before.len() - 1].0 <= history[history.len() - 1].0);
        window_remembers_what_is_recent(before, keep);
        let held = pushed(before, keep);
        assert(held == before.filter(older));
        lemma_filter_keeps_order(before, older);
        lemma_filter_holds(before, older);
        assert(in_order(held.push(x))) by {
            assert forall|i: int, j: int| 0 <= i <= j < held.push(x).len() implies held.push(
                x,
            )[i].0 <= held.push(x)[j].0 by {
                if j < held.len() {
                    assert(held[i].0 <= held[j].0);
                } else if i < held.len() {
                    assert(before.contains(held[i]));
                    let k = before.index_of(held[i]);
                    assert(history[k].0 <= history[history.len() - 1].0);
                }
            }
        }
        window_holds_the_recent_levels(held.push(x), now, keep);
        lemma_filter_push(held, x, recent);
        lemma_filter_push(before, x, recent);
        lemma_filter_twice(before, older, recent);
        assert(before.push(x) =~= history);
    }
}

proof fn lemma_filter_push(s: Seq<(u64, i32)>, x: (u64, i32), p: spec_fn((u64, i32)) -> bool)
    ensures
        s.push(x).filter(p) == if p(x) {
            s.filter(p).push(x)
        } else {
            s.filter(p)
        },
{
    reveal(Seq::filter);
    assert(s.push(x).drop_last() =~= s);
}

proof fn lemma_filter_holds(s: Seq<(u64, i32)>, p: spec_fn((u64, i32)) -> bool)
    ensures
        forall|i: int|
            0 <= i < s.filter(p).len() ==> s.contains(#[trigger] s.filter(p)[i]) && p(
                s.filter(p)[i],
            ),
    decreases s.len(),
{
    reveal(Seq::filter);
    if s.len() > 0 {
        let t = s.drop_last();
        lemma_filter_holds(t, p);
        assert forall|i: int| 0 <= i < s.filter(p).len() implies s.contains(
            #[trigger] s.filter(p)[i],
        ) && p(s.filter(p)[i]) by {
            if i < t.filter(p).len() {
                assert(s.filter(p)[i] == t.filter(p)[i]);
                assert(t.contains(t.filter(p)[i]));
                let k = t.index_of(t.filter(p)[i]);
                assert(s[k] == s.filter(p)[i]);
            } else {
                assert(s[s.len() - 1] == s.filter(p)[i]);
            }
        }
    }
}

proof fn lemma_filter_keeps_order(s: Seq<(u64, i32)>, p: spec_fn((u64, i32)) -> bool)
    requires
        in_order(s),
    ensures
        in_order(s.filter(p)),
    decreases s.len(),
{
    reveal(Seq::filter);
    if s.len() > 0 {
        let t = s.drop_last();
        assert(in_order(t)) by {
            assert forall|i: int, j: int| 0 <= i <= j < t.len() implies t[i].0 <= t[j].0 by {
                assert(s[i].0 <= s[j].0);
            }
        }
        lemma_filter_keeps_order(t, p);
        lemma_filter_holds(t, p);
        assert forall|i: int, j: int| 0 <= i <= j < s.filter(p).len() implies s.filter(p)[i].0
            <= s.filter(p)[j].0 by {
            if j < t.filter(p).len() {
                assert(t.filter(p)[i].0 <= t.filter(p)[j].0);
            } else if i < t.filter(p).len() {
                assert(t.contains(t.filter(p)[i]));
                let k = t.index_of(t.filter(p)[i]);
                assert(s[k].0 <= s[s.len() - 1].0);
            }
        }
    }
}

proof fn lemma_filter_twice(
    s: Seq<(u64, i32)>,
    p: spec_fn((u64, i32)) -> bool,
    q: spec_fn((u64, i32)) -> bool,
)
    requires
        forall|x: (u64, i32)| #[trigger] q(x) ==> p(x),
    ensures
        s.filter(p).filter(q) == s.filter(q),
    decreases s.len(),
{
    reveal(Seq::filter);
    if s.len() > 0 {
        let t = s.drop_last();
        lemma_filter_twice(t, p, q);
        assert(s.filter(p) == if p(s.last()) {
            t.filter(p).push(s.last())
        } else {
            t.filter(p)
        });
        lemma_filter_push(t.filter(p), s.last(), q);
    } else {
        assert(s.filter(p) =~= s);
    }
}

/// The bar shows the loudest level of the last 0.3 seconds and the marker that of
/// the last 3 seconds: no level pushed within that time is above it, and it is
/// one of them.
pub proof fn peaks_are_held(
    windows: PeakWindow,
    history: Seq<(u64, i32)>,
    bar: i32,
    marker: i32,
    i: int,
)
    requires
        windows.wf(),
        in_order(history),
        history.len() > 0,
        windows.short.samples() == pushed(history, windows.short.keep()),
        windows.long.samples() == pushed(history, windows.long.keep()),
        is_greatest(windows.short.samples(), bar),
        is_greatest(windows.long.samples(), marker),
        0 <= i < history.len(),
    ensures
        history.last().0 - history[i].0 <= 300_000_000 ==> history[i].1 <= bar,
        history.last().0 - history[i].0 <= 3_000_000_000 ==> history[i].1 <= marker,
        exists|k: int|
            0 <= k < history.len() && #[trigger] history[k].1 == bar && history.last().0
                - history[k].0 <= 300_000_000,
        exists|k: int|
            0 <= k < history.len() && #[trigger] history[k].1 == marker && history.last().0
                - history[k].0 <= 3_000_000_000,
{
    lemma_peak(history, 300_000_000, bar, i);
    lemma_peak(history, 3_000_000_000, marker, i);
}

proof fn lemma_peak(history: Seq<(u64, i32)>, keep: u64, m: i32, i: int)
    requires
        in_order(history),
        history.len() > 0,
        is_greatest(pushed(history, keep), m),
        0 <= i < history.len(),
    ensures
        history.last().0 - history[i].0 <= keep ==> history[i].1 <= m,
        exists|k: int|
            0 <= k < history.len() && #[trigger] history[k].1 == m && history.last().0
                - history[k].0 <= keep,
{
    let recent = |sample: (u64, i32)| history.last().0 - sample.0 <= keep;
    let held = pushed(history, keep);
    window_remembers_what_is_recent(history, keep);
    assert(held == history.filter(recent));
    lemma_filter_holds(history, recent);
    let g = choose|g: int| 0 <= g < held.len() && #[trigger] held[g].1 == m;
    assert(history.contains(held[g]));
    let k = history.index_of(held[g]);
    assert(history[k].1 == m);
    if recent(history[i]) {
        lemma_filter_finds(history, recent, i);
        let j = choose|j: int| 0 <= j < held.len() && held[j] == history[i];
        assert(held[j].1 <= m);
    }
}

proof fn lemma_filter_finds(s: Seq<(u64, i32)>, p: spec_fn((u64, i32)) -> bool, i: int)
    requires
        0 <= i < s.len(),
        p(s[i]),
    ensures
        exists|j: int| 0 <= j < s.filter(p).len() && s.filter(p)[j] == s[i],
    decreases s.len(),
{
    reveal(Seq::filter);
    let t = s.drop_last();
    if i < t.len() {
        lemma_filter_finds(t, p, i);
        let j = choose|j: int| 0 <= j < t.filter(p).len() && t.filter(p)[j] == t[i];
        assert(s.filter(p)[j] == s[i]);
    } else {
        assert(s.filter(p)[s.filter(p).len() - 1] == s[i]);
    }
}

/// A window follows what is pushed into it.
pub proof fn push_follows_the_history(
    before: Seq<(u64, i32)>,
    history: Seq<(u64, i32)>,
    now: u64,
    value: i32,
    keep: u64,
)
    requires
        before == pushed(history, keep),
    ensures
        live(before.push((now, value)), now, keep) == pushed(history.push((now, value)), keep),
{
    assert(history.push((now, value)).drop_last() =~= history);
}

/// The level shown is never below -60 dBFS, is the level itself from there on,
/// and -60 dBFS for silence.
pub proof fn shown_level_is_the_level_above_the_floor(level: i32)
    ensures
        shown_level(Some(level)) >= -600,
        level >= -600 ==> shown_level(Some(level)) == level,
        level < -600 ==> shown_level(Some(level)) == -600,
        shown_level(None) == -600,
{
}

proof fn lemma_filter_first(s: Seq<(u64, i32)>, p: spec_fn((u64, i32)) -> bool)
    requires
        s.len() > 0,
        !p(s[0]),
    ensures
        s.filter(p) == s.drop_first().filter(p),
    decreases s.len(),
{
    reveal(Seq::filter);
    let t = s.drop_last();
    if s.len() == 1 {
        assert(t.filter(p) =~= Seq::empty());
        assert(s.drop_first().filter(p) =~= Seq::empty());
    } else {
        assert(s.drop_first().drop_last() =~= t.drop_first());
        lemma_filter_first(t, p);
    }
}

proof fn lemma_filter_all(s: Seq<(u64, i32)>, p: spec_fn((u64, i32)) -> bool)
    requires
        forall|i: int| 0 <= i < s.len() ==> p(#[trigger] s[i]),
    ensures
        s.filter(p) == s,
    decreases s.len(),
{
    reveal(Seq::filter);
    if s.len() > 0 {
        assert forall|i: int| 0 <= i < s.drop_last().len() implies p(
            #[trigger] s.drop_last()[i],
        ) by {
            assert(p(s[i]));
        }
        lemma_filter_all(s.drop_last(), p);
        assert(p(s[s.len() - 1]));
        assert(s.drop_last().push(s.last()) =~= s);
    } else {
        assert(s.filter(p) =~= s);
    }
}

/// The peak marker is never below the level bar.
pub proof fn marker_is_not_below_the_bar(windows: PeakWindow, bar: i32, marker: i32)
    requires
        windows.wf(),
        is_greatest(windows.short.samples(), bar),
        is_greatest(windows.long.samples(), marker),
    ensures
        bar <= marker,
{
    let s = windows.short.samples();
    let l = windows.long.samples();
    let i = choose|i: int| 0 <= i < s.len() && #[trigger] s[i].1 == bar;
    assert(l[l.len() - s.len() + i].1 == bar);
}

/// A push takes levels off the front while they are older than the window reaches
/// back, and no others: `k` of them.
pub proof fn window_drops_from_the_front(samples: Seq<(u64, i32)>, now: u64, keep: u64) -> (k: int)
    ensures
        0 <= k <= samples.len(),
        live(samples, now, keep) == samples.skip(k),
        forall|i: int| 0 <= i < k ==> now - (#[trigger] samples[i]).0 > keep,
        k < samples.len() ==> now - samples[k].0 <= keep,
    decreases samples.len(),
{
    if samples.len() > 0 && now - samples[0].0 > keep {
        let rest = samples.drop_first();
        let k = window_drops_from_the_front(rest, now, keep);
        assert(rest.skip(k) =~= samples.skip(k + 1));
        assert forall|i: int| 0 <= i < k + 1 implies now - (#[trigger] samples[i]).0 > keep by {
            if i > 0 {
                assert(rest[i - 1] == samples[i]);
            }
        }
        k + 1
    } else {
        assert(samples.skip(0) =~= samples);
        0
    }
}

} // verus!
