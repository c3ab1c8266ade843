//! The scheduler: named callbacks that fire on every update (tick) or once per
//! tempo-relative period (beat).
//!
//! Times are whole milliseconds since the session started. Tempo, beat
//! frequency multipliers and beat offsets are kept in thousandths, so 120 BPM
//! is `120_000` and a multiplier of 1.0 is `1_000`.
//!
//! `update` decides which callbacks are due and returns their names; whoever
//! drives the scheduler then invokes them. A callback that changes the table
//! while it runs therefore changes what the next `update` decides, never the
//! current one.

use vstd::prelude::*;
use vstd::string::*;

verus! {

/// Largest time, in milliseconds, that the scheduler accepts.
pub const TIME_LIMIT: u64 = 4_611_686_018_427_387_904;

/// Tempo a new scheduler starts with, in thousandths of a beat per minute.
pub const DEFAULT_BPM: u64 = 120_000;

/// Frequency multiplier a new callback starts with, in thousandths.
pub const DEFAULT_FREQUENCY: u32 = 1_000;

#[derive(Clone, Copy, Debug, PartialEq, Eq, Structural)]
pub enum CallbackType {
    /// Fires on every update.
    Tick,
    /// Fires once per beat period.
    Beat,
}

impl CallbackType {
    /// The name scripts use for this kind.
    pub fn to_string(&self) -> (r: String)
        ensures
            r@ == kind_name(*self),
    {
        match self {
            CallbackType::Tick => String::from_str("tick"),
            CallbackType::Beat => String::from_str("beat"),
        }
    }
}

/// The name scripts use for a kind of callback.
pub open spec fn kind_name(k: CallbackType) -> Seq<char> {
    match k {
        CallbackType::Tick => "tick"@,
        CallbackType::Beat => "beat"@,
    }
}

/// Milliseconds between two firings of a beat callback with frequency
/// multiplier `frequency` at tempo `bpm` (both in thousandths).
pub open spec fn beat_period(bpm: nat, frequency: nat) -> nat {
    (60_000 * frequency / bpm) as nat
}

/// What the scheduler knows of one callback.
pub struct Entry {
    pub name: Seq<char>,
    pub kind: CallbackType,
    pub enabled: bool,
    pub frequency: nat,
    pub offset: nat,
    pub next: nat,
}

/// Whether the callback fires on an update at time `now`: an enabled tick
/// always does; an enabled beat does once `now` reaches its next firing time.
pub open spec fn due(e: Entry, now: nat) -> bool {
    e.enabled && (e.kind == CallbackType::Tick || now >= e.next)
}

/// The callback after an update at `now`: a beat that fired is next due one
/// period after `now`. Periods missed during a long pause are not made up.
pub open spec fn stepped(e: Entry, now: nat, bpm: nat) -> Entry {
    if due(e, now) && e.kind == CallbackType::Beat {
        Entry { next: now + beat_period(bpm, e.frequency), ..e }
    } else {
        e
    }
}

/// Names of the callbacks due at `now`, in table order.
pub open spec fn fired(es: Seq<Entry>, now: nat) -> Seq<Seq<char>>
    decreases es.len(),
{
    if es.len() == 0 {
        Seq::empty()
    } else {
        let rest = fired(es.drop_last(), now);
        if due(es.last(), now) {
            rest.push(es.last().name)
        } else {
            rest
        }
    }
}

/// The whole table after an update at `now`.
pub open spec fn stepped_all(es: Seq<Entry>, now: nat, bpm: nat) -> Seq<Entry> {
    Seq::new(es.len(), |i: int| stepped(es[i], now, bpm))
}

/// First time a callback enabled at `now` is due: at once, or a period later
/// when delayed, and in either case `offset` beats later still.
pub open spec fn first_due(e: Entry, now: nat, bpm: nat, delay: bool) -> nat {
    now + (if delay { beat_period(bpm, e.frequency) } else { 0 }) + beat_period(bpm, e.offset)
}

/// Index of the callback called `name`, if any.
pub open spec fn position(es: Seq<Entry>, name: Seq<char>) -> Option<int> {
    if exists|i: int| 0 <= i < es.len() && es[i].name == name {
        Some(choose|i: int| 0 <= i < es.len() && es[i].name == name)
    } else {
        None
    }
}

/// Whether every callback has a name of its own.
pub open spec fn names_unique(es: Seq<Entry>) -> bool {
    forall|i: int, j: int| 0 <= i < j < es.len() ==> es[i].name != es[j].name
}

/// The callback after a script enables or disables it at `now`. Enabling
/// schedules its first firing afresh; disabling keeps the schedule.
pub open spec fn switched(e: Entry, enabled: bool, delay: bool, now: nat, bpm: nat) -> Entry {
    if enabled {
        Entry { enabled: true, next: first_due(e, now, bpm, delay), ..e }
    } else {
        Entry { enabled: false, ..e }
    }
}

/// The table after applying `f` to the callback called `name`, if there is one.
pub open spec fn edited(es: Seq<Entry>, name: Seq<char>, f: spec_fn(Entry) -> Entry) -> Seq<Entry> {
    match position(es, name) {
        Some(i) => es.update(i, f(es[i])),
        None => es,
    }
}

/// With unique names, the callback called `es[i].name` is at `i`.
proof fn lemma_position(es: Seq<Entry>, i: int)
    requires
        names_unique(es),
        0 <= i < es.len(),
    ensures
        position(es, es[i].name) == Some(i),
{
    let j = choose|j: int| 0 <= j < es.len() && es[j].name == es[i].name;
    if j < i {
        assert(es[j].name != es[i].name);
    } else if i < j {
        assert(es[i].name != es[j].name);
    }
}

struct Callback {
    name: String,
    kind: CallbackType,
    enabled: bool,
    frequency: u32,
    offset: u32,
    next: u64,
}

impl View for Callback {
    type V = Entry;

    closed spec fn view(&self) -> Entry {
        Entry {
            name: self.name@,
            kind: self.kind,
            enabled: self.enabled,
            frequency: self.frequency as nat,
            offset: self.offset as nat,
            next: self.next as nat,
        }
    }
}

/// The scheduler: a tempo, the time last published, and the callback table.
pub struct TimerModule {
    callbacks: Vec<Callback>,
    bpm: u64,
    now: u64,
}

/// Milliseconds in `amount` thousandths of a beat at tempo `bpm`.
fn period_of(bpm: u64, amount: u32) -> (r: u64)
    requires
        bpm > 0,
    ensures
        r == beat_period(bpm as nat, amount as nat),
        r <= 60_000 * 4_294_967_295u64,
{
    assert(60_000 * (amount as u64) <= 60_000 * 4_294_967_295u64) by (nonlinear_arith)
        requires amount <= 4_294_967_295u32;
    let scaled: u64 = 60_000 * (amount as u64);
    let r = scaled / bpm;
    assert(r <= scaled) by (nonlinear_arith)
        requires r == scaled / bpm, bpm > 0;
    r
}

impl TimerModule {
    /// The callback table, in registration order.
    pub closed spec fn entries(&self) -> Seq<Entry> {
        self.callbacks@.map_values(|c: Callback| c@)
    }

    /// Tempo, in thousandths of a beat per minute.
    pub closed spec fn tempo(&self) -> nat {
        self.bpm as nat
    }

    /// The time last published by `update`.
    pub closed spec fn clock(&self) -> nat {
        self.now as nat
    }

    pub closed spec fn inv(&self) -> bool {
        &&& self.bpm > 0
        &&& self.now <= TIME_LIMIT
        &&& names_unique(self.entries())
    }

    /// A scheduler with no callbacks, at the default tempo, at time zero.
    pub fn new() -> (r: TimerModule)
        ensures
            r.inv(),
            r.entries() == Seq::<Entry>::empty(),
            r.tempo() == DEFAULT_BPM,
            r.clock() == 0,
    {
        let r = TimerModule { callbacks: Vec::new(), bpm: DEFAULT_BPM, now: 0 };
        assert(r.entries() =~= Seq::<Entry>::empty());
        r
    }

    /// The kind a script names: `tick` or `beat`.
    pub fn type_from_string(from_str: String) -> (r: Option<CallbackType>)
        ensures
            r == (if from_str@ == "tick"@ {
                Some(CallbackType::Tick)
            } else if from_str@ == "beat"@ {
                Some(CallbackType::Beat)
            } else {
                None
            }),
    {
        let tick = String::from_str("tick");
        let beat = String::from_str("beat");
        if from_str == tick {
            Some(CallbackType::Tick)
        } else if from_str == beat {
            Some(CallbackType::Beat)
        } else {
            None
        }
    }

    fn find(&self, name: &String) -> (r: Option<usize>)
        requires
            self.inv(),
        ensures
            match r {
                Some(i) => i < self.callbacks.len() && position(self.entries(), name@) == Some(
                    i as int,
                ),
                None => position(self.entries(), name@).is_none(),
            },
    {
        let mut i: usize = 0;
        while i < self.callbacks.len()
            invariant
                self.inv(),
                i <= self.callbacks.len(),
                forall|j: int| 0 <= j < i ==> self.entries()[j].name != name@,
            decreases self.callbacks.len() - i,
        {
            if self.callbacks[i].name == *name {
                proof {
                    lemma_position(self.entries(), i as int);
                }
                return Some(i);
            }
            i = i + 1;
        }
        None
    }

    /// Replaces the callback at `i`, keeping its name.
    fn put(&mut self, i: usize, c: Callback)
        requires
            old(self).inv(),
            i < old(self).callbacks.len(),
            c.name@ == old(self).entries()[i as int].name,
        ensures
            final(self).inv(),
            final(self).entries() == old(self).entries().update(i as int, c@),
            final(self).tempo() == old(self).tempo(),
            final(self).clock() == old(self).clock(),
    {
        let ghost before = self.entries();
        self.callbacks.set(i, c);
        assert(self.entries() =~= before.update(i as int, c@));
    }

    /// Registers a disabled callback. Refused, changing nothing, when the name
    /// is taken or the frequency multiplier is zero.
    pub fn add_callback(&mut self, name: &String, kind: CallbackType, frequency: u32, offset: u32) -> (r: bool)
        requires
            old(self).inv(),
        ensures
            final(self).inv(),
            final(self).tempo() == old(self).tempo(),
            final(self).clock() == old(self).clock(),
            r == (position(old(self).entries(), name@).is_none() && frequency > 0),
            r ==> final(self).entries() == old(self).entries().push(
                Entry {
                    name: name@,
                    kind,
                    enabled: false,
                    frequency: frequency as nat,
                    offset: offset as nat,
                    next: old(self).clock(),
                },
            ),
            !r ==> final(self).entries() == old(self).entries(),
    {
        if frequency == 0 {
            return false;
        }
        if self.find(name).is_some() {
            return false;
        }
        let ghost before = self.entries();
        let c = Callback { name: name.clone(), kind, enabled: false, frequency, offset, next: self.now };
        self.callbacks.push(c);
        assert(self.entries() =~= before.push(c@));
        assert forall|j: int| 0 <= j < before.len() implies before[j].name != name@ by {
            if before[j].name == name@ {
                assert(exists|k: int| 0 <= k < before.len() && before[k].name == name@);
            }
        }
        true
    }

    /// Enables or disables the named callback. Enabling schedules its first
    /// firing: at once, or one period later when `delay` is set, plus its
    /// offset. Returns whether the name is known.
    pub fn set_enabled(&mut self, name: &String, enabled: bool, delay: bool) -> (r: bool)
        requires
            old(self).inv(),
        ensures
            final(self).inv(),
            final(self).tempo() == old(self).tempo(),
            final(self).clock() == old(self).clock(),
            r == position(old(self).entries(), name@).is_some(),
            final(self).entries() == edited(
                old(self).entries(),
                name@,
                |e: Entry| switched(e, enabled, delay, old(self).clock(), old(self).tempo()),
            ),
    {
        match self.find(name) {
            Some(i) => {
                let c = &self.callbacks[i];
                let next = if enabled {
                    let wait = if delay { period_of(self.bpm, c.frequency) } else { 0 };
                    self.now + wait + period_of(self.bpm, c.offset)
                } else {
                    c.next
                };
                let d = Callback {
                    name: c.name.clone(),
                    kind: c.kind,
                    enabled,
                    frequency: c.frequency,
                    offset: c.offset,
                    next,
                };
                self.put(i, d);
                true
            },
            None => false,
        }
    }

    /// Sets the named callback's frequency multiplier. Refused, changing
    /// nothing, when the name is unknown or the multiplier is zero.
    pub fn set_frequency(&mut self, name: &String, frequency: u32) -> (r: bool)
        requires
            old(self).inv(),
        ensures
            final(self).inv(),
            final(self).tempo() == old(self).tempo(),
            final(self).clock() == old(self).clock(),
            r == (position(old(self).entries(), name@).is_some() && frequency > 0),
            r ==> final(self).entries() == edited(
                old(self).entries(),
                name@,
                |e: Entry| Entry { frequency: frequency as nat, ..e },
            ),
            !r ==> final(self).entries() == old(self).entries(),
    {
        if frequency == 0 {
            return false;
        }
        match self.find(name) {
            Some(i) => {
                let c = &self.callbacks[i];
                let d = Callback {
                    name: c.name.clone(),
                    kind: c.kind,
                    enabled: c.enabled,
                    frequency,
                    offset: c.offset,
                    next: c.next,
                };
                self.put(i, d);
                true
            },
            None => false,
        }
    }

    /// Sets the named callback's offset, in thousandths of a beat; it applies
    /// from the next time the callback is enabled. Returns whether the name is
    /// known.
    pub fn set_offset(&mut self, name: &String, offset: u32) -> (r: bool)
        requires
            old(self).inv(),
        ensures
            final(self).inv(),
            final(self).tempo() == old(self).tempo(),
            final(self).clock() == old(self).clock(),
            r == position(old(self).entries(), name@).is_some(),
            final(self).entries() == edited(
                old(self).entries(),
                name@,
                |e: Entry| Entry { offset: offset as nat, ..e },
            ),
    {
        match self.find(name) {
            Some(i) => {
                let c = &self.callbacks[i];
                let d = Callback {
                    name: c.name.clone(),
                    kind: c.kind,
                    enabled: c.enabled,
                    frequency: c.frequency,
                    offset,
                    next: c.next,
                };
                self.put(i, d);
                true
            },
            None => false,
        }
    }

    /// Whether the named callback is enabled, if the name is known.
    pub fn is_enabled(&self, name: &String) -> (r: Option<bool>)
        requires
            self.inv(),
        ensures
            r == (match position(self.entries(), name@) {
                Some(i) => Some(self.entries()[i].enabled),
                None => None,
            }),
    {
        match self.find(name) {
            Some(i) => Some(self.callbacks[i].enabled),
            None => None,
        }
    }

    /// Sets the tempo, in thousandths of a beat per minute. A tempo of zero is
    /// refused and changes nothing.
    pub fn set_bpm(&mut self, bpm: u64) -> (r: bool)
        requires
            old(self).inv(),
        ensures
            final(self).inv(),
            r == (bpm > 0),
            final(self).tempo() == (if bpm > 0 { bpm as nat } else { old(self).tempo() }),
            final(self).entries() == old(self).entries(),
            final(self).clock() == old(self).clock(),
    {
        if bpm == 0 {
            return false;
        }
        self.bpm = bpm;
        true
    }

    /// The tempo, in thousandths of a beat per minute.
    pub fn get_bpm(&self) -> (r: u64)
        ensures
            r == self.tempo(),
    {
        self.bpm
    }

    /// The time last published by `update`, in milliseconds.
    pub fn get_time(&self) -> (r: u64)
        ensures
            r == self.clock(),
    {
        self.now
    }

    /// Publishes `now` and returns, in table order, the names of the callbacks
    /// due: every enabled tick, and every enabled beat whose next firing time
    /// `now` has reached. Each beat that fires is next due one period after
    /// `now`; at most one firing per callback happens per update.
    pub fn update(&mut self, now: u64) -> (r: Vec<String>)
        requires
            old(self).inv(),
            now <= TIME_LIMIT,
        ensures
            final(self).inv(),
            final(self).clock() == now,
            final(self).tempo() == old(self).tempo(),
            final(self).entries() == stepped_all(old(self).entries(), now as nat, old(self).tempo()),
            r@.map_values(|s: String| s@) == fired(old(self).entries(), now as nat),
    {
        let ghost before = self.entries();
        let ghost bpm = self.tempo();
        self.now = now;
        let mut fires: Vec<String> = Vec::new();
        let mut i: usize = 0;
        while i < self.callbacks.len()
            invariant
                self.bpm > 0,
                self.bpm == bpm,
                self.now == now,
                now <= TIME_LIMIT,
                i <= self.callbacks.len(),
                self.callbacks.len() == before.len(),
                forall|j: int| 0 <= j < i ==> self.entries()[j] == stepped(before[j], now as nat, bpm),
                forall|j: int| i <= j < before.len() ==> self.entries()[j] == before[j],
                fires@.map_values(|s: String| s@) == fired(before.take(i as int), now as nat),
            decreases self.callbacks.len() - i,
        {
            let ghost cur = self.entries();
            let c = &self.callbacks[i];
            let is_due = c.enabled && (c.kind == CallbackType::Tick || now >= c.next);
            if is_due {
                let ghost fs = fires@;
                fires.push(c.name.clone());
                assert(fires@.map_values(|s: String| s@) =~= fs.map_values(|s: String| s@).push(before[i as int].name));
                if c.kind == CallbackType::Beat {
                    let period = period_of(self.bpm, c.frequency);
                    let d = Callback {
                        name: c.name.clone(),
                        kind: c.kind,
                        enabled: c.enabled,
                        frequency: c.frequency,
                        offset: c.offset,
                        next: now + period,
                    };
                    self.callbacks.set(i, d);
                    assert(self.entries() =~= cur.update(i as int, d@));
                }
            }
            assert(before.take(i + 1).drop_last() =~= before.take(i as int));
            i = i + 1;
        }
        assert(before.take(before.len() as int) =~= before);
        assert(self.entries() =~= stepped_all(before, now as nat, bpm));
        fires
    }
}

/// A name is among those fired exactly when some callback of that name is due.
proof fn lemma_fired_member(es: Seq<Entry>, now: nat, n: Seq<char>)
    ensures
        fired(es, now).contains(n) <==> exists|i: int|
            0 <= i < es.len() && es[i].name == n && due(es[i], now),
    decreases es.len(),
{
    if es.len() > 0 {
        let init = es.drop_last();
        lemma_fired_member(init, now, n);
        if fired(es, now).contains(n) {
            if due(es.last(), now) && es.last().name == n {
                assert(es[es.len() - 1].name == n);
            } else {
                if due(es.last(), now) {
                    let k = choose|k: int| 0 <= k < fired(es, now).len() && fired(es, now)[k] == n;
                    assert(fired(init, now)[k] == n);
                }
                assert(fired(init, now).contains(n));
                let i = choose|i: int| 0 <= i < init.len() && init[i].name == n && due(init[i], now);
                assert(es[i] == init[i]);
            }
        }
        if exists|i: int| 0 <= i < es.len() && es[i].name == n && due(es[i], now) {
            let i = choose|i: int| 0 <= i < es.len() && es[i].name == n && due(es[i], now);
            if i == es.len() - 1 {
                assert(fired(es, now).last() == n);
            } else {
                assert(init[i] == es[i]);
                let k = choose|k: int| 0 <= k < fired(init, now).len() && fired(init, now)[k] == n;
                if due(es.last(), now) {
                    assert(fired(es, now)[k] == n);
                }
            }
        }
    }
}

/// With unique names, no name is fired twice in one update.
proof fn lemma_fired_unique(es: Seq<Entry>, now: nat)
    requires
        names_unique(es),
    ensures
        fired(es, now).no_duplicates(),
    decreases es.len(),
{
    if es.len() > 0 {
        let init = es.drop_last();
        assert(names_unique(init));
        lemma_fired_unique(init, now);
        if due(es.last(), now) {
            lemma_fired_member(init, now, es.last().name);
            if fired(init, now).contains(es.last().name) {
                let i = choose|i: int|
                    0 <= i < init.len() && init[i].name == es.last().name && due(init[i], now);
                assert(es[i].name != es[es.len() - 1].name);
            }
            let f = fired(es, now);
            assert forall|a: int, b: int| 0 <= a < f.len() && 0 <= b < f.len() && a != b implies f[a]
                != f[b] by {
                if a == f.len() - 1 {
                    assert(fired(init, now).contains(f[b]));
                } else if b == f.len() - 1 {
                    assert(fired(init, now).contains(f[a]));
                }
            }
        }
    }
}

/// An enabled tick callback fires on every update, whatever time has passed,
/// and exactly once.
pub proof fn law_tick_fires_once_per_update(es: Seq<Entry>, i: int, now: nat)
    requires
        names_unique(es),
        0 <= i < es.len(),
        es[i].kind == CallbackType::Tick,
        es[i].enabled,
    ensures
        fired(es, now).contains(es[i].name),
        fired(es, now).no_duplicates(),
{
    lemma_fired_member(es, now, es[i].name);
    lemma_fired_unique(es, now);
}

/// A callback that disables itself while it runs has still fired in the
/// update that ran it, and fires in no later update until enabled again:
/// the change applies from the next update on, not to the current one.
pub proof fn law_disable_applies_next_update(
    es: Seq<Entry>,
    i: int,
    now: nat,
    bpm: nat,
    later: nat,
)
    requires
        names_unique(es),
        0 <= i < es.len(),
        due(es[i], now),
    ensures
        fired(es, now).contains(es[i].name),
        !fired(
            edited(
                stepped_all(es, now, bpm),
                es[i].name,
                |e: Entry| switched(e, false, false, now, bpm),
            ),
            later,
        ).contains(es[i].name),
{
    lemma_fired_member(es, now, es[i].name);
    let stepped = stepped_all(es, now, bpm);
    assert(names_unique(stepped));
    lemma_position(stepped, i);
    let after = edited(stepped, es[i].name, |e: Entry| switched(e, false, false, now, bpm));
    lemma_fired_member(after, later, es[i].name);
    if fired(after, later).contains(es[i].name) {
        let j = choose|j: int|
            0 <= j < after.len() && after[j].name == es[i].name && due(after[j], later);
        if j != i {
            assert(stepped[j].name == es[j].name);
            if j < i {
                assert(es[j].name != es[i].name);
            } else {
                assert(es[i].name != es[j].name);
            }
        }
    }
}

} // verus!
