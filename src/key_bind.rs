//! Key bindings with timing: double clicks within an interval, and keys
//! held longer than an interval. Times are milliseconds on a monotonic
//! clock that the caller reads.
use vstd::prelude::*;

use crate::keys::GameKeyCode;

verus! {

/// What happened to a key or a combination.
#[derive(Debug, Clone, Copy, PartialEq, Eq, Hash, Structural)]
pub enum KeyEventType {
    KeyDown,
    KeyUp,
    DoubleClick,
    Hold,
}

/// The keys concerned and what happened to them.
#[derive(Debug, Clone, PartialEq, Eq, Hash)]
pub struct KeyEvent {
    pub keys: Vec<GameKeyCode>,
    pub event_type: KeyEventType,
}

/// Recognises double clicks: a press less than `interval` after the last
/// press that did not complete a double click.
#[derive(Debug, Clone, Copy, PartialEq, Eq, Hash, Structural)]
pub struct DoubleClickTracker {
    pub interval: u64,
    pub last_press: u64,
}

impl DoubleClickTracker {
    pub fn new(interval: u64, now: u64) -> (r: Self)
        ensures
            r == (DoubleClickTracker { interval, last_press: now }),
    {
        DoubleClickTracker { interval, last_press: now }
    }

    /// A press at `now`: whether it completes a double click. A press that
    /// does not becomes the last press.
    pub fn on_key_down(&mut self, now: u64) -> (r: bool)
        ensures
            r == (now >= old(self).last_press && now - old(self).last_press < old(self).interval),
            final(self).interval == old(self).interval,
            final(self).last_press == if r { old(self).last_press } else { now },
    {
        let since = if now >= self.last_press { now - self.last_press } else { 0 };
        if now >= self.last_press && since < self.interval {
            true
        } else {
            self.last_press = now;
            false
        }
    }
}

/// Recognises holds: a press still held more than `interval` later. A hold
/// fires once per press.
#[derive(Debug, Clone, Copy, PartialEq, Eq, Hash, Structural)]
pub struct HoldTracker {
    pub interval: u64,
    pub pressing: bool,
    pub press_time: u64,
}

impl HoldTracker {
    pub fn new(interval: u64) -> (r: Self)
        ensures
            r == (HoldTracker { interval, pressing: false, press_time: 0 }),
    {
        HoldTracker { interval, pressing: false, press_time: 0 }
    }

    /// The keys went down at `now`.
    pub fn on_key_down(&mut self, now: u64)
        ensures
            *final(self) == (HoldTracker { interval: old(self).interval, pressing: true, press_time: now }),
    {
        self.pressing = true;
        self.press_time = now;
    }

    /// The keys went up at `now`.
    pub fn on_key_up(&mut self, now: u64)
        ensures
            *final(self) == (HoldTracker { interval: old(self).interval, pressing: false, press_time: now }),
    {
        self.pressing = false;
        self.press_time = now;
    }

    /// Whether the hold fires at `now`: the keys are pressed and more than
    /// `interval` has passed. Firing ends the press.
    pub fn poll(&mut self, now: u64) -> (r: bool)
        ensures
            r == (old(self).pressing && now >= old(self).press_time && now - old(self).press_time > old(self).interval),
            final(self).interval == old(self).interval,
            final(self).press_time == old(self).press_time,
            final(self).pressing == (old(self).pressing && !r),
    {
        if self.pressing && now >= self.press_time && now - self.press_time > self.interval {
            self.pressing = false;
            true
        } else {
            false
        }
    }
}

/// How a binding reacts to its keys' events.
#[derive(Debug, Clone, Copy, PartialEq, Eq, Hash, Structural)]
pub enum Reaction {
    /// Passes key-down and key-up events on.
    Plain,
    /// Fires on a double click.
    DoubleClick(DoubleClickTracker),
    /// Fires on a hold.
    Hold(HoldTracker),
}

/// Whether two reactions are of the same kind.
pub open spec fn same_kind(a: Reaction, b: Reaction) -> bool {
    (a is Plain && b is Plain) || (a is DoubleClick && b is DoubleClick) || (a is Hold && b is Hold)
}

/// The kind of event that a reaction passes on.
pub open spec fn fires_as(r: Reaction, t: KeyEventType) -> bool {
    match t {
        KeyEventType::KeyDown | KeyEventType::KeyUp => r is Plain,
        KeyEventType::DoubleClick => r is DoubleClick,
        KeyEventType::Hold => r is Hold,
    }
}

/// `after` holds the bindings of `before`, with the same keys and kinds.
pub open spec fn same_bindings(before: Seq<(Seq<GameKeyCode>, Reaction)>, after: Seq<(Seq<GameKeyCode>, Reaction)>) -> bool {
    &&& after.len() == before.len()
    &&& forall|i: int| 0 <= i < before.len() ==> #[trigger] after[i].0 == before[i].0 && same_kind(after[i].1, before[i].1)
}

/// Bindings of callbacks (of type `C`) to keys or combinations.
pub struct KeyBind<C> {
    bindings: Vec<(Vec<GameKeyCode>, Reaction, C)>,
}

impl<C> KeyBind<C> {
    pub closed spec fn reactions(&self) -> Seq<(Seq<GameKeyCode>, Reaction)> {
        self.bindings@.map_values(|b: (Vec<GameKeyCode>, Reaction, C)| (b.0@, b.1))
    }

    pub fn new() -> (r: Self)
        ensures
            r.reactions() == Seq::<(Seq<GameKeyCode>, Reaction)>::empty(),
    {
        let r = KeyBind { bindings: Vec::new() };
        assert(r.reactions() =~= Seq::<(Seq<GameKeyCode>, Reaction)>::empty());
        r
    }

    fn bind(&mut self, keys: &[GameKeyCode], reaction: Reaction, f: C)
        ensures
            final(self).reactions() == old(self).reactions().push((keys@, reaction)),
    {
        let mut v: Vec<GameKeyCode> = Vec::new();
        let mut i: usize = 0;
        while i < keys.len()
            invariant
                i <= keys.len(),
                v@ == keys@.subrange(0, i as int),
            decreases keys.len() - i,
        {
            v.push(keys[i]);
            i += 1;
            assert(v@ =~= keys@.subrange(0, i as int));
        }
        assert(v@ =~= keys@);
        self.bindings.push((v, reaction, f));
        assert(self.reactions() =~= old(self).reactions().push((keys@, reaction)));
    }

    /// Passes the key-down and key-up events of `keys` to `f`.
    pub fn add_key_listener(&mut self, keys: &[GameKeyCode], f: C)
        ensures
            final(self).reactions() == old(self).reactions().push((keys@, Reaction::Plain)),
    {
        self.bind(keys, Reaction::Plain, f);
    }

    /// Calls `f` on a second press of `keys` less than `interval` after the
    /// first.
    pub fn add_double_click_listener(&mut self, keys: &[GameKeyCode], interval: u64, now: u64, f: C)
        ensures
            final(self).reactions() == old(self).reactions().push(
                (keys@, Reaction::DoubleClick(DoubleClickTracker { interval, last_press: now })),
            ),
    {
        self.bind(keys, Reaction::DoubleClick(DoubleClickTracker::new(interval, now)), f);
    }

    /// Calls `f` once `keys` have been held more than `interval`.
    pub fn add_hold_listener(&mut self, keys: &[GameKeyCode], interval: u64, f: C)
        ensures
            final(self).reactions() == old(self).reactions().push(
                (keys@, Reaction::Hold(HoldTracker { interval, pressing: false, press_time: 0 })),
            ),
    {
        self.bind(keys, Reaction::Hold(HoldTracker::new(interval)), f);
    }

    /// The callback of binding `i`.
    pub fn callback(&self, i: usize) -> (r: &C)
        requires
            i < self.reactions().len(),
    {
        &self.bindings[i].2
    }

    /// Feeds the events of the poll at `now` (key-down or key-up of some
    /// keys) and then checks the holds; returns the bindings to call, with
    /// the event each gets, in order.
    pub fn update(&mut self, events: &[(Vec<GameKeyCode>, bool)], now: u64) -> (r: Vec<(usize, KeyEventType)>)
        ensures
            same_bindings(old(self).reactions(), final(self).reactions()),
            forall|k: int| 0 <= k < r@.len() ==> #[trigger] r@[k].0 < old(self).reactions().len() && fires_as(
                old(self).reactions()[r@[k].0 as int].1,
                r@[k].1,
            ),
            events@.len() == 0 ==> forall|k: int| 0 <= k < r@.len() ==> #[trigger] r@[k].1 == KeyEventType::Hold,
    {
        let mut fired: Vec<(usize, KeyEventType)> = Vec::new();
        let n = self.bindings.len();
        let mut e: usize = 0;
        while e < events.len()
            invariant
                self.bindings@.len() == n,
                n == old(self).reactions().len(),
                same_bindings(old(self).reactions(), self.reactions()),
                forall|k: int| 0 <= k < fired@.len() ==> #[trigger] fired@[k].0 < n && fires_as(
                    old(self).reactions()[fired@[k].0 as int].1,
                    fired@[k].1,
                ),
                events@.len() == 0 ==> fired@.len() == 0,
            decreases events.len() - e,
        {
            let down = events[e].1;
            let mut b: usize = 0;
            while b < n
                invariant
                    self.bindings@.len() == n,
                    n == old(self).reactions().len(),
                    e < events.len(),
                    same_bindings(old(self).reactions(), self.reactions()),
                    forall|k: int| 0 <= k < fired@.len() ==> #[trigger] fired@[k].0 < n && fires_as(
                        old(self).reactions()[fired@[k].0 as int].1,
                        fired@[k].1,
                    ),
                decreases n - b,
            {
                if same_keys(&self.bindings[b].0, &events[e].0) {
                    let ghost before_b = self.bindings@;
                    let ghost entry = self.bindings@[b as int];
                    let ghost head = self.reactions();
                    let ghost fired_before = fired@;
                    proof {
                        assert(head[b as int] == (entry.0@, entry.1));
                        assert(head[b as int].0 == old(self).reactions()[b as int].0);
                        assert(same_kind(head[b as int].1, old(self).reactions()[b as int].1));
                    }
                    let (keys, reaction, f) = self.bindings.remove(b);
                    assert(reaction == entry.1);
                    let next = self.react(reaction, down, now, b, &mut fired);
                    self.bindings.insert(b, (keys, next, f));
                    proof {
                        assert forall|k: int| 0 <= k < fired@.len() implies #[trigger] fired@[k].0 < n && fires_as(
                            old(self).reactions()[fired@[k].0 as int].1,
                            fired@[k].1,
                        ) by {
                            if k < fired_before.len() {
                                assert(fired@[k] == fired_before[k]);
                            }
                        }
                        assert(self.reactions()[b as int] == (entry.0@, next));
                        assert(self.bindings@ =~= before_b.update(b as int, (entry.0, next, entry.2)));
                        assert forall|i: int| 0 <= i < n implies #[trigger] self.reactions()[i].0 == old(self).reactions()[i].0
                            && same_kind(self.reactions()[i].1, old(self).reactions()[i].1) by {
                            if i != b {
                                assert(self.bindings@[i] == before_b[i]);
                                assert(self.reactions()[i] == head[i]);
                                assert(head[i].0 == old(self).reactions()[i].0);
                            }
                        }
                    }
                }
                b += 1;
            }
            e += 1;
        }
        let mut b: usize = 0;
        while b < n
            invariant
                self.bindings@.len() == n,
                n == old(self).reactions().len(),
                same_bindings(old(self).reactions(), self.reactions()),
                forall|k: int| 0 <= k < fired@.len() ==> #[trigger] fired@[k].0 < n && fires_as(
                    old(self).reactions()[fired@[k].0 as int].1,
                    fired@[k].1,
                ),
                events@.len() == 0 ==> forall|k: int| 0 <= k < fired@.len() ==> #[trigger] fired@[k].1 == KeyEventType::Hold,
            decreases n - b,
        {
            match self.bindings[b].1 {
                Reaction::Hold(t) => {
                    let mut t = t;
                    let ghost before_b = self.bindings@;
                    let ghost head = self.reactions();
                    proof {
                        assert(head[b as int].1 is Hold);
                        assert(head[b as int].0 == old(self).reactions()[b as int].0);
                        assert(same_kind(head[b as int].1, old(self).reactions()[b as int].1));
                    }
                    if t.poll(now) {
                        fired.push((b, KeyEventType::Hold));
                    }
                    let (keys, _, f) = self.bindings.remove(b);
                    self.bindings.insert(b, (keys, Reaction::Hold(t), f));
                    proof {
                        assert(self.bindings@ =~= before_b.update(b as int, (before_b[b as int].0, Reaction::Hold(t), before_b[b as int].2)));
                        assert(self.reactions()[b as int] == (before_b[b as int].0@, Reaction::Hold(t)));
                        assert forall|i: int| 0 <= i < n implies #[trigger] self.reactions()[i].0 == old(self).reactions()[i].0
                            && same_kind(self.reactions()[i].1, old(self).reactions()[i].1) by {
                            if i != b {
                                assert(self.bindings@[i] == before_b[i]);
                                assert(self.reactions()[i] == head[i]);
                                assert(head[i].0 == old(self).reactions()[i].0);
                            }
                        }
                    }
                },
                _ => {},
            }
            b += 1;
        }
        fired
    }

    /// Applies an event (down or up) to a reaction, recording what fires.
    fn react(
        &self,
        reaction: Reaction,
        down: bool,
        now: u64,
        b: usize,
        fired: &mut Vec<(usize, KeyEventType)>,
    ) -> (next: Reaction)
        ensures
            same_kind(next, reaction),
            final(fired)@.len() == old(fired)@.len() || final(fired)@ == old(fired)@.push((b, final(fired)@.last().1)),
            final(fired)@.len() > old(fired)@.len() ==> fires_as(reaction, final(fired)@.last().1) && final(fired)@.last().0 == b,
            final(fired)@.len() <= old(fired)@.len() + 1,
            forall|k: int| 0 <= k < old(fired)@.len() ==> final(fired)@[k] == old(fired)@[k],
    {
        match reaction {
            Reaction::Plain => {
                fired.push((b, if down { KeyEventType::KeyDown } else { KeyEventType::KeyUp }));
                Reaction::Plain
            },
            Reaction::DoubleClick(t) => {
                let mut t = t;
                if down && t.on_key_down(now) {
                    fired.push((b, KeyEventType::DoubleClick));
                }
                Reaction::DoubleClick(t)
            },
            Reaction::Hold(t) => {
                let mut t = t;
                if down {
                    t.on_key_down(now);
                } else {
                    t.on_key_up(now);
                }
                Reaction::Hold(t)
            },
        }
    }
}

fn same_keys(a: &Vec<GameKeyCode>, b: &Vec<GameKeyCode>) -> (r: bool)
    ensures
        r == (a@ == b@),
{
    if a.len() != b.len() {
        return false;
    }
    let mut i: usize = 0;
    while i < a.len()
        invariant
            i <= a.len(),
            a@.len() == b@.len(),
            forall|k: int| 0 <= k < i ==> a@[k] == b@[k],
        decreases a.len() - i,
    {
        if a[i] != b[i] {
            return false;
        }
        i += 1;
    }
    assert(a@ =~= b@);
    true
}

} // verus!
