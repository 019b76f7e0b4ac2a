//! Hook bookkeeping: for each hooked function, whether its interception is
//! installed, a skip flag, and the subscribed callbacks by call slot.
use vstd::prelude::*;

verus! {

/// Status that the hooking engine reports for a successful installation.
pub const MH_OK: i32 = 0;

/// Why a hook operation failed.
#[derive(Debug)]
pub enum HookError {
    /// The hooking engine refused the installation, with its status code.
    CreateHook(i32),
    /// The subscription is not registered (never, or no longer).
    HookNotSet,
    /// The hooked function offers no such call slot.
    UnsupportedPosition,
    /// The hooked function's address could not be resolved.
    CannotFindAddress(String),
}

/// When a callback runs: before or after the original function.
#[derive(Debug, Clone, Copy, PartialEq, Eq, Hash, Structural)]
pub enum CallbackPosition {
    Before,
    After,
}

/// Relies on `rand::thread_rng` and `RngCore::next_u64`: a random 64-bit
/// value, of which nothing is promised.
#[verifier::external_body]
fn random_id() -> u64 {
    rand::RngCore::next_u64(&mut rand::thread_rng())
}

/// The ids of a slot's entries, in registration order.
pub open spec fn ids_of<C>(entries: Seq<(u64, C)>) -> Seq<u64> {
    entries.map_values(|e: (u64, C)| e.0)
}

/// `after` is `before` without its first entry of id `id`.
pub open spec fn removed_first<C>(before: Seq<(u64, C)>, after: Seq<(u64, C)>, id: u64) -> bool {
    exists|p: int|
        0 <= p < before.len() && before[p].0 == id && (forall|q: int| 0 <= q < p ==> before[q].0 != id)
            && after == before.remove(p)
}

/// One hooked function: its installation state, its skip flag, and its
/// subscribers per slot. Installation happens once and is never undone;
/// subscriptions come and go.
pub struct HookRegistry<C> {
    before: Vec<(u64, C)>,
    after: Vec<(u64, C)>,
    supports_after: bool,
    supports_skip: bool,
    installed: bool,
    skip: bool,
}

impl<C> HookRegistry<C> {
    /// The entries of `position`, in registration order.
    pub closed spec fn entries(&self, position: CallbackPosition) -> Seq<(u64, C)> {
        match position {
            CallbackPosition::Before => self.before@,
            CallbackPosition::After => self.after@,
        }
    }

    pub closed spec fn supports(&self, position: CallbackPosition) -> bool {
        position == CallbackPosition::Before || self.supports_after
    }

    pub closed spec fn has_skip(&self) -> bool {
        self.supports_skip
    }

    pub closed spec fn is_installed(&self) -> bool {
        self.installed
    }

    pub closed spec fn skipping(&self) -> bool {
        self.skip
    }

    /// A registry with no subscribers, not yet installed, not skipping.
    pub fn new(supports_after: bool, supports_skip: bool) -> (r: Self)
        ensures
            r.entries(CallbackPosition::Before) == Seq::<(u64, C)>::empty(),
            r.entries(CallbackPosition::After) == Seq::<(u64, C)>::empty(),
            r.supports(CallbackPosition::Before),
            r.supports(CallbackPosition::After) == supports_after,
            r.has_skip() == supports_skip,
            !r.is_installed(),
            !r.skipping(),
    {
        HookRegistry {
            before: Vec::new(),
            after: Vec::new(),
            supports_after,
            supports_skip,
            installed: false,
            skip: false,
        }
    }

    /// Whether the interception still has to be installed.
    pub fn needs_install(&self) -> (r: bool)
        ensures
            r == !self.is_installed(),
    {
        !self.installed
    }

    /// Records the hooking engine's status for an installation attempt. An
    /// installed hook stays installed; a failed attempt leaves the hook
    /// uninstalled, so that a later attempt may succeed.
    pub fn record_install(&mut self, status: i32) -> (r: Result<(), HookError>)
        ensures
            final(self).entries(CallbackPosition::Before) == old(self).entries(CallbackPosition::Before),
            final(self).entries(CallbackPosition::After) == old(self).entries(CallbackPosition::After),
            final(self).supports(CallbackPosition::After) == old(self).supports(CallbackPosition::After),
            final(self).has_skip() == old(self).has_skip(),
            final(self).skipping() == old(self).skipping(),
            old(self).is_installed() ==> r is Ok && final(self).is_installed(),
            !old(self).is_installed() && status == MH_OK ==> r is Ok && final(self).is_installed(),
            !old(self).is_installed() && status != MH_OK ==> r == Err::<(), HookError>(
                HookError::CreateHook(status),
            ) && !final(self).is_installed(),
    {
        if self.installed {
            return Ok(());
        }
        if status != MH_OK {
            return Err(HookError::CreateHook(status));
        }
        self.installed = true;
        Ok(())
    }

    /// Adds callback `f` under `id` at the end of `position`'s list.
    pub fn subscribe(&mut self, id: u64, position: CallbackPosition, f: C) -> (r: Result<(), HookError>)
        ensures
            final(self).supports(CallbackPosition::After) == old(self).supports(CallbackPosition::After),
            final(self).has_skip() == old(self).has_skip(),
            final(self).is_installed() == old(self).is_installed(),
            final(self).skipping() == old(self).skipping(),
            !old(self).supports(position) ==> r == Err::<(), HookError>(HookError::UnsupportedPosition)
                && final(self).entries(CallbackPosition::Before) == old(self).entries(CallbackPosition::Before)
                && final(self).entries(CallbackPosition::After) == old(self).entries(CallbackPosition::After),
            old(self).supports(position) ==> r is Ok
                && final(self).entries(position) == old(self).entries(position).push((id, f))
                && (forall|other: CallbackPosition| other != position ==>
                    final(self).entries(other) == old(self).entries(other)),
    {
        match position {
            CallbackPosition::Before => {
                self.before.push((id, f));
                Ok(())
            },
            CallbackPosition::After => {
                if !self.supports_after {
                    return Err(HookError::UnsupportedPosition);
                }
                self.after.push((id, f));
                Ok(())
            },
        }
    }

    /// Removes the first entry of `id` from `position`'s list; fails with
    /// `HookNotSet` when there is none.
    pub fn unsubscribe(&mut self, id: u64, position: CallbackPosition) -> (r: Result<(), HookError>)
        ensures
            final(self).supports(CallbackPosition::After) == old(self).supports(CallbackPosition::After),
            final(self).has_skip() == old(self).has_skip(),
            final(self).is_installed() == old(self).is_installed(),
            final(self).skipping() == old(self).skipping(),
            forall|other: CallbackPosition| other != position ==>
                final(self).entries(other) == old(self).entries(other),
            ids_of(old(self).entries(position)).contains(id) ==> r is Ok && removed_first(
                old(self).entries(position),
                final(self).entries(position),
                id,
            ),
            !ids_of(old(self).entries(position)).contains(id) ==> r == Err::<(), HookError>(
                HookError::HookNotSet,
            ) && final(self).entries(position) == old(self).entries(position),
    {
        match position {
            CallbackPosition::Before => remove_first_id(&mut self.before, id),
            CallbackPosition::After => remove_first_id(&mut self.after, id),
        }
    }

    /// The callbacks of `position`, in registration order, for the
    /// dispatcher to run.
    pub fn callbacks(&self, position: CallbackPosition) -> (r: &Vec<(u64, C)>)
        ensures
            r@ == self.entries(position),
    {
        match position {
            CallbackPosition::Before => &self.before,
            CallbackPosition::After => &self.after,
        }
    }

    /// Whether a call should return at once, running neither callbacks nor
    /// the original function.
    pub fn should_skip(&self) -> (r: bool)
        ensures
            r == (self.has_skip() && self.skipping()),
    {
        self.supports_skip && self.skip
    }

    /// Sets the skip flag to `skip` if it holds the opposite value, and says
    /// whether it did. A hook without a skip flag hands `skip` back; one not
    /// installed yet gives `false`.
    pub fn skip_call(&mut self, skip: bool) -> (r: bool)
        ensures
            final(self).entries(CallbackPosition::Before) == old(self).entries(CallbackPosition::Before),
            final(self).entries(CallbackPosition::After) == old(self).entries(CallbackPosition::After),
            final(self).supports(CallbackPosition::After) == old(self).supports(CallbackPosition::After),
            final(self).has_skip() == old(self).has_skip(),
            final(self).is_installed() == old(self).is_installed(),
            !old(self).has_skip() ==> r == skip && final(self).skipping() == old(self).skipping(),
            old(self).has_skip() && !old(self).is_installed() ==> !r && final(self).skipping()
                == old(self).skipping(),
            old(self).has_skip() && old(self).is_installed() ==> r == (old(self).skipping() != skip)
                && final(self).skipping() == skip,
    {
        if !self.supports_skip {
            return skip;
        }
        if !self.installed {
            return false;
        }
        if self.skip == !skip {
            self.skip = skip;
            true
        } else {
            false
        }
    }
}

fn remove_first_id<C>(entries: &mut Vec<(u64, C)>, id: u64) -> (r: Result<(), HookError>)
    ensures
        ids_of(old(entries)@).contains(id) ==> r is Ok && removed_first(old(entries)@, final(entries)@, id),
        !ids_of(old(entries)@).contains(id) ==> r == Err::<(), HookError>(HookError::HookNotSet)
            && final(entries)@ == old(entries)@,
{
    let mut p: usize = 0;
    while p < entries.len()
        invariant
            p <= entries.len(),
            entries@ == old(entries)@,
            forall|q: int| 0 <= q < p ==> entries@[q].0 != id,
        decreases entries.len() - p,
    {
        if entries[p].0 == id {
            let ghost before = entries@;
            entries.remove(p);
            assert(ids_of(before).contains(id)) by {
                assert(ids_of(before)[p as int] == id);
            }
            assert(removed_first(before, entries@, id)) by {
                assert(entries@ == before.remove(p as int));
            }
            return Ok(());
        }
        p += 1;
    }
    assert(!ids_of(entries@).contains(id)) by {
        if ids_of(entries@).contains(id) {
            let q = choose|q: int| 0 <= q < ids_of(entries@).len() && ids_of(entries@)[q] == id;
            assert(entries@[q].0 == id);
        }
    }
    Err(HookError::HookNotSet)
}

/// Once the only entry of `id` is removed from a slot, the slot no longer
/// lists `id`: the dispatcher never runs that callback again.
pub proof fn removed_subscription_is_gone<C>(before: Seq<(u64, C)>, after: Seq<(u64, C)>, id: u64)
    requires
        removed_first(before, after, id),
        forall|a: int, b: int| 0 <= a < b < before.len() && before[a].0 == id ==> before[b].0 != id,
    ensures
        !ids_of(after).contains(id),
{
    let p = choose|p: int|
        0 <= p < before.len() && before[p].0 == id && (forall|q: int| 0 <= q < p ==> before[q].0 != id)
            && after == before.remove(p);
    if ids_of(after).contains(id) {
        let q = choose|q: int| 0 <= q < ids_of(after).len() && ids_of(after)[q] == id;
        if q < p {
            assert(after[q] == before[q]);
        } else {
            assert(after[q] == before[q + 1]);
        }
    }
}

/// Whether removing a handle's entry succeeds, with the handle's slot
/// after: no slot fails; a slot whose ids hold `id` succeeds and clears the
/// slot; otherwise it fails with the slot kept. (A failure is `HookNotSet`.)
pub open spec fn unset_outcome(slot: Option<CallbackPosition>, ids: Seq<u64>, id: u64) -> (bool, Option<CallbackPosition>) {
    match slot {
        None => (false, None),
        Some(_) => if ids.contains(id) {
            (true, None)
        } else {
            (false, slot)
        },
    }
}

/// Removing a handle's entry twice: once the first removal succeeded, the
/// second fails, whatever the table then holds.
pub proof fn second_unset_fails(slot: Option<CallbackPosition>, ids: Seq<u64>, later_ids: Seq<u64>, id: u64)
    requires
        unset_outcome(slot, ids, id).0,
    ensures
        !unset_outcome(unset_outcome(slot, ids, id).1, later_ids, id).0,
{
}

/// A handle on one subscription: a random id, and the slot it is
/// registered in while it is registered.
pub struct Subscription {
    inner_id: u64,
    position: Option<CallbackPosition>,
}

impl Subscription {
    pub closed spec fn id(&self) -> u64 {
        self.inner_id
    }

    pub closed spec fn slot(&self) -> Option<CallbackPosition> {
        self.position
    }

    /// A handle with a fresh random id, not registered.
    pub fn new() -> (r: Self)
        ensures
            r.slot() is None,
    {
        Subscription { inner_id: random_id(), position: None }
    }

    /// A handle with the given id, not registered.
    pub fn with_id(id: u64) -> (r: Self)
        ensures
            r.id() == id,
            r.slot() is None,
    {
        Subscription { inner_id: id, position: None }
    }

    /// Registers `f` in `position` of `registry` under this handle's id.
    pub fn set_callback<C>(&mut self, registry: &mut HookRegistry<C>, position: CallbackPosition, f: C) -> (r:
        Result<(), HookError>)
        ensures
            final(self).id() == old(self).id(),
            final(registry).supports(CallbackPosition::After) == old(registry).supports(CallbackPosition::After),
            final(registry).has_skip() == old(registry).has_skip(),
            final(registry).is_installed() == old(registry).is_installed(),
            final(registry).skipping() == old(registry).skipping(),
            !old(registry).supports(position) ==> r == Err::<(), HookError>(HookError::UnsupportedPosition)
                && final(self).slot() == old(self).slot()
                && final(registry).entries(CallbackPosition::Before) == old(registry).entries(CallbackPosition::Before)
                && final(registry).entries(CallbackPosition::After) == old(registry).entries(CallbackPosition::After),
            old(registry).supports(position) ==> r is Ok && final(self).slot() == Some(position)
                && final(registry).entries(position) == old(registry).entries(position).push((old(self).id(), f))
                && (forall|other: CallbackPosition| other != position ==>
                    final(registry).entries(other) == old(registry).entries(other)),
    {
        let r = registry.subscribe(self.inner_id, position, f);
        if r.is_ok() {
            self.position = Some(position);
        }
        r
    }

    /// Removes this handle's entry from `registry`. Fails with `HookNotSet`
    /// when the handle is not registered, so a second removal fails.
    pub fn unset_hook<C>(&mut self, registry: &mut HookRegistry<C>) -> (r: Result<(), HookError>)
        ensures
            final(self).id() == old(self).id(),
            final(registry).supports(CallbackPosition::After) == old(registry).supports(CallbackPosition::After),
            final(registry).has_skip() == old(registry).has_skip(),
            final(registry).is_installed() == old(registry).is_installed(),
            final(registry).skipping() == old(registry).skipping(),
            (r is Ok, final(self).slot()) == unset_outcome(
                old(self).slot(),
                match old(self).slot() {
                    Some(pos) => ids_of(old(registry).entries(pos)),
                    None => Seq::empty(),
                },
                old(self).id(),
            ),
            old(self).slot() is None ==> r == Err::<(), HookError>(HookError::HookNotSet)
                && final(self).slot() is None
                && final(registry).entries(CallbackPosition::Before) == old(registry).entries(CallbackPosition::Before)
                && final(registry).entries(CallbackPosition::After) == old(registry).entries(CallbackPosition::After),
            old(self).slot() matches Some(pos) ==> {
                &&& forall|other: CallbackPosition| other != pos ==>
                    final(registry).entries(other) == old(registry).entries(other)
                &&& ids_of(old(registry).entries(pos)).contains(old(self).id()) ==> r is Ok
                    && final(self).slot() is None
                    && removed_first(old(registry).entries(pos), final(registry).entries(pos), old(self).id())
                &&& !ids_of(old(registry).entries(pos)).contains(old(self).id()) ==> r == Err::<(), HookError>(
                    HookError::HookNotSet,
                ) && final(self).slot() == old(self).slot()
                    && final(registry).entries(pos) == old(registry).entries(pos)
            },
    {
        match self.position {
            None => Err(HookError::HookNotSet),
            Some(pos) => {
                let r = registry.unsubscribe(self.inner_id, pos);
                if r.is_ok() {
                    self.position = None;
                }
                r
            },
        }
    }

    /// Whether the handle is registered.
    pub fn is_hooked(&self) -> (r: bool)
        ensures
            r == self.slot() is Some,
    {
        self.position.is_some()
    }
}

/// Handle on a callback around monster construction.
pub struct MonsterCtorHook {
    pub subscription: Subscription,
}

impl MonsterCtorHook {
    /// A handle with a fresh random id, not registered.
    pub fn new() -> (r: Self)
        ensures
            r.subscription.slot() is None,
    {
        MonsterCtorHook { subscription: Subscription::new() }
    }
}

/// Handle on a callback around monster destruction.
pub struct MonsterDtorHook {
    pub subscription: Subscription,
}

impl MonsterDtorHook {
    /// A handle with a fresh random id, not registered.
    pub fn new() -> (r: Self)
        ensures
            r.subscription.slot() is None,
    {
        MonsterDtorHook { subscription: Subscription::new() }
    }
}

/// Handle on a callback before an action starts.
pub struct DoActionHook {
    pub subscription: Subscription,
}

impl DoActionHook {
    /// A handle with a fresh random id, not registered.
    pub fn new() -> (r: Self)
        ensures
            r.subscription.slot() is None,
    {
        DoActionHook { subscription: Subscription::new() }
    }
}

/// Handle on a callback before chat input is dispatched.
pub struct InputDispatchHook {
    pub subscription: Subscription,
}

impl InputDispatchHook {
    /// A handle with a fresh random id, not registered.
    pub fn new() -> (r: Self)
        ensures
            r.subscription.slot() is None,
    {
        InputDispatchHook { subscription: Subscription::new() }
    }
}

/// Handle on a callback before a hit is processed.
pub struct HitHook {
    pub subscription: Subscription,
}

impl HitHook {
    /// A handle with a fresh random id, not registered.
    pub fn new() -> (r: Self)
        ensures
            r.subscription.slot() is None,
    {
        HitHook { subscription: Subscription::new() }
    }
}

impl<C> HookRegistry<C> {
    /// Monster construction: callbacks before and after, no skip flag.
    pub fn monster_ctor() -> (r: Self)
        ensures
            r.entries(CallbackPosition::Before) == Seq::<(u64, C)>::empty(),
            r.entries(CallbackPosition::After) == Seq::<(u64, C)>::empty(),
            r.supports(CallbackPosition::After),
            !r.has_skip(),
            !r.is_installed(),
    {
        Self::new(true, false)
    }

    /// Monster destruction: callbacks before and after, no skip flag.
    pub fn monster_dtor() -> (r: Self)
        ensures
            r.entries(CallbackPosition::Before) == Seq::<(u64, C)>::empty(),
            r.entries(CallbackPosition::After) == Seq::<(u64, C)>::empty(),
            r.supports(CallbackPosition::After),
            !r.has_skip(),
            !r.is_installed(),
    {
        Self::new(true, false)
    }

    /// Starting an action: callbacks before only, with a skip flag.
    pub fn do_action() -> (r: Self)
        ensures
            r.entries(CallbackPosition::Before) == Seq::<(u64, C)>::empty(),
            r.entries(CallbackPosition::After) == Seq::<(u64, C)>::empty(),
            !r.supports(CallbackPosition::After),
            r.has_skip(),
            !r.is_installed(),
            !r.skipping(),
    {
        Self::new(false, true)
    }

    /// Dispatching chat input: callbacks before only, no skip flag.
    pub fn input_dispatch() -> (r: Self)
        ensures
            r.entries(CallbackPosition::Before) == Seq::<(u64, C)>::empty(),
            r.entries(CallbackPosition::After) == Seq::<(u64, C)>::empty(),
            !r.supports(CallbackPosition::After),
            !r.has_skip(),
            !r.is_installed(),
    {
        Self::new(false, false)
    }

    /// Processing a hit: callbacks before only, with a skip flag.
    pub fn hit() -> (r: Self)
        ensures
            r.entries(CallbackPosition::Before) == Seq::<(u64, C)>::empty(),
            r.entries(CallbackPosition::After) == Seq::<(u64, C)>::empty(),
            !r.supports(CallbackPosition::After),
            r.has_skip(),
            !r.is_installed(),
            !r.skipping(),
    {
        Self::new(false, true)
    }
}

} // verus!
