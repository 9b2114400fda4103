//! Bookkeeping for the error and assert hooks: registration ids and the
//! single-slot, last-registration-wins rule that decides which guard may
//! uninstall a hook.
//!
//! Every installed handler gets a fresh registration id from one shared
//! source; each hook remembers the id of its active registration (`0` when
//! none). Installing replaces whatever was active. Releasing a guard clears
//! the hook (restoring Noesis's default handler) only when that guard is still
//! the active registration; a guard that has been replaced leaves the hook to
//! its successor.

use vstd::prelude::*;

verus! {

/// Context for an error raised with location info, surfaced to a per-thread
/// error handler. For XAML parse errors `uri` names the offending document and
/// `line` / `column` the position within it.
#[derive(Clone, Debug, PartialEq, Eq, Default)]
pub struct ErrorContext {
    /// The document the error refers to, when it has one.
    pub uri: Option<String>,
    /// One-based line within `uri`.
    pub line: u32,
    /// One-based column within `line`.
    pub column: u32,
}

/// The monotonic source of registration ids shared by every hook. `0` is
/// reserved as "no active registration", so ids start at `1`.
pub struct RegIdSource {
    next: u64,
}

impl RegIdSource {
    /// The id the next registration will receive.
    pub closed spec fn next_id(&self) -> u64 {
        self.next
    }

    /// Well-formedness: the reserved id `0` is never handed out.
    pub closed spec fn wf(&self) -> bool {
        self.next >= 1
    }

    /// A fresh source, whose first id is `1`.
    pub fn new() -> (r: Self)
        ensures
            r.wf(),
            r.next_id() == 1,
    {
        RegIdSource { next: 1 }
    }

    /// Whether another id can be allocated (the source is not exhausted).
    pub fn can_allocate(&self) -> (r: bool)
        ensures
            r == (self.next_id() < u64::MAX),
    {
        self.next < u64::MAX
    }

    /// Allocate a fresh, never-`0` registration id.
    pub fn next_reg_id(&mut self) -> (id: u64)
        requires
            old(self).wf(),
            old(self).next_id() < u64::MAX,
        ensures
            final(self).wf(),
            id == old(self).next_id(),
            id != 0,
            final(self).next_id() == old(self).next_id() + 1,
    {
        let id = self.next;
        self.next = self.next + 1;
        id
    }
}

/// The active-registration record of one hook (the global error hook, the
/// global assert hook, or one thread's error hook).
pub struct HookSlot {
    active: u64,
}

impl HookSlot {
    /// The id of the active registration, `0` when none is.
    pub closed spec fn active_id(&self) -> u64 {
        self.active
    }

    /// A hook with no registration.
    pub fn new() -> (r: Self)
        ensures
            r.active_id() == 0,
    {
        HookSlot { active: 0 }
    }

    /// Record `id` as the hook's active registration, replacing any other
    /// (last registration wins).
    pub fn install(&mut self, id: u64)
        ensures
            final(self).active_id() == id,
    {
        self.active = id;
    }

    /// Release the registration `id`. Returns `true` when `id` was the active
    /// registration, in which case the hook is now empty and the caller must
    /// uninstall the native handler; returns `false`, leaving the hook as it
    /// was, when another registration has replaced `id`.
    pub fn release(&mut self, id: u64) -> (cleared: bool)
        requires
            id != 0,
        ensures
            (cleared, final(self).active_id()) == release_outcome(old(self).active_id(), id),
    {
        if self.active == id {
            self.active = 0;
            true
        } else {
            false
        }
    }

    /// Whether `id` is the hook's active registration.
    pub fn is_active(&self, id: u64) -> (r: bool)
        ensures
            r == (self.active_id() == id),
    {
        self.active == id
    }
}

/// What releasing registration `id` does to a hook whose active registration
/// is `active`: whether the hook is cleared, and the hook's active
/// registration afterwards.
pub open spec fn release_outcome(active: u64, id: u64) -> (bool, u64) {
    if active == id {
        (true, 0)
    } else {
        (false, active)
    }
}

/// Last registration wins. Once `second` has been installed (over anything,
/// `first` included), releasing `first` leaves the hook to `second`, and
/// releasing `second` then empties it; `first` is not restored. Releasing the
/// registrations in the other order empties the hook at once, and the later
/// release of `first` changes nothing.
pub proof fn lemma_last_registration_wins(first: u64, second: u64)
    requires
        first != 0,
        second != 0,
        first != second,
    ensures
        release_outcome(second, first) == (false, second),
        release_outcome(release_outcome(second, first).1, second) == (true, 0u64),
        release_outcome(second, second) == (true, 0u64),
        release_outcome(release_outcome(second, second).1, first) == (false, 0u64),
{
}

/// Registration ids never repeat and increase: an id allocated from a source
/// is non-zero and smaller than every id the source hands out afterwards.
pub proof fn lemma_reg_ids_distinct(earlier: RegIdSource, later: RegIdSource, id: u64)
    requires
        earlier.wf(),
        id == earlier.next_id(),
        later.next_id() > earlier.next_id(),
    ensures
        id != later.next_id(),
        id < later.next_id(),
        id != 0,
{
}

} // verus!
