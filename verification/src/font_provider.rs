//! Bookkeeping of the font-provider slots. Noesis has one provider slot per
//! scope (global, per URI scheme, per assembly, per scheme and assembly).
//! Installing a provider into a slot replaces whatever was there (last
//! registration wins) and records the new registration's id for that scope;
//! releasing a registration clears its slot only while it is still the
//! scope's active registration, so a stale guard cannot tear down a newer
//! registration for the same scope.

use vstd::prelude::*;

verus! {

/// Whether two strings hold the same characters.
pub fn str_eq(a: &str, b: &str) -> (r: bool)
    ensures
        r == (a@ == b@),
{
    let n = a.unicode_len();
    if n != b.unicode_len() {
        return false;
    }
    let mut i: usize = 0;
    while i < n
        invariant
            n == a@.len(),
            n == b@.len(),
            i <= n,
            forall|j: int| 0 <= j < i ==> a@[j] == b@[j],
        decreases n - i,
    {
        if a.get_char(i) != b.get_char(i) {
            return false;
        }
        i = i + 1;
    }
    assert(a@ =~= b@);
    true
}

/// Which Noesis provider slot a registration installed into.
pub enum Scope {
    /// The global provider.
    Global,
    /// The provider for one URI scheme (the part before `://`).
    Scheme(String),
    /// The provider for one assembly of a pack URI.
    Assembly(String),
    /// The provider for one scheme and assembly together.
    SchemeAssembly(String, String),
}

/// The abstract value of a [`Scope`].
pub enum ScopeView {
    Global,
    Scheme(Seq<char>),
    Assembly(Seq<char>),
    SchemeAssembly(Seq<char>, Seq<char>),
}

impl View for Scope {
    type V = ScopeView;

    open spec fn view(&self) -> ScopeView {
        match self {
            Scope::Global => ScopeView::Global,
            Scope::Scheme(s) => ScopeView::Scheme(s@),
            Scope::Assembly(a) => ScopeView::Assembly(a@),
            Scope::SchemeAssembly(s, a) => ScopeView::SchemeAssembly(s@, a@),
        }
    }
}

impl Scope {
    /// Whether `self` and `other` name the same slot.
    pub fn same(&self, other: &Scope) -> (r: bool)
        ensures
            r == (self@ == other@),
    {
        match (self, other) {
            (Scope::Global, Scope::Global) => true,
            (Scope::Scheme(a), Scope::Scheme(b)) => str_eq(a.as_str(), b.as_str()),
            (Scope::Assembly(a), Scope::Assembly(b)) => str_eq(a.as_str(), b.as_str()),
            (Scope::SchemeAssembly(s1, a1), Scope::SchemeAssembly(s2, a2)) => {
                str_eq(s1.as_str(), s2.as_str()) && str_eq(a1.as_str(), a2.as_str())
            },
            _ => false,
        }
    }

    /// A copy naming the same slot.
    pub fn copy(&self) -> (r: Scope)
        ensures
            r@ == self@,
    {
        match self {
            Scope::Global => Scope::Global,
            Scope::Scheme(s) => Scope::Scheme(String::from_str(s.as_str())),
            Scope::Assembly(a) => Scope::Assembly(String::from_str(a.as_str())),
            Scope::SchemeAssembly(s, a) => Scope::SchemeAssembly(
                String::from_str(s.as_str()),
                String::from_str(a.as_str()),
            ),
        }
    }
}

/// The active registration of every scope that has one, and the source of
/// registration ids (`0` is reserved, so ids start at `1`).
pub struct ProviderRegistry {
    active: Vec<(Scope, u64)>,
    next: u64,
}

impl View for ProviderRegistry {
    type V = Map<ScopeView, u64>;

    closed spec fn view(&self) -> Map<ScopeView, u64> {
        Map::new(
            |s: ScopeView| exists|i: int| 0 <= i < self.active@.len() && self.active@[i].0@ == s,
            |s: ScopeView| self.active@[self.scope_index(s)].1,
        )
    }
}

impl ProviderRegistry {
    closed spec fn scope_index(&self, s: ScopeView) -> int {
        choose|i: int| 0 <= i < self.active@.len() && self.active@[i].0@ == s
    }

    /// The id the next registration will receive.
    pub closed spec fn next_id(&self) -> u64 {
        self.next
    }

    /// Each scope has at most one entry, and the id source never hands out
    /// `0`.
    pub closed spec fn wf(&self) -> bool {
        &&& self.next >= 1
        &&& forall|i: int, j: int|
            0 <= i < self.active@.len() && 0 <= j < self.active@.len() && i != j
                ==> self.active@[i].0@ != self.active@[j].0@
    }

    proof fn lemma_index_of(&self, i: int)
        requires
            self.wf(),
            0 <= i < self.active@.len(),
        ensures
            self@.dom().contains(self.active@[i].0@),
            self@[self.active@[i].0@] == self.active@[i].1,
    {
        let k = self.active@[i].0@;
        assert(self@.dom().contains(k));
        let j = self.scope_index(k);
        assert(0 <= j < self.active@.len() && self.active@[j].0@ == k);
    }

    /// No scope has a registration; the first id is `1`.
    pub fn new() -> (r: Self)
        ensures
            r.wf(),
            r@ == Map::<ScopeView, u64>::empty(),
            r.next_id() == 1,
    {
        let r = ProviderRegistry { active: Vec::new(), next: 1 };
        assert(r@ =~= Map::<ScopeView, u64>::empty());
        r
    }

    fn find(&self, scope: &Scope) -> (r: Option<usize>)
        requires
            self.wf(),
        ensures
            match r {
                Some(i) => i < self.active@.len() && self.active@[i as int].0@ == scope@,
                None => !self@.dom().contains(scope@),
            },
    {
        let mut i: usize = 0;
        while i < self.active.len()
            invariant
                i <= self.active@.len(),
                forall|j: int| 0 <= j < i ==> self.active@[j].0@ != scope@,
            decreases self.active@.len() - i,
        {
            if self.active[i].0.same(scope) {
                return Some(i);
            }
            i = i + 1;
        }
        None
    }

    /// Whether another registration id can be allocated.
    pub fn can_register(&self) -> (r: bool)
        ensures
            r == (self.next_id() < u64::MAX),
    {
        self.next < u64::MAX
    }

    /// Record a new registration for `scope` (whose provider the caller has
    /// just installed into that slot) and return its fresh id. It replaces any
    /// earlier registration for the same scope.
    pub fn register(&mut self, scope: &Scope) -> (id: u64)
        requires
            old(self).wf(),
            old(self).next_id() < u64::MAX,
        ensures
            final(self).wf(),
            id == old(self).next_id(),
            id != 0,
            final(self).next_id() == old(self).next_id() + 1,
            final(self)@ == old(self)@.insert(scope@, id),
    {
        let id = self.next;
        self.next = self.next + 1;
        match self.find(scope) {
            Some(i) => {
                let s = scope.copy();
                self.active.set(i, (s, id));
                proof {
                    assert forall|k: ScopeView| #![auto] self@.dom().contains(k) == old(self)@.insert(scope@, id).dom().contains(k) by {
                        if old(self)@.dom().contains(k) {
                            let j = old(self).scope_index(k);
                            assert(self.active@[j].0@ == k);
                        }
                        if self@.dom().contains(k) {
                            let j = self.scope_index(k);
                            assert(old(self).active@[j].0@ == k);
                        }
                    }
                    assert forall|k: ScopeView| #![auto] self@.dom().contains(k) implies self@[k] == old(self)@.insert(scope@, id)[k] by {
                        let j = self.scope_index(k);
                        self.lemma_index_of(j);
                        if k != scope@ {
                            old(self).lemma_index_of(j);
                        }
                    }
                    assert(self@ =~= old(self)@.insert(scope@, id));
                }
            },
            None => {
                let s = scope.copy();
                self.active.push((s, id));
                proof {
                    let n = old(self).active@.len() as int;
                    assert forall|k: ScopeView| #![auto] self@.dom().contains(k) == old(self)@.insert(scope@, id).dom().contains(k) by {
                        if old(self)@.dom().contains(k) {
                            let j = old(self).scope_index(k);
                            assert(self.active@[j].0@ == k);
                        }
                        if self@.dom().contains(k) && k != scope@ {
                            let j = self.scope_index(k);
                            assert(old(self).active@[j].0@ == k);
                        }
                        if k == scope@ {
                            assert(self.active@[n].0@ == k);
                        }
                    }
                    assert forall|k: ScopeView| #![auto] self@.dom().contains(k) implies self@[k] == old(self)@.insert(scope@, id)[k] by {
                        let j = self.scope_index(k);
                        self.lemma_index_of(j);
                        if j < n {
                            old(self).lemma_index_of(j);
                        }
                    }
                    assert(self@ =~= old(self)@.insert(scope@, id));
                }
            },
        }
        id
    }

    /// Release registration `id` of `scope`. Returns `true` when it is still
    /// the scope's active registration: its record is dropped and the caller
    /// must clear the slot. Returns `false`, changing nothing, when a newer
    /// registration has replaced it.
    pub fn release(&mut self, scope: &Scope, id: u64) -> (cleared: bool)
        requires
            old(self).wf(),
        ensures
            final(self).wf(),
            final(self).next_id() == old(self).next_id(),
            cleared == (old(self)@.dom().contains(scope@) && old(self)@[scope@] == id),
            cleared ==> final(self)@ == old(self)@.remove(scope@),
            !cleared ==> final(self)@ == old(self)@,
    {
        match self.find(scope) {
            Some(i) => {
                proof {
                    self.lemma_index_of(i as int);
                }
                if self.active[i].1 != id {
                    return false;
                }
                let ghost old_active = self.active@;
                self.active.remove(i);
                proof {
                    let ii = i as int;
                    let key = scope@;
                    assert forall|j: int| 0 <= j < self.active@.len() implies
                        self.active@[j] == (if j < ii { old_active[j] } else { old_active[j + 1] }) by {}
                    assert forall|k: ScopeView| #![auto] self@.dom().contains(k) == old(self)@.remove(key).dom().contains(k) by {
                        if old(self)@.dom().contains(k) && k != key {
                            let j = old(self).scope_index(k);
                            if j < ii {
                                assert(self.active@[j].0@ == k);
                            } else {
                                assert(j != ii);
                                assert(self.active@[j - 1].0@ == k);
                            }
                        }
                        if self@.dom().contains(k) {
                            let j = self.scope_index(k);
                            if j < ii {
                                assert(old_active[j].0@ == k);
                            } else {
                                assert(old_active[j + 1].0@ == k);
                            }
                        }
                    }
                    assert forall|k: ScopeView| #![auto] self@.dom().contains(k) implies self@[k] == old(self)@.remove(key)[k] by {
                        let j = self.scope_index(k);
                        self.lemma_index_of(j);
                        if j < ii {
                            old(self).lemma_index_of(j);
                        } else {
                            old(self).lemma_index_of(j + 1);
                        }
                    }
                    assert(self@ =~= old(self)@.remove(key));
                }
                true
            },
            None => false,
        }
    }
}

/// Last registration wins per scope: once a newer registration for a scope is
/// recorded, releasing an older one for that scope changes nothing, and
/// releasing the newer one empties the scope. Registrations for other scopes
/// are untouched.
pub proof fn lemma_scope_last_registration_wins(
    m: Map<ScopeView, u64>,
    scope: ScopeView,
    other: ScopeView,
    older: u64,
    newer: u64,
)
    requires
        older != newer,
        other != scope,
    ensures
        m.insert(scope, newer)[scope] != older,
        m.insert(scope, newer)[scope] == newer,
        !m.insert(scope, newer).remove(scope).dom().contains(scope),
        m.insert(scope, newer).remove(scope).dom().contains(other) == m.dom().contains(other),
        m.dom().contains(other) ==> m.insert(scope, newer).remove(scope)[other] == m[other],
{
}

} // verus!
