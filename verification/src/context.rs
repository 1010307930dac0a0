//! The processor context store: named 32-bit variables with a global
//! default and address-ranged overrides, read by the engine during decoding
//! to select architecture sub-modes.
//!
//! An override installed at an address is effective at and after that
//! address, until the next override for the same variable. Overrides are
//! kept in address order: addresses order first by their space's unique
//! index, then by offset.

use crate::address::Address;
use vstd::prelude::*;

verus! {

/// One override: from the address `(space_index, offset)` on, the variable
/// has this value.
#[derive(Clone, Copy, Debug, PartialEq, Eq, Structural)]
pub struct AddrOverride {
    pub space_index: i32,
    pub offset: u64,
    pub value: u32,
}

/// Address order on overrides: by space index, then by offset.
pub open spec fn override_lt(a: AddrOverride, b: AddrOverride) -> bool {
    ||| a.space_index < b.space_index
    ||| (a.space_index == b.space_index && a.offset < b.offset)
}

/// Whether the override's address lies at or before `(si, off)`, so the
/// override is in effect there.
pub open spec fn applies_to(o: AddrOverride, si: int, off: int) -> bool {
    ||| o.space_index < si
    ||| (o.space_index == si && o.offset <= off)
}

/// Strictly ascending address order; in particular all override addresses
/// are distinct.
pub open spec fn overrides_sorted(s: Seq<AddrOverride>) -> bool {
    forall|i: int, j: int| 0 <= i < j < s.len() ==> override_lt(s[i], s[j])
}

/// The value the override sequence yields at `(si, off)`: the value of the
/// last override in effect there, or `None` when none is.
pub open spec fn resolve_overrides(s: Seq<AddrOverride>, si: int, off: int) -> Option<u32>
    decreases s.len(),
{
    if s.len() == 0 {
        None
    } else if applies_to(s.last(), si, off) {
        Some(s.last().value)
    } else {
        resolve_overrides(s.drop_last(), si, off)
    }
}

/// One named context variable: its default value and its overrides in
/// address order.
#[derive(Debug)]
pub struct ContextVariable {
    pub name: String,
    pub default: u32,
    pub overrides: Vec<AddrOverride>,
}

impl ContextVariable {
    /// Overrides are kept strictly sorted by address.
    pub open spec fn wf(self) -> bool {
        overrides_sorted(self.overrides@)
    }
}

/// The variable registered under `name`, scanning from the most recently
/// added.
pub open spec fn lookup_var(vars: Seq<ContextVariable>, name: Seq<char>) -> Option<ContextVariable>
    decreases vars.len(),
{
    if vars.len() == 0 {
        None
    } else if vars.last().name@ == name {
        Some(vars.last())
    } else {
        lookup_var(vars.drop_last(), name)
    }
}

/// The named-variable store owned by one engine session.
#[derive(Debug)]
pub struct ContextDatabase {
    pub vars: Vec<ContextVariable>,
}

impl ContextDatabase {
    /// Every variable is well-formed and names are unique.
    pub open spec fn wf(self) -> bool {
        &&& forall|i: int| 0 <= i < self.vars.len() ==> (#[trigger] self.vars[i]).wf()
        &&& forall|i: int, j: int|
            0 <= i < j < self.vars.len() ==> self.vars[i].name@ != self.vars[j].name@
    }

    /// The default value observed for `name`: zero when the variable was
    /// never registered.
    pub open spec fn spec_default(self, name: Seq<char>) -> u32 {
        match lookup_var(self.vars@, name) {
            Some(v) => v.default,
            None => 0,
        }
    }

    /// The override sequence observed for `name`.
    pub open spec fn spec_overrides(self, name: Seq<char>) -> Seq<AddrOverride> {
        match lookup_var(self.vars@, name) {
            Some(v) => v.overrides@,
            None => Seq::empty(),
        }
    }

    /// The value observed for `name` at `addr`: the last override in effect
    /// there, the default when none applies (or the address is the invalid
    /// sentinel), and zero for an unregistered variable.
    pub open spec fn spec_value_at(self, name: Seq<char>, addr: Address) -> u32 {
        match lookup_var(self.vars@, name) {
            Some(v) => match addr.space {
                Some(s) => match resolve_overrides(
                    v.overrides@,
                    s.index as int,
                    addr.offset as int,
                ) {
                    Some(x) => x,
                    None => v.default,
                },
                None => v.default,
            },
            None => 0,
        }
    }

    /// An empty store.
    pub fn new() -> (r: ContextDatabase)
        ensures
            r.wf(),
            r.vars@ == Seq::<ContextVariable>::empty(),
    {
        ContextDatabase { vars: Vec::new() }
    }

    /// The position of the variable registered under `name`, if any.
    fn find_var(&self, name: &String) -> (r: Option<usize>)
        ensures
            match r {
                Some(i) => i < self.vars.len() && self.vars[i as int].name@ == name@
                    && lookup_var(self.vars@, name@) == Some(self.vars[i as int]),
                None => lookup_var(self.vars@, name@) is None,
            },
    {
        let n = self.vars.len();
        assert(self.vars@.subrange(0, n as int) =~= self.vars@);
        let mut i: usize = n;
        while i > 0
            invariant
                i <= n,
                n == self.vars.len(),
                lookup_var(self.vars@, name@) == lookup_var(
                    self.vars@.subrange(0, i as int),
                    name@,
                ),
            decreases i,
        {
            let sub = Ghost(self.vars@.subrange(0, i as int));
            assert(sub@.last() == self.vars[i - 1]);
            assert(sub@.drop_last() =~= self.vars@.subrange(0, i - 1));
            if self.vars[i - 1].name == *name {
                assert(lookup_var(sub@, name@) == Some(self.vars@[i - 1]));
                return Some(i - 1);
            }
            i = i - 1;
        }
        assert(self.vars@.subrange(0, 0) =~= Seq::<ContextVariable>::empty());
        None
    }

    /// Register `name` (if needed) and set its default value. Its overrides
    /// and every other variable are unchanged.
    pub fn set_variable_default(&mut self, name: &String, value: u32)
        requires
            old(self).wf(),
        ensures
            final(self).wf(),
            final(self).spec_default(name@) == value,
            final(self).spec_overrides(name@) == old(self).spec_overrides(name@),
            forall|n: Seq<char>|
                n != name@ ==> #[trigger] final(self).spec_default(n) == old(self).spec_default(n)
                    && final(self).spec_overrides(n) == old(self).spec_overrides(n),
    {
        match self.find_var(name) {
            Some(i) => {
                let ghost old_vars = self.vars@;
                let mut v = self.vars.remove(i);
                v.default = value;
                let ghost v_new = v;
                self.vars.insert(i, v);
                proof {
                    lemma_update_by_remove_insert(old_vars, i as int, v_new, self.vars@);
                    lemma_lookup_update(old_vars, i as int, v_new);
                    assert(old_vars[i as int].wf());
                    lemma_wf_after_update(old_vars, i as int, v_new, self.vars@);
                }
            },
            None => {
                let ghost old_vars = self.vars@;
                let v = ContextVariable { name: name.clone(), default: value, overrides: Vec::new() };
                let ghost v_new = v;
                self.vars.push(v);
                proof {
                    lemma_lookup_push(old_vars, v_new);
                    lemma_lookup_none(old_vars, v_new.name@);
                    lemma_wf_after_push(old_vars, v_new, self.vars@);
                    assert(v_new.overrides@ =~= Seq::<AddrOverride>::empty());
                }
            },
        }
    }

    /// The default value of `name`; zero when it was never registered.
    pub fn get_default_value(&self, name: &String) -> (r: u32)
        ensures
            r == self.spec_default(name@),
    {
        match self.find_var(name) {
            Some(i) => self.vars[i].default,
            None => 0,
        }
    }

    /// Install an override for `name`, effective at and after `addr` until
    /// the next override in address order. An override already at exactly
    /// that address is replaced. The variable is registered (with default
    /// zero) if it was not yet; observed defaults never change.
    pub fn set_variable(&mut self, name: &String, addr: &Address, value: u32)
        requires
            old(self).wf(),
            !addr.spec_is_invalid(),
        ensures
            final(self).wf(),
            forall|n: Seq<char>|
                #[trigger] final(self).spec_default(n) == old(self).spec_default(n),
            forall|n: Seq<char>|
                n != name@ ==> #[trigger] final(self).spec_overrides(n) == old(self).spec_overrides(
                    n,
                ),
            overrides_sorted(final(self).spec_overrides(name@)),
            forall|o: AddrOverride|
                #[trigger] final(self).spec_overrides(name@).contains(o) <==> {
                    if o.space_index == addr.space->Some_0.index && o.offset == addr.offset {
                        o == (AddrOverride {
                            space_index: addr.space->Some_0.index,
                            offset: addr.offset,
                            value,
                        })
                    } else {
                        old(self).spec_overrides(name@).contains(o)
                    }
                },
    {
        let si: i32 = match &addr.space {
            Some(s) => s.index,
            None => vstd::pervasive::unreached(),
        };
        let k = AddrOverride { space_index: si, offset: addr.offset, value };
        match self.find_var(name) {
            Some(i) => {
                let ghost old_vars = self.vars@;
                let mut v = self.vars.remove(i);
                assert(old_vars[i as int].wf());
                insert_override(&mut v.overrides, k);
                let ghost v_new = v;
                self.vars.insert(i, v);
                proof {
                    lemma_update_by_remove_insert(old_vars, i as int, v_new, self.vars@);
                    lemma_lookup_update(old_vars, i as int, v_new);
                    assert(v_new.wf());
                    lemma_wf_after_update(old_vars, i as int, v_new, self.vars@);
                }
            },
            None => {
                let ghost old_vars = self.vars@;
                let mut ovs: Vec<AddrOverride> = Vec::new();
                ovs.push(k);
                let v = ContextVariable { name: name.clone(), default: 0, overrides: ovs };
                let ghost v_new = v;
                self.vars.push(v);
                proof {
                    lemma_lookup_push(old_vars, v_new);
                    lemma_lookup_none(old_vars, v_new.name@);
                    assert(v_new.overrides@ =~= seq![k]);
                    assert(v_new.wf());
                    lemma_wf_after_push(old_vars, v_new, self.vars@);
                    assert forall|o: AddrOverride| #[trigger] seq![k].contains(o) implies o == k by {
                        let t = choose|t: int| 0 <= t < seq![k].len() && seq![k][t] == o;
                        assert(seq![k][0] == k);
                    }
                    assert(seq![k][0] == k);
                    assert(seq![k].contains(k));
                }
            },
        }
    }

    /// Resolve the value of `name` effective at `addr`: the last override at
    /// or before `addr`, the default when none applies, zero when the
    /// variable was never registered.
    #[verifier::loop_isolation(false)]
    pub fn get_variable(&self, name: &String, addr: &Address) -> (r: u32)
        ensures
            r == self.spec_value_at(name@, *addr),
    {
        match self.find_var(name) {
            None => 0,
            Some(i) => {
                let v = &self.vars[i];
                match &addr.space {
                    None => v.default,
                    Some(s) => {
                        let si = s.index;
                        let off = addr.offset;
                        let n = v.overrides.len();
                        assert(v.overrides@.subrange(0, n as int) =~= v.overrides@);
                        let mut j: usize = n;
                        while j > 0
                            invariant
                                j <= n,
                                n == v.overrides.len(),
                                resolve_overrides(v.overrides@, si as int, off as int)
                                    == resolve_overrides(
                                    v.overrides@.subrange(0, j as int),
                                    si as int,
                                    off as int,
                                ),
                            decreases j,
                        {
                            let sub = Ghost(v.overrides@.subrange(0, j as int));
                            assert(sub@.last() == v.overrides[j - 1]);
                            assert(sub@.drop_last() =~= v.overrides@.subrange(0, j - 1));
                            let o = v.overrides[j - 1];
                            if o.space_index < si || (o.space_index == si && o.offset <= off) {
                                assert(applies_to(o, si as int, off as int));
                                assert(resolve_overrides(sub@, si as int, off as int) == Some(
                                    o.value,
                                ));
                                return o.value;
                            }
                            j = j - 1;
                        }
                        assert(v.overrides@.subrange(0, 0) =~= Seq::<AddrOverride>::empty());
                        v.default
                    },
                }
            },
        }
    }
}

/// Insert an override into a sorted sequence, replacing one at the same
/// address.
fn insert_override(ovs: &mut Vec<AddrOverride>, k: AddrOverride)
    requires
        overrides_sorted(old(ovs)@),
    ensures
        overrides_sorted(final(ovs)@),
        forall|o: AddrOverride|
            #[trigger] final(ovs)@.contains(o) <==> {
                if o.space_index == k.space_index && o.offset == k.offset {
                    o == k
                } else {
                    old(ovs)@.contains(o)
                }
            },
{
    let ghost old_s = ovs@;
    let n = ovs.len();
    let mut i: usize = n;
    while i > 0 && override_before(&k, &ovs[i - 1])
        invariant
            i <= n,
            n == ovs.len(),
            ovs@ == old_s,
            forall|t: int| i <= t < n ==> override_lt(k, old_s[t]),
        decreases i,
    {
        i = i - 1;
    }
    if i > 0 && ovs[i - 1].space_index == k.space_index && ovs[i - 1].offset == k.offset {
        let ghost j = i - 1;
        ovs[i - 1] = k;
        proof {
            assert(ovs@ =~= old_s.update(j, k));
            // the replacement carries the same address, so order is kept
            assert forall|s1: int, s2: int|
                0 <= s1 < s2 < ovs@.len() implies override_lt(ovs@[s1], ovs@[s2]) by {
                assert(override_lt(old_s[s1], old_s[s2]));
            }
            assert(overrides_sorted(ovs@));
            assert forall|o: AddrOverride| #[trigger] ovs@.contains(o) implies {
                if o.space_index == k.space_index && o.offset == k.offset {
                    o == k
                } else {
                    old_s.contains(o)
                }
            } by {
                let t = choose|t: int| 0 <= t < ovs@.len() && ovs@[t] == o;
                if t != j {
                    assert(old_s[t] == o);
                    if o.space_index == k.space_index && o.offset == k.offset {
                        // two overrides at one address would break sortedness
                        if t < j {
                            assert(override_lt(old_s[t], old_s[j]));
                        } else {
                            assert(override_lt(old_s[j], old_s[t]));
                        }
                        assert(false);
                    }
                }
            }
            assert forall|o: AddrOverride|
                !(o.space_index == k.space_index && o.offset == k.offset) && old_s.contains(
                    o,
                ) implies #[trigger] ovs@.contains(o) by {
                let t = choose|t: int| 0 <= t < old_s.len() && old_s[t] == o;
                assert(t != j);
                assert(ovs@[t] == o);
            }
            assert(ovs@.contains(k)) by {
                assert(ovs@[j] == k);
            }
        }
    } else {
        let ghost j = i as int;
        ovs.insert(i, k);
        proof {
            old_s.insert_ensures(j, k);
            assert(ovs@ == old_s.insert(j, k));
            assert(forall|t: int| 0 <= t < j ==> #[trigger] ovs@[t] == old_s[t]);
            assert(ovs@[j] == k);
            assert(forall|t: int| j <= t < old_s.len() ==> #[trigger] ovs@[t + 1] == old_s[t]);
            // everything before the insertion point is at or below k's
            // address, and not at it, hence strictly before
            assert forall|t: int| 0 <= t < j implies override_lt(old_s[t], k) by {
                assert(!override_lt(k, old_s[j - 1]));
                assert(!(old_s[j - 1].space_index == k.space_index && old_s[j - 1].offset
                    == k.offset));
                if t < j - 1 {
                    assert(override_lt(old_s[t], old_s[j - 1]));
                }
            }
            assert forall|s1: int, s2: int|
                0 <= s1 < s2 < ovs@.len() implies override_lt(ovs@[s1], ovs@[s2]) by {
                if s2 < j {
                    assert(override_lt(old_s[s1], old_s[s2]));
                } else if s2 == j {
                    assert(override_lt(old_s[s1], k));
                } else if s1 == j {
                    assert(ovs@[s2] == old_s[s2 - 1]);
                    assert(override_lt(k, old_s[s2 - 1]));
                } else if s1 < j {
                    assert(ovs@[s2] == old_s[s2 - 1]);
                    assert(override_lt(old_s[s1], old_s[s2 - 1]));
                } else {
                    assert(ovs@[s1] == old_s[s1 - 1]);
                    assert(ovs@[s2] == old_s[s2 - 1]);
                    assert(override_lt(old_s[s1 - 1], old_s[s2 - 1]));
                }
            }
            assert(overrides_sorted(ovs@));
            assert forall|o: AddrOverride| #[trigger] ovs@.contains(o) implies {
                if o.space_index == k.space_index && o.offset == k.offset {
                    o == k
                } else {
                    old_s.contains(o)
                }
            } by {
                let t = choose|t: int| 0 <= t < ovs@.len() && ovs@[t] == o;
                if t != j {
                    if t < j {
                        assert(old_s[t] == o);
                        assert(override_lt(old_s[t], k));
                    } else {
                        assert(old_s[t - 1] == o);
                        assert(override_lt(k, old_s[t - 1]));
                    }
                }
            }
            assert forall|o: AddrOverride|
                !(o.space_index == k.space_index && o.offset == k.offset) && old_s.contains(
                    o,
                ) implies #[trigger] ovs@.contains(o) by {
                let t = choose|t: int| 0 <= t < old_s.len() && old_s[t] == o;
                if t < j {
                    assert(ovs@[t] == o);
                } else {
                    assert(ovs@[t + 1] == o);
                }
            }
            assert(ovs@.contains(k)) by {
                assert(ovs@[j] == k);
            }
        }
    }
}

/// Exec comparison mirroring `override_lt`.
fn override_before(a: &AddrOverride, b: &AddrOverride) -> (r: bool)
    ensures
        r == override_lt(*a, *b),
{
    a.space_index < b.space_index || (a.space_index == b.space_index && a.offset < b.offset)
}

/// Removing position `i` and inserting `v` back at `i` is an update.
proof fn lemma_update_by_remove_insert(
    old_vars: Seq<ContextVariable>,
    i: int,
    v: ContextVariable,
    new_vars: Seq<ContextVariable>,
)
    requires
        0 <= i < old_vars.len(),
        new_vars == old_vars.remove(i).insert(i, v),
    ensures
        new_vars == old_vars.update(i, v),
{
    old_vars.remove_ensures(i);
    old_vars.remove(i).insert_ensures(i, v);
    assert(new_vars =~= old_vars.update(i, v));
}

/// Updating one variable in place with a well-formed variable of the same
/// name keeps the store well-formed.
proof fn lemma_wf_after_update(
    old_vars: Seq<ContextVariable>,
    i: int,
    v: ContextVariable,
    new_vars: Seq<ContextVariable>,
)
    requires
        0 <= i < old_vars.len(),
        new_vars == old_vars.update(i, v),
        v.wf(),
        v.name@ == old_vars[i].name@,
        forall|t: int| 0 <= t < old_vars.len() ==> (#[trigger] old_vars[t]).wf(),
        forall|s: int, t: int|
            0 <= s < t < old_vars.len() ==> old_vars[s].name@ != old_vars[t].name@,
    ensures
        forall|t: int| 0 <= t < new_vars.len() ==> (#[trigger] new_vars[t]).wf(),
        forall|s: int, t: int|
            0 <= s < t < new_vars.len() ==> new_vars[s].name@ != new_vars[t].name@,
{
    assert forall|t: int| 0 <= t < new_vars.len() implies (#[trigger] new_vars[t]).wf() by {
        if t != i {
            assert(new_vars[t] == old_vars[t]);
        }
    }
    assert forall|s: int, t: int|
        0 <= s < t < new_vars.len() implies new_vars[s].name@ != new_vars[t].name@ by {
        assert(new_vars[s].name@ == old_vars[s].name@);
        assert(new_vars[t].name@ == old_vars[t].name@);
    }
}

/// Appending a well-formed variable under a fresh name keeps the store
/// well-formed.
proof fn lemma_wf_after_push(
    old_vars: Seq<ContextVariable>,
    v: ContextVariable,
    new_vars: Seq<ContextVariable>,
)
    requires
        new_vars == old_vars.push(v),
        v.wf(),
        forall|t: int| 0 <= t < old_vars.len() ==> (#[trigger] old_vars[t]).name@ != v.name@,
        forall|t: int| 0 <= t < old_vars.len() ==> (#[trigger] old_vars[t]).wf(),
        forall|s: int, t: int|
            0 <= s < t < old_vars.len() ==> old_vars[s].name@ != old_vars[t].name@,
    ensures
        forall|t: int| 0 <= t < new_vars.len() ==> (#[trigger] new_vars[t]).wf(),
        forall|s: int, t: int|
            0 <= s < t < new_vars.len() ==> new_vars[s].name@ != new_vars[t].name@,
{
    assert forall|t: int| 0 <= t < new_vars.len() implies (#[trigger] new_vars[t]).wf() by {
        if t < old_vars.len() {
            assert(new_vars[t] == old_vars[t]);
        } else {
            assert(new_vars[t] == v);
        }
    }
    assert forall|s: int, t: int|
        0 <= s < t < new_vars.len() implies new_vars[s].name@ != new_vars[t].name@ by {
        assert(new_vars[s] == old_vars[s]);
        if t < old_vars.len() {
            assert(new_vars[t] == old_vars[t]);
        } else {
            assert(new_vars[t] == v);
        }
    }
}

/// A name that lookup does not find belongs to no variable in the store.
proof fn lemma_lookup_none(vars: Seq<ContextVariable>, n: Seq<char>)
    requires
        lookup_var(vars, n) is None,
    ensures
        forall|i: int| 0 <= i < vars.len() ==> (#[trigger] vars[i]).name@ != n,
    decreases vars.len(),
{
    if vars.len() > 0 {
        lemma_lookup_none(vars.drop_last(), n);
        assert forall|i: int| 0 <= i < vars.len() implies (#[trigger] vars[i]).name@ != n by {
            if i < vars.len() - 1 {
                assert(vars.drop_last()[i] == vars[i]);
            } else {
                assert(vars[i] == vars.last());
            }
        }
    }
}

/// Looking a name up after updating position `i` with a variable of the
/// same name: the updated variable is found under that name, every other
/// name resolves as before.
proof fn lemma_lookup_update(vars: Seq<ContextVariable>, i: int, v: ContextVariable)
    requires
        0 <= i < vars.len(),
        vars[i].name@ == v.name@,
        forall|s: int, t: int| 0 <= s < t < vars.len() ==> vars[s].name@ != vars[t].name@,
    ensures
        forall|n: Seq<char>|
            #[trigger] lookup_var(vars.update(i, v), n) == if n == v.name@ {
                Some(v)
            } else {
                lookup_var(vars, n)
            },
    decreases vars.len(),
{
    let upd = vars.update(i, v);
    assert forall|n: Seq<char>|
        #[trigger] lookup_var(upd, n) == if n == v.name@ {
            Some(v)
        } else {
            lookup_var(vars, n)
        } by {
        if i == vars.len() - 1 {
            assert(upd.last() == v);
            assert(upd.drop_last() =~= vars.drop_last());
            if n != v.name@ {
                assert(lookup_var(upd, n) == lookup_var(upd.drop_last(), n));
            }
        } else {
            assert(upd.last() == vars.last());
            assert(upd.drop_last() =~= vars.drop_last().update(i, v));
            lemma_lookup_update(vars.drop_last(), i, v);
            if n == v.name@ {
                // the last element's name differs from v's by uniqueness
                assert(vars.last() == vars[vars.len() - 1]);
                assert(vars[i].name@ != vars[vars.len() - 1].name@);
            }
        }
    }
}

/// Looking a name up after pushing a fresh variable: the pushed variable is
/// found under its name, every other name resolves as before.
proof fn lemma_lookup_push(vars: Seq<ContextVariable>, v: ContextVariable)
    ensures
        forall|n: Seq<char>|
            #[trigger] lookup_var(vars.push(v), n) == if n == v.name@ {
                Some(v)
            } else {
                lookup_var(vars, n)
            },
{
    let p = vars.push(v);
    assert(p.last() == v);
    assert(p.drop_last() =~= vars);
}

/// Resolution with two overrides at `a1 < a2` in the queried space: below
/// `a1` the default is observed, from `a1` up to (excluding) `a2` the first
/// override's value, from `a2` on the second's.
pub proof fn lemma_context_resolution(
    db: ContextDatabase,
    name: Seq<char>,
    v: ContextVariable,
    a1: u64,
    v1: u32,
    a2: u64,
    v2: u32,
    addr: Address,
)
    requires
        a1 < a2,
        lookup_var(db.vars@, name) == Some(v),
        v.overrides@ =~= seq![
            AddrOverride { space_index: addr.space->Some_0.index, offset: a1, value: v1 },
            AddrOverride { space_index: addr.space->Some_0.index, offset: a2, value: v2 },
        ],
        addr.space is Some,
    ensures
        addr.offset < a1 ==> db.spec_value_at(name, addr) == v.default,
        a1 <= addr.offset < a2 ==> db.spec_value_at(name, addr) == v1,
        addr.offset >= a2 ==> db.spec_value_at(name, addr) == v2,
{
    let si = addr.space->Some_0.index as int;
    let off = addr.offset as int;
    let o1 = AddrOverride { space_index: addr.space->Some_0.index, offset: a1, value: v1 };
    let o2 = AddrOverride { space_index: addr.space->Some_0.index, offset: a2, value: v2 };
    assert(v.overrides@.last() == o2);
    assert(v.overrides@.drop_last() =~= seq![o1]);
    assert(seq![o1].last() == o1);
    assert(seq![o1].drop_last() =~= Seq::<AddrOverride>::empty());
    if off >= a2 {
        assert(applies_to(o2, si, off));
        assert(resolve_overrides(v.overrides@, si, off) == Some(v2));
    } else if off >= a1 {
        assert(!applies_to(o2, si, off));
        assert(resolve_overrides(v.overrides@, si, off) == resolve_overrides(seq![o1], si, off));
        assert(applies_to(o1, si, off));
        assert(resolve_overrides(seq![o1], si, off) == Some(v1));
    } else {
        assert(!applies_to(o2, si, off));
        assert(resolve_overrides(v.overrides@, si, off) == resolve_overrides(seq![o1], si, off));
        assert(!applies_to(o1, si, off));
        assert(resolve_overrides(seq![o1], si, off) == resolve_overrides(
            Seq::<AddrOverride>::empty(),
            si,
            off,
        ));
        assert(resolve_overrides(Seq::<AddrOverride>::empty(), si, off) is None);
    }
}

} // verus!
