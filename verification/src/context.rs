//! The context registry: storage for "the currently active backend
//! descriptor", keyed by scope. Each scope of asynchronous work installs one
//! descriptor; every helper issued inside the scope resolves that same
//! descriptor, and distinct scopes never observe each other's.

use vstd::prelude::*;
use crate::Error;
use crate::runtime::{resolve_runtime, RuntimeFlavor};
use crate::strutil::str_eq;

verus! {

/// The descriptor bound to each active scope, as a map from scope identifier
/// to backend descriptor.
pub open spec fn entries_map(s: Seq<(u64, RuntimeFlavor)>) -> Map<u64, RuntimeFlavor>
    decreases s.len(),
{
    if s.len() == 0 {
        Map::empty()
    } else {
        entries_map(s.drop_last()).insert(s.last().0, s.last().1)
    }
}

pub open spec fn entries_unique(s: Seq<(u64, RuntimeFlavor)>) -> bool {
    forall|i: int, j: int| 0 <= i < j < s.len() ==> s[i].0 != s[j].0
}

proof fn lemma_entries_map_domain(s: Seq<(u64, RuntimeFlavor)>, k: u64)
    ensures
        entries_map(s).contains_key(k) <==> exists|i: int| 0 <= i < s.len() && s[i].0 == k,
    decreases s.len(),
{
    if s.len() > 0 {
        lemma_entries_map_domain(s.drop_last(), k);
        if entries_map(s).contains_key(k) {
            if s.last().0 == k {
                assert(s[s.len() - 1].0 == k);
            } else {
                let i = choose|i: int| 0 <= i < s.drop_last().len() && s.drop_last()[i].0 == k;
                assert(s[i].0 == k);
            }
        }
        if exists|i: int| 0 <= i < s.len() && s[i].0 == k {
            let i = choose|i: int| 0 <= i < s.len() && s[i].0 == k;
            if i < s.len() - 1 {
                assert(s.drop_last()[i].0 == k);
            }
        }
    }
}

proof fn lemma_entries_map_value(s: Seq<(u64, RuntimeFlavor)>, i: int)
    requires
        entries_unique(s),
        0 <= i < s.len(),
    ensures
        entries_map(s).contains_key(s[i].0),
        entries_map(s)[s[i].0] == s[i].1,
    decreases s.len(),
{
    if i == s.len() - 1 {
    } else {
        assert(s.drop_last()[i] == s[i]);
        lemma_entries_map_value(s.drop_last(), i);
        assert(s.last().0 != s[i].0);
    }
}

proof fn lemma_entries_map_remove(s: Seq<(u64, RuntimeFlavor)>, i: int)
    requires
        entries_unique(s),
        0 <= i < s.len(),
    ensures
        entries_map(s.remove(i)) == entries_map(s).remove(s[i].0),
    decreases s.len(),
{
    let k = s[i].0;
    if i == s.len() - 1 {
        assert(s.remove(i) =~= s.drop_last());
        lemma_entries_map_domain(s.drop_last(), k);
        assert(!entries_map(s.drop_last()).contains_key(k));
        assert(entries_map(s.drop_last()).insert(k, s[i].1).remove(k) =~= entries_map(
            s.drop_last(),
        ));
    } else {
        let t = s.drop_last();
        assert(t[i] == s[i]);
        lemma_entries_map_remove(t, i);
        assert(s.remove(i).drop_last() =~= t.remove(i));
        assert(s.remove(i).last() == s.last());
        assert(entries_map(s.remove(i)) == entries_map(t.remove(i)).insert(
            s.last().0,
            s.last().1,
        ));
        assert(s.last().0 != k);
        assert(entries_map(t).remove(k).insert(s.last().0, s.last().1) =~= entries_map(t).insert(
            s.last().0,
            s.last().1,
        ).remove(k));
    }
}

/// Task-scoped storage for the active backend descriptor: each scope
/// identifier is bound to at most one descriptor, and only the scope that
/// installed a descriptor resolves it.
pub struct ContextRegistry {
    entries: Vec<(u64, RuntimeFlavor)>,
}

impl View for ContextRegistry {
    type V = Map<u64, RuntimeFlavor>;

    closed spec fn view(&self) -> Map<u64, RuntimeFlavor> {
        entries_map(self.entries@)
    }
}

impl ContextRegistry {
    pub closed spec fn wf(self) -> bool {
        entries_unique(self.entries@)
    }

    /// A registry with no active scope.
    pub fn new() -> (r: ContextRegistry)
        ensures
            r.wf(),
            r@ == Map::<u64, RuntimeFlavor>::empty(),
    {
        ContextRegistry { entries: Vec::new() }
    }

    /// Installs `flavor` as the descriptor of scope `scope_id`.
    pub fn install(&mut self, scope_id: u64, flavor: RuntimeFlavor)
        requires
            old(self).wf(),
            !old(self)@.contains_key(scope_id),
        ensures
            final(self).wf(),
            final(self)@ == old(self)@.insert(scope_id, flavor),
    {
        proof {
            lemma_entries_map_domain(self.entries@, scope_id);
        }
        self.entries.push((scope_id, flavor));
        proof {
            assert(self.entries@.drop_last() =~= old(self).entries@);
        }
    }

    /// The descriptor currently installed for scope `scope_id`, if any.
    pub fn current(&self, scope_id: u64) -> (r: Option<RuntimeFlavor>)
        requires
            self.wf(),
        ensures
            match r {
                Some(flavor) => self@.contains_key(scope_id) && self@[scope_id] == flavor,
                None => !self@.contains_key(scope_id),
            },
    {
        let n = self.entries.len();
        let mut i: usize = 0;
        while i < n
            invariant
                self.wf(),
                n == self.entries@.len(),
                0 <= i <= n,
                forall|j: int| 0 <= j < i ==> self.entries@[j].0 != scope_id,
            decreases n - i,
        {
            if self.entries[i].0 == scope_id {
                proof {
                    lemma_entries_map_value(self.entries@, i as int);
                }
                return Some(self.entries[i].1);
            }
            i += 1;
        }
        proof {
            lemma_entries_map_domain(self.entries@, scope_id);
        }
        None
    }

    /// Removes the descriptor of scope `scope_id`; the scope is over.
    pub fn remove(&mut self, scope_id: u64)
        requires
            old(self).wf(),
        ensures
            final(self).wf(),
            final(self)@ == old(self)@.remove(scope_id),
    {
        let n = self.entries.len();
        let mut i: usize = 0;
        while i < n
            invariant
                self.wf(),
                self.entries@ == old(self).entries@,
                n == self.entries@.len(),
                0 <= i <= n,
                forall|j: int| 0 <= j < i ==> self.entries@[j].0 != scope_id,
            decreases n - i,
        {
            if self.entries[i].0 == scope_id {
                proof {
                    lemma_entries_map_remove(self.entries@, i as int);
                }
                let _ = self.entries.remove(i);
                proof {
                    assert forall|a: int, b: int|
                        0 <= a < b < self.entries@.len() implies self.entries@[a].0
                        != self.entries@[b].0 by {
                        let s = old(self).entries@;
                        if a < i {
                            assert(self.entries@[a] == s[a]);
                        } else {
                            assert(self.entries@[a] == s[a + 1]);
                        }
                        if b < i {
                            assert(self.entries@[b] == s[b]);
                        } else {
                            assert(self.entries@[b] == s[b + 1]);
                        }
                    }
                }
                return ;
            }
            i += 1;
        }
        proof {
            lemma_entries_map_domain(self.entries@, scope_id);
            assert(self@.remove(scope_id) =~= self@);
        }
    }
}

/// Resolves a backend name, installs the descriptor for the new scope, and
/// hands the descriptor back; an unknown name changes nothing. The caller
/// runs the scope's task and then ends the scope.
pub fn begin_scope(
    registry: &mut ContextRegistry,
    scope_id: u64,
    runtime_name: &str,
    sandbox_port: u16,
) -> (r: Result<RuntimeFlavor, Error>)
    requires
        old(registry).wf(),
        !old(registry)@.contains_key(scope_id),
    ensures
        final(registry).wf(),
        runtime_name@ == "sandbox"@ ==> r == Ok::<RuntimeFlavor, Error>(
            RuntimeFlavor::Sandbox(sandbox_port),
        ),
        runtime_name@ == "testnet"@ ==> r == Ok::<RuntimeFlavor, Error>(RuntimeFlavor::Testnet),
        runtime_name@ != "sandbox"@ && runtime_name@ != "testnet"@ ==> r == Err::<
            RuntimeFlavor,
            Error,
        >(Error::UnknownRuntime),
        r matches Ok(flavor) ==> final(registry)@ == old(registry)@.insert(scope_id, flavor),
        r is Err ==> final(registry)@ == old(registry)@,
{
    match resolve_runtime(runtime_name, sandbox_port) {
        Ok(flavor) => {
            registry.install(scope_id, flavor);
            Ok(flavor)
        },
        Err(e) => Err(e),
    }
}

/// Tears the scope down: its descriptor is no longer resolvable.
pub fn end_scope(registry: &mut ContextRegistry, scope_id: u64)
    requires
        old(registry).wf(),
    ensures
        final(registry).wf(),
        final(registry)@ == old(registry)@.remove(scope_id),
{
    registry.remove(scope_id);
}

/// Whether the scope's backend is one of the named runtimes.
pub fn assert_within(registry: &ContextRegistry, scope_id: u64, runtimes: &Vec<String>) -> (r:
    bool)
    requires
        registry.wf(),
        registry@.contains_key(scope_id),
    ensures
        r <==> exists|i: int|
            0 <= i < runtimes@.len() && runtimes@[i]@ == registry@[scope_id].name_spec(),
{
    let flavor = match registry.current(scope_id) {
        Some(flavor) => flavor,
        None => vstd::pervasive::unreached(),
    };
    let name = flavor.name();
    let n = runtimes.len();
    let mut i: usize = 0;
    while i < n
        invariant
            n == runtimes@.len(),
            0 <= i <= n,
            flavor == registry@[scope_id],
            name@ == flavor.name_spec(),
            forall|j: int| 0 <= j < i ==> runtimes@[j]@ != flavor.name_spec(),
        decreases n - i,
    {
        if str_eq(runtimes[i].as_str(), name) {
            return true;
        }
        i += 1;
    }
    false
}

/// Law: the descriptor installed for a scope is exactly what every lookup
/// made inside that scope resolves, and once the scope ends the registry is
/// as if the scope had never existed.
pub proof fn lemma_scope_descriptor_lifecycle(
    m: Map<u64, RuntimeFlavor>,
    scope_id: u64,
    flavor: RuntimeFlavor,
)
    requires
        !m.contains_key(scope_id),
    ensures
        m.insert(scope_id, flavor).contains_key(scope_id),
        m.insert(scope_id, flavor)[scope_id] == flavor,
        m.insert(scope_id, flavor).remove(scope_id) == m,
{
    assert(m.insert(scope_id, flavor).remove(scope_id) =~= m);
}

/// Law: two scopes bound to different identifiers never observe each other's
/// descriptor: each resolves exactly the descriptor it installed, whatever
/// the other installed.
pub proof fn lemma_scope_isolation(
    m: Map<u64, RuntimeFlavor>,
    scope_a: u64,
    flavor_a: RuntimeFlavor,
    scope_b: u64,
    flavor_b: RuntimeFlavor,
)
    requires
        scope_a != scope_b,
    ensures
        m.insert(scope_a, flavor_a).insert(scope_b, flavor_b)[scope_a] == flavor_a,
        m.insert(scope_a, flavor_a).insert(scope_b, flavor_b)[scope_b] == flavor_b,
{
}

} // verus!
