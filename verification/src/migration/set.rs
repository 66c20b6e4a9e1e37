//! Migration scripts and the ordered set they form.

use vstd::prelude::*;

verus! {

/// One schema change: its version, a name for logs, and the SQL to run.
#[derive(Debug)]
pub struct MigrationScript {
    pub version: u32,
    pub name: String,
    pub sql: String,
}

/// Versions rise strictly from each script to the next.
pub open spec fn ascending(scripts: Seq<MigrationScript>) -> bool {
    forall|i: int, j: int| 0 <= i < j < scripts.len() ==> scripts[i].version < scripts[j].version
}

/// No two scripts carry the same version.
pub open spec fn distinct_versions(scripts: Seq<MigrationScript>) -> bool {
    forall|i: int, j: int|
        0 <= i < j < scripts.len() ==> scripts[i].version != scripts[j].version
}

/// Two sequences that hold the same elements as often as each other hold
/// the same elements.
proof fn lemma_same_members<A>(left: Seq<A>, right: Seq<A>, element: A)
    requires
        left.to_multiset() == right.to_multiset(),
        left.contains(element),
    ensures
        right.contains(element),
{
    vstd::seq_lib::to_multiset_contains(left, element);
    vstd::seq_lib::to_multiset_contains(right, element);
}

/// Why a collection of scripts is no migration set.
#[derive(Clone, Copy, Debug, PartialEq, Eq, Structural)]
pub enum MigrationSetError {
    /// Two scripts claim this version.
    DuplicateVersion { version: u32 },
}

/// The scripts of a schema, in ascending order of version.
#[derive(Debug)]
pub struct MigrationSet {
    scripts: Vec<MigrationScript>,
}

impl View for MigrationSet {
    type V = Seq<MigrationScript>;

    closed spec fn view(&self) -> Seq<MigrationScript> {
        self.scripts@
    }
}

impl MigrationSet {
    #[verifier::type_invariant]
    spec fn ordered(self) -> bool {
        ascending(self.scripts@)
    }

    /// Sorts the scripts by version. The set holds exactly the scripts given,
    /// each once; two scripts of one version are refused.
    pub fn new(scripts: Vec<MigrationScript>) -> (r: Result<Self, MigrationSetError>)
        ensures
            r is Ok <==> distinct_versions(scripts@),
            r matches Ok(set) ==> ascending(set@) && set@.to_multiset() == scripts@.to_multiset(),
            r matches Err(MigrationSetError::DuplicateVersion { version }) ==> exists|
                i: int,
                j: int,
            |
                0 <= i < j < scripts.len() && #[trigger] scripts[i].version == version
                    && #[trigger] scripts[j].version == version,
    {
        let ghost given = scripts@;
        let mut rest = scripts;
        let mut sorted: Vec<MigrationScript> = Vec::new();
        proof {
            assert(given.skip(given.len() as int) =~= sorted@);
            assert(rest@ =~= given.take(given.len() as int));
        }
        while rest.len() > 0
            invariant
                given == scripts@,
                ascending(sorted@),
                rest@ == given.take(rest.len() as int),
                rest.len() <= given.len(),
                sorted@.to_multiset() == given.skip(rest.len() as int).to_multiset(),
                distinct_versions(given.skip(rest.len() as int)),
            decreases rest.len(),
        {
            let ghost done = given.skip(rest.len() as int);
            let script = rest.pop().unwrap();
            let ghost at = rest.len() as int;
            let ghost widened = given.skip(at);
            proof {
                assert(script == given[at]);
                assert(widened =~= done.insert(0, script));
                assert(rest@ =~= given.take(at));
            }
            let mut position: usize = 0;
            while position < sorted.len() && sorted[position].version < script.version
                invariant
                    position <= sorted.len(),
                    ascending(sorted@),
                    forall|i: int| 0 <= i < position ==> sorted[i].version < script.version,
                decreases sorted.len() - position,
            {
                position += 1;
            }
            if position < sorted.len() && sorted[position].version == script.version {
                proof {
                    let twin = sorted[position as int];
                    assert(sorted@.contains(twin));
                    lemma_same_members(sorted@, done, twin);
                    let offset = choose|k: int| 0 <= k < done.len() && done[k] == twin;
                    let later = at + 1 + offset;
                    assert(given[later] == twin);
                    assert(scripts[at].version == script.version && scripts[later].version
                        == script.version);
                }
                return Err(MigrationSetError::DuplicateVersion { version: script.version });
            }
            proof {
                assert forall|k: int| 0 <= k < done.len() implies done[k].version
                    != script.version by {
                    let other = done[k];
                    assert(done.contains(other));
                    lemma_same_members(done, sorted@, other);
                    let place = choose|p: int| 0 <= p < sorted.len() && sorted[p] == other;
                    if place > position {
                        assert(sorted[position as int].version < sorted[place].version);
                    }
                }
                assert forall|i: int, j: int| 0 <= i < j < widened.len() implies widened[i].version
                    != widened[j].version by {
                    if i == 0 {
                        assert(widened[j] == done[j - 1]);
                    } else {
                        assert(widened[i] == done[i - 1]);
                        assert(widened[j] == done[j - 1]);
                    }
                }
            }
            let ghost earlier = sorted@;
            sorted.insert(position, script);
            proof {
                let grown = sorted@;
                vstd::seq_lib::to_multiset_insert(earlier, position as int, script);
                vstd::seq_lib::to_multiset_insert(done, 0, script);
                assert forall|i: int, j: int| 0 <= i < j < grown.len() implies grown[i].version
                    < grown[j].version by {
                    if j < position {
                    } else if j == position {
                    } else if i < position {
                        assert(grown[j] == earlier[j - 1]);
                    } else if i == position {
                        assert(grown[j] == earlier[j - 1]);
                    } else {
                        assert(grown[i] == earlier[i - 1]);
                        assert(grown[j] == earlier[j - 1]);
                    }
                }
            }
        }
        proof {
            assert(given.skip(0) =~= given);
        }
        Ok(Self { scripts: sorted })
    }

    pub fn len(&self) -> (r: usize)
        ensures
            r == self@.len(),
    {
        self.scripts.len()
    }

    /// The script at `index` in ascending order, if there is one.
    pub fn get(&self, index: usize) -> (r: Option<&MigrationScript>)
        ensures
            ascending(self@),
            index < self@.len() ==> r == Some(&self@[index as int]),
            index >= self@.len() ==> r is None,
    {
        proof {
            use_type_invariant(self);
        }
        if index < self.scripts.len() {
            Some(&self.scripts[index])
        } else {
            None
        }
    }

    /// Hands the scripts out, in ascending order.
    pub fn into_scripts(self) -> (r: Vec<MigrationScript>)
        ensures
            r@ == self@,
            ascending(r@),
    {
        proof {
            use_type_invariant(&self);
        }
        self.scripts
    }
}

} // verus!
