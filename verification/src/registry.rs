//! The operation registry: the component that guarantees at most one
//! in-flight operation per operation identity.
//!
//! `try_begin` is a single check-and-reserve step; `complete` releases the
//! identity once the task has terminated. Under concurrent callers the
//! surrounding binary holds the registry behind one mutual-exclusion lock,
//! so every interleaving of calls is some sequence of these steps; the laws
//! below speak about all such sequences.

use vstd::prelude::*;
use crate::text::str_eq;

verus! {

/// The kind of a dispatched operation. Together with an entry identifier it
/// forms the operation identity that deduplication is keyed by.
#[derive(Debug, Clone, Copy, PartialEq, Eq, Structural)]
pub enum OpKind {
    CopyPassword,
    CopyLogin,
    CopyOtp,
    FetchOtp,
    FetchEntry,
}

/// An operation identity: `(operation kind, entry identifier)`. Uniqueness of
/// this key across concurrently running tasks is the central invariant.
#[derive(Debug)]
pub struct OpId {
    pub kind: OpKind,
    pub pass_id: String,
}

impl View for OpId {
    type V = (OpKind, Seq<char>);

    open spec fn view(&self) -> (OpKind, Seq<char>) {
        (self.kind, self.pass_id@)
    }
}

impl OpId {
    pub fn new(kind: OpKind, pass_id: String) -> (r: Self)
        ensures
            r@ == (kind, pass_id@),
    {
        OpId { kind, pass_id }
    }

    /// A copy naming the same identity.
    pub fn duplicate(&self) -> (r: Self)
        ensures
            r@ == self@,
    {
        OpId { kind: self.kind, pass_id: self.pass_id.clone() }
    }

    fn same_identity(&self, other: &OpId) -> (r: bool)
        ensures
            r == (self@ == other@),
    {
        self.kind == other.kind && str_eq(self.pass_id.as_str(), other.pass_id.as_str())
    }
}

/// Whether a begin on `id` is granted in registry state `s`.
pub open spec fn begin_granted(s: Set<(OpKind, Seq<char>)>, id: (OpKind, Seq<char>)) -> bool {
    !s.contains(id)
}

/// The registry state after one `try_begin(id)`.
pub open spec fn after_begin(
    s: Set<(OpKind, Seq<char>)>,
    id: (OpKind, Seq<char>),
) -> Set<(OpKind, Seq<char>)> {
    if s.contains(id) {
        s
    } else {
        s.insert(id)
    }
}

/// The registry state after one `complete(id)`.
pub open spec fn after_complete(
    s: Set<(OpKind, Seq<char>)>,
    id: (OpKind, Seq<char>),
) -> Set<(OpKind, Seq<char>)> {
    s.remove(id)
}

/// The set of identities with a live operation handle. At most one handle
/// exists per identity at any instant; `try_begin` reserves, `complete`
/// releases.
pub struct Registry {
    running: Vec<OpId>,
}

impl View for Registry {
    type V = Set<(OpKind, Seq<char>)>;

    closed spec fn view(&self) -> Set<(OpKind, Seq<char>)> {
        Set::new(
            |p: (OpKind, Seq<char>)|
                exists|i: int| 0 <= i < self.running@.len() && #[trigger] self.running@[i]@ == p,
        )
    }
}

impl Registry {
    /// Well-formedness: no identity is recorded twice.
    pub closed spec fn distinct(&self) -> bool {
        forall|i: int, j: int|
            0 <= i < j < self.running@.len() ==> #[trigger] self.running@[i]@
                != #[trigger] self.running@[j]@
    }

    /// An empty registry: nothing is running.
    pub fn new() -> (r: Self)
        ensures
            r@ == Set::<(OpKind, Seq<char>)>::empty(),
            r.distinct(),
    {
        let r = Registry { running: Vec::new() };
        proof {
            assert(r@ =~= Set::<(OpKind, Seq<char>)>::empty());
        }
        r
    }

    fn position_of(&self, id: &OpId) -> (r: Option<usize>)
        ensures
            match r {
                Some(i) => i < self.running@.len() && self.running@[i as int]@ == id@,
                None => !self@.contains(id@),
            },
    {
        let n = self.running.len();
        let mut i: usize = 0;
        while i < n
            invariant
                i <= n,
                n == self.running@.len(),
                forall|j: int| 0 <= j < i ==> #[trigger] self.running@[j]@ != id@,
            decreases n - i,
        {
            if self.running[i].same_identity(id) {
                return Some(i);
            }
            i = i + 1;
        }
        None
    }

    /// Atomically checks and reserves: grants the begin exactly when no
    /// operation with this identity is running, and then records the
    /// identity. A denied begin changes nothing.
    pub fn try_begin(&mut self, id: OpId) -> (r: bool)
        requires
            old(self).distinct(),
        ensures
            r == begin_granted(old(self)@, id@),
            final(self)@ == after_begin(old(self)@, id@),
            final(self).distinct(),
    {
        match self.position_of(&id) {
            Some(_) => {
                proof {
                    assert(self@.contains(id@));
                }
                false
            },
            None => {
                let ghost rold = self.running@;
                let ghost idv = id@;
                self.running.push(id);
                proof {
                    assert forall|j: int| 0 <= j < rold.len()
                        implies #[trigger] self.running@[j]@ != idv by {
                        assert(Set::new(
                            |p: (OpKind, Seq<char>)|
                                exists|i: int|
                                    0 <= i < rold.len() && #[trigger] rold[i]@ == p,
                        ).contains(rold[j]@));
                    }
                    assert(self@ =~= Set::new(
                        |p: (OpKind, Seq<char>)|
                            exists|i: int| 0 <= i < rold.len() && #[trigger] rold[i]@ == p,
                    ).insert(idv)) by {
                        assert forall|p: (OpKind, Seq<char>)| self@.contains(p) implies (
                            Set::new(
                                |q: (OpKind, Seq<char>)|
                                    exists|i: int|
                                        0 <= i < rold.len() && #[trigger] rold[i]@ == q,
                            ).insert(idv).contains(p)
                        ) by {
                            let i = choose|i: int|
                                0 <= i < self.running@.len() && #[trigger] self.running@[i]@ == p;
                            if i < rold.len() {
                                assert(rold[i]@ == p);
                            }
                        }
                        assert forall|p: (OpKind, Seq<char>)|
                            Set::new(
                                |q: (OpKind, Seq<char>)|
                                    exists|i: int|
                                        0 <= i < rold.len() && #[trigger] rold[i]@ == q,
                            ).insert(idv).contains(p) implies self@.contains(p) by {
                            if p == idv {
                                assert(self.running@[rold.len() as int]@ == p);
                            } else {
                                let i = choose|i: int|
                                    0 <= i < rold.len() && #[trigger] rold[i]@ == p;
                                assert(self.running@[i]@ == p);
                            }
                        }
                    }
                }
                true
            },
        }
    }

    /// Releases an identity once its task has terminated, making future
    /// begins on it grantable again. Releasing an absent identity changes
    /// nothing.
    pub fn complete(&mut self, id: &OpId)
        requires
            old(self).distinct(),
        ensures
            final(self)@ == after_complete(old(self)@, id@),
            final(self).distinct(),
    {
        match self.position_of(id) {
            Some(i) => {
                let ghost rold = self.running@;
                let ghost idv = id@;
                self.running.remove(i);
                proof {
                    assert forall|p: (OpKind, Seq<char>)| self@.contains(p)
                        implies after_complete(
                        Set::new(
                            |q: (OpKind, Seq<char>)|
                                exists|k: int|
                                    0 <= k < rold.len() && #[trigger] rold[k]@ == q,
                        ),
                        idv,
                    ).contains(p) by {
                        let k = choose|k: int|
                            0 <= k < self.running@.len() && #[trigger] self.running@[k]@ == p;
                        if k < i {
                            assert(rold[k]@ == p);
                            assert(rold[i as int]@ == idv);
                        } else {
                            assert(rold[k + 1]@ == p);
                            assert(rold[i as int]@ == idv);
                        }
                    }
                    assert forall|p: (OpKind, Seq<char>)|
                        after_complete(
                            Set::new(
                                |q: (OpKind, Seq<char>)|
                                    exists|k: int|
                                        0 <= k < rold.len() && #[trigger] rold[k]@ == q,
                            ),
                            idv,
                        ).contains(p) implies self@.contains(p) by {
                        let k = choose|k: int| 0 <= k < rold.len() && #[trigger] rold[k]@ == p;
                        if k < i {
                            assert(self.running@[k]@ == p);
                        } else if k > i {
                            assert(self.running@[k - 1]@ == p);
                        }
                    }
                    assert(self@ =~= after_complete(
                        Set::new(
                            |q: (OpKind, Seq<char>)|
                                exists|k: int|
                                    0 <= k < rold.len() && #[trigger] rold[k]@ == q,
                        ),
                        idv,
                    ));
                }
            },
            None => {
                proof {
                    assert(self@ =~= after_complete(self@, id@));
                }
            },
        }
    }
}

/// Two rapid begins on one identity, before any complete, grant exactly the
/// first: one caller sees `true`, the other `false`.
pub proof fn lemma_begin_twice(s: Set<(OpKind, Seq<char>)>, id: (OpKind, Seq<char>))
    requires
        begin_granted(s, id),
    ensures
        !begin_granted(after_begin(s, id), id),
{
}

/// After a complete, a fresh begin on the same identity is granted again.
pub proof fn lemma_complete_unblocks(s: Set<(OpKind, Seq<char>)>, id: (OpKind, Seq<char>))
    ensures
        begin_granted(after_complete(s, id), id),
{
}

/// How many of `n` successive begins on `id` are granted, starting from
/// state `s`, with no complete in between.
pub open spec fn granted_count(s: Set<(OpKind, Seq<char>)>, id: (OpKind, Seq<char>), n: nat) -> nat
    decreases n,
{
    if n == 0 {
        0
    } else {
        (if begin_granted(s, id) {
            1nat
        } else {
            0nat
        }) + granted_count(after_begin(s, id), id, (n - 1) as nat)
    }
}

proof fn lemma_granted_none_while_running(
    s: Set<(OpKind, Seq<char>)>,
    id: (OpKind, Seq<char>),
    n: nat,
)
    requires
        s.contains(id),
    ensures
        granted_count(s, id, n) == 0,
    decreases n,
{
    if n > 0 {
        lemma_granted_none_while_running(after_begin(s, id), id, (n - 1) as nat);
    }
}

/// Any number of concurrent requests for one identity — serialized by the
/// registry's lock into `n` successive begins with no complete in between —
/// grant exactly one begin, so exactly one underlying task is launched.
pub proof fn lemma_granted_once(s: Set<(OpKind, Seq<char>)>, id: (OpKind, Seq<char>), n: nat)
    requires
        !s.contains(id),
        n >= 1,
    ensures
        granted_count(s, id, n) == 1,
{
    lemma_granted_none_while_running(after_begin(s, id), id, (n - 1) as nat);
}

} // verus!
