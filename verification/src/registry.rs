//! The session registry: a concurrency-safe map (behind one lock in the I/O
//! layer) from request path to session token, with insert-on-create and
//! remove-on-delete. Creating on a path that already has a session is
//! rejected; deleting removes the path, so a second delete finds nothing.
use vstd::prelude::*;

verus! {

/// One registered session: the path it was created under and the token by
/// which the I/O layer finds the session's transport resources.
pub struct SessionRecord {
    pub path: Vec<u8>,
    pub token: u64,
}

/// Registry of live sessions, keyed by request path; each path occurs at most
/// once.
pub struct SessionRegistry {
    records: Vec<SessionRecord>,
}

/// Byte-wise equality of two paths.
pub fn bytes_eq(a: &Vec<u8>, b: &Vec<u8>) -> (r: bool)
    ensures
        r == (a@ == b@),
{
    if a.len() != b.len() {
        return false;
    }
    let mut i: usize = 0;
    while i < a.len()
        invariant
            i <= a.len(),
            a.len() == b.len(),
            forall|j: int| 0 <= j < i ==> a@[j] == b@[j],
        decreases a.len() - i,
    {
        if a[i] != b[i] {
            return false;
        }
        i = i + 1;
    }
    proof {
        assert(a@ =~= b@);
    }
    true
}

impl SessionRegistry {
    /// The registered paths, in insertion order.
    pub closed spec fn paths(self) -> Seq<Seq<u8>> {
        self.records@.map(|i: int, rec: SessionRecord| rec.path@)
    }

    /// Whether a session is registered under `p`.
    pub open spec fn contains_path(self, p: Seq<u8>) -> bool {
        self.paths().contains(p)
    }

    /// Each path occurs at most once.
    pub closed spec fn wf(self) -> bool {
        forall|i: int, j: int|
            0 <= i < j < self.paths().len() ==> self.paths()[i] != self.paths()[j]
    }

    /// An empty registry.
    pub fn new() -> (r: Self)
        ensures
            r.wf(),
            forall|q: Seq<u8>| !r.contains_path(q),
    {
        let r = SessionRegistry { records: Vec::new() };
        proof {
            assert(r.paths() =~= Seq::<Seq<u8>>::empty());
        }
        r
    }

    /// Whether a session is registered under `path`.
    pub fn contains(&self, path: &Vec<u8>) -> (r: bool)
        ensures
            r == self.contains_path(path@),
    {
        let mut i: usize = 0;
        while i < self.records.len()
            invariant
                i <= self.records.len(),
                forall|j: int| 0 <= j < i ==> self.paths()[j] != path@,
            decreases self.records.len() - i,
        {
            if bytes_eq(&self.records[i].path, path) {
                assert(self.paths()[i as int] == path@);
                return true;
            }
            i = i + 1;
        }
        assert(forall|j: int| 0 <= j < self.paths().len() ==> self.paths()[j] != path@);
        false
    }

    /// Registers a session under `path` unless one is already there: creating
    /// on an occupied path is rejected and changes nothing.
    pub fn insert(&mut self, path: Vec<u8>, token: u64) -> (r: bool)
        requires
            old(self).wf(),
        ensures
            final(self).wf(),
            r == !old(self).contains_path(path@),
            final(self).contains_path(path@),
            !r ==> *final(self) == *old(self),
            forall|q: Seq<u8>|
                q != path@ ==> final(self).contains_path(q) == old(self).contains_path(q),
    {
        if self.contains(&path) {
            return false;
        }
        let ghost oldp = self.paths();
        let ghost p = path@;
        self.records.push(SessionRecord { path, token });
        proof {
            assert(self.paths() =~= oldp.push(p));
            assert(self.paths()[oldp.len() as int] == p);
            assert(self.contains_path(p));
            assert forall|q: Seq<u8>| q != p implies self.contains_path(q) == oldp.contains(q) by {
                if self.contains_path(q) {
                    let j = choose|j: int| 0 <= j < self.paths().len() && self.paths()[j] == q;
                    assert(j < oldp.len());
                    assert(oldp[j] == q);
                }
                if oldp.contains(q) {
                    let j = choose|j: int| 0 <= j < oldp.len() && oldp[j] == q;
                    assert(self.paths()[j] == q);
                }
            }
            assert forall|i: int, j: int|
                0 <= i < j < self.paths().len() implies self.paths()[i] != self.paths()[j] by {
                if j < oldp.len() {
                } else {
                    assert(self.paths()[j] == p);
                    assert(oldp[i] != p);
                }
            }
        }
        true
    }

    /// Removes the session under `path`, handing back its token so the caller
    /// can tear the session's resources down; reports `None` when no session
    /// is registered there. Afterwards the path is free: a second remove of
    /// the same path finds nothing.
    pub fn remove(&mut self, path: &Vec<u8>) -> (r: Option<u64>)
        requires
            old(self).wf(),
        ensures
            final(self).wf(),
            remove_post(*old(self), *final(self), path@, r),
    {
        let mut i: usize = 0;
        while i < self.records.len()
            invariant
                i <= self.records.len(),
                *self == *old(self),
                self.wf(),
                forall|j: int| 0 <= j < i ==> self.paths()[j] != path@,
            decreases self.records.len() - i,
        {
            if bytes_eq(&self.records[i].path, path) {
                let ghost oldp = self.paths();
                assert(oldp[i as int] == path@);
                assert(self.contains_path(path@));
                let rec = self.records.remove(i);
                proof {
                    assert(self.paths() =~= oldp.remove(i as int));
                    assert forall|j: int|
                        0 <= j < self.paths().len() implies self.paths()[j] != path@ by {
                        if j < i {
                            assert(self.paths()[j] == oldp[j]);
                        } else {
                            assert(self.paths()[j] == oldp[j + 1]);
                        }
                    }
                    assert(!self.contains_path(path@));
                    assert forall|q: Seq<u8>|
                        q != path@ implies self.contains_path(q) == oldp.contains(q) by {
                        if self.contains_path(q) {
                            let j = choose|j: int|
                                0 <= j < self.paths().len() && self.paths()[j] == q;
                            if j < i {
                                assert(oldp[j] == q);
                            } else {
                                assert(oldp[j + 1] == q);
                            }
                        }
                        if oldp.contains(q) {
                            let j = choose|j: int| 0 <= j < oldp.len() && oldp[j] == q;
                            if j < i {
                                assert(self.paths()[j] == q);
                            } else {
                                assert(j != i);
                                assert(self.paths()[j - 1] == q);
                            }
                        }
                    }
                    assert forall|a: int, b: int|
                        0 <= a < b < self.paths().len() implies self.paths()[a]
                        != self.paths()[b] by {
                        let a0: int = if a < i {
                            a
                        } else {
                            a + 1
                        };
                        let b0: int = if b < i {
                            b
                        } else {
                            b + 1
                        };
                        assert(self.paths()[a] == oldp[a0]);
                        assert(self.paths()[b] == oldp[b0]);
                    }
                }
                return Some(rec.token);
            }
            i = i + 1;
        }
        assert(forall|j: int| 0 <= j < self.paths().len() ==> self.paths()[j] != path@);
        None
    }
}

/// What removing `p` guarantees: the result reports whether a session was
/// there, afterwards none is, and every other path is untouched.
pub open spec fn remove_post(
    pre: SessionRegistry,
    post: SessionRegistry,
    p: Seq<u8>,
    r: Option<u64>,
) -> bool {
    &&& (r is Some <==> pre.contains_path(p))
    &&& !post.contains_path(p)
    &&& forall|q: Seq<u8>| q != p ==> post.contains_path(q) == pre.contains_path(q)
}

/// Deleting a session twice: the first delete removed the path, so the second
/// finds nothing — the service answers the repeated delete with not-found.
pub proof fn lemma_second_delete_finds_nothing(
    pre: SessionRegistry,
    mid: SessionRegistry,
    post: SessionRegistry,
    p: Seq<u8>,
    r1: Option<u64>,
    r2: Option<u64>,
)
    requires
        remove_post(pre, mid, p, r1),
        remove_post(mid, post, p, r2),
    ensures
        r2 is None,
{
}

} // verus!
