//! The connection registry: which live connection each user identity is
//! reached through.
use vstd::prelude::*;
use crate::message::{Delivery, deliveries_view};
use crate::text::same_text;

verus! {

/// Identifies one accepted socket connection, and through it the handle
/// that frames for that socket are pushed to.
pub type ConnectionId = u32;

struct Entry {
    user: String,
    conn: ConnectionId,
}

/// Mapping from user identity to the connection registered for it; at most
/// one connection per identity.
pub struct Registry {
    entries: Vec<Entry>,
    model: Ghost<Map<Seq<char>, ConnectionId>>,
}

/// `ds` delivers `frame` exactly once to each user of `m`, through the
/// connection that `m` holds for that user, and to nobody else.
pub open spec fn reaches_all(
    m: Map<Seq<char>, ConnectionId>,
    ds: Seq<(Seq<char>, u32, Seq<char>)>,
    frame: Seq<char>,
) -> bool {
    &&& forall|i: int|
        0 <= i < ds.len() ==> {
            &&& m.contains_key(#[trigger] ds[i].0)
            &&& m[ds[i].0] == ds[i].1
            &&& ds[i].2 == frame
        }
    &&& forall|k: Seq<char>| m.contains_key(k) ==> exists|i: int| 0 <= i < ds.len() && #[trigger] ds[i].0 == k
    &&& forall|i: int, j: int| 0 <= i < j < ds.len() ==> ds[i].0 != ds[j].0
}

impl View for Registry {
    type V = Map<Seq<char>, ConnectionId>;

    closed spec fn view(&self) -> Map<Seq<char>, ConnectionId> {
        self.model@
    }
}

impl Registry {
    /// The entries hold each user at most once and are exactly the model.
    pub closed spec fn wf(&self) -> bool {
        &&& forall|i: int|
            0 <= i < self.entries@.len() ==> {
                &&& self.model@.contains_key(#[trigger] self.entries@[i].user@)
                &&& self.model@[self.entries@[i].user@] == self.entries@[i].conn
            }
        &&& forall|k: Seq<char>|
            #[trigger] self.model@.contains_key(k) ==> exists|i: int|
                0 <= i < self.entries@.len() && #[trigger] self.entries@[i].user@ == k
        &&& forall|i: int, j: int|
            0 <= i < j < self.entries@.len() ==> self.entries@[i].user@ != self.entries@[j].user@
    }

    /// An empty registry.
    pub fn new() -> (r: Registry)
        ensures
            r.wf(),
            r@ == Map::<Seq<char>, ConnectionId>::empty(),
    {
        Registry { entries: Vec::new(), model: Ghost(Map::empty()) }
    }

    /// Position of `id` among the entries, if it is there.
    fn find(&self, id: &str) -> (r: Option<usize>)
        requires
            self.wf(),
        ensures
            match r {
                Some(i) => i < self.entries@.len() && self.entries@[i as int].user@ == id@,
                None => !self@.contains_key(id@),
            },
    {
        let mut i: usize = 0;
        while i < self.entries.len()
            invariant
                self.wf(),
                i <= self.entries@.len(),
                forall|j: int| 0 <= j < i ==> self.entries@[j].user@ != id@,
            decreases self.entries@.len() - i,
        {
            if same_text(self.entries[i].user.as_str(), id) {
                return Some(i);
            }
            i = i + 1;
        }
        None
    }

    /// Registers `conn` for `id`, replacing any connection registered for it.
    pub fn register(&mut self, id: &str, conn: ConnectionId)
        requires
            old(self).wf(),
        ensures
            final(self).wf(),
            final(self)@ == old(self)@.insert(id@, conn),
    {
        let ghost m0 = self.model@;
        match self.find(id) {
            Some(i) => {
                self.entries.set(i, Entry { user: String::from_str(id), conn });
                self.model = Ghost(m0.insert(id@, conn));
                assert forall|k: Seq<char>| #[trigger] self.model@.contains_key(k) implies exists|
                    j: int,
                | 0 <= j < self.entries@.len() && #[trigger] self.entries@[j].user@ == k by {
                    if k != id@ {
                        let j = choose|j: int|
                            0 <= j < self.entries@.len() && #[trigger] old(self).entries@[j].user@
                                == k;
                        assert(self.entries@[j].user@ == k);
                    } else {
                        assert(self.entries@[i as int].user@ == k);
                    }
                }
            },
            None => {
                self.entries.push(Entry { user: String::from_str(id), conn });
                self.model = Ghost(m0.insert(id@, conn));
                let ghost n = self.entries@.len() - 1;
                assert forall|k: Seq<char>| #[trigger] self.model@.contains_key(k) implies exists|
                    j: int,
                | 0 <= j < self.entries@.len() && #[trigger] self.entries@[j].user@ == k by {
                    if k != id@ {
                        let j = choose|j: int|
                            0 <= j < old(self).entries@.len() && #[trigger] old(
                                self,
                            ).entries@[j].user@ == k;
                        assert(self.entries@[j].user@ == k);
                    } else {
                        assert(self.entries@[n].user@ == k);
                    }
                }
            },
        }
    }

    /// The connection registered for `id`, if any.
    pub fn lookup(&self, id: &str) -> (r: Option<ConnectionId>)
        requires
            self.wf(),
        ensures
            r == (if self@.contains_key(id@) {
                Some(self@[id@])
            } else {
                None
            }),
    {
        match self.find(id) {
            Some(i) => Some(self.entries[i].conn),
            None => None,
        }
    }

    /// Number of registered users.
    pub fn len(&self) -> (r: usize)
        requires
            self.wf(),
        ensures
            r == self@.dom().len(),
    {
        proof {
            self.lemma_dom_len();
        }
        self.entries.len()
    }

    proof fn lemma_dom_len(&self)
        requires
            self.wf(),
        ensures
            self@.dom().finite(),
            self@.dom().len() == self.entries@.len(),
    {
        let users = self.entries@.map_values(|e: Entry| e.user@);
        assert(users.no_duplicates());
        assert forall|k: Seq<char>| self@.dom().contains(k) implies users.to_set().contains(k) by {
            let j = choose|j: int|
                0 <= j < self.entries@.len() && #[trigger] self.entries@[j].user@ == k;
            assert(users[j] == k);
        }
        assert forall|k: Seq<char>| users.to_set().contains(k) implies self@.dom().contains(k) by {
            let j = choose|j: int| 0 <= j < users.len() && users[j] == k;
            assert(self.entries@[j].user@ == k);
        }
        assert(self@.dom() =~= users.to_set());
        users.unique_seq_to_set();
    }

    /// `frame` addressed to the connection of every registered user.
    pub fn broadcast_all(&self, frame: &str) -> (r: Vec<Delivery>)
        requires
            self.wf(),
        ensures
            reaches_all(self@, deliveries_view(r@), frame@),
    {
        let mut out: Vec<Delivery> = Vec::new();
        let mut i: usize = 0;
        while i < self.entries.len()
            invariant
                self.wf(),
                i <= self.entries@.len(),
                out@.len() == i,
                forall|j: int|
                    0 <= j < i ==> (#[trigger] out@[j])@ == (
                        self.entries@[j].user@,
                        self.entries@[j].conn,
                        frame@,
                    ),
            decreases self.entries@.len() - i,
        {
            let d = Delivery {
                user: self.entries[i].user.clone(),
                conn: self.entries[i].conn,
                frame: String::from_str(frame),
            };
            out.push(d);
            i = i + 1;
        }
        let ghost ds = deliveries_view(out@);
        assert forall|k: Seq<char>| self@.contains_key(k) implies exists|j: int|
            0 <= j < ds.len() && #[trigger] ds[j].0 == k by {
            let j = choose|j: int|
                0 <= j < self.entries@.len() && #[trigger] self.entries@[j].user@ == k;
            assert(ds[j].0 == k);
        }
        out
    }
}

} // verus!
