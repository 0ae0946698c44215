//! Which connection speaks for a device. A new connection replaces the old
//! one, and an old connection can never remove, or answer for, the new one.
use vstd::prelude::*;
use crate::text::string_eq;

verus! {

/// The live session of each connected device: device id and session id.
pub struct Connections {
    entries: Vec<(String, String)>,
}

impl Connections {
    /// The sessions by device.
    pub closed spec fn view(&self) -> Map<Seq<char>, Seq<char>> {
        Map::new(
            |d: Seq<char>| exists|i: int| 0 <= i < self.entries@.len() && self.entries@[i].0@ == d,
            |d: Seq<char>|
                self.entries@[choose|i: int| 0 <= i < self.entries@.len() && self.entries@[i].0@ == d].1@,
        )
    }

    /// No device has two entries.
    pub closed spec fn wf(&self) -> bool {
        forall|i: int, j: int|
            0 <= i < j < self.entries@.len() ==> self.entries@[i].0@ != self.entries@[j].0@
    }

    proof fn lemma_view_at(&self, i: int)
        requires
            self.wf(),
            0 <= i < self.entries@.len(),
        ensures
            self.view().dom().contains(self.entries@[i].0@),
            self.view()[self.entries@[i].0@] == self.entries@[i].1@,
    {
        let d = self.entries@[i].0@;
        let k = choose|k: int| 0 <= k < self.entries@.len() && self.entries@[k].0@ == d;
        assert(0 <= k < self.entries@.len() && self.entries@[k].0@ == d);
        if k != i {
            if k < i {
                assert(self.entries@[k].0@ != self.entries@[i].0@);
            } else {
                assert(self.entries@[i].0@ != self.entries@[k].0@);
            }
        }
    }

    pub fn new() -> (r: Connections)
        ensures
            r.wf(),
            r.view() == Map::<Seq<char>, Seq<char>>::empty(),
    {
        let r = Connections { entries: Vec::new() };
        assert(r.view() =~= Map::<Seq<char>, Seq<char>>::empty());
        r
    }

    fn find(&self, device: &str) -> (r: Option<usize>)
        requires
            self.wf(),
        ensures
            match r {
                Some(i) => i < self.entries@.len() && self.entries@[i as int].0@ == device@,
                None => !self.view().dom().contains(device@),
            },
    {
        let mut i: usize = 0;
        while i < self.entries.len()
            invariant
                i <= self.entries@.len(),
                forall|j: int| 0 <= j < i ==> self.entries@[j].0@ != device@,
            decreases self.entries@.len() - i,
        {
            if crate::text::str_eq(self.entries[i].0.as_str(), device) {
                return Some(i);
            }
            i = i + 1;
        }
        None
    }

    /// The session of a device, where it is connected.
    pub fn get(&self, device: &str) -> (r: Option<String>)
        requires
            self.wf(),
        ensures
            match r {
                Some(s) => self.view().dom().contains(device@) && self.view()[device@] == s@,
                None => !self.view().dom().contains(device@),
            },
    {
        match self.find(device) {
            Some(i) => {
                proof {
                    self.lemma_view_at(i as int);
                }
                Some(self.entries[i].1.clone())
            },
            None => None,
        }
    }

    /// Makes `session` the device's session, replacing any other.
    pub fn register(&mut self, device: &str, session: &str)
        requires
            old(self).wf(),
        ensures
            final(self).wf(),
            final(self).view() == old(self).view().insert(device@, session@),
    {
        let ghost before = self.view();
        match self.find(device) {
            Some(i) => {
                let entry = (self.entries[i].0.clone(), session.to_owned());
                let ghost olde = self.entries@;
                self.entries.set(i, entry);
                proof {
                    assert forall|a: int, b: int|
                        0 <= a < b < self.entries@.len() implies self.entries@[a].0@
                        != self.entries@[b].0@ by {
                        if a == i as int {
                            assert(olde[b].0@ != olde[i as int].0@ || b == i as int);
                        }
                        if b == i as int {
                            assert(olde[a].0@ != olde[i as int].0@);
                        }
                    }
                    assert forall|d: Seq<char>| #[trigger] self.view().dom().contains(d) <==> before.insert(device@, session@).dom().contains(d) by {
                        if self.view().dom().contains(d) {
                            let k = choose|k: int| 0 <= k < self.entries@.len() && self.entries@[k].0@ == d;
                            if k != i as int {
                                assert(olde[k] == self.entries@[k]);
                            }
                        }
                        if before.dom().contains(d) {
                            let k = choose|k: int| 0 <= k < olde.len() && olde[k].0@ == d;
                            assert(self.entries@[k].0@ == d);
                        }
                        if d == device@ {
                            assert(self.entries@[i as int].0@ == d);
                        }
                    }
                    assert forall|d: Seq<char>| #[trigger] self.view().dom().contains(d) implies self.view()[d] == before.insert(device@, session@)[d] by {
                        let k = choose|k: int| 0 <= k < self.entries@.len() && self.entries@[k].0@ == d;
                        self.lemma_view_at(k);
                        if k != i as int {
                            assert(olde[k] == self.entries@[k]);
                            assert(olde[k].0@ != device@);
                        }
                    }
                    assert(self.view() =~= before.insert(device@, session@));
                }
            },
            None => {
                let ghost olde = self.entries@;
                self.entries.push((device.to_owned(), session.to_owned()));
                proof {
                    let n = olde.len() as int;
                    assert forall|a: int, b: int|
                        0 <= a < b < self.entries@.len() implies self.entries@[a].0@
                        != self.entries@[b].0@ by {
                        if b == n {
                            assert(olde[a] == self.entries@[a]);
                            assert(!before.dom().contains(device@));
                        }
                    }
                    assert forall|d: Seq<char>| #[trigger] self.view().dom().contains(d) <==> before.insert(device@, session@).dom().contains(d) by {
                        if self.view().dom().contains(d) {
                            let k = choose|k: int| 0 <= k < self.entries@.len() && self.entries@[k].0@ == d;
                            if k < n {
                                assert(olde[k] == self.entries@[k]);
                            }
                        }
                        if before.dom().contains(d) {
                            let k = choose|k: int| 0 <= k < olde.len() && olde[k].0@ == d;
                            assert(self.entries@[k] == olde[k]);
                        }
                        if d == device@ {
                            assert(self.entries@[n].0@ == d);
                        }
                    }
                    assert forall|d: Seq<char>| #[trigger] self.view().dom().contains(d) implies self.view()[d] == before.insert(device@, session@)[d] by {
                        let k = choose|k: int| 0 <= k < self.entries@.len() && self.entries@[k].0@ == d;
                        self.lemma_view_at(k);
                        if k < n {
                            assert(olde[k] == self.entries@[k]);
                            assert(olde[k].0@ != device@);
                        }
                    }
                    assert(self.view() =~= before.insert(device@, session@));
                }
            },
        }
    }

    /// Forgets the device's session, but only where it is still `session`:
    /// a closing old connection leaves a newer one in place.
    pub fn remove(&mut self, device: &str, session: &str)
        requires
            old(self).wf(),
        ensures
            final(self).wf(),
            (old(self).view().dom().contains(device@) && old(self).view()[device@] == session@)
                ==> final(self).view() == old(self).view().remove(device@),
            !(old(self).view().dom().contains(device@) && old(self).view()[device@] == session@)
                ==> final(self).view() == old(self).view(),
    {
        let ghost before = self.view();
        match self.find(device) {
            Some(i) => {
                proof {
                    self.lemma_view_at(i as int);
                }
                if crate::text::str_eq(self.entries[i].1.as_str(), session) {
                    let ghost olde = self.entries@;
                    self.entries.remove(i);
                    proof {
                        assert forall|a: int, b: int|
                            0 <= a < b < self.entries@.len() implies self.entries@[a].0@
                            != self.entries@[b].0@ by {
                            let oa = if a < i { a } else { a + 1 };
                            let ob = if b < i { b } else { b + 1 };
                            assert(self.entries@[a] == olde[oa]);
                            assert(self.entries@[b] == olde[ob]);
                        }
                        assert forall|d: Seq<char>| #[trigger] self.view().dom().contains(d) <==> before.remove(device@).dom().contains(d) by {
                            if self.view().dom().contains(d) {
                                let k = choose|k: int| 0 <= k < self.entries@.len() && self.entries@[k].0@ == d;
                                let ok = if k < i { k } else { k + 1 };
                                assert(self.entries@[k] == olde[ok]);
                                assert(olde[ok].0@ != olde[i as int].0@);
                            }
                            if before.dom().contains(d) && d != device@ {
                                let k = choose|k: int| 0 <= k < olde.len() && olde[k].0@ == d;
                                if k < i {
                                    assert(self.entries@[k] == olde[k]);
                                } else {
                                    assert(k != i as int);
                                    assert(self.entries@[k - 1] == olde[k]);
                                }
                            }
                        }
                        assert forall|d: Seq<char>| #[trigger] self.view().dom().contains(d) implies self.view()[d] == before.remove(device@)[d] by {
                            let k = choose|k: int| 0 <= k < self.entries@.len() && self.entries@[k].0@ == d;
                            self.lemma_view_at(k);
                            let ok = if k < i { k } else { k + 1 };
                            assert(self.entries@[k] == olde[ok]);
                            assert(olde[ok].0@ != olde[i as int].0@);
                        }
                        assert(self.view() =~= before.remove(device@));
                    }
                }
            },
            None => {},
        }
    }
}

/// A stale connection cannot unseat a new one: after a device reconnects
/// with a new session, the old session's closing leaves the new session in
/// place.
pub proof fn lemma_stale_close_keeps_new_session(
    m: Map<Seq<char>, Seq<char>>,
    device: Seq<char>,
    old_session: Seq<char>,
    new_session: Seq<char>,
)
    requires
        old_session != new_session,
    ensures
        ({
            let after = m.insert(device, new_session);
            after.dom().contains(device) && after[device] == new_session && !(after[device]
                == old_session)
        }),
{
}

} // verus!
