//! The connection registry: connection id to record, ids unique. It also
//! carries the count of control records, which the concurrency cap bounds.
use vstd::prelude::*;

use crate::records::Conn;

verus! {

/// The record stored under `id`, first match.
pub open spec fn spec_get(s: Seq<(u64, Conn)>, id: u64) -> Option<Conn>
    decreases s.len(),
{
    if s.len() == 0 {
        None
    } else if s[0].0 == id {
        Some(s[0].1)
    } else {
        spec_get(s.drop_first(), id)
    }
}

/// Every id at most once.
pub open spec fn unique_ids(s: Seq<(u64, Conn)>) -> bool {
    forall|i: int, j: int| 0 <= i < j < s.len() ==> s[i].0 != s[j].0
}

/// How many control records there are.
pub open spec fn count_controls(s: Seq<(u64, Conn)>) -> nat
    decreases s.len(),
{
    if s.len() == 0 {
        0
    } else {
        (if s[0].1 is Control {
            1nat
        } else {
            0nat
        }) + count_controls(s.drop_first())
    }
}

pub proof fn lemma_get_none(s: Seq<(u64, Conn)>, id: u64)
    ensures
        (spec_get(s, id) is None) <==> (forall|i: int| 0 <= i < s.len() ==> s[i].0 != id),
    decreases s.len(),
{
    if s.len() > 0 {
        lemma_get_none(s.drop_first(), id);
        if s[0].0 != id && spec_get(s.drop_first(), id) is None {
            assert forall|i: int| 0 <= i < s.len() implies s[i].0 != id by {
                if i > 0 {
                    assert(s.drop_first()[i - 1].0 != id);
                }
            }
        }
        if spec_get(s, id) is Some && s[0].0 != id {
            let k = choose|k: int|
                0 <= k < s.drop_first().len() && s.drop_first()[k].0 == id;
            assert(s[k + 1].0 == id);
        }
    }
}

/// With unique ids, the entry at any index is what lookup finds.
pub proof fn lemma_get_at(s: Seq<(u64, Conn)>, i: int)
    requires
        unique_ids(s),
        0 <= i < s.len(),
    ensures
        spec_get(s, s[i].0) == Some(s[i].1),
    decreases s.len(),
{
    if i == 0 {
    } else {
        assert(s[0].0 != s[i].0);
        assert(unique_ids(s.drop_first())) by {
            assert forall|x: int, y: int|
                0 <= x < y < s.drop_first().len() implies s.drop_first()[x].0
                != s.drop_first()[y].0 by {
                assert(s[x + 1].0 != s[y + 1].0);
            }
        }
        lemma_get_at(s.drop_first(), i - 1);
    }
}

/// Removing index `i` removes exactly that entry: lookups of other ids are
/// unchanged, the removed id is gone, and the control count drops by the
/// removed record's contribution.
pub proof fn lemma_remove_entry(s: Seq<(u64, Conn)>, i: int)
    requires
        unique_ids(s),
        0 <= i < s.len(),
    ensures
        unique_ids(s.remove(i)),
        spec_get(s.remove(i), s[i].0) is None,
        forall|k: u64| k != s[i].0 ==> spec_get(s.remove(i), k) == spec_get(s, k),
        count_controls(s.remove(i)) == count_controls(s) - (if s[i].1 is Control {
            1int
        } else {
            0int
        }),
    decreases s.len(),
{
    let t = s.remove(i);
    assert(unique_ids(t)) by {
        assert forall|x: int, y: int| 0 <= x < y < t.len() implies t[x].0 != t[y].0 by {
            let sx = if x < i {
                x
            } else {
                x + 1
            };
            let sy = if y < i {
                y
            } else {
                y + 1
            };
            assert(t[x] == s[sx]);
            assert(t[y] == s[sy]);
        }
    }
    assert(spec_get(t, s[i].0) is None) by {
        lemma_get_none(t, s[i].0);
        assert forall|x: int| 0 <= x < t.len() implies t[x].0 != s[i].0 by {
            let sx = if x < i {
                x
            } else {
                x + 1
            };
            assert(t[x] == s[sx]);
        }
    }
    assert forall|k: u64| k != s[i].0 implies spec_get(t, k) == spec_get(s, k) by {
        lemma_get_none(t, k);
        lemma_get_none(s, k);
        if spec_get(s, k) is Some {
            lemma_get_none(s, k);
            let j = choose|j: int| 0 <= j < s.len() && s[j].0 == k;
            lemma_get_at(s, j);
            let tj = if j < i {
                j
            } else {
                j - 1
            };
            assert(t[tj] == s[j]);
            lemma_get_at(t, tj);
        } else {
            assert forall|x: int| 0 <= x < t.len() implies t[x].0 != k by {
                let sx = if x < i {
                    x
                } else {
                    x + 1
                };
                assert(t[x] == s[sx]);
            }
        }
    }
    lemma_count_remove(s, i);
}

proof fn lemma_count_remove(s: Seq<(u64, Conn)>, i: int)
    requires
        0 <= i < s.len(),
    ensures
        count_controls(s.remove(i)) == count_controls(s) - (if s[i].1 is Control {
            1int
        } else {
            0int
        }),
    decreases s.len(),
{
    if i == 0 {
        assert(s.remove(0) =~= s.drop_first());
    } else {
        lemma_count_remove(s.drop_first(), i - 1);
        assert(s.remove(i).drop_first() =~= s.drop_first().remove(i - 1));
        assert(s.remove(i)[0] == s[0]);
    }
}

/// Appending a fresh entry adds exactly that entry.
pub proof fn lemma_push_entry(s: Seq<(u64, Conn)>, id: u64, c: Conn)
    requires
        unique_ids(s),
        spec_get(s, id) is None,
    ensures
        unique_ids(s.push((id, c))),
        spec_get(s.push((id, c)), id) == Some(c),
        forall|k: u64| k != id ==> spec_get(s.push((id, c)), k) == spec_get(s, k),
        count_controls(s.push((id, c))) == count_controls(s) + (if c is Control {
            1int
        } else {
            0int
        }),
    decreases s.len(),
{
    let t = s.push((id, c));
    lemma_get_none(s, id);
    assert(unique_ids(t)) by {
        assert forall|x: int, y: int| 0 <= x < y < t.len() implies t[x].0 != t[y].0 by {
            if y < s.len() {
                assert(t[x] == s[x] && t[y] == s[y]);
            } else {
                assert(t[y] == (id, c));
                assert(t[x] == s[x]);
            }
        }
    }
    assert(t[s.len() as int] == (id, c));
    lemma_get_at(t, s.len() as int);
    assert forall|k: u64| k != id implies spec_get(t, k) == spec_get(s, k) by {
        lemma_get_none(s, k);
        if spec_get(s, k) is Some {
            let j = choose|j: int| 0 <= j < s.len() && s[j].0 == k;
            lemma_get_at(s, j);
            assert(t[j] == s[j]);
            lemma_get_at(t, j);
        } else {
            lemma_get_none(t, k);
            assert forall|x: int| 0 <= x < t.len() implies t[x].0 != k by {
                if x < s.len() {
                    assert(t[x] == s[x]);
                }
            }
        }
    }
    lemma_count_push(s, id, c);
}

proof fn lemma_count_push(s: Seq<(u64, Conn)>, id: u64, c: Conn)
    ensures
        count_controls(s.push((id, c))) == count_controls(s) + (if c is Control {
            1int
        } else {
            0int
        }),
    decreases s.len(),
{
    let t = s.push((id, c));
    if s.len() == 0 {
        assert(t[0] == (id, c));
        assert(t.drop_first() =~= Seq::<(u64, Conn)>::empty());
        assert(count_controls(t.drop_first()) == 0);
    } else {
        lemma_count_push(s.drop_first(), id, c);
        assert(t.drop_first() =~= s.drop_first().push((id, c)));
        assert(t[0] == s[0]);
    }
}

/// The registry itself.
pub struct ConnTable {
    pub entries: Vec<(u64, Conn)>,
}

impl ConnTable {
    /// Unique ids, every record well formed.
    pub open spec fn wf(&self) -> bool {
        &&& unique_ids(self.entries@)
        &&& forall|i: int| 0 <= i < self.entries@.len() ==> (#[trigger] self.entries@[i]).1.wf()
    }

    pub open spec fn get_spec(&self, id: u64) -> Option<Conn> {
        spec_get(self.entries@, id)
    }

    pub open spec fn controls(&self) -> nat {
        count_controls(self.entries@)
    }

    pub fn new() -> (r: Self)
        ensures
            r.wf(),
            r.entries@.len() == 0,
            r.controls() == 0,
            forall|k: u64| r.get_spec(k) is None,
    {
        let r = ConnTable { entries: Vec::new() };
        proof {
            assert forall|k: u64| r.get_spec(k) is None by {
                lemma_get_none(r.entries@, k);
            }
        }
        r
    }

    /// Index of the entry with this id.
    fn index_of(&self, id: u64) -> (r: Option<usize>)
        requires
            self.wf(),
        ensures
            match r {
                Some(i) => i < self.entries@.len() && self.entries@[i as int].0 == id
                    && self.get_spec(id) == Some(self.entries@[i as int].1),
                None => self.get_spec(id) is None,
            },
    {
        let mut j: usize = 0;
        while j < self.entries.len()
            invariant
                j <= self.entries@.len(),
                self.wf(),
                forall|k: int| 0 <= k < j ==> self.entries@[k].0 != id,
            decreases self.entries@.len() - j,
        {
            if self.entries[j].0 == id {
                proof {
                    lemma_get_at(self.entries@, j as int);
                }
                return Some(j);
            }
            j = j + 1;
        }
        proof {
            lemma_get_none(self.entries@, id);
        }
        None
    }

    /// Borrow the record under this id.
    pub fn get(&self, id: u64) -> (r: Option<&Conn>)
        requires
            self.wf(),
        ensures
            match r {
                Some(c) => self.get_spec(id) == Some(*c) && c.wf(),
                None => self.get_spec(id) is None,
            },
    {
        match self.index_of(id) {
            Some(i) => {
                proof {
                    assert(self.entries@[i as int].1.wf());
                }
                Some(&self.entries[i].1)
            },
            None => None,
        }
    }

    /// Remove and return the record under this id.
    pub fn take(&mut self, id: u64) -> (r: Option<Conn>)
        requires
            old(self).wf(),
        ensures
            final (self).wf(),
            match r {
                Some(c) => {
                    &&& old(self).get_spec(id) == Some(c)
                    &&& c.wf()
                    &&& final (self).get_spec(id) is None
                    &&& final (self).controls() == old(self).controls() - (if c is Control {
                        1int
                    } else {
                        0int
                    })
                },
                None => {
                    &&& old(self).get_spec(id) is None
                    &&& *final (self) == *old(self)
                },
            },
            forall|k: u64| k != id ==> final (self).get_spec(k) == old(self).get_spec(k),
    {
        match self.index_of(id) {
            Some(i) => {
                proof {
                    lemma_remove_entry(self.entries@, i as int);
                }
                let (_, c) = self.entries.remove(i);
                proof {
                    assert forall|x: int| 0 <= x < self.entries@.len() implies (
                    #[trigger] self.entries@[x]).1.wf() by {
                        let sx = if x < i {
                            x
                        } else {
                            x + 1
                        };
                        assert(self.entries@[x] == old(self).entries@[sx]);
                    }
                }
                Some(c)
            },
            None => None,
        }
    }

    /// Store a record under a fresh id.
    pub fn put(&mut self, id: u64, c: Conn)
        requires
            old(self).wf(),
            old(self).get_spec(id) is None,
            c.wf(),
        ensures
            final (self).wf(),
            final (self).get_spec(id) == Some(c),
            final (self).controls() == old(self).controls() + (if c is Control {
                1int
            } else {
                0int
            }),
            forall|k: u64| k != id ==> final (self).get_spec(k) == old(self).get_spec(k),
    {
        proof {
            lemma_push_entry(self.entries@, id, c);
        }
        self.entries.push((id, c));
        proof {
            assert forall|x: int| 0 <= x < self.entries@.len() implies (
            #[trigger] self.entries@[x]).1.wf() by {
                if x < old(self).entries@.len() {
                    assert(self.entries@[x] == old(self).entries@[x]);
                }
            }
        }
    }

    /// Drop a superseded data resource. A control record is never a data
    /// resource and is left alone.
    pub fn drop_non_control(&mut self, target: Option<u64>)
        requires
            old(self).wf(),
        ensures
            final (self).wf(),
            final (self).controls() == old(self).controls(),
            forall|k: u64| Some(k) != target ==> final (self).get_spec(k) == old(self).get_spec(k),
            match target {
                Some(l) => (match old(self).get_spec(l) {
                    Some(Conn::Control(c)) => final (self).get_spec(l) == old(self).get_spec(l),
                    Some(_) => final (self).get_spec(l) is None,
                    None => final (self).get_spec(l) is None,
                }),
                None => true,
            },
    {
        match target {
            Some(l) => {
                match self.take(l) {
                    Some(Conn::Control(c)) => {
                        self.put(l, Conn::Control(c));
                    },
                    _ => {},
                }
            },
            None => {},
        }
    }

}

} // verus!
