//! The user store: lookup and creation of users, password check, and the
//! per-user current directory. Users are auto-provisioned on the first
//! USER/PASS pair that names an unknown account.
use vstd::prelude::*;
use vstd::slice::slice_to_vec;

use crate::command::{bytes_eq, views};
use crate::paths::{clone_path, path_wf};

verus! {

/// One account: name, password, and the virtual current directory.
pub struct User {
    pub name: Vec<u8>,
    pub password: Vec<u8>,
    pub cwd: Vec<Vec<u8>>,
}

impl User {
    pub open spec fn wf(&self) -> bool {
        path_wf(views(self.cwd@))
    }
}

/// Index of the first user with this name.
pub open spec fn spec_find(users: Seq<User>, name: Seq<u8>) -> Option<int>
    decreases users.len(),
{
    if users.len() == 0 {
        None
    } else if users[0].name@ == name {
        Some(0)
    } else {
        match spec_find(users.drop_first(), name) {
            Some(i) => Some(i + 1),
            None => None,
        }
    }
}

pub proof fn lemma_spec_find(users: Seq<User>, name: Seq<u8>)
    ensures
        spec_find(users, name) matches Some(i) ==> 0 <= i < users.len() && users[i].name@ == name,
        spec_find(users, name) is None ==> forall|j: int|
            0 <= j < users.len() ==> users[j].name@ != name,
    decreases users.len(),
{
    if users.len() > 0 {
        lemma_spec_find(users.drop_first(), name);
        if users[0].name@ != name {
            assert forall|j: int|
                spec_find(users.drop_first(), name) is None && 0 <= j
                    < users.len() implies users[j].name@ != name by {
                if j > 0 {
                    assert(users.drop_first()[j - 1].name@ != name);
                }
            }
        }
    }
}

proof fn lemma_spec_find_is(users: Seq<User>, name: Seq<u8>, i: int)
    requires
        0 <= i <= users.len(),
        forall|j: int| 0 <= j < i ==> users[j].name@ != name,
        i < users.len() ==> users[i].name@ == name,
    ensures
        if i < users.len() {
            spec_find(users, name) == Some(i)
        } else {
            spec_find(users, name) is None
        },
    decreases users.len(),
{
    if users.len() == 0 {
    } else if users[0].name@ == name {
        assert(i == 0);
    } else {
        assert forall|j: int| 0 <= j < i - 1 implies users.drop_first()[j].name@ != name by {
            assert(users[j + 1].name@ != name);
        }
        lemma_spec_find_is(users.drop_first(), name, i - 1);
    }
}

/// The current directory of the named account, the root when the account
/// is unknown.
pub open spec fn spec_cwd(users: Seq<User>, uid: Seq<u8>) -> Seq<Seq<u8>> {
    match spec_find(users, uid) {
        Some(i) => views(users[i].cwd@),
        None => Seq::empty(),
    }
}

/// All accounts, names unique, directories well formed.
pub struct UserStore {
    pub users: Vec<User>,
}

impl UserStore {
    pub open spec fn wf(&self) -> bool {
        &&& (forall|i: int, j: int|
            0 <= i < j < self.users@.len() ==> self.users@[i].name@ != self.users@[j].name@)
        &&& (forall|i: int| 0 <= i < self.users@.len() ==> self.users@[i].wf())
    }

    /// No accounts yet.
    pub fn new() -> (r: Self)
        ensures
            r.users@.len() == 0,
            r.wf(),
    {
        UserStore { users: Vec::new() }
    }

    /// Index of the account with this name.
    fn find(&self, name: &[u8]) -> (r: Option<usize>)
        ensures
            match r {
                Some(i) => spec_find(self.users@, name@) == Some(i as int),
                None => spec_find(self.users@, name@) is None,
            },
    {
        let mut j: usize = 0;
        while j < self.users.len()
            invariant
                j <= self.users@.len(),
                forall|k: int| 0 <= k < j ==> self.users@[k].name@ != name@,
            decreases self.users@.len() - j,
        {
            if bytes_eq(self.users[j].name.as_slice(), name) {
                proof {
                    lemma_spec_find_is(self.users@, name@, j as int);
                }
                return Some(j);
            }
            j = j + 1;
        }
        proof {
            lemma_spec_find_is(self.users@, name@, self.users@.len() as int);
        }
        None
    }

    /// Check a USER/PASS pair. A known account must present its password; an
    /// unknown one is created with this password, current directory the
    /// root, and logs straight in. Returns whether the login succeeded and
    /// whether an account was newly provisioned (so the caller can create
    /// its directory on disk).
    pub fn login(&mut self, name: &[u8], pass: &[u8]) -> (r: (bool, bool))
        requires
            old(self).wf(),
        ensures
            final (self).wf(),
            match spec_find(old(self).users@, name@) {
                Some(i) => {
                    &&& r.0 == (old(self).users@[i].password@ == pass@)
                    &&& r.1 == false
                    &&& final (self).users == old(self).users
                },
                None => {
                    &&& r.0 == true
                    &&& r.1 == true
                    &&& final (self).users@.len() == old(self).users@.len() + 1
                    &&& final (self).users@.drop_last() == old(self).users@
                    &&& final (self).users@.last().name@ == name@
                    &&& final (self).users@.last().password@ == pass@
                    &&& views(final (self).users@.last().cwd@) == Seq::<Seq<u8>>::empty()
                },
            },
    {
        proof {
            lemma_spec_find(self.users@, name@);
        }
        match self.find(name) {
            Some(i) => {
                let ok = bytes_eq(self.users[i].password.as_slice(), pass);
                (ok, false)
            },
            None => {
                let ghost old_users = self.users@;
                let user = User {
                    name: slice_to_vec(name),
                    password: slice_to_vec(pass),
                    cwd: Vec::new(),
                };
                assert(views(user.cwd@) =~~= Seq::<Seq<u8>>::empty());
                self.users.push(user);
                proof {
                    assert(self.users@.drop_last() =~= old_users);
                    assert forall|i: int, j: int|
                        0 <= i < j < self.users@.len() implies self.users@[i].name@
                        != self.users@[j].name@ by {
                        if j < self.users@.len() - 1 {
                            assert(old_users[i].name@ != old_users[j].name@);
                        } else {
                            assert(old_users[i].name@ != name@);
                        }
                    }
                }
                (true, true)
            },
        }
    }

    /// The current directory of an account.
    pub fn get_cwd(&self, name: &[u8]) -> (r: Option<Vec<Vec<u8>>>)
        ensures
            match r {
                Some(p) => spec_find(self.users@, name@) matches Some(i) && views(p@) == views(
                    self.users@[i].cwd@,
                ),
                None => spec_find(self.users@, name@) is None,
            },
    {
        proof {
            lemma_spec_find(self.users@, name@);
        }
        match self.find(name) {
            Some(i) => Some(clone_path(&self.users[i].cwd)),
            None => None,
        }
    }

    /// The current directory of any account in a sound store is well
    /// formed: it never points outside the account's root.
    pub proof fn lemma_spec_cwd_wf(&self, uid: Seq<u8>)
        requires
            self.wf(),
        ensures
            path_wf(spec_cwd(self.users@, uid)),
    {
        lemma_spec_find(self.users@, uid);
    }

    /// Replace the current directory of an account.
    pub fn set_cwd(&mut self, name: &[u8], cwd: Vec<Vec<u8>>)
        requires
            old(self).wf(),
            path_wf(views(cwd@)),
        ensures
            final (self).wf(),
            match spec_find(old(self).users@, name@) {
                Some(i) => {
                    &&& final (self).users@.len() == old(self).users@.len()
                    &&& (forall|j: int|
                        0 <= j < old(self).users@.len() && j != i ==> final (self).users@[j]
                            == old(self).users@[j])
                    &&& final (self).users@[i].name@ == old(self).users@[i].name@
                    &&& final (self).users@[i].password@ == old(self).users@[i].password@
                    &&& views(final (self).users@[i].cwd@) == views(cwd@)
                },
                None => final (self).users == old(self).users,
            },
    {
        proof {
            lemma_spec_find(self.users@, name@);
        }
        match self.find(name) {
            Some(i) => {
                let name_copy = slice_to_vec(self.users[i].name.as_slice());
                let pass_copy = slice_to_vec(self.users[i].password.as_slice());
                let user = User { name: name_copy, password: pass_copy, cwd };
                self.users.set(i, user);
            },
            None => {},
        }
    }
}

} // verus!
