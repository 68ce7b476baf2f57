use vstd::prelude::*;

use crate::model::{User, UserView};

verus! {

/// An in-process map from username to public user record.
pub struct UserCache {
    entries: Vec<User>,
    contents: Ghost<Map<Seq<char>, UserView>>,
}

impl View for UserCache {
    type V = Map<Seq<char>, UserView>;

    closed spec fn view(&self) -> Map<Seq<char>, UserView> {
        self.contents@
    }
}

impl UserCache {
    /// Usernames are unique among the entries, and the map is exactly what they hold.
    pub closed spec fn wf(&self) -> bool {
        &&& forall|i: int, j: int|
            0 <= i < j < self.entries@.len() ==> self.entries@[i].username@
                != self.entries@[j].username@
        &&& forall|i: int|
            0 <= i < self.entries@.len() ==> #[trigger] self.contents@.contains_key(
                self.entries@[i].username@,
            ) && self.contents@[self.entries@[i].username@] == self.entries@[i]@
        &&& forall|k: Seq<char>|
            #[trigger] self.contents@.contains_key(k) ==> exists|i: int|
                0 <= i < self.entries@.len() && self.entries@[i].username@ == k
    }

    /// Every cached record is filed under its own username.
    pub proof fn lemma_filed_under_username(&self)
        requires
            self.wf(),
        ensures
            forall|k: Seq<char>| #[trigger] self@.contains_key(k) ==> self@[k].username == k,
    {
        assert forall|k: Seq<char>| #[trigger] self@.contains_key(k) implies self@[k].username
            == k by {
            let i = choose|i: int| 0 <= i < self.entries@.len() && self.entries@[i].username@ == k;
        }
    }

    /// An empty cache.
    pub fn new() -> (r: UserCache)
        ensures
            r.wf(),
            r@ == Map::<Seq<char>, UserView>::empty(),
    {
        UserCache { entries: Vec::new(), contents: Ghost(Map::empty()) }
    }

    /// Where the entry for `username` stands, if there is one.
    fn position(&self, username: &String) -> (r: Option<usize>)
        ensures
            r matches Some(i) ==> i < self.entries@.len() && self.entries@[i as int].username@
                == username@,
            r is None ==> forall|i: int|
                0 <= i < self.entries@.len() ==> self.entries@[i].username@ != username@,
    {
        let mut i: usize = 0;
        while i < self.entries.len()
            invariant
                i <= self.entries@.len(),
                forall|j: int| 0 <= j < i ==> self.entries@[j].username@ != username@,
            decreases self.entries@.len() - i,
        {
            if self.entries[i].username == *username {
                return Some(i);
            }
            i = i + 1;
        }
        None
    }

    /// The record cached for `username`, if any.
    pub fn get(&self, username: &String) -> (r: Option<User>)
        requires
            self.wf(),
        ensures
            r is Some <==> self@.contains_key(username@),
            r matches Some(u) ==> u@ == self@[username@],
            r matches Some(u) ==> u.username@ == username@,
    {
        match self.position(username) {
            Some(i) => Some(self.entries[i].duplicate()),
            None => {
                proof {
                    if self@.contains_key(username@) {
                        let i = choose|i: int|
                            0 <= i < self.entries@.len() && self.entries@[i].username@
                                == username@;
                    }
                }
                None
            },
        }
    }

    /// Caches `user` under its username, replacing what was there.
    pub fn put(&mut self, user: User)
        requires
            old(self).wf(),
        ensures
            final(self).wf(),
            final(self)@ == old(self)@.insert(user.username@, user@),
    {
        let ghost key = user.username@;
        let ghost val = user@;
        let pos = self.position(&user.username);
        match pos {
            Some(i) => {
                self.entries.set(i, user);
            },
            None => {
                self.entries.push(user);
            },
        }
        proof {
            self.contents@ = self.contents@.insert(key, val);
            assert forall|a: int, b: int|
                0 <= a < b < self.entries@.len() implies self.entries@[a].username@
                != self.entries@[b].username@ by {
                if b < old(self).entries@.len() {
                    if pos is None || (a != pos->Some_0 && b != pos->Some_0) {
                        assert(old(self).entries@[a].username@ != old(self).entries@[b].username@);
                    }
                }
            }
            assert forall|a: int| 0 <= a < self.entries@.len() implies #[trigger]
                self.contents@.contains_key(self.entries@[a].username@)
                && self.contents@[self.entries@[a].username@] == self.entries@[a]@ by {
                if a < old(self).entries@.len() && (pos is None || a != pos->Some_0) {
                    assert(old(self).entries@[a].username@ == self.entries@[a].username@);
                    assert(old(self).contents@.contains_key(old(self).entries@[a].username@));
                }
            }
        }
        assert forall|k: Seq<char>| #[trigger] self.contents@.contains_key(k) implies exists|
            i: int,
        |
            0 <= i < self.entries@.len() && self.entries@[i].username@ == k by {
            if k != key {
                let j = choose|j: int|
                    0 <= j < old(self).entries@.len() && old(self).entries@[j].username@ == k;
                assert(self.entries@[j].username@ == k);
            } else {
                match pos {
                    Some(i) => assert(self.entries@[i as int].username@ == k),
                    None => assert(self.entries@[old(self).entries@.len() as int].username@
                        == k),
                }
            }
        }
    }

    /// Drops the entry for `username`; nothing changes when there is none.
    pub fn evict(&mut self, username: &String)
        requires
            old(self).wf(),
        ensures
            final(self).wf(),
            final(self)@ == old(self)@.remove(username@),
    {
        match self.position(username) {
            Some(i) => {
                let ghost before = self.entries@;
                let _ = self.entries.remove(i);
                proof {
                    self.contents@ = self.contents@.remove(username@);
                    assert forall|a: int, b: int|
                        0 <= a < b < self.entries@.len() implies self.entries@[a].username@
                        != self.entries@[b].username@ by {
                        let a0 = if a < i {
                            a
                        } else {
                            a + 1
                        };
                        let b0 = if b < i {
                            b
                        } else {
                            b + 1
                        };
                        assert(before[a0].username@ != before[b0].username@);
                    }
                    assert forall|a: int| 0 <= a < self.entries@.len() implies #[trigger]
                        self.contents@.contains_key(self.entries@[a].username@)
                        && self.contents@[self.entries@[a].username@] == self.entries@[a]@ by {
                        let a0 = if a < i {
                            a
                        } else {
                            a + 1
                        };
                        assert(before[a0].username@ != before[i as int].username@);
                    }
                    assert forall|k: Seq<char>| #[trigger]
                        self.contents@.contains_key(k) implies exists|a: int|
                        0 <= a < self.entries@.len() && self.entries@[a].username@ == k by {
                        let j = choose|j: int|
                            0 <= j < before.len() && before[j].username@ == k;
                        if j < i {
                            assert(self.entries@[j].username@ == k);
                        } else {
                            assert(self.entries@[j - 1].username@ == k);
                        }
                    }
                }
            },
            None => {
                proof {
                    if self.contents@.contains_key(username@) {
                        let j = choose|j: int|
                            0 <= j < self.entries@.len() && self.entries@[j].username@
                                == username@;
                    }
                    assert(self.contents@.remove(username@) =~= self.contents@);
                }
            },
        }
    }
}

/// Evicting a username that is not cached leaves the cache as it was, and
/// evicting twice is the same as evicting once.
pub proof fn law_evict_idempotent(c: Map<Seq<char>, UserView>, username: Seq<char>)
    ensures
        !c.contains_key(username) ==> c.remove(username) == c,
        c.remove(username).remove(username) == c.remove(username),
{
    assert(c.remove(username).remove(username) =~= c.remove(username));
    if !c.contains_key(username) {
        assert(c.remove(username) =~= c);
    }
}

} // verus!
