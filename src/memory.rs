use vstd::prelude::*;

use crate::dao::{first_with_email, holds, lists_exactly, opt_record, records_of, AccountDao};
use crate::entity::{AccountEntity, AccountRecord};

verus! {

/// A store that keeps its records in memory, in order of first insertion.
/// Every call succeeds.
pub struct MemoryAccountDao {
    entries: Vec<AccountEntity>,
    contents: Ghost<Map<Seq<char>, AccountRecord>>,
}

impl MemoryAccountDao {
    /// The entries agree with `contents`, each id once.
    pub closed spec fn well_formed(&self) -> bool {
        &&& forall|i: int|
            0 <= i < self.entries@.len() ==> holds(self.contents@, #[trigger] self.entries@[i]@)
        &&& forall|i: int, j: int|
            0 <= i < j < self.entries@.len() ==> #[trigger] self.entries@[i]@.id
                != #[trigger] self.entries@[j]@.id
        &&& forall|id: Seq<char>| #[trigger]
            self.contents@.contains_key(id) ==> exists|i: int|
                0 <= i < self.entries@.len() && #[trigger] self.entries@[i]@.id == id
    }

    /// An empty store.
    pub fn new() -> (r: Self)
        ensures
            r.inv(),
            r.accounts() == Map::<Seq<char>, AccountRecord>::empty(),
    {
        MemoryAccountDao { entries: Vec::new(), contents: Ghost(Map::empty()) }
    }

    proof fn lemma_lists_exactly(&self)
        requires
            self.well_formed(),
        ensures
            lists_exactly(self.contents@, records_of(self.entries@)),
    {
        let listed = records_of(self.entries@);
        assert forall|id: Seq<char>| #[trigger]
            self.contents@.contains_key(id) implies exists|k: int|
            0 <= k < listed.len() && #[trigger] listed[k].id == id by {
            let k = choose|k: int|
                0 <= k < self.entries@.len() && #[trigger] self.entries@[k]@.id == id;
            assert(listed[k].id == id);
        }
    }

    /// The position of the entry with id `id`.
    fn position(&self, id: &String) -> (r: Option<usize>)
        requires
            self.well_formed(),
        ensures
            match r {
                Some(i) => i < self.entries@.len() && self.entries@[i as int]@.id == id@,
                None => !self.contents@.contains_key(id@),
            },
    {
        let mut i: usize = 0;
        while i < self.entries.len()
            invariant
                i <= self.entries@.len(),
                forall|k: int| 0 <= k < i ==> #[trigger] self.entries@[k]@.id != id@,
            decreases self.entries@.len() - i,
        {
            if self.entries[i].id == *id {
                return Some(i);
            }
            i = i + 1;
        }
        None
    }

    /// Writes `account` under its id: in place if the id is held, else at the end.
    fn put(&mut self, account: AccountEntity)
        requires
            old(self).well_formed(),
        ensures
            final(self).well_formed(),
            final(self).contents@ == old(self).contents@.insert(account@.id, account@),
    {
        let ghost key = account@.id;
        let ghost before = self.entries@;
        let ghost old_contents = self.contents@;
        let ghost pos: int;
        match self.position(&account.id) {
            Some(i) => {
                self.entries.set(i, account);
                proof {
                    pos = i as int;
                }
            },
            None => {
                self.entries.push(account);
                proof {
                    pos = before.len() as int;
                }
            },
        }
        self.contents = Ghost(old_contents.insert(key, self.entries@[pos]@));
        proof {
            lemma_keys_still_listed(before, self.entries@, old_contents, key, pos);
        }
    }
}

/// After the entry at `pos` is written with id `key`, the ids that were
/// listed before are still listed, and so is `key`.
proof fn lemma_keys_still_listed(
    before: Seq<AccountEntity>,
    after: Seq<AccountEntity>,
    contents: Map<Seq<char>, AccountRecord>,
    key: Seq<char>,
    pos: int,
)
    requires
        0 <= pos < after.len(),
        before.len() <= after.len(),
        after[pos]@.id == key,
        pos < before.len() ==> before[pos]@.id == key,
        forall|k: int| 0 <= k < before.len() && k != pos ==> after[k] == before[k],
        forall|id: Seq<char>| #[trigger]
            contents.contains_key(id) ==> exists|i: int|
                0 <= i < before.len() && #[trigger] before[i]@.id == id,
    ensures
        forall|id: Seq<char>| #[trigger]
            contents.insert(key, after[pos]@).contains_key(id) ==> exists|k: int|
                0 <= k < after.len() && #[trigger] after[k]@.id == id,
{
    assert forall|id: Seq<char>| #[trigger]
        contents.insert(key, after[pos]@).contains_key(id) implies exists|k: int|
        0 <= k < after.len() && #[trigger] after[k]@.id == id by {
        if id != key {
            let k = choose|k: int| 0 <= k < before.len() && #[trigger] before[k]@.id == id;
            assert(after[k]@.id == id);
        } else {
            assert(after[pos]@.id == id);
        }
    }
}

impl AccountDao for MemoryAccountDao {
    closed spec fn accounts(&self) -> Map<Seq<char>, AccountRecord> {
        self.contents@
    }

    closed spec fn listing(&self) -> Seq<AccountRecord> {
        records_of(self.entries@)
    }

    open spec fn faithful(&self) -> bool {
        true
    }

    closed spec fn inv(&self) -> bool {
        self.well_formed()
    }

    fn get_accounts(&self) -> (r: Vec<AccountEntity>) {
        let mut r: Vec<AccountEntity> = Vec::new();
        let mut i: usize = 0;
        while i < self.entries.len()
            invariant
                self.well_formed(),
                i <= self.entries@.len(),
                r@.len() == i,
                forall|k: int| 0 <= k < i ==> #[trigger] r@[k]@ == self.entries@[k]@,
            decreases self.entries@.len() - i,
        {
            r.push(self.entries[i].clone());
            i = i + 1;
        }
        assert(records_of(r@) =~= records_of(self.entries@));
        proof {
            self.lemma_lists_exactly();
        }
        r
    }

    fn get_account_by_id(&self, id: String) -> (r: Option<AccountEntity>) {
        match self.position(&id) {
            Some(i) => Some(self.entries[i].clone()),
            None => None,
        }
    }

    fn get_account_by_email(&self, email: String) -> (r: Option<AccountEntity>) {
        let ghost listed = records_of(self.entries@);
        let ghost n = listed.len() as int;
        proof {
            self.lemma_lists_exactly();
            assert(listed.subrange(0, n) =~= listed);
        }
        let mut i: usize = 0;
        while i < self.entries.len()
            invariant
                self.well_formed(),
                listed == records_of(self.entries@),
                lists_exactly(self.contents@, listed),
                n == self.entries@.len(),
                i <= n,
                first_with_email(listed, email@) == first_with_email(
                    listed.subrange(i as int, n),
                    email@,
                ),
            decreases self.entries@.len() - i,
        {
            let ghost rest = listed.subrange(i as int, n);
            assert(rest[0] == self.entries@[i as int]@);
            if self.entries[i].email == email {
                assert(rest.len() > 0 && rest[0].email == email@);
                assert(first_with_email(rest, email@) == Some(rest[0]));
                let found = self.entries[i].clone();
                return Some(found);
            }
            assert(rest.drop_first() =~= listed.subrange(i + 1, n));
            i = i + 1;
        }
        None
    }

    fn create_account(&mut self, account: AccountEntity) -> (r: bool) {
        self.put(account);
        true
    }

    fn update_account(&mut self, account: AccountEntity) -> (r: bool) {
        self.put(account);
        true
    }

    fn delete_account(&mut self, id: String) -> (r: bool) {
        match self.position(&id) {
            Some(i) => {
                let ghost before = self.entries@;
                let _removed = self.entries.remove(i);
                self.contents = Ghost(self.contents@.remove(id@));
                assert forall|k: int| 0 <= k < self.entries@.len() implies holds(
                    self.contents@,
                    #[trigger] self.entries@[k]@,
                ) by {
                    if k < i {
                        assert(before[k]@.id != before[i as int]@.id);
                    } else {
                        assert(self.entries@[k] == before[k + 1]);
                        assert(before[i as int]@.id != before[k + 1]@.id);
                    }
                }
                assert forall|a: int, b: int|
                    0 <= a < b < self.entries@.len() implies #[trigger] self.entries@[a]@.id
                        != #[trigger] self.entries@[b]@.id by {
                    let a0 = if a < i { a } else { a + 1 };
                    let b0 = if b < i { b } else { b + 1 };
                    assert(self.entries@[a] == before[a0]);
                    assert(self.entries@[b] == before[b0]);
                }
                assert forall|x: Seq<char>| #[trigger]
                    self.contents@.contains_key(x) implies exists|k: int|
                    0 <= k < self.entries@.len() && #[trigger] self.entries@[k]@.id == x by {
                    let k = choose|k: int| 0 <= k < before.len() && #[trigger] before[k]@.id == x;
                    assert(k != i);
                    if k < i {
                        assert(self.entries@[k]@.id == x);
                    } else {
                        assert(self.entries@[k - 1]@.id == x);
                    }
                }
            },
            None => {
                assert(self.contents@.remove(id@) =~= self.contents@);
            },
        }
        true
    }
}

} // verus!
