use vstd::prelude::*;

use crate::entity::{AccountEntity, AccountRecord};

verus! {

/// Whether `r` is held in `m` under its own id.
pub open spec fn holds(m: Map<Seq<char>, AccountRecord>, r: AccountRecord) -> bool {
    m.contains_key(r.id) && m[r.id] == r
}

/// Whether some record of `m` has the email `email`.
pub open spec fn email_taken(m: Map<Seq<char>, AccountRecord>, email: Seq<char>) -> bool {
    exists|id: Seq<char>| #[trigger] m.contains_key(id) && m[id].email == email
}

/// The records of a sequence of entities.
pub open spec fn records_of(s: Seq<AccountEntity>) -> Seq<AccountRecord> {
    s.map_values(|e: AccountEntity| e@)
}

/// Whether `s` lists each record of `m` exactly once.
pub open spec fn lists_exactly(m: Map<Seq<char>, AccountRecord>, s: Seq<AccountRecord>) -> bool {
    &&& forall|i: int| 0 <= i < s.len() ==> holds(m, #[trigger] s[i])
    &&& forall|i: int, j: int| 0 <= i < j < s.len() ==> #[trigger] s[i].id != #[trigger] s[j].id
    &&& forall|id: Seq<char>| #[trigger]
        m.contains_key(id) ==> exists|i: int| 0 <= i < s.len() && #[trigger] s[i].id == id
}

/// The optional record of an optional entity.
pub open spec fn opt_record(o: Option<AccountEntity>) -> Option<AccountRecord> {
    match o {
        Some(e) => Some(e@),
        None => None,
    }
}

/// The first record of `s` whose email is `email`.
pub open spec fn first_with_email(s: Seq<AccountRecord>, email: Seq<char>) -> Option<AccountRecord>
    decreases s.len(),
{
    if s.len() == 0 {
        None
    } else if s[0].email == email {
        Some(s[0])
    } else {
        first_with_email(s.drop_first(), email)
    }
}

/// `first_with_email` picks the record at the first position whose email
/// matches, and finds none where no position matches.
pub proof fn lemma_first_with_email(s: Seq<AccountRecord>, email: Seq<char>)
    ensures
        match first_with_email(s, email) {
            Some(r) => exists|i: int|
                0 <= i < s.len() && s[i] == r && r.email == email && forall|j: int|
                    0 <= j < i ==> (#[trigger] s[j]).email != email,
            None => forall|i: int| 0 <= i < s.len() ==> (#[trigger] s[i]).email != email,
        },
    decreases s.len(),
{
    if s.len() > 0 && s[0].email != email {
        lemma_first_with_email(s.drop_first(), email);
        match first_with_email(s, email) {
            Some(r) => {
                let i = choose|i: int|
                    0 <= i < s.drop_first().len() && s.drop_first()[i] == r && r.email == email
                        && forall|j: int| 0 <= j < i ==> (#[trigger] s.drop_first()[j]).email != email;
                assert(s[i + 1] == r);
                assert forall|j: int| 0 <= j < i + 1 implies (#[trigger] s[j]).email != email by {
                    if j > 0 {
                        assert(s[j] == s.drop_first()[j - 1]);
                    }
                }
            },
            None => {
                assert forall|i: int| 0 <= i < s.len() implies (#[trigger] s[i]).email != email by {
                    if i > 0 {
                        assert(s[i] == s.drop_first()[i - 1]);
                    }
                }
            },
        }
    } else if s.len() > 0 {
        assert(s[0] == s[0]);
    }
}

/// Over a listing of `m`, the first record with an email is found exactly
/// when some record of `m` has that email, and is then held in `m`.
pub proof fn lemma_first_with_email_held(
    m: Map<Seq<char>, AccountRecord>,
    s: Seq<AccountRecord>,
    email: Seq<char>,
)
    requires
        lists_exactly(m, s),
    ensures
        first_with_email(s, email) is Some <==> email_taken(m, email),
        first_with_email(s, email) matches Some(r) ==> r.email == email && holds(m, r),
{
    lemma_first_with_email(s, email);
    match first_with_email(s, email) {
        Some(r) => {
            let i = choose|i: int|
                0 <= i < s.len() && s[i] == r && r.email == email && forall|j: int|
                    0 <= j < i ==> (#[trigger] s[j]).email != email;
            assert(holds(m, s[i]));
            assert(m.contains_key(r.id));
        },
        None => {
            assert forall|id: Seq<char>| #[trigger] m.contains_key(id) implies m[id].email != email by {
                let i = choose|i: int| 0 <= i < s.len() && #[trigger] s[i].id == id;
                assert(holds(m, s[i]));
            }
        },
    }
}

/// The storage port: list, look up, write and delete account records.
///
/// A faithful store is modelled by the map `accounts` from id to record and
/// by `listing`, the order in which it lists them: each of its calls
/// succeeds and answers from, or acts on, these. A
/// store that reaches its records over a network may fail any call, and
/// Verus cannot see what it holds; such a store keeps the defaults below,
/// and of it the port demands only that what it answers carries the id or
/// email asked for. The port hashes nothing and checks no uniqueness:
/// that is the business of the account service.
pub trait AccountDao {
    /// The records held, keyed by id; none are modelled unless the store
    /// says otherwise.
    open spec fn accounts(&self) -> Map<Seq<char>, AccountRecord> {
        Map::empty()
    }

    /// The records in the order in which the store lists them.
    open spec fn listing(&self) -> Seq<AccountRecord> {
        Seq::empty()
    }

    /// Whether every call of this store succeeds and keeps to `accounts`
    /// and `listing`.
    open spec fn faithful(&self) -> bool {
        false
    }

    /// The store's internal consistency.
    open spec fn inv(&self) -> bool {
        true
    }

    /// Every record, each once, in the store's order.
    fn get_accounts(&self) -> (r: Vec<AccountEntity>)
        requires
            self.inv(),
        ensures
            self.faithful() ==> records_of(r@) == self.listing() && lists_exactly(
                self.accounts(),
                self.listing(),
            ),
    ;

    /// The record stored under `id`, if there is one. A record that any
    /// store answers carries the id asked for.
    fn get_account_by_id(&self, id: String) -> (r: Option<AccountEntity>)
        requires
            self.inv(),
        ensures
            r matches Some(e) ==> e@.id == id@,
            self.faithful() ==> match r {
                Some(e) => holds(self.accounts(), e@),
                None => !self.accounts().contains_key(id@),
            },
    ;

    /// The first record, in the store's order, whose email is `email`. A
    /// record that any store answers carries the email asked for.
    fn get_account_by_email(&self, email: String) -> (r: Option<AccountEntity>)
        requires
            self.inv(),
        ensures
            r matches Some(e) ==> e@.email == email@,
            self.faithful() ==> opt_record(r) == first_with_email(self.listing(), email@)
                && lists_exactly(self.accounts(), self.listing()),
    ;

    /// Writes `account` under its id, replacing any record there.
    fn create_account(&mut self, account: AccountEntity) -> (r: bool)
        requires
            old(self).inv(),
        ensures
            final(self).inv(),
            final(self).faithful() == old(self).faithful(),
            old(self).faithful() ==> r && final(self).accounts() == old(self).accounts().insert(
                account@.id,
                account@,
            ),
    ;

    /// Writes `account` under its id, replacing any record there.
    fn update_account(&mut self, account: AccountEntity) -> (r: bool)
        requires
            old(self).inv(),
        ensures
            final(self).inv(),
            final(self).faithful() == old(self).faithful(),
            old(self).faithful() ==> r && final(self).accounts() == old(self).accounts().insert(
                account@.id,
                account@,
            ),
    ;

    /// Removes the record stored under `id`, if any.
    fn delete_account(&mut self, id: String) -> (r: bool)
        requires
            old(self).inv(),
        ensures
            final(self).inv(),
            final(self).faithful() == old(self).faithful(),
            old(self).faithful() ==> r && final(self).accounts() == old(self).accounts().remove(id@),
    ;
}

} // verus!
