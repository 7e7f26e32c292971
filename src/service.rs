use vstd::prelude::*;

use crate::dao::{
    email_taken, first_with_email, holds, lemma_first_with_email_held, lists_exactly, opt_record,
    records_of,
    AccountDao,
};
use crate::entity::{AccountEntity, AccountRecord};
use crate::models::{details_of, AccountDetails, AccountModel, CredentialsModel, DetailsView};
use crate::password::{hash_password, password_matches, validate_password};

verus! {

/// The details of the record stored under `id`, if any.
pub open spec fn details_at(m: Map<Seq<char>, AccountRecord>, id: Seq<char>) -> Option<DetailsView> {
    if m.contains_key(id) {
        Some(details_of(m[id]))
    } else {
        None
    }
}

/// Whether `d` shows the record of `m` stored under `d.id`.
pub open spec fn shows(m: Map<Seq<char>, AccountRecord>, d: DetailsView) -> bool {
    m.contains_key(d.id) && details_of(m[d.id]) == d
}

/// The views of a sequence of details.
pub open spec fn details_views(s: Seq<AccountDetails>) -> Seq<DetailsView> {
    s.map_values(|d: AccountDetails| d@)
}

/// The view of an optional details value.
pub open spec fn opt_details(r: Option<AccountDetails>) -> Option<DetailsView> {
    match r {
        Some(d) => Some(d@),
        None => None,
    }
}

/// Whether `s` shows each record of `m` exactly once.
pub open spec fn lists_details(m: Map<Seq<char>, AccountRecord>, s: Seq<DetailsView>) -> bool {
    &&& forall|i: int| 0 <= i < s.len() ==> shows(m, #[trigger] s[i])
    &&& forall|i: int, j: int| 0 <= i < j < s.len() ==> #[trigger] s[i].id != #[trigger] s[j].id
    &&& forall|id: Seq<char>| #[trigger]
        m.contains_key(id) ==> exists|i: int| 0 <= i < s.len() && #[trigger] s[i].id == id
}

/// The details of every record of `s`, in order.
pub open spec fn listing_details(s: Seq<AccountRecord>) -> Seq<DetailsView> {
    s.map_values(|r: AccountRecord| details_of(r))
}

/// What validation answers for the record `found` that a lookup by email
/// returned: its details if `password` matches its stored hash, else none.
pub open spec fn check_found(found: Option<AccountRecord>, password: Seq<char>) -> Option<DetailsView> {
    match found {
        Some(r) => if password_matches(password, r.password) {
            Some(details_of(r))
        } else {
            None
        },
        None => None,
    }
}

/// `r` with its password replaced by `password`.
pub open spec fn with_password(r: AccountRecord, password: Seq<char>) -> AccountRecord {
    AccountRecord { password, ..r }
}

/// Whether `after` is `before` with `model` written under its id, its
/// password replaced by a readable bcrypt hash of it.
pub open spec fn stored_hashed(
    before: Map<Seq<char>, AccountRecord>,
    after: Map<Seq<char>, AccountRecord>,
    model: AccountRecord,
) -> bool {
    &&& after.contains_key(model.id)
    &&& after == before.insert(model.id, with_password(model, after[model.id].password))
    &&& password_matches(model.password, after[model.id].password)
}

/// The details of a list of entities, in order.
pub fn details_list(entities: &Vec<AccountEntity>) -> (r: Vec<AccountDetails>)
    ensures
        details_views(r@) == listing_details(records_of(entities@)),
{
    let mut r: Vec<AccountDetails> = Vec::new();
    let mut i: usize = 0;
    while i < entities.len()
        invariant
            i <= entities@.len(),
            r@.len() == i,
            forall|k: int| 0 <= k < i ==> #[trigger] r@[k]@ == details_of(entities@[k]@),
        decreases entities@.len() - i,
    {
        r.push(AccountDetails::from_entity(&entities[i]));
        i = i + 1;
    }
    assert(details_views(r@) =~= listing_details(records_of(entities@)));
    r
}

/// Validation of the record that a lookup by email returned: its details
/// if `password` matches its stored hash, else none.
pub fn validate_found(found: Option<AccountEntity>, password: &String) -> (r: Option<AccountDetails>)
    ensures
        opt_details(r) == check_found(opt_record(found), password@),
{
    match found {
        Some(account) => {
            if validate_password(password, &account.password) {
                Some(AccountDetails::from_entity(&account))
            } else {
                None
            }
        },
        None => None,
    }
}

/// The account operations offered to callers.
///
/// A service is modelled by the records of its store and the order in
/// which the store lists them. Over a faithful store each operation is
/// stated exactly; over any store, what it answers carries the id or email
/// asked for. Details never carry a password; passwords are stored as
/// bcrypt hashes and checked against them. The check before a write and
/// the write itself are separate calls to the store: writers that run
/// concurrently may both pass the check.
pub trait AccountService {
    /// The records of the underlying store, keyed by id.
    spec fn accounts(&self) -> Map<Seq<char>, AccountRecord>;

    /// The records of the underlying store in its order.
    spec fn listing(&self) -> Seq<AccountRecord>;

    /// Whether the underlying store is faithful.
    spec fn faithful(&self) -> bool;

    /// The internal consistency of the underlying store.
    spec fn inv(&self) -> bool;

    /// The details of every account, each once, in the store's order.
    fn get_accounts(&self) -> (r: Vec<AccountDetails>)
        requires
            self.inv(),
        ensures
            self.faithful() ==> details_views(r@) == listing_details(self.listing()),
            self.faithful() ==> lists_details(self.accounts(), details_views(r@)),
    ;

    /// The details of the account with id `id`.
    fn get_account_by_id(&self, id: String) -> (r: Option<AccountDetails>)
        requires
            self.inv(),
        ensures
            r matches Some(d) ==> d@.id == id@,
            self.faithful() ==> opt_details(r) == details_at(self.accounts(), id@),
    ;

    /// The details of the first account, in the store's order, with email
    /// `email`.
    fn get_account_by_email(&self, email: String) -> (r: Option<AccountDetails>)
        requires
            self.inv(),
        ensures
            r matches Some(d) ==> d@.email == email@,
            self.faithful() ==> (r is Some <==> email_taken(self.accounts(), email@)),
            self.faithful() ==> (r matches Some(d) ==> shows(self.accounts(), d@)),
    ;

    /// The details of the first account, in the store's order, with the
    /// offered email, if the offered password matches its stored hash.
    fn validate_account(&self, credentials: CredentialsModel) -> (r: Option<AccountDetails>)
        requires
            self.inv(),
        ensures
            r matches Some(d) ==> d@.email == credentials.email@,
            self.faithful() ==> opt_details(r) == check_found(
                first_with_email(self.listing(), credentials.email@),
                credentials.password@,
            ),
    ;

    /// Stores a new account, its password hashed, unless its email is taken.
    fn create_account(&mut self, account: AccountModel) -> (r: bool)
        requires
            old(self).inv(),
        ensures
            final(self).inv(),
            final(self).faithful() == old(self).faithful(),
            old(self).faithful() ==> {
                &&& r <==> !email_taken(old(self).accounts(), account@.email)
                &&& r ==> stored_hashed(old(self).accounts(), final(self).accounts(), account@)
                &&& !r ==> final(self).accounts() == old(self).accounts()
            },
    ;

    /// Rewrites an existing account, its password hashed.
    fn update_account(&mut self, account: AccountModel) -> (r: bool)
        requires
            old(self).inv(),
        ensures
            final(self).inv(),
            final(self).faithful() == old(self).faithful(),
            old(self).faithful() ==> {
                &&& r <==> old(self).accounts().contains_key(account@.id)
                &&& r ==> stored_hashed(old(self).accounts(), final(self).accounts(), account@)
                &&& !r ==> final(self).accounts() == old(self).accounts()
            },
    ;

    /// Removes an existing account.
    fn delete_account(&mut self, id: String) -> (r: bool)
        requires
            old(self).inv(),
        ensures
            final(self).inv(),
            final(self).faithful() == old(self).faithful(),
            old(self).faithful() ==> {
                &&& r <==> old(self).accounts().contains_key(id@)
                &&& r ==> final(self).accounts() == old(self).accounts().remove(id@)
                &&& !r ==> final(self).accounts() == old(self).accounts()
            },
    ;
}

/// The account service over a storage port.
pub struct DaprAccountService<D> {
    account_dao: D,
}

impl<D: AccountDao> DaprAccountService<D> {
    /// A service over `account_dao`.
    pub fn new(account_dao: D) -> (r: Self)
        ensures
            r.accounts() == account_dao.accounts(),
            r.faithful() == account_dao.faithful(),
            r.inv() == account_dao.inv(),
    {
        DaprAccountService { account_dao }
    }

    /// The details of an entity, if there is one.
    fn to_account_details(&self, entity: &Option<AccountEntity>) -> (r: Option<AccountDetails>)
        ensures
            opt_details(r) == match entity {
                Some(e) => Some(details_of(e@)),
                None => None::<DetailsView>,
            },
    {
        match entity {
            Some(found_entity) => Some(AccountDetails::from_entity(found_entity)),
            None => None,
        }
    }

    /// Stores a new account with the given password hash, unless its email
    /// is taken.
    pub fn create_account_hashed(&mut self, account: AccountModel, password_hash: String) -> (r: bool)
        requires
            old(self).inv(),
        ensures
            final(self).inv(),
            final(self).faithful() == old(self).faithful(),
            old(self).faithful() ==> {
                &&& r <==> !email_taken(old(self).accounts(), account@.email)
                &&& r ==> final(self).accounts() == old(self).accounts().insert(
                    account@.id,
                    with_password(account@, password_hash@),
                )
                &&& !r ==> final(self).accounts() == old(self).accounts()
            },
    {
        let existing = self.account_dao.get_account_by_email(account.email.clone());
        proof {
            if self.account_dao.faithful() {
                lemma_first_with_email_held(
                    self.account_dao.accounts(),
                    self.account_dao.listing(),
                    account@.email,
                );
            }
        }
        if existing.is_some() {
            return false;
        }
        let mut entity = AccountEntity::from_model(&account);
        entity.password = password_hash;
        self.account_dao.create_account(entity)
    }

    /// Rewrites an existing account with the given password hash.
    pub fn update_account_hashed(&mut self, account: AccountModel, password_hash: String) -> (r: bool)
        requires
            old(self).inv(),
        ensures
            final(self).inv(),
            final(self).faithful() == old(self).faithful(),
            old(self).faithful() ==> {
                &&& r <==> old(self).accounts().contains_key(account@.id)
                &&& r ==> final(self).accounts() == old(self).accounts().insert(
                    account@.id,
                    with_password(account@, password_hash@),
                )
                &&& !r ==> final(self).accounts() == old(self).accounts()
            },
    {
        if self.account_dao.get_account_by_id(account.id.clone()).is_none() {
            return false;
        }
        let mut entity = AccountEntity::from_model(&account);
        entity.password = password_hash;
        self.account_dao.update_account(entity)
    }
}

impl<D: AccountDao> AccountService for DaprAccountService<D> {
    closed spec fn accounts(&self) -> Map<Seq<char>, AccountRecord> {
        self.account_dao.accounts()
    }

    closed spec fn listing(&self) -> Seq<AccountRecord> {
        self.account_dao.listing()
    }

    closed spec fn faithful(&self) -> bool {
        self.account_dao.faithful()
    }

    closed spec fn inv(&self) -> bool {
        self.account_dao.inv()
    }

    fn get_accounts(&self) -> (r: Vec<AccountDetails>) {
        let entities = self.account_dao.get_accounts();
        let r = details_list(&entities);
        proof {
            if self.account_dao.faithful() {
                let m = self.account_dao.accounts();
                let listed = records_of(entities@);
                let s = details_views(r@);
                assert(s.len() == listed.len());
                assert forall|k: int|
                    0 <= k < s.len() implies #[trigger] s[k] == details_of(listed[k]) by {
                    assert(s[k] == listing_details(listed)[k]);
                }
                assert forall|k: int| 0 <= k < s.len() implies shows(m, #[trigger] s[k]) by {
                    assert(holds(m, listed[k]));
                }
                assert forall|a: int, b: int| 0 <= a < b < s.len() implies #[trigger] s[a].id
                    != #[trigger] s[b].id by {
                    assert(listed[a].id != listed[b].id);
                }
                assert forall|id: Seq<char>| #[trigger] m.contains_key(id) implies exists|k: int|
                    0 <= k < s.len() && #[trigger] s[k].id == id by {
                    let k = choose|k: int| 0 <= k < listed.len() && #[trigger] listed[k].id == id;
                    assert(s[k].id == id);
                }
            }
        }
        r
    }

    fn get_account_by_id(&self, id: String) -> (r: Option<AccountDetails>) {
        let entity: Option<AccountEntity> = self.account_dao.get_account_by_id(id);
        self.to_account_details(&entity)
    }

    fn get_account_by_email(&self, email: String) -> (r: Option<AccountDetails>) {
        let entity: Option<AccountEntity> = self.account_dao.get_account_by_email(email);
        proof {
            if self.account_dao.faithful() {
                lemma_first_with_email_held(
                    self.account_dao.accounts(),
                    self.account_dao.listing(),
                    email@,
                );
            }
        }
        self.to_account_details(&entity)
    }

    fn validate_account(&self, credentials: CredentialsModel) -> (r: Option<AccountDetails>) {
        let found = self.account_dao.get_account_by_email(credentials.email);
        validate_found(found, &credentials.password)
    }

    fn create_account(&mut self, account: AccountModel) -> (r: bool) {
        let password_hash = hash_password(&account.password);
        let ghost model = account@;
        let ghost h = password_hash@;
        let r = self.create_account_hashed(account, password_hash);
        proof {
            if r && self.account_dao.faithful() {
                assert(self.account_dao.accounts()[model.id].password == h);
            }
        }
        r
    }

    fn update_account(&mut self, account: AccountModel) -> (r: bool) {
        let password_hash = hash_password(&account.password);
        let ghost model = account@;
        let ghost h = password_hash@;
        let r = self.update_account_hashed(account, password_hash);
        proof {
            if r && self.account_dao.faithful() {
                assert(self.account_dao.accounts()[model.id].password == h);
            }
        }
        r
    }

    fn delete_account(&mut self, id: String) -> (r: bool) {
        if self.account_dao.get_account_by_id(id.clone()).is_none() {
            return false;
        }
        self.account_dao.delete_account(id)
    }
}

} // verus!
