use vstd::prelude::*;

use crate::models::AccountModel;

verus! {

/// The mathematical content of an account: four character sequences.
pub struct AccountRecord {
    pub id: Seq<char>,
    pub name: Seq<char>,
    pub email: Seq<char>,
    pub password: Seq<char>,
}

/// The storage-shaped account record.
///
/// `id` is the key under which the record is stored; `password` holds a
/// one-way hash once the record has been written by the account service.
pub struct AccountEntity {
    pub id: String,
    pub name: String,
    pub email: String,
    pub password: String,
}

impl View for AccountEntity {
    type V = AccountRecord;

    open spec fn view(&self) -> AccountRecord {
        AccountRecord {
            id: self.id@,
            name: self.name@,
            email: self.email@,
            password: self.password@,
        }
    }
}

impl Clone for AccountEntity {
    fn clone(&self) -> (r: Self)
        ensures
            r@ == self@,
    {
        AccountEntity {
            id: self.id.clone(),
            name: self.name.clone(),
            email: self.email.clone(),
            password: self.password.clone(),
        }
    }
}

impl AccountEntity {
    /// Copies the four fields of a model into a new entity.
    pub fn from_model(account: &AccountModel) -> (r: Self)
        ensures
            r@ == account@,
    {
        AccountEntity {
            id: account.id.clone(),
            name: account.name.clone(),
            email: account.email.clone(),
            password: account.password.clone(),
        }
    }
}

} // verus!
