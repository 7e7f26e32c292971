use vstd::prelude::*;

use crate::entity::{AccountEntity, AccountRecord};

verus! {

/// The mathematical content of the details shown to callers: no password.
pub struct DetailsView {
    pub id: Seq<char>,
    pub name: Seq<char>,
    pub email: Seq<char>,
}

/// The details of a record, which leave its password out.
pub open spec fn details_of(r: AccountRecord) -> DetailsView {
    DetailsView { id: r.id, name: r.name, email: r.email }
}

/// The account as a caller submits it for writing; `password` is plaintext.
pub struct AccountModel {
    pub id: String,
    pub name: String,
    pub email: String,
    pub password: String,
}

impl View for AccountModel {
    type V = AccountRecord;

    open spec fn view(&self) -> AccountRecord {
        AccountRecord {
            id: self.id@,
            name: self.name@,
            email: self.email@,
            password: self.password@,
        }
    }
}

impl Clone for AccountModel {
    fn clone(&self) -> (r: Self)
        ensures
            r@ == self@,
    {
        AccountModel {
            id: self.id.clone(),
            name: self.name.clone(),
            email: self.email.clone(),
            password: self.password.clone(),
        }
    }
}

impl AccountModel {
    /// Takes the fields of an entity over into a model.
    pub fn from_entity(entity: AccountEntity) -> (r: Self)
        ensures
            r@ == entity@,
    {
        AccountModel {
            id: entity.id,
            name: entity.name,
            email: entity.email,
            password: entity.password,
        }
    }

    /// Copies the fields of an entity into a model.
    pub fn _from_entity(entity: &AccountEntity) -> (r: Self)
        ensures
            r@ == entity@,
    {
        AccountModel {
            id: entity.id.clone(),
            name: entity.name.clone(),
            email: entity.email.clone(),
            password: entity.password.clone(),
        }
    }
}

/// What is shown of an account to callers: never its password.
pub struct AccountDetails {
    pub id: String,
    pub name: String,
    pub email: String,
}

impl View for AccountDetails {
    type V = DetailsView;

    open spec fn view(&self) -> DetailsView {
        DetailsView { id: self.id@, name: self.name@, email: self.email@ }
    }
}

impl Clone for AccountDetails {
    fn clone(&self) -> (r: Self)
        ensures
            r@ == self@,
    {
        AccountDetails { id: self.id.clone(), name: self.name.clone(), email: self.email.clone() }
    }
}

impl AccountDetails {
    /// The details of an entity: its id, name and email.
    pub fn from_entity(entity: &AccountEntity) -> (r: Self)
        ensures
            r@ == details_of(entity@),
    {
        AccountDetails {
            id: entity.id.clone(),
            name: entity.name.clone(),
            email: entity.email.clone(),
        }
    }

    /// The details of a model: its id, name and email.
    pub fn _from_model(model: &AccountModel) -> (r: Self)
        ensures
            r@ == details_of(model@),
    {
        AccountDetails { id: model.id.clone(), name: model.name.clone(), email: model.email.clone() }
    }
}

/// An email and a plaintext password, offered for validation.
pub struct CredentialsModel {
    pub email: String,
    pub password: String,
}

impl Clone for CredentialsModel {
    fn clone(&self) -> (r: Self)
        ensures
            r.email@ == self.email@,
            r.password@ == self.password@,
    {
        CredentialsModel { email: self.email.clone(), password: self.password.clone() }
    }
}

} // verus!
