//! Account directory core: account records, the storage port with an
//! in-memory store, the account service that enforces the business rules on
//! top of any store, and the framing of requests for a remote state store.

pub mod account;
pub mod dao;
pub mod dapr;
pub mod entity;
pub mod json;
pub mod laws;
pub mod memory;
pub mod models;
pub mod password;
pub mod service;

pub use account::Account;
pub use dao::AccountDao;
pub use dapr::{DaprAccountDao, Filter};
pub use entity::{AccountEntity, AccountRecord};
pub use memory::MemoryAccountDao;
pub use models::{AccountDetails, AccountModel, CredentialsModel, DetailsView};
pub use service::{AccountService, DaprAccountService};
