use vstd::prelude::*;

verus! {

/// Identifier of an account: an integer, unique per account.
#[derive(Debug, Clone, PartialEq, Eq, Hash)]
pub struct AccountId(pub i32);

/// A persisted account. Its identity is `id`, assigned once when the account is created.
#[derive(Debug, Clone)]
pub struct Account {
    pub id: AccountId,
    pub email: String,
    pub password: String,
}

/// What a caller supplies to create an account: an `Account` without its identity.
#[derive(Debug, Clone)]
pub struct NewAccount {
    pub email: String,
    pub password: String,
}

} // verus!
