pub mod account;
pub mod pagination;
pub mod question;
