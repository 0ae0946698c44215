pub mod billing;
pub mod clients;
pub mod contracts;
pub mod gateway;
pub mod outbox;
pub mod text;
pub mod user;
