pub mod api;
pub mod charge_command;
pub mod charge_stop;
pub mod connections;
pub mod protocol;
pub mod provision;
pub mod registration;
pub mod scan;
pub mod tcp;
