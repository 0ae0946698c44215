pub mod account;
pub mod api;
pub mod api_types;
pub mod charge_end;
pub mod charge_fee;
pub mod charge_start;
pub mod checkout;
pub mod ledger;
pub mod orders;
pub mod payment_receipt;
pub mod prepay;
pub mod quote_confirmation;
pub mod receipt_digest;
pub mod refund;
pub mod refund_execution;
pub mod refund_result;
pub mod refund_review;
pub mod risk;
pub mod session;
pub mod status;
pub mod wallet;
pub mod wallet_refund;
