pub mod api;
pub mod api_types;
pub mod charge_fee;
pub mod engine;
pub mod metered_pricing;
pub mod quote_pricing;
pub mod split;
pub mod stream_consumer;
