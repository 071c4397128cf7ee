pub mod text;
pub mod digits;
pub mod chain;
pub mod rpc;
pub mod target_endpoint;
pub mod settings;
pub mod http;
pub mod request;
pub mod response;
pub mod eth;
pub mod ttl;
pub mod gateway_config;
pub mod config;
pub mod request_pool;
pub mod upstream;
pub mod lazy_request;
pub mod chain_handler;
pub mod gateway;
pub mod cache;
pub mod ws_sessions;
pub mod node_subscriptions;
pub mod server;
pub mod coalescing;
