//! Verified core of an IoT fleet service: the topic codec, the registry of
//! live broker sessions, the connection and supervision state machines, the
//! message ingestion rules and the request validation around them.

pub mod error_app;
pub mod ident;
pub mod topic;
pub mod text;
pub mod paginate;
pub mod broker_model;
pub mod transport;
pub mod broker_tool;
pub mod broker_connection;
pub mod supervisor;
pub mod latest_values;
pub mod data_store;
pub mod device_types;
pub mod device_message_model;
pub mod device_model;
pub mod config;
pub mod auth;
pub mod user;
pub mod broker_handler;
pub mod device_handler;
pub mod device_registration;
