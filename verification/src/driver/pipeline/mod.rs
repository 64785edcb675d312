//! The stages that inbound and outbound PDUs pass through.
pub mod authentication;
pub mod lower;
pub mod segmentation;
pub mod provisioning_bearer;
pub mod auth_value;
pub mod transcript;
pub mod provisionable;
pub mod caches;
pub mod relay;
pub mod mesh;
pub mod transmit;
pub mod publish;
pub mod upper;
