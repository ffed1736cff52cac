//! Verified core of a modular metrics collection engine.
pub mod api;
pub mod export;
pub mod immich;
pub mod model;
pub mod password;
pub mod records;
pub mod scheduler;
pub mod settings;
pub mod split;
pub mod storage;
pub mod system;
pub mod text;
pub mod token;
pub mod zfs;
