//! Verified core logic of a container-management toolkit.
pub mod bridge;
pub mod buildx;
pub mod bytes;
pub mod compose;
pub mod credentials;
pub mod daemon;
pub mod discovery;
pub mod dockerfile;
pub mod codec;
pub mod errors;
pub mod etcd;
pub mod etcd_api;
pub mod hosts;
pub mod image;
pub mod manifest;
pub mod network;
pub mod orchestrate;
pub mod registry;
pub mod runtime;
pub mod service;
pub mod settings;
pub mod storage;
pub mod text;
pub mod tools;
pub mod types;
pub mod windows_create;
pub mod yaml;
