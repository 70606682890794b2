//! Verified core of a web backend: password hashing schemes, request
//! context, configuration loading, time stamps, story pagination and the
//! decisions that the services take around their I/O.

pub mod ctx;
pub mod text;
pub mod b64;
pub mod pwd;
pub mod envs;
pub mod config;
pub mod time;
pub mod hnstory;
pub mod retry;
pub mod rpc;
pub mod web;
pub mod dev_db;
pub mod kafka;
pub mod sse;
