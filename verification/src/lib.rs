//! A verified core for a multi-tenant account backend.
//!
//! The library models the transactional persistence-and-authentication layer
//! of an account server: user accounts and the files they own live in an
//! in-memory relational store, every multi-step mutation runs inside an
//! execution context that is committed or rolled back exactly once, and
//! bearer-token authentication is bound to each account's password-reset
//! timestamp.  Password hashing and token signing are performed by outside
//! crates behind a small set of trusted wrappers.

pub mod auth;
pub mod config;
pub mod crypto;
pub mod dto;
pub mod file_repository;
pub mod file_service;
pub mod model;
pub mod outcome;
pub mod store;
pub mod user_repository;
pub mod user_service;
pub mod util;
pub mod validation;
