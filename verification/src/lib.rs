//! Credential-issuance and session-management core for a multi-role web
//! application.
//!
//! The crate authenticates users, issues and validates signed expiring
//! session tokens, enforces role-based authorization, and manages the
//! lifecycle of single-use verification artifacts (email verification and
//! password reset).  Persistent storage is modelled by an in-memory
//! repository; outbound email is modelled by an outbox of notices that a
//! transport layer drains and delivers.

pub mod codec;
pub mod controller;
pub mod dto;
pub mod errors;
pub mod hasher;
pub mod role;
pub mod seed;
pub mod service;
pub mod store;
pub mod token;
pub mod user;
