//! Enterprise architecture platform: the domain rules of value streams,
//! spaces and their members, user accounts, authentication and authorization,
//! version numbering and configuration defaults.
use vstd::prelude::*;

pub mod analysis;
pub mod auth;
pub mod bootstrap;
pub mod business_error;
pub mod catalog;
pub mod config;
pub mod crypto;
pub mod entities;
pub mod enums;
pub mod graphql_guard;
pub mod ids;
pub mod llm;
pub mod space;
pub mod text;
pub mod user;
pub mod user_error;
pub mod value_stream;
pub mod value_stream_service;
pub mod version;
