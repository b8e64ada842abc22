//! Verified core logic of the KennWilliamson.org backend: slugs, blog text
//! processing, OAuth state handling, tokens, roles and service rules.

pub mod text;
pub mod blog_text;
pub mod user_slug;
pub mod oauth_state;
pub mod tokens;
pub mod roles;
pub mod admin;
pub mod blog_posts;
pub mod auth_rules;
pub mod jwt;
pub mod mock_oauth;
pub mod queries;
pub mod responses;
pub mod webhooks;
pub mod slug_utils;
pub mod oauth_flow;
pub mod user_records;
