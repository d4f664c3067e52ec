//! Verified core of the Bosca content server: query building, permission
//! decisions, workflow state transitions, cache policies and the other
//! decisions that the server's data stores make around their database calls.
pub mod caching_headers;
pub mod text;
pub mod json;
pub mod query;
pub mod query_placeholders;
pub mod ids;
pub mod models;
pub mod permissions;
pub mod context;
pub mod workflow;
pub mod validation;
pub mod cache;
pub mod bible_cache;
pub mod configurations;
pub mod notifier;
pub mod files;
pub mod collection_files;
pub mod document_collaboration;
pub mod security;
pub mod security_oauth2;
pub mod settings;
pub mod content;
pub mod collection_batch;
pub mod comments;
pub mod metadata_input;
pub mod templates;
