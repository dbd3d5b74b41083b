//! HTTP layer: request validation, format conversion and response shaping.

pub mod error;
pub mod constants;
pub mod dto;
pub mod validation;
pub mod openai;
pub mod gemini;
pub mod health;
pub mod auth;
pub mod rate_limit;
pub mod inference;
pub mod datetime;
pub mod gates;
pub mod sse;
pub mod ollama;
pub mod provider;
pub mod session;
pub mod admin;
pub mod model_sync;
pub mod vision;
pub mod paging;
pub mod embeddings;
pub mod keys;
pub mod models;
pub mod providers;
pub mod gemini_reply;
pub mod media;
pub mod conversations;
pub mod servers;
pub mod native;
pub mod dashboard;
