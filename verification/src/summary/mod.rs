//! Locale-aware prompts and meeting templates for the summary pipeline.

pub mod prompts;
pub mod templates;
