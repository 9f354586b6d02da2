//! Meeting-assistant core: localized notifications, user preferences with the
//! Arabic/Parakeet policy, and locale-aware prompt and template resolution.

pub mod text;
pub mod notifications;
pub mod preferences;
pub mod summary;
