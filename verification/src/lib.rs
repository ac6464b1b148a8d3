//! Export of a messaging history as JSON: the time window, the handle
//! directory, the selection and projection of message rows, and the text of the
//! output document.

pub mod dates;
pub mod error;
pub mod export;
pub mod handles;
pub mod json;
pub mod messages;
pub mod outside;
