//! Parcel tracking: carrier detection, tracking-reply interpretation,
//! status classification, parcel-list editing, the bar selection and the
//! machine-readable status document, with their contracts proved by Verus.

pub mod api;
pub mod bar;
pub mod carriers;
pub mod cli;
pub mod dirstore;
pub mod json;
pub mod jsonout;
pub mod laws;
pub mod models;
pub mod order;
pub mod pattern;
pub mod setup;
pub mod status_laws;
pub mod storage;
pub mod text;
pub mod time;
pub mod tui;
