//! What holds of the results of the library's functions, whatever they are given. A law speaks of
//! what a call may return, of what several calls return, or of the states that calls lead to.

pub mod cache;
pub mod capability;
pub mod dispatcher;
pub mod egl;
pub mod frame;
pub mod image;
pub mod import;
pub mod layout;
pub mod record;
pub mod resources;
pub mod submission;
pub mod sync;
pub mod text;
pub mod transaction;
