//! The editing core of a terminal SQL client: a multi-line text buffer with a
//! display-width cursor, the session around it, the key dispatcher, and the
//! bookkeeping of submitted queries.
pub mod batch;
pub mod buffer;
pub mod cli;
pub mod dispatch;
pub mod editor;
pub mod query;
pub mod text;
