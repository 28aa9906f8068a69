//! Interaction core of a terminal catalog browser: the catalog with its
//! selection cursor, the two input modes, the text capture buffer, and the
//! decision of when the image shown for the selected item must be bound anew.
pub mod anime_list;
pub mod app;
pub mod input;
