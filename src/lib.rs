//! A small persistent to-do list: records, the operations that create,
//! change and remove them, and the text that shows them.

pub mod clock;
pub mod display;
pub mod laws;
pub mod loading;
pub mod menu;
pub mod store;
pub mod todo;
