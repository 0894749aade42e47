//! Engine of a slideshow that shows the images of one watched directory.

pub mod catalog;
pub mod engine;
pub mod kind;
pub mod picture;
pub mod scanner;
pub mod scheduler;
pub mod selector;
pub mod viewport;
pub mod watcher;
