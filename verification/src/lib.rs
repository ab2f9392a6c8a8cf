//! The request pipeline of a one-page news digest: which upstream resources to
//! ask for, which answers to keep, and the HTML page that shows them.

pub mod pipeline;
pub mod render;
pub mod story;
pub mod upstream;
