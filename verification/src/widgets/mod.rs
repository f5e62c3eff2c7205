pub mod css;
pub mod launcher;
