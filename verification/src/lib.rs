//! Decision logic of the vibepanel dock and its launcher widget.

pub mod config;
pub mod dock;
pub mod text;
pub mod widgets;
