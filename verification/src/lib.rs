//! Verified core of a terminal front end for an interactive debugging session.

pub mod console;
pub mod gui;
pub mod keys;
pub mod pager;
pub mod records;
pub mod terminal;
pub mod widgets;
