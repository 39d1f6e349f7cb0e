//! The logic of a panel applet that shows the CPU's frequency and usage and sets its
//! frequency scaling: reading what the kernel tells, deciding what is shown and what is to
//! be changed, and making the commands that change it. Input, output and drawing are left
//! to the program around it.

pub mod applet;
pub mod config;
pub mod cpu;
pub mod helper;
pub mod label;
pub mod laws;
pub mod page;
pub mod stat_laws;
pub mod state;
pub mod text;
pub mod usage;
pub mod view;
