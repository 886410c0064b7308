//! The decision core of the JeTTY terminal application: tabs, windows, modal
//! overlays, timers and settings as plain values, with every rule proved.

pub mod actions;
pub mod anim;
pub mod answers;
pub mod buttons;
pub mod bytes;
pub mod colors;
pub mod commands;
pub mod config;
pub mod copymode;
pub mod detached;
pub mod detached_input;
pub mod effect;
pub mod events;
pub mod exits;
pub mod frame;
pub mod help;
pub mod hints;
pub mod input;
pub mod keys;
pub mod links;
pub mod modal;
pub mod mode;
pub mod notify;
pub mod panel;
pub mod pointer;
pub mod presence;
pub mod press;
pub mod reload;
pub mod schedule;
pub mod settings;
pub mod shells;
pub mod startup;
pub mod state;
pub mod steps;
pub mod strip;
pub mod tabs;
pub mod text;
pub mod titles;
pub mod wake;
pub mod windows;
pub mod zone;
