//! The core of a terminal to-do list: the screens and what they make of each
//! key, the cursor they share, the task record with the statements that store
//! it, and the decision whether a newer release is published. Nothing here
//! draws, reads keys, opens a database or uses the network. A screen returns
//! an action for whoever runs it, and takes the outcome back as plain values.

pub mod model;
pub mod persistence;
pub mod screens;
pub mod system;
pub mod text;
pub mod ui;
