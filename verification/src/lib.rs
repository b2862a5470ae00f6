//! The verified core of the Kanyu desktop shell.

use vstd::prelude::*;

pub mod ai;
pub mod attrtable;
pub mod catalog;
pub mod cli;
pub mod codec;
pub mod commands;
pub mod console;
pub mod dialogs;
pub mod dock;
pub mod edit;
pub mod icons;
pub mod layerid;
pub mod layoutview;
pub mod map_theme;
pub mod mapview;
pub mod panels;
pub mod ribbon;
pub mod scene;
pub mod shell;
pub mod text;

verus! {
} // verus!
