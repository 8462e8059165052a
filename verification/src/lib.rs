#![allow(non_camel_case_types)]

use vstd::prelude::*;

pub mod backdrop;
pub mod config;
pub mod config_file;
pub mod cursor;
pub mod geometry;
pub mod idle;
pub mod inspector;
pub mod ipc;
pub mod kdl_doc;
pub mod keyboard;
pub mod layer_shell;
pub mod lock;
pub mod pixman;
pub mod pointer;
pub mod settings;
pub mod shortcuts;
pub mod window_management;
pub mod text;

verus! {
} // verus!
