//! The verified core of the schematic editor's application shell.
//!
//! The shell is the window around KiCad's schematic: menus, toolbars, the tool
//! palette, the key map, the status bar. This crate holds the parts of it that
//! decide things — which tools exist and what they are called, how KiCad's key
//! names become keystrokes, which commands a live host offers, how the grid and
//! the display units step — each with a contract that Verus proves.
//!
//! World coordinates are KiCad internal units; one eeschema internal unit is
//! 100 nm.

pub mod commands;
pub mod grid;
pub mod text;
pub mod input;
pub mod tools;
pub mod tool_facts;
pub mod shell_commands;
pub mod hotkeys;
pub mod menus;
pub mod catalogue;
pub mod keymap;
pub mod menubar;
pub mod demo;
pub mod routing;
pub mod dialogs;
pub mod native_menu;
pub mod tool_state;
pub mod stats;
pub mod design;
pub mod erc;
pub mod document_fields;
pub mod symbol_browser;
pub mod numbers;
pub mod simulation_form;
pub mod item_properties;
pub mod palette;
pub mod frame_requests;
pub mod pointer;
pub mod shell_flow;
pub mod toolbar;
pub mod dialog_windows;
pub mod context_menu;
