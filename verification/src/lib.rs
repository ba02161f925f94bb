//! `depot_core`: the launcher's entries, their stack, search and the widget logic.
pub mod entry;
pub mod stack;
pub mod id_manager;
pub mod focus;
pub mod input_area;
pub mod list;
pub mod shapes;
pub mod layout;
pub mod control;
pub mod event;
pub mod font;
pub mod kit;
pub mod search;
pub mod toml_model;
pub mod entryspace;
pub mod lua;
pub mod dylib;
pub mod app_loop;
pub mod handle;
pub mod calc;
pub mod font_mgr;
