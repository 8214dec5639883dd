//! Building blocks for a sketchybar configuration: property models that
//! render to sketchybar command-line arguments, the command lines themselves,
//! and the decisions the status-bar items take on the data they collect.

pub mod text;
pub mod types;
pub mod event;
pub mod pieces;
pub mod props;
pub mod item_model;
pub mod item;
pub mod style;
pub mod bar;
pub mod components;
pub mod api;
pub mod strs;
pub mod json;
pub mod events;
pub mod network;
pub mod themes;
pub mod settings;
pub mod keyboard_layout;
pub mod battery;
pub mod bluetooth;
pub mod media;
pub mod volume;
pub mod simple_items;
pub mod apple;
pub mod config;
