pub mod clock;
pub mod constants;
pub mod debug;
pub mod debug_panel;
pub mod draw_blocks;
pub mod events;
pub mod fmt;
pub mod gui_state;
pub mod help;
pub mod ids;
pub mod keys;
pub mod idset;
pub mod input;
pub mod loading_state;
pub mod main_view;
pub mod layout;
pub mod mock;
pub mod model;
pub mod panels;
pub mod terminal;
pub mod text;
pub mod ui_loop;
pub mod ui_state;
pub mod view_models;
