pub mod text;
pub mod maestro_ops;
pub mod layout_ops;
pub mod schematic_ops;
pub mod window_ops;
pub mod number;
pub mod ocean;
pub mod chars;
pub mod error;
pub mod guard;
pub mod session;
pub mod text_input;
pub mod models;
pub mod tui_app;
pub mod config;
pub mod tunnel;
pub mod bridge;
pub mod editor;
pub mod tui_state;
pub mod envfile;
pub mod jobs;
pub mod tui_action;
pub mod schematic_build;
pub mod spectre;
pub mod sim_flow;
pub mod window_cmd;
pub mod status;
pub mod maestro_cmd;
pub mod overlay_layout;
pub mod output;
pub mod daemon;
