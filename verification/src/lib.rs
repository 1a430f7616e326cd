//! The verified core of a small game launcher: the progress tracker of the
//! workshop sync, the decisions of the sync run, and the rules of the launch
//! buttons.

pub mod button;
pub mod config;
pub mod decimal;
pub mod error;
pub mod install_info;
pub mod launcher;
pub mod pipeline;
pub mod query;
pub mod startup;
pub mod sync_state;
pub mod window;
