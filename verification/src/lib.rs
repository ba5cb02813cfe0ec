//! Verified planning and inventory logic for a rule-based disk cleanup tool.
pub mod allowlist;
pub mod availability;
pub mod model;
pub mod panels;
pub mod paths;
pub mod rules;
pub mod path_order;
pub mod sort;
pub mod target_list;
pub mod text;
pub mod tui;
pub mod update;
pub mod workflow;
pub mod cleaner;
pub mod cli;
pub mod executor;
pub mod footer;
pub mod global;
pub mod history;
pub mod lists;
pub mod platform;
pub mod protection;
pub mod report;
pub mod scanner;
pub mod size_format;
pub mod standalone;
