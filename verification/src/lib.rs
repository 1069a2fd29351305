pub mod text;
pub mod query;
pub mod name_map;
pub mod completion;
pub mod editor;
pub mod history;
pub mod sql_input;
pub mod i18n;
pub mod error;
pub mod config;
pub mod claude;
pub mod width;
pub mod table_view;
pub mod preview;
pub mod result_actions;
pub mod perf;
pub mod selector;
pub mod screen;
pub mod session;
pub mod retry;
pub mod tunnel;
pub mod startup;
