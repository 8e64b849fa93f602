//! Verified core of the ario download manager: queue scheduling, transfer
//! reconciliation, aria2 option handling and the terminal client's state logic.
pub mod text;
pub mod enums;
pub mod clock;
pub mod schedule;
pub mod finetune;
pub mod queue;
pub mod control;
pub mod live;
pub mod aria2;
pub mod category;
pub mod config;
pub mod download;
pub mod transfer;
pub mod supervisor;
pub mod textops;
pub mod glyphs;
pub mod panes;
pub mod overlays;
pub mod api;
pub mod lifecycle;
pub mod deletion;
pub mod actions;
pub mod units;
pub mod table;
pub mod keys;
pub mod queue_editor;
pub mod torrent_form;
pub mod client;
pub mod client_lists;
pub mod clipboard;
pub mod client_forms;
pub mod client_editors;
pub mod launch;
pub mod refill;
pub mod rpc;
pub mod errors;
pub mod theme;
pub mod help_layout;
pub mod status_bar;
