//! Core of a terminal dashboard for pull requests: the action vocabulary and
//! dispatch rules, the runaway-loop circuit breaker, the multi-key keybinding
//! resolver, the modal command palette, the notification queue, and the
//! pagination engine that merges fetched pages into one deduplicated, sorted
//! list.  Terminal drawing, networking and the async runtime live outside this
//! crate and talk to it through plain values.

pub mod mode;
pub mod event;
pub mod text;
pub mod notifications;
pub mod pull_request;
pub mod action;
pub mod circuit_breaker;
pub mod order;
pub mod merge;
pub mod keys;
pub mod command_palette;
pub mod dispatch;
pub mod provider;
pub mod pull_request_info_overlay;
pub mod pull_request_list;
pub mod info_overlay;
pub mod thing_list;
pub mod repo_list;
pub mod keystrokes;
