//! Control plane for a group of long-lived coding agents.

pub mod agents;
pub mod backend;
pub mod binding;
pub mod bridge;
pub mod columns;
pub mod config;
pub mod control;
pub mod courier;
pub mod course;
pub mod decide;
pub mod decision;
pub mod delivery;
pub mod dialogue;
pub mod dispatch;
pub mod display;
pub mod draft;
pub mod failure;
pub mod history;
pub mod host;
pub mod ids;
pub mod json;
pub mod keeping;
pub mod ledger;
pub mod linking;
pub mod listening;
pub mod managed;
pub mod mending;
pub mod models;
pub mod order;
pub mod panes;
pub mod promises;
pub mod prompts;
pub mod record;
pub mod refusals;
pub mod remote;
pub mod removal;
pub mod repair;
pub mod reports;
pub mod requests;
pub mod rounds;
pub mod runs;
pub mod sessions;
pub mod snapshot;
pub mod sorting;
pub mod standing;
pub mod startup;
pub mod state;
pub mod storage;
pub mod surroundings;
pub mod table;
pub mod tasks;
pub mod text;
pub mod time;
pub mod upkeep;
pub mod watch;
pub mod wording;
pub mod words;
pub mod work;
