pub mod aggregate;
pub mod apply;
pub mod authorize;
pub mod caller;
pub mod command;
pub mod decision;
pub mod deps;
pub mod effects;
pub mod error;
pub mod events;
pub mod fork;
pub mod history;
pub mod ids;
pub mod laws;
pub mod offers;
pub mod outcome;
pub mod progress;
pub mod report;
pub mod retry;
pub mod run;
pub mod schedule;
pub mod state;
pub mod transcript;
pub mod tree;
pub mod working;
