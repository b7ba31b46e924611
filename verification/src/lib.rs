//! Verified core of the Portal health monitoring service.
//!
//! The service polls a list of downstream services, keeps the last known
//! status of each together with a history of incidents, and tells a Discord
//! channel about outages, changes during an outage, recoveries, long outages
//! and the past week. This library holds the decisions: what a response means,
//! when an outage becomes an incident, what is announced and how it reads, when
//! a reminder is due, when the next weekly report goes out and what it says.
//! Network, database and clock stay with the program around it, which hands
//! plain values in and acts on the plain values that come back.

pub mod check;
pub mod clock;
pub mod discord;
pub mod incidents;
pub mod models;
pub mod poll;
pub mod poll_laws;
pub mod poll_loop;
pub mod reminders;
pub mod rows;
pub mod schedule;
pub mod settings;
pub mod state;
pub mod text;
pub mod watchers;
pub mod webhook;
pub mod weekly;
