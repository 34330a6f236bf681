//! Decision logic of a message-queue log relay: which broker settings a
//! consumer uses, how it steps through its setup, and what it does with each
//! delivery, stop request and failure.

pub mod config;
pub mod consumer;
pub mod trace;
pub mod settings;
pub mod managers;
pub mod service;
