//! A command and event bridge between a user interface and the process that hosts it.
//!
//! The interface issues named commands and gets one typed result for each; the host pushes
//! one-way navigation events back. Every component is explicit state that is made once and
//! handed round by reference: nothing here is global, and nothing here performs input or
//! output. Whoever owns the window and the transport drives the components and does what
//! they ask for.
//!
//! On the side of the interface:
//! - [`invoke::InvokeClient`] validates a command, hands it to a transport and names every
//!   way in which the call can fail;
//! - [`login::LoginFlow`] takes the login form from submission to an outcome, one login at a
//!   time;
//! - [`navigation::NavigationController`] follows `goto` events from screen to screen;
//! - [`app::App`] is the three of them as one state machine over messages.
//!
//! On the side of the host:
//! - [`registry::CommandRegistry`] is the table from command names to handlers;
//! - [`bus::EventBus`] says which listeners an event is for, and in which order;
//! - [`host`] holds the host's own two commands.
//!
//! Each module states what its functions do over plain values (texts, sequences, maps), and
//! proves the laws that hold of every run: that no two logins are pending at once, that
//! every login ends in one outcome, that a result travels intact, that listeners are served
//! in the order in which they subscribed.

pub mod app;
pub mod bus;
pub mod command;
pub mod error;
pub mod event;
pub mod host;
pub mod invoke;
pub mod login;
pub mod navigation;
pub mod record;
pub mod registry;
pub mod text;
