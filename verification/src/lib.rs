//! Distributed locking with fencing tokens, over a Redis store.
//!
//! The library holds the rules: what is sent to the store for each operation,
//! what the store's answer means, and what follows. It sends nothing itself.
//! Operations therefore come in parts: one gives the call to send, the next
//! takes the answer. Times are nanoseconds on the caller's clock.
//!
//! The locks are in [`single`], [`reentrant`], [`rwlock`], [`fair`], [`multi`],
//! [`semantic`] and [`redlock`]; [`latch`] and [`testament`] stand beside them.
//! [`slots`] and [`leases`] say under which names and for how long something is
//! kept beside a lock, and [`scan`] lists the locks that are held.
//! [`auth`], [`registry`], [`sessions`], [`watch_hub`] and [`service`] make up
//! the server, [`demo`], [`demo_handles`] and [`demo_coordination`] its web
//! demo. [`realtime`] turns recorded traffic into histories to be judged.

pub mod auth;
pub mod command;
pub mod config;
pub mod demo;
pub mod demo_coordination;
pub mod demo_handles;
pub mod error;
pub mod fair;
pub mod fencing;
pub mod latch;
pub mod lattice;
pub mod leases;
pub mod multi;
pub mod options;
pub mod owner;
pub mod payloads;
pub mod poll;
pub mod promises;
pub mod realtime;
pub mod redlock;
pub mod reentrant;
pub mod registry;
pub mod rwlock;
pub mod scan;
pub mod semantic;
pub mod service;
pub mod sessions;
pub mod single;
pub mod slots;
pub mod span;
pub mod status;
pub mod table;
pub mod testament;
pub mod text;
pub mod watch_hub;
pub mod watchdog;
