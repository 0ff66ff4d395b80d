//! What callers may rely on, stated over the operations themselves: over what
//! goes into a call and what comes out of it, and over how calls relate.

pub mod calls;
pub mod demo;
pub mod guards;
pub mod locks;
pub mod ring;
pub mod scripts;
pub mod server;
pub mod service;
pub mod values;
pub mod words;
