//! An in-memory key-value store with a capacity-bounded entry collection,
//! a line-oriented wire protocol, and a single-writer dispatch loop.

use vstd::prelude::*;

pub mod channel;
pub mod command;
pub mod events;
pub mod item;
pub mod message;
pub mod pack;
pub mod server;
pub mod strutil;
pub mod value;

pub use command::Command;
pub use events::{Candidate, InformativeEvent, Search, TransmitterEvent};
pub use item::{Item, NewItemError};
pub use message::Message;
pub use pack::{Pack, PackState};
pub use value::Value;

verus! {

/// Capacity of a pack: the greatest number of entries it will hold.
pub const MAX_ITEM: u16 = 1000;

/// Greatest allowed key length, in bytes.
pub const MAX_KEY_LEN: usize = 16;

/// Greatest allowed length of a text value, in bytes.
pub const MAX_VALUE_LEN: usize = 64;

} // verus!
