//! The typed events that flow between the protocol boundary and the
//! dispatcher: inbound commands and outbound outcomes.

use vstd::prelude::*;
use crate::item::{Item, ItemView};

verus! {

/// Carries the candidate entry of an insert command.
#[derive(Debug)]
pub struct Candidate {
    pub object: Item,
}

/// Carries the key of a lookup command.
#[derive(Debug)]
pub struct Search {
    pub key: String,
}

/// A command for the dispatcher, received on its inbound channel.
#[derive(Debug)]
pub enum TransmitterEvent {
    AddNewItem(Candidate),
    GetItem(Search),
}

/// Mathematical model of an inbound command.
pub enum EventView {
    AddNewItem(ItemView),
    GetItem(Seq<char>),
}

impl View for TransmitterEvent {
    type V = EventView;

    open spec fn view(&self) -> EventView {
        match self {
            TransmitterEvent::AddNewItem(c) => EventView::AddNewItem(c.object@),
            TransmitterEvent::GetItem(s) => EventView::GetItem(s.key@),
        }
    }
}

/// A typed outcome emitted by the dispatcher, one per processed command.
#[derive(Debug)]
pub enum InformativeEvent {
    /// The entry with this identifier was stored.
    Added(u128),
    /// An outcome of a store could not be delivered.
    AddError,
    /// No stored entry carries the looked-up key.
    NotFound,
    /// A snapshot of the first stored entry carrying the looked-up key.
    Found(Item),
    /// An outcome of a lookup could not be delivered.
    GetError,
    /// The insert was rejected because the pack's capacity is exhausted.
    CapacityFull,
}

/// Mathematical model of an outcome.
pub enum InfoView {
    Added(u128),
    AddError,
    NotFound,
    Found(ItemView),
    GetError,
    CapacityFull,
}

impl View for InformativeEvent {
    type V = InfoView;

    open spec fn view(&self) -> InfoView {
        match self {
            InformativeEvent::Added(u) => InfoView::Added(*u),
            InformativeEvent::AddError => InfoView::AddError,
            InformativeEvent::NotFound => InfoView::NotFound,
            InformativeEvent::Found(it) => InfoView::Found(it@),
            InformativeEvent::GetError => InfoView::GetError,
            InformativeEvent::CapacityFull => InfoView::CapacityFull,
        }
    }
}

} // verus!
