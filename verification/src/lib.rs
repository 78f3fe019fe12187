//! A variant of `std::sync::mpsc` whose senders support `map`-style
//! operations: a sender can be derived from another that transforms, filters
//! or splits the values it is handed before they reach the channel.
//!
//! `Receiver` is `std::sync::mpsc::Receiver`.
mod boxed;
mod filter_mapped;
mod filtered;
mod laws;
mod mapped;
mod raw;
mod sender;
mod std_channel;
mod teed;

pub use filter_mapped::{filter_map_sends, FilterMappedSender};
pub use filtered::FilteredSender;
pub use laws::{
    lemma_filter_map_guard_is_filter, lemma_filter_map_is_map_then_filter,
    lemma_filter_map_some_is_map, lemma_map_identity, lemma_map_then_map,
};
pub use mapped::MappedSender;
pub use raw::{channel, std_pair, std_sends, RawSender};
pub use sender::{
    both_failed, dropped, err_only_if_lost, none_accepted, CloneAlike, ExtSender,
    TransformableSender,
};
pub use std::sync::mpsc::Receiver;
pub use teed::{tee_sends, TeedSender};
