//! Event coordination for a terminal chat client: the control-file signalling
//! protocol, the events of the coordination channel, the decisions of the
//! single event-consuming loop, and the producer side of a streamed answer.

pub mod coordinator;
pub mod event;
pub mod raifus;
pub mod stream;
