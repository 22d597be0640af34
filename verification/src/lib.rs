//! Chunked peer-to-peer file transfer, without the I/O.
//!
//! The crate holds the decisions of the transfer protocol and proves what
//! they promise. A driver around it owns the files and the message bus: each
//! process here hands its driver one action at a time and is told how it
//! went.
//!
//! - [`codec`]: how a file is cut into windows, and how progress is measured.
//! - [`address`], [`message`], [`error`]: the peers, what they tell each
//!   other, and how a transfer fails.
//! - [`event`]: the actions that a process asks for, and the events that it
//!   is told.
//! - [`worker`]: the worker of one transfer, as requestor or as sender.
//! - [`gateway`]: starts a worker for a transfer.
//! - [`orchestrator`], [`catalog`]: the long-lived process of a node, and
//!   the files that it has on offer.
//! - [`text`]: the texts that the processes show.
//! - [`laws`]: what holds of every worker and of whole transfers.

pub mod address;
pub mod catalog;
pub mod codec;
pub mod error;
pub mod event;
pub mod gateway;
pub mod laws;
pub mod message;
pub mod orchestrator;
pub mod text;
pub mod worker;
