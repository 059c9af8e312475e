//! The connection writer: the one consumer of a connection's queue and
//! the one owner of its transport. What it does next follows from what
//! happened last.

use vstd::prelude::*;
use crate::wire::{guard, guarded};

verus! {

/// What happened at the writer.
pub enum WriterEvent {
    /// The writer has started.
    Started,
    /// A frame came off the queue.
    Received(String),
    /// The queue has no sender left.
    Disconnected,
    /// The write ended; `true` where it succeeded.
    Written(bool),
    /// The flush ended; `true` where it succeeded.
    Flushed(bool),
}

/// Why a writer stops.
#[derive(Debug, Clone, Copy, PartialEq, Eq, Structural)]
pub enum WriterExit {
    /// No producer is left: a clean end.
    QueueClosed,
    WriteFailed,
    FlushFailed,
}

/// What the writer does next.
pub enum WriterAction {
    /// Block until the next frame comes off the queue.
    Receive,
    /// Write these characters to the transport.
    Write(String),
    /// Flush the transport.
    Flush,
    /// End the writer, which drops the queue's receiving half.
    Stop(WriterExit),
}

/// The writer's rule: a received frame is written behind a line feed, a
/// write is followed by a flush, a flush by the next receive; a failed
/// write or flush, or a queue without senders, ends the writer.
pub fn writer_step(event: WriterEvent) -> (action: WriterAction)
    ensures
        match event {
            WriterEvent::Started => action is Receive,
            WriterEvent::Received(frame) => action matches WriterAction::Write(line) && line@
                == guarded(frame@),
            WriterEvent::Disconnected => action matches WriterAction::Stop(exit) && exit
                == WriterExit::QueueClosed,
            WriterEvent::Written(done) => if done {
                action is Flush
            } else {
                action matches WriterAction::Stop(exit) && exit == WriterExit::WriteFailed
            },
            WriterEvent::Flushed(done) => if done {
                action is Receive
            } else {
                action matches WriterAction::Stop(exit) && exit == WriterExit::FlushFailed
            },
        },
{
    match event {
        WriterEvent::Started => WriterAction::Receive,
        WriterEvent::Received(frame) => WriterAction::Write(guard(frame.as_str())),
        WriterEvent::Disconnected => WriterAction::Stop(WriterExit::QueueClosed),
        WriterEvent::Written(true) => WriterAction::Flush,
        WriterEvent::Written(false) => WriterAction::Stop(WriterExit::WriteFailed),
        WriterEvent::Flushed(true) => WriterAction::Receive,
        WriterEvent::Flushed(false) => WriterAction::Stop(WriterExit::FlushFailed),
    }
}

} // verus!
