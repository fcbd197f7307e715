//! The notifications the engine hands out for watchers.

use crate::types::Principal;
use vstd::prelude::*;

verus! {

/// One notification. Publishing it has no effect on any record.
#[derive(Clone, Copy, Debug, PartialEq, Eq, Structural)]
pub enum StreamEvent {
    /// A stream was created. Topics: the stream's id and the sender.
    Created {
        stream_id: u32,
        sender: Principal,
        token_address: Principal,
        recipient: Principal,
        deposit: i128,
        start_time: u64,
        stop_time: u64,
    },
    /// An amount was paid out. Topics: the stream's id and the recipient.
    Withdrawn { stream_id: u32, recipient: Principal, amount: i128 },
    /// A stream was cancelled. Topic: the stream's id.
    Cancelled { stream_id: u32 },
}

/// Builds the notifications.
pub struct StreamEvents {}

impl StreamEvents {
    /// The notification for a stream that was created.
    pub fn stream_created(
        stream_id: u32,
        sender: Principal,
        recipient: Principal,
        deposit: i128,
        token_address: Principal,
        start_time: u64,
        stop_time: u64,
    ) -> (event: StreamEvent)
        ensures
            event == (StreamEvent::Created {
                stream_id,
                sender,
                token_address,
                recipient,
                deposit,
                start_time,
                stop_time,
            }),
    {
        StreamEvent::Created {
            stream_id,
            sender,
            token_address,
            recipient,
            deposit,
            start_time,
            stop_time,
        }
    }

    /// The notification for a stream that was cancelled.
    pub fn stream_cancelled(stream_id: u32) -> (event: StreamEvent)
        ensures
            event == (StreamEvent::Cancelled { stream_id }),
    {
        StreamEvent::Cancelled { stream_id }
    }

    /// The notification for an amount that was paid out to `recipient`.
    pub fn stream_withdrawn(recipient: Principal, stream_id: u32, amount: i128) -> (event:
        StreamEvent)
        ensures
            event == (StreamEvent::Withdrawn { stream_id, recipient, amount }),
    {
        StreamEvent::Withdrawn { stream_id, recipient, amount }
    }
}

} // verus!
