//! What an operation asks of the world around the engine, step by step.
//! The engine stores and moves nothing itself: it hands out the steps in the
//! order in which they are to be carried out. A record is always stored
//! before custody pays anything out, so that a call that comes back into the
//! engine during a payment finds the record already changed.

use crate::contract::{Cancellation, Creation, Withdrawal};
use crate::events::StreamEvent;
use crate::types::{DirectStreamData, Principal};
use vstd::prelude::*;

verus! {

/// One step to carry out. A step that fails undoes the whole operation.
#[derive(Clone, Copy, Debug, PartialEq, Eq, Structural)]
pub enum Effect {
    /// `from` pays `amount` of the asset into custody.
    Collect { from: Principal, amount: i128, token_address: Principal },
    /// Custody pays `amount` of the asset to `to`.
    Pay { to: Principal, amount: i128, token_address: Principal },
    /// The record is stored under its id.
    StoreStream { stream: DirectStreamData },
    /// The counter of ids is set to `id`.
    StoreNextStreamId { id: u32 },
    /// The notification is published.
    Publish { event: StreamEvent },
}

/// The payment of an amount that may be absent: one step, or none.
pub open spec fn payment(to: Principal, amount: Option<i128>, token_address: Principal) -> Seq<
    Effect,
> {
    match amount {
        Some(a) => seq![Effect::Pay { to, amount: a, token_address }],
        None => seq![],
    }
}

/// Whether every step that stores a record comes before every step in which
/// custody pays out.
pub open spec fn stores_before_paying(steps: Seq<Effect>) -> bool {
    forall|i: int, j: int|
        0 <= i < steps.len() && 0 <= j < steps.len() && steps[i] is Pay
            && steps[j] is StoreStream ==> j < i
}

/// Whether no step has custody pay anything out.
pub open spec fn pays_nothing(steps: Seq<Effect>) -> bool {
    forall|i: int| 0 <= i < steps.len() ==> !(steps[i] is Pay)
}

impl Creation {
    /// The steps of a creation: the sender pays first, and only then are the
    /// record and the counter stored.
    pub open spec fn steps(&self) -> Seq<Effect> {
        seq![
            Effect::Collect {
                from: self.stream.sender,
                amount: self.total_amount,
                token_address: self.stream.token_address,
            },
            Effect::StoreStream { stream: self.stream },
            Effect::StoreNextStreamId { id: self.next_stream_id },
            Effect::Publish { event: self.event },
        ]
    }

    /// The steps of the creation, in order.
    pub fn effects(&self) -> (steps: Vec<Effect>)
        ensures
            steps@ == self.steps(),
    {
        let mut steps: Vec<Effect> = Vec::new();
        steps.push(
            Effect::Collect {
                from: self.stream.sender,
                amount: self.total_amount,
                token_address: self.stream.token_address,
            },
        );
        steps.push(Effect::StoreStream { stream: self.stream });
        steps.push(Effect::StoreNextStreamId { id: self.next_stream_id });
        steps.push(Effect::Publish { event: self.event });
        assert(steps@ =~= self.steps());
        steps
    }
}

impl Withdrawal {
    /// The steps of a withdrawal: the record is stored, then the recipient
    /// is paid.
    pub open spec fn steps(&self) -> Seq<Effect> {
        seq![
            Effect::StoreStream { stream: self.stream },
            Effect::Pay {
                to: self.stream.recipient,
                amount: self.amount,
                token_address: self.stream.token_address,
            },
            Effect::Publish { event: self.event },
        ]
    }

    /// The steps of the withdrawal, in order.
    pub fn effects(&self) -> (steps: Vec<Effect>)
        ensures
            steps@ == self.steps(),
            stores_before_paying(steps@),
    {
        let mut steps: Vec<Effect> = Vec::new();
        steps.push(Effect::StoreStream { stream: self.stream });
        steps.push(
            Effect::Pay {
                to: self.stream.recipient,
                amount: self.amount,
                token_address: self.stream.token_address,
            },
        );
        steps.push(Effect::Publish { event: self.event });
        assert(steps@ =~= self.steps());
        steps
    }
}

impl Cancellation {
    /// The steps of a cancellation: the record is stored, then the
    /// recipient and the sender are paid what is theirs, if anything.
    pub open spec fn steps(&self) -> Seq<Effect> {
        seq![Effect::StoreStream { stream: self.stream }] + payment(
            self.stream.recipient,
            self.recipient_payout,
            self.stream.token_address,
        ) + payment(self.stream.sender, self.sender_refund, self.stream.token_address)
            + seq![Effect::Publish { event: self.event }]
    }

    /// The steps of the cancellation, in order.
    pub fn effects(&self) -> (steps: Vec<Effect>)
        ensures
            steps@ == self.steps(),
            stores_before_paying(steps@),
            self.recipient_payout is None && self.sender_refund is None ==> pays_nothing(steps@),
    {
        let mut steps: Vec<Effect> = Vec::new();
        steps.push(Effect::StoreStream { stream: self.stream });
        match self.recipient_payout {
            Some(amount) => {
                steps.push(
                    Effect::Pay {
                        to: self.stream.recipient,
                        amount,
                        token_address: self.stream.token_address,
                    },
                );
            },
            None => {},
        }
        match self.sender_refund {
            Some(amount) => {
                steps.push(
                    Effect::Pay {
                        to: self.stream.sender,
                        amount,
                        token_address: self.stream.token_address,
                    },
                );
            },
            None => {},
        }
        steps.push(Effect::Publish { event: self.event });
        assert(steps@ =~= self.steps());
        steps
    }
}

} // verus!
