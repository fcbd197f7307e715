//! The operations on streams. Each one decides from the values it is given
//! (the stored record, the caller, the time) and returns the records to
//! store, the amounts to move and the notification to publish; it moves and
//! stores nothing itself. Records are to be stored before amounts are moved.

use crate::events::{StreamEvent, StreamEvents};
use crate::types::{DirectStreamData, Principal, Status, StreamError, StreamSettings};
use crate::vesting::get_streamed_amount;
use vstd::prelude::*;

verus! {

/// What creating a stream comes to. It is carried out in this order: the
/// sender pays `total_amount` into custody, the record is stored, the
/// counter of ids is stored, the notification is published. Where the
/// payment fails, nothing is stored.
#[derive(Clone, Copy, Debug, PartialEq, Eq, Structural)]
pub struct Creation {
    /// The new record, to be stored under its id.
    pub stream: DirectStreamData,
    /// The id the next stream will get.
    pub next_stream_id: u32,
    /// What the sender pays into custody: the deposit and the fee.
    pub total_amount: i128,
    pub event: StreamEvent,
}

/// What a withdrawal comes to. It is carried out in this order: the record
/// is stored, custody pays `amount` to the recipient, the notification is
/// published.
#[derive(Clone, Copy, Debug, PartialEq, Eq, Structural)]
pub struct Withdrawal {
    /// The record with the amount added to `withdrawn`.
    pub stream: DirectStreamData,
    /// What custody pays to the recipient.
    pub amount: i128,
    pub event: StreamEvent,
}

/// What a cancellation comes to. It is carried out in this order: the
/// record is stored, custody pays the recipient, custody pays the sender, the
/// notification is published. A stream is settled once: cancelling a record
/// that is cancelled already pays nothing and leaves the record as it is.
#[derive(Clone, Copy, Debug, PartialEq, Eq, Structural)]
pub struct Cancellation {
    /// The record, marked as cancelled.
    pub stream: DirectStreamData,
    /// What has streamed and was not withdrawn.
    pub recipient_balance: i128,
    /// What has not streamed.
    pub sender_balance: i128,
    /// What custody pays to the recipient: the recipient's balance where it
    /// is positive and the stream was not settled before, else nothing.
    pub recipient_payout: Option<i128>,
    /// What custody returns to the sender: the sender's balance where it is
    /// positive and the stream was not settled before, else nothing.
    pub sender_refund: Option<i128>,
    pub event: StreamEvent,
}

/// The amount itself where it is positive, nothing otherwise.
pub open spec fn positive_part(amount: i128) -> Option<i128> {
    if amount > 0 {
        Some(amount)
    } else {
        None
    }
}

/// The amount of a payment that may be absent.
pub open spec fn amount_paid(payment: Option<i128>) -> int {
    match payment {
        Some(amount) => amount as int,
        None => 0,
    }
}

/// The surcharge on creation: the asset's fee, or zero where it has none.
pub open spec fn fee_or_zero(fee: Option<i128>) -> i128 {
    match fee {
        Some(f) => f,
        None => 0,
    }
}

impl DirectStreamData {
    /// The status of the stream at `now`. The first rule that applies decides:
    /// depleted, cancelled, not started, before the cliff, fully streamed,
    /// and active otherwise.
    pub open spec fn status_at(&self, now: int) -> Status {
        if self.is_depleted {
            Status::Depleted
        } else if self.is_cancelled {
            Status::Cancelled
        } else if now < self.start_time {
            Status::Pending
        } else if now < self.cliff_time {
            Status::Cliff
        } else if self.streamed_at(now) >= self.deposit {
            Status::Completed
        } else {
            Status::Active
        }
    }

    /// The record with `amount` more withdrawn.
    pub open spec fn with_withdrawn(&self, amount: int) -> DirectStreamData {
        DirectStreamData { withdrawn: (self.withdrawn + amount) as i128, ..*self }
    }

    /// The record marked as cancelled.
    pub open spec fn cancelled(&self) -> DirectStreamData {
        DirectStreamData { is_cancelled: true, ..*self }
    }
}

/// Whether the times of a new stream are in order at `now`: the start is not
/// past, the cliff is not before the start, and the stop is after the cliff.
pub open spec fn times_in_order(now: u64, start_time: u64, cliff_time: u64, stop_time: u64) -> bool {
    now <= start_time <= cliff_time < stop_time
}

/// The record of a stream as it is created.
pub open spec fn new_stream(
    stream_id: u32,
    sender: Principal,
    recipient: Principal,
    amount: i128,
    token_address: Principal,
    start_time: u64,
    stop_time: u64,
    cancellable: bool,
    cliff_time: u64,
) -> DirectStreamData {
    DirectStreamData {
        id: stream_id,
        sender,
        recipient,
        start_time,
        cliff_time,
        stop_time,
        deposit: amount,
        withdrawn: 0,
        refunded: 0,
        is_cancellable: cancellable,
        is_cancelled: false,
        is_depleted: false,
        token_address,
    }
}

/// What `create_range` returns.
pub open spec fn creation(
    sender: Principal,
    recipient: Principal,
    amount: i128,
    token_address: Principal,
    start_time: u64,
    stop_time: u64,
    cancellable: bool,
    cliff_time: u64,
    now: u64,
    stream_id: u32,
    fee: Option<i128>,
) -> Result<Creation, StreamError> {
    if amount <= 0 {
        Err(StreamError::InvalidAmount)
    } else if !times_in_order(now, start_time, cliff_time, stop_time) {
        Err(StreamError::InvalidTimeOrdering)
    } else {
        Ok(
            Creation {
                stream: new_stream(
                    stream_id,
                    sender,
                    recipient,
                    amount,
                    token_address,
                    start_time,
                    stop_time,
                    cancellable,
                    cliff_time,
                ),
                next_stream_id: (stream_id + 1) as u32,
                total_amount: (amount + fee_or_zero(fee)) as i128,
                event: StreamEvent::Created {
                    stream_id,
                    sender,
                    token_address,
                    recipient,
                    deposit: amount,
                    start_time,
                    stop_time,
                },
            },
        )
    }
}

/// Whether the numbers of a creation fit: where the stream would be
/// created, there is an id left for the next one, and the amount and the
/// fee together fit in an `i128`.
pub open spec fn creation_fits(
    amount: i128,
    start_time: u64,
    stop_time: u64,
    cliff_time: u64,
    now: u64,
    stream_id: u32,
    fee: Option<i128>,
) -> bool {
    amount > 0 && times_in_order(now, start_time, cliff_time, stop_time) ==> stream_id < u32::MAX
        && amount + fee_or_zero(fee) <= i128::MAX
}

/// Whether the numbers of a withdrawal fit: where the amount would be paid,
/// it and what was withdrawn before together fit in an `i128`.
pub open spec fn withdrawal_fits(
    stream: Option<DirectStreamData>,
    caller: Principal,
    recipient: Principal,
    custody: Principal,
    amount: i128,
    now: u64,
) -> bool {
    stream matches Some(s) ==> (withdrawal(stream, caller, recipient, custody, amount, now) is Ok
        ==> s.withdrawn + amount <= i128::MAX)
}

/// What `withdraw` returns. The amount is held against all that has
/// streamed so far, not against what is left of it after earlier withdrawals.
/// Whether the stream was cancelled is not looked at.
pub open spec fn withdrawal(
    stream: Option<DirectStreamData>,
    caller: Principal,
    recipient: Principal,
    custody: Principal,
    amount: i128,
    now: u64,
) -> Result<Withdrawal, StreamError> {
    if amount <= 0 {
        Err(StreamError::InvalidAmount)
    } else if recipient == custody {
        Err(StreamError::SelfTransferRejected)
    } else {
        match stream {
            None => Err(StreamError::StreamNotFound),
            Some(s) => if !s.is_party(caller) || recipient != s.recipient {
                Err(StreamError::Unauthorized)
            } else if amount > s.streamed_at(now as int) {
                Err(StreamError::ExceedsEntitlement)
            } else {
                Ok(
                    Withdrawal {
                        stream: s.with_withdrawn(amount as int),
                        amount,
                        event: StreamEvent::Withdrawn { stream_id: s.id, recipient, amount },
                    },
                )
            },
        }
    }
}

/// What is paid of a balance at a cancellation: the balance where it is
/// positive, and nothing where the stream was settled before.
pub open spec fn settled_once(settled_before: bool, balance: i128) -> Option<i128> {
    if settled_before {
        None
    } else {
        positive_part(balance)
    }
}

/// What `cancel` returns.
pub open spec fn cancellation(stream: Option<DirectStreamData>, caller: Principal, now: u64) -> Result<
    Cancellation,
    StreamError,
> {
    match stream {
        None => Err(StreamError::StreamNotFound),
        Some(s) => if !s.is_party(caller) {
            Err(StreamError::Unauthorized)
        } else {
            let recipient_balance = (s.streamed_at(now as int) - s.withdrawn) as i128;
            let sender_balance = (s.deposit - s.streamed_at(now as int)) as i128;
            Ok(
                Cancellation {
                    stream: s.cancelled(),
                    recipient_balance,
                    sender_balance,
                    recipient_payout: settled_once(s.is_cancelled, recipient_balance),
                    sender_refund: settled_once(s.is_cancelled, sender_balance),
                    event: StreamEvent::Cancelled { stream_id: s.id },
                },
            )
        },
    }
}

/// Settling a stream hands out the whole deposit: what goes to the
/// recipient, what goes back to the sender and what was withdrawn before
/// add up to the deposit exactly.
pub proof fn lemma_cancel_conserves(stream: DirectStreamData, caller: Principal, now: u64)
    requires
        stream.wf(),
        stream.is_party(caller),
    ensures
        cancellation(Some(stream), caller, now) matches Ok(c) && c.recipient_balance
            + c.sender_balance + stream.withdrawn == stream.deposit && c.sender_balance >= 0,
{
    stream.lemma_streamed_bounds(now as int);
}

/// Where a stream is cancelled for the first time and no more was withdrawn
/// than had streamed, the two payments of the settlement are exactly what
/// was left in the stream.
pub proof fn lemma_cancel_pays_the_rest(stream: DirectStreamData, caller: Principal, now: u64)
    requires
        stream.wf(),
        stream.is_party(caller),
        !stream.is_cancelled,
        stream.withdrawn <= stream.streamed_at(now as int),
    ensures
        cancellation(Some(stream), caller, now) matches Ok(c) && amount_paid(c.recipient_payout)
            + amount_paid(c.sender_refund) == stream.deposit - stream.withdrawn,
{
    stream.lemma_streamed_bounds(now as int);
}

/// Cancelling a record that is cancelled already pays nothing to either
/// party and gives the record back as it is.
pub proof fn lemma_cancel_again_pays_nothing(
    stream: DirectStreamData,
    caller: Principal,
    now: u64,
)
    requires
        stream.is_cancelled,
        stream.is_party(caller),
    ensures
        cancellation(Some(stream), caller, now) matches Ok(c) && c.stream == stream
            && c.recipient_payout is None && c.sender_refund is None,
{
}

/// A stream is settled once: cancelling what a cancellation gave back, by
/// either party and at any time, pays nothing and changes nothing.
pub proof fn lemma_cancel_settles_once(
    stream: DirectStreamData,
    caller: Principal,
    now: u64,
    again: Principal,
    later: u64,
)
    requires
        stream.is_party(caller),
        stream.is_party(again),
    ensures
        cancellation(Some(stream), caller, now) matches Ok(first) && cancellation(
            Some(first.stream),
            again,
            later,
        ) matches Ok(second) && second.stream == first.stream && second.recipient_payout is None
            && second.sender_refund is None,
{
}

/// A request for more than has streamed is always refused, whoever asks, and
/// no record comes back. Where the stream exists, the caller is a party, the
/// named recipient is the stream's and not the engine itself, the refusal is
/// `ExceedsEntitlement`.
pub proof fn lemma_withdraw_over_streamed_fails(
    stream: DirectStreamData,
    caller: Principal,
    recipient: Principal,
    custody: Principal,
    amount: i128,
    now: u64,
)
    requires
        stream.wf(),
        amount > stream.streamed_at(now as int),
    ensures
        withdrawal(Some(stream), caller, recipient, custody, amount, now) is Err,
        stream.is_party(caller) && recipient == stream.recipient && recipient != custody
            ==> withdrawal(Some(stream), caller, recipient, custody, amount, now) == Err::<
            Withdrawal,
            StreamError,
        >(StreamError::ExceedsEntitlement),
{
    stream.lemma_streamed_bounds(now as int);
}

/// A withdrawal changes nothing of the record but `withdrawn`, which grows
/// by the amount paid.
pub proof fn lemma_withdraw_only_adds(
    stream: DirectStreamData,
    caller: Principal,
    recipient: Principal,
    custody: Principal,
    amount: i128,
    now: u64,
)
    requires
        stream.wf(),
        stream.withdrawn + amount <= i128::MAX,
        withdrawal(Some(stream), caller, recipient, custody, amount, now) is Ok,
    ensures
        withdrawal(Some(stream), caller, recipient, custody, amount, now) matches Ok(w)
            && w.stream.withdrawn == stream.withdrawn + amount && w.stream.withdrawn
            > stream.withdrawn && w.amount == amount && (DirectStreamData {
            withdrawn: stream.withdrawn,
            ..w.stream
        }) == stream,
{
}

/// A withdrawal of no more than what has streamed and was not yet withdrawn
/// keeps the total that left the stream within the deposit.
pub proof fn lemma_withdraw_within_deposit(
    stream: DirectStreamData,
    caller: Principal,
    recipient: Principal,
    custody: Principal,
    amount: i128,
    now: u64,
)
    requires
        stream.wf(),
        stream.refunded == 0,
        stream.withdrawn + amount <= stream.streamed_at(now as int),
        withdrawal(Some(stream), caller, recipient, custody, amount, now) is Ok,
    ensures
        withdrawal(Some(stream), caller, recipient, custody, amount, now) matches Ok(w)
            && w.stream.within_deposit(),
{
    stream.lemma_streamed_bounds(now as int);
}

/// The status of a record at a time is a function of the two: a depleted
/// stream is `Depleted` at every time, and a cancelled one that is not
/// depleted is `Cancelled` at every time.
pub proof fn lemma_status_terminal(stream: DirectStreamData, now: int, later: int)
    ensures
        stream.is_depleted ==> stream.status_at(now) == Status::Depleted,
        stream.is_cancelled && !stream.is_depleted ==> stream.status_at(now) == Status::Cancelled,
        stream.status_at(now) == Status::Depleted ==> stream.status_at(later) == Status::Depleted,
        stream.status_at(now) == Status::Cancelled ==> stream.status_at(later)
            == Status::Cancelled,
{
}

/// Once a stream is settled by a cancellation, its status is `Cancelled` at
/// every time, unless the record was depleted already.
pub proof fn lemma_cancelled_forever(
    stream: DirectStreamData,
    caller: Principal,
    now: u64,
    later: int,
)
    requires
        stream.wf(),
        !stream.is_depleted,
        cancellation(Some(stream), caller, now) is Ok,
    ensures
        cancellation(Some(stream), caller, now) matches Ok(c) && c.stream.status_at(later)
            == Status::Cancelled,
{
}

/// A stream that is neither depleted nor cancelled is `Completed` from its
/// stop time on and at no time before.
pub proof fn lemma_completed_from_stop(stream: DirectStreamData, now: int)
    requires
        stream.wf(),
        !stream.is_depleted,
        !stream.is_cancelled,
    ensures
        stream.status_at(now) == Status::Completed <==> now >= stream.stop_time,
{
    if stream.cliff_time <= now < stream.stop_time {
        stream.lemma_streamed_short_of_deposit(now);
    }
}

/// Whether `user` is the sender or the recipient of `stream`.
pub fn require_sender_or_recipient(stream: &DirectStreamData, user: &Principal) -> (r: Result<
    (),
    StreamError,
>)
    ensures
        stream.is_party(*user) ==> r == Ok::<(), StreamError>(()),
        !stream.is_party(*user) ==> r == Err::<(), StreamError>(StreamError::Unauthorized),
{
    if *user == stream.sender || *user == stream.recipient {
        Ok(())
    } else {
        Err(StreamError::Unauthorized)
    }
}

/// Whether `user` is the recipient of `stream`.
pub fn require_recipient(stream: &DirectStreamData, user: &Principal) -> (r: Result<
    (),
    StreamError,
>)
    ensures
        *user == stream.recipient ==> r == Ok::<(), StreamError>(()),
        *user != stream.recipient ==> r == Err::<(), StreamError>(StreamError::Unauthorized),
{
    if *user == stream.recipient {
        Ok(())
    } else {
        Err(StreamError::Unauthorized)
    }
}

/// The engine.
pub struct DirectStreamContract;

impl DirectStreamContract {
    /// Sets the engine up with `settings`, unless it was set up before.
    pub fn initialize(is_init: bool, settings: StreamSettings) -> (r: Result<
        StreamSettings,
        StreamError,
    >)
        ensures
            is_init ==> r == Err::<StreamSettings, StreamError>(StreamError::AlreadyInitialized),
            !is_init ==> r == Ok::<StreamSettings, StreamError>(settings),
    {
        if is_init {
            return Err(StreamError::AlreadyInitialized);
        }
        Ok(settings)
    }

    /// The settings the engine was set up with.
    pub fn settings(stored: Option<StreamSettings>) -> (r: Result<StreamSettings, StreamError>)
        ensures
            stored matches Some(s) ==> r == Ok::<StreamSettings, StreamError>(s),
            stored is None ==> r == Err::<StreamSettings, StreamError>(
                StreamError::NotInitialized,
            ),
    {
        match stored {
            Some(s) => Ok(s),
            None => Err(StreamError::NotInitialized),
        }
    }

    /// The amount of the stream that has unlocked at `now`.
    pub fn streamed_amount(stream: Option<DirectStreamData>, now: u64) -> (r: Result<
        i128,
        StreamError,
    >)
        requires
            stream matches Some(s) ==> s.wf(),
        ensures
            stream matches Some(s) ==> r == Ok::<i128, StreamError>(
                s.streamed_at(now as int) as i128,
            ),
            stream is None ==> r == Err::<i128, StreamError>(StreamError::StreamNotFound),
    {
        match stream {
            None => Err(StreamError::StreamNotFound),
            Some(s) => Ok(get_streamed_amount(&s, now)),
        }
    }

    /// The status of the stream at `now`, or nothing where there is no stream.
    pub fn status(stream: Option<DirectStreamData>, now: u64) -> (r: Option<Status>)
        requires
            stream matches Some(s) ==> s.wf(),
        ensures
            stream matches Some(s) ==> r == Some(s.status_at(now as int)),
            stream is None ==> r is None,
    {
        let stream = match stream {
            None => {
                return None;
            },
            Some(s) => s,
        };
        if stream.is_depleted {
            return Some(Status::Depleted);
        }
        if stream.is_cancelled {
            return Some(Status::Cancelled);
        }
        if now < stream.start_time {
            return Some(Status::Pending);
        }
        if now < stream.cliff_time {
            return Some(Status::Cliff);
        }
        let streamed_amount: i128 = get_streamed_amount(&stream, now);
        if streamed_amount >= stream.deposit {
            return Some(Status::Completed);
        }
        Some(Status::Active)
    }

    /// Creates a stream of `amount` from `sender` to `recipient` under the id
    /// `stream_id`. The sender pays the amount and the asset's fee into
    /// custody; that payment is to succeed before anything is stored.
    ///
    /// Where the stream is created, the id must leave room for the next one,
    /// and the amount and the fee together must fit in an `i128`;
    /// `checked_create_range` makes that test itself.
    pub fn create_range(
        sender: Principal,
        recipient: Principal,
        amount: i128,
        token_address: Principal,
        start_time: u64,
        stop_time: u64,
        cancellable: bool,
        cliff_time: u64,
        now: u64,
        stream_id: u32,
        fee: Option<i128>,
    ) -> (r: Result<Creation, StreamError>)
        requires
            creation_fits(amount, start_time, stop_time, cliff_time, now, stream_id, fee),
        ensures
            r == creation(
                sender,
                recipient,
                amount,
                token_address,
                start_time,
                stop_time,
                cancellable,
                cliff_time,
                now,
                stream_id,
                fee,
            ),
            r matches Ok(c) ==> c.stream.wf() && c.stream.within_deposit() && c.stream.id
                == stream_id && c.next_stream_id > stream_id,
    {
        if amount <= 0 {
            return Err(StreamError::InvalidAmount);
        }
        if start_time < now || cliff_time < start_time || stop_time <= start_time || stop_time
            <= cliff_time {
            return Err(StreamError::InvalidTimeOrdering);
        }
        let fee: i128 = match fee {
            Some(f) => f,
            None => 0,
        };
        let total_amount: i128 = amount + fee;
        let stream = DirectStreamData {
            id: stream_id,
            sender,
            recipient,
            start_time,
            stop_time,
            cliff_time,
            deposit: amount,
            is_cancelled: false,
            is_cancellable: cancellable,
            is_depleted: false,
            refunded: 0,
            withdrawn: 0,
            token_address,
        };
        let next_stream_id: u32 = stream_id + 1;
        let event = StreamEvents::stream_created(
            stream_id,
            sender,
            recipient,
            amount,
            token_address,
            start_time,
            stop_time,
        );
        Ok(Creation { stream, next_stream_id, total_amount, event })
    }

    /// `create_range` for every input: nothing where the stream would be
    /// created but the ids are used up or the amount and the fee together do
    /// not fit in an `i128`, and what `create_range` returns otherwise.
    pub fn checked_create_range(
        sender: Principal,
        recipient: Principal,
        amount: i128,
        token_address: Principal,
        start_time: u64,
        stop_time: u64,
        cancellable: bool,
        cliff_time: u64,
        now: u64,
        stream_id: u32,
        fee: Option<i128>,
    ) -> (r: Option<Result<Creation, StreamError>>)
        ensures
            creation_fits(amount, start_time, stop_time, cliff_time, now, stream_id, fee) ==> r
                == Some(
                creation(
                    sender,
                    recipient,
                    amount,
                    token_address,
                    start_time,
                    stop_time,
                    cancellable,
                    cliff_time,
                    now,
                    stream_id,
                    fee,
                ),
            ),
            !creation_fits(amount, start_time, stop_time, cliff_time, now, stream_id, fee) ==> r
                is None,
    {
        if amount > 0 && now <= start_time && start_time <= cliff_time && cliff_time < stop_time {
            if stream_id == u32::MAX {
                return None;
            }
            let surcharge: i128 = match fee {
                Some(f) => f,
                None => 0,
            };
            if surcharge > 0 && amount > i128::MAX - surcharge {
                return None;
            }
        }
        Some(
            Self::create_range(
                sender,
                recipient,
                amount,
                token_address,
                start_time,
                stop_time,
                cancellable,
                cliff_time,
                now,
                stream_id,
                fee,
            ),
        )
    }

    /// Pays `amount` of the stream out to `recipient`, on behalf of `caller`.
    /// `custody` is the engine's own address, which cannot be paid.
    /// The amount is held against all that has streamed so far; what was
    /// withdrawn before is not taken off, and whether the stream was
    /// cancelled is not looked at.
    ///
    /// Where the amount is paid, it and what was withdrawn before together
    /// must fit in an `i128`; `checked_withdraw` makes that test itself.
    pub fn withdraw(
        stream: Option<DirectStreamData>,
        caller: Principal,
        recipient: Principal,
        custody: Principal,
        amount: i128,
        now: u64,
    ) -> (r: Result<Withdrawal, StreamError>)
        requires
            stream matches Some(s) ==> s.wf(),
            withdrawal_fits(stream, caller, recipient, custody, amount, now),
        ensures
            r == withdrawal(stream, caller, recipient, custody, amount, now),
            r matches Ok(w) ==> w.stream.wf(),
    {
        match Self::withdrawable(stream, caller, recipient, custody, amount, now) {
            Err(error) => Err(error),
            Ok(record) => Ok(Self::paid_out(record, amount)),
        }
    }

    /// `withdraw` for every input: nothing where the amount would be paid
    /// but it and what was withdrawn before together do not fit in an
    /// `i128`, and what `withdraw` returns otherwise.
    pub fn checked_withdraw(
        stream: Option<DirectStreamData>,
        caller: Principal,
        recipient: Principal,
        custody: Principal,
        amount: i128,
        now: u64,
    ) -> (r: Option<Result<Withdrawal, StreamError>>)
        requires
            stream matches Some(s) ==> s.wf(),
        ensures
            withdrawal_fits(stream, caller, recipient, custody, amount, now) ==> r == Some(
                withdrawal(stream, caller, recipient, custody, amount, now),
            ),
            !withdrawal_fits(stream, caller, recipient, custody, amount, now) ==> r is None,
    {
        match Self::withdrawable(stream, caller, recipient, custody, amount, now) {
            Err(error) => Some(Err(error)),
            Ok(record) => {
                if record.withdrawn > i128::MAX - amount {
                    None
                } else {
                    Some(Ok(Self::paid_out(record, amount)))
                }
            },
        }
    }

    /// The checks of a withdrawal: the record to pay from, or the refusal.
    fn withdrawable(
        stream: Option<DirectStreamData>,
        caller: Principal,
        recipient: Principal,
        custody: Principal,
        amount: i128,
        now: u64,
    ) -> (r: Result<DirectStreamData, StreamError>)
        requires
            stream matches Some(s) ==> s.wf(),
        ensures
            r matches Err(error) ==> withdrawal(stream, caller, recipient, custody, amount, now)
                == Err::<Withdrawal, StreamError>(error),
            r matches Ok(record) ==> stream == Some(record) && amount > 0 && recipient
                == record.recipient && withdrawal(
                stream,
                caller,
                recipient,
                custody,
                amount,
                now,
            ) is Ok,
    {
        if amount <= 0 {
            return Err(StreamError::InvalidAmount);
        }
        if recipient == custody {
            return Err(StreamError::SelfTransferRejected);
        }
        let stream = match stream {
            None => {
                return Err(StreamError::StreamNotFound);
            },
            Some(s) => s,
        };
        if require_sender_or_recipient(&stream, &caller).is_err() {
            return Err(StreamError::Unauthorized);
        }
        if require_recipient(&stream, &recipient).is_err() {
            return Err(StreamError::Unauthorized);
        }
        let streamed_amount: i128 = get_streamed_amount(&stream, now);
        if amount > streamed_amount {
            return Err(StreamError::ExceedsEntitlement);
        }
        Ok(stream)
    }

    /// The withdrawal of `amount` from a record that passed the checks.
    fn paid_out(record: DirectStreamData, amount: i128) -> (w: Withdrawal)
        requires
            record.wf(),
            amount > 0,
            record.withdrawn + amount <= i128::MAX,
        ensures
            w == (Withdrawal {
                stream: record.with_withdrawn(amount as int),
                amount,
                event: StreamEvent::Withdrawn {
                    stream_id: record.id,
                    recipient: record.recipient,
                    amount,
                },
            }),
            w.stream.wf(),
    {
        let mut stream = record;
        stream.withdrawn = stream.withdrawn + amount;
        let event = StreamEvents::stream_withdrawn(stream.recipient, stream.id, amount);
        Withdrawal { stream, amount, event }
    }

    /// Cancels the stream on behalf of `caller` and settles it: what has
    /// streamed and was not withdrawn goes to the recipient, what has not
    /// streamed goes back to the sender. The `is_cancellable` flag of the
    /// record is not consulted. A stream is settled once: where the record
    /// is cancelled already, nothing is paid and the record stays as it is.
    pub fn cancel(stream: Option<DirectStreamData>, caller: Principal, now: u64) -> (r: Result<
        Cancellation,
        StreamError,
    >)
        requires
            stream matches Some(s) ==> s.wf(),
        ensures
            r == cancellation(stream, caller, now),
            r matches Ok(c) ==> c.stream.wf() && c.stream.is_cancelled && c.recipient_balance
                + c.sender_balance + c.stream.withdrawn == c.stream.deposit,
            r matches Ok(c) ==> (stream matches Some(s) ==> (s.is_cancelled ==> c.stream == s
                && c.recipient_payout is None && c.sender_refund is None)),
    {
        let mut stream = match stream {
            None => {
                return Err(StreamError::StreamNotFound);
            },
            Some(s) => s,
        };
        if require_sender_or_recipient(&stream, &caller).is_err() {
            return Err(StreamError::Unauthorized);
        }
        let streamed_amount: i128 = get_streamed_amount(&stream, now);
        let recipient_balance: i128 = streamed_amount - stream.withdrawn;
        let sender_balance: i128 = stream.deposit - streamed_amount;
        let settled_before: bool = stream.is_cancelled;
        stream.is_cancelled = true;
        let recipient_payout: Option<i128> = if !settled_before && recipient_balance > 0 {
            Some(recipient_balance)
        } else {
            None
        };
        let sender_refund: Option<i128> = if !settled_before && sender_balance > 0 {
            Some(sender_balance)
        } else {
            None
        };
        let event = StreamEvents::stream_cancelled(stream.id);
        Ok(
            Cancellation {
                stream,
                recipient_balance,
                sender_balance,
                recipient_payout,
                sender_refund,
                event,
            },
        )
    }
}

} // verus!
