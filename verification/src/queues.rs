//! The bounded, non-blocking queues of the control protocol.
//!
//! Each queue is a fixed-capacity FIFO backed by a `ringbuf` single-owner
//! ring buffer. Both ends are non-blocking: `try_push` hands the item back
//! instead of waiting when the queue is full, and `try_pop` returns `None`
//! instead of waiting when it is empty. The ring buffers are held behind
//! opaque structs; the contracts below state, over the `*_seq` and `*_cap`
//! spec functions, what the `ringbuf` sources show of `LocalRb::new`,
//! `Producer::try_push`, `Consumer::try_pop` and `Observer::occupied_len`.

use crate::utils::{Input, LogEntry, ModulAction, ModulMessage};
use ringbuf::storage::Heap;
use ringbuf::traits::{Consumer, Observer, Producer};
use ringbuf::LocalRb;
use vstd::prelude::*;

verus! {

/// Bounded FIFO of captured input frames (hardware input to engine).
#[verifier::external_body]
pub struct InputQueue {
    rb: LocalRb<Heap<Input>>,
}

/// The frames the queue holds, oldest first.
pub uninterp spec fn input_queue_seq(q: InputQueue) -> Seq<Input>;

/// The fixed capacity the queue was made with.
pub uninterp spec fn input_queue_cap(q: InputQueue) -> nat;

impl InputQueue {
    /// Relies on ringbuf's `LocalRb::new`: an empty ring buffer of exactly
    /// `capacity` slots. `new` panics on capacity zero, which is excluded.
    #[verifier::external_body]
    pub fn new(capacity: usize) -> (q: InputQueue)
        requires
            capacity >= 1,
        ensures
            input_queue_seq(q) == Seq::<Input>::empty(),
            input_queue_cap(q) == capacity as nat,
    {
        InputQueue { rb: LocalRb::new(capacity) }
    }

    /// Relies on ringbuf's `Producer::try_push`: appends the item when a slot
    /// is free, else returns it back unchanged; never blocks.
    #[verifier::external_body]
    pub fn try_push(&mut self, item: Input) -> (r: Result<(), Input>)
        ensures
            input_queue_cap(*final(self)) == input_queue_cap(*old(self)),
            input_queue_seq(*final(self)).len() <= input_queue_cap(*final(self)),
            input_queue_seq(*old(self)).len() < input_queue_cap(*old(self)) ==> r is Ok
                && input_queue_seq(*final(self)) == input_queue_seq(*old(self)).push(item),
            input_queue_seq(*old(self)).len() >= input_queue_cap(*old(self)) ==> r is Err && r->Err_0 == item
                && input_queue_seq(*final(self)) == input_queue_seq(*old(self)),
    {
        self.rb.try_push(item)
    }

    /// Relies on ringbuf's `Consumer::try_pop`: removes and returns the
    /// eldest item, or `None` when the queue is empty; never blocks.
    #[verifier::external_body]
    pub fn try_pop(&mut self) -> (r: Option<Input>)
        ensures
            input_queue_cap(*final(self)) == input_queue_cap(*old(self)),
            input_queue_seq(*final(self)).len() <= input_queue_cap(*final(self)),
            input_queue_seq(*old(self)).len() == 0 ==> r is None && input_queue_seq(*final(self))
                == input_queue_seq(*old(self)),
            input_queue_seq(*old(self)).len() > 0 ==> r == Some(input_queue_seq(*old(self))[0])
                && input_queue_seq(*final(self)) == input_queue_seq(*old(self)).drop_first(),
    {
        self.rb.try_pop()
    }

    /// Relies on ringbuf's `Observer::occupied_len`: the number of items held.
    #[verifier::external_body]
    pub fn occupied_len(&self) -> (r: usize)
        ensures
            r as nat == input_queue_seq(*self).len(),
            r as nat <= input_queue_cap(*self),
    {
        self.rb.occupied_len()
    }
}

/// Bounded FIFO of mixed output samples (engine to hardware output).
#[verifier::external_body]
pub struct SampleQueue {
    rb: LocalRb<Heap<i64>>,
}

/// The samples the queue holds, oldest first.
pub uninterp spec fn sample_queue_seq(q: SampleQueue) -> Seq<i64>;

/// The fixed capacity the queue was made with.
pub uninterp spec fn sample_queue_cap(q: SampleQueue) -> nat;

impl SampleQueue {
    /// Relies on ringbuf's `LocalRb::new`: an empty ring buffer of exactly
    /// `capacity` slots. `new` panics on capacity zero, which is excluded.
    #[verifier::external_body]
    pub fn new(capacity: usize) -> (q: SampleQueue)
        requires
            capacity >= 1,
        ensures
            sample_queue_seq(q) == Seq::<i64>::empty(),
            sample_queue_cap(q) == capacity as nat,
    {
        SampleQueue { rb: LocalRb::new(capacity) }
    }

    /// Relies on ringbuf's `Producer::try_push`: appends the item when a slot
    /// is free, else returns it back unchanged; never blocks.
    #[verifier::external_body]
    pub fn try_push(&mut self, item: i64) -> (r: Result<(), i64>)
        ensures
            sample_queue_cap(*final(self)) == sample_queue_cap(*old(self)),
            sample_queue_seq(*final(self)).len() <= sample_queue_cap(*final(self)),
            sample_queue_seq(*old(self)).len() < sample_queue_cap(*old(self)) ==> r is Ok
                && sample_queue_seq(*final(self)) == sample_queue_seq(*old(self)).push(item),
            sample_queue_seq(*old(self)).len() >= sample_queue_cap(*old(self)) ==> r is Err && r->Err_0 == item
                && sample_queue_seq(*final(self)) == sample_queue_seq(*old(self)),
    {
        self.rb.try_push(item)
    }

    /// Relies on ringbuf's `Consumer::try_pop`: removes and returns the
    /// eldest item, or `None` when the queue is empty; never blocks.
    #[verifier::external_body]
    pub fn try_pop(&mut self) -> (r: Option<i64>)
        ensures
            sample_queue_cap(*final(self)) == sample_queue_cap(*old(self)),
            sample_queue_seq(*final(self)).len() <= sample_queue_cap(*final(self)),
            sample_queue_seq(*old(self)).len() == 0 ==> r is None && sample_queue_seq(
                *final(self),
            ) == sample_queue_seq(*old(self)),
            sample_queue_seq(*old(self)).len() > 0 ==> r == Some(sample_queue_seq(*old(self))[0])
                && sample_queue_seq(*final(self)) == sample_queue_seq(*old(self)).drop_first(),
    {
        self.rb.try_pop()
    }

    /// Relies on ringbuf's `Observer::occupied_len`: the number of items held.
    #[verifier::external_body]
    pub fn occupied_len(&self) -> (r: usize)
        ensures
            r as nat == sample_queue_seq(*self).len(),
            r as nat <= sample_queue_cap(*self),
    {
        self.rb.occupied_len()
    }
}

/// Bounded FIFO of controller commands (controller to engine).
#[verifier::external_body]
pub struct ActionQueue {
    rb: LocalRb<Heap<ModulAction>>,
}

/// The actions the queue holds, oldest first.
pub uninterp spec fn action_queue_seq(q: ActionQueue) -> Seq<ModulAction>;

/// The fixed capacity the queue was made with.
pub uninterp spec fn action_queue_cap(q: ActionQueue) -> nat;

impl ActionQueue {
    /// Relies on ringbuf's `LocalRb::new`: an empty ring buffer of exactly
    /// `capacity` slots. `new` panics on capacity zero, which is excluded.
    #[verifier::external_body]
    pub fn new(capacity: usize) -> (q: ActionQueue)
        requires
            capacity >= 1,
        ensures
            action_queue_seq(q) == Seq::<ModulAction>::empty(),
            action_queue_cap(q) == capacity as nat,
    {
        ActionQueue { rb: LocalRb::new(capacity) }
    }

    /// Relies on ringbuf's `Producer::try_push`: appends the item when a slot
    /// is free, else returns it back unchanged; never blocks.
    #[verifier::external_body]
    pub fn try_push(&mut self, item: ModulAction) -> (r: Result<(), ModulAction>)
        ensures
            action_queue_cap(*final(self)) == action_queue_cap(*old(self)),
            action_queue_seq(*final(self)).len() <= action_queue_cap(*final(self)),
            action_queue_seq(*old(self)).len() < action_queue_cap(*old(self)) ==> r is Ok
                && action_queue_seq(*final(self)) == action_queue_seq(*old(self)).push(item),
            action_queue_seq(*old(self)).len() >= action_queue_cap(*old(self)) ==> r is Err && r->Err_0 == item
                && action_queue_seq(*final(self)) == action_queue_seq(*old(self)),
    {
        self.rb.try_push(item)
    }

    /// Relies on ringbuf's `Consumer::try_pop`: removes and returns the
    /// eldest item, or `None` when the queue is empty; never blocks.
    #[verifier::external_body]
    pub fn try_pop(&mut self) -> (r: Option<ModulAction>)
        ensures
            action_queue_cap(*final(self)) == action_queue_cap(*old(self)),
            action_queue_seq(*final(self)).len() <= action_queue_cap(*final(self)),
            action_queue_seq(*old(self)).len() == 0 ==> r is None && action_queue_seq(
                *final(self),
            ) == action_queue_seq(*old(self)),
            action_queue_seq(*old(self)).len() > 0 ==> r == Some(action_queue_seq(*old(self))[0])
                && action_queue_seq(*final(self)) == action_queue_seq(*old(self)).drop_first(),
    {
        self.rb.try_pop()
    }

    /// Relies on ringbuf's `Observer::occupied_len`: the number of items held.
    #[verifier::external_body]
    pub fn occupied_len(&self) -> (r: usize)
        ensures
            r as nat == action_queue_seq(*self).len(),
            r as nat <= action_queue_cap(*self),
    {
        self.rb.occupied_len()
    }
}

/// Bounded FIFO of state deltas (engine to controller).
#[verifier::external_body]
pub struct MessageQueue {
    rb: LocalRb<Heap<ModulMessage>>,
}

/// The messages the queue holds, oldest first.
pub uninterp spec fn message_queue_seq(q: MessageQueue) -> Seq<ModulMessage>;

/// The fixed capacity the queue was made with.
pub uninterp spec fn message_queue_cap(q: MessageQueue) -> nat;

impl MessageQueue {
    /// Relies on ringbuf's `LocalRb::new`: an empty ring buffer of exactly
    /// `capacity` slots. `new` panics on capacity zero, which is excluded.
    #[verifier::external_body]
    pub fn new(capacity: usize) -> (q: MessageQueue)
        requires
            capacity >= 1,
        ensures
            message_queue_seq(q) == Seq::<ModulMessage>::empty(),
            message_queue_cap(q) == capacity as nat,
    {
        MessageQueue { rb: LocalRb::new(capacity) }
    }

    /// Relies on ringbuf's `Producer::try_push`: appends the item when a slot
    /// is free, else returns it back unchanged; never blocks.
    #[verifier::external_body]
    pub fn try_push(&mut self, item: ModulMessage) -> (r: Result<(), ModulMessage>)
        ensures
            message_queue_cap(*final(self)) == message_queue_cap(*old(self)),
            message_queue_seq(*final(self)).len() <= message_queue_cap(*final(self)),
            message_queue_seq(*old(self)).len() < message_queue_cap(*old(self)) ==> r is Ok
                && message_queue_seq(*final(self)) == message_queue_seq(*old(self)).push(item),
            message_queue_seq(*old(self)).len() >= message_queue_cap(*old(self)) ==> r is Err && r->Err_0 == item
                && message_queue_seq(*final(self)) == message_queue_seq(*old(self)),
    {
        self.rb.try_push(item)
    }

    /// Relies on ringbuf's `Consumer::try_pop`: removes and returns the
    /// eldest item, or `None` when the queue is empty; never blocks.
    #[verifier::external_body]
    pub fn try_pop(&mut self) -> (r: Option<ModulMessage>)
        ensures
            message_queue_cap(*final(self)) == message_queue_cap(*old(self)),
            message_queue_seq(*final(self)).len() <= message_queue_cap(*final(self)),
            message_queue_seq(*old(self)).len() == 0 ==> r is None && message_queue_seq(
                *final(self),
            ) == message_queue_seq(*old(self)),
            message_queue_seq(*old(self)).len() > 0 ==> r == Some(
                message_queue_seq(*old(self))[0],
            ) && message_queue_seq(*final(self)) == message_queue_seq(*old(self)).drop_first(),
    {
        self.rb.try_pop()
    }

    /// Relies on ringbuf's `Observer::occupied_len`: the number of items held.
    #[verifier::external_body]
    pub fn occupied_len(&self) -> (r: usize)
        ensures
            r as nat == message_queue_seq(*self).len(),
            r as nat <= message_queue_cap(*self),
    {
        self.rb.occupied_len()
    }
}

/// Bounded FIFO of human-readable notices (engine to controller).
#[verifier::external_body]
pub struct LogQueue {
    rb: LocalRb<Heap<LogEntry>>,
}

/// The entries the queue holds, oldest first.
pub uninterp spec fn log_queue_seq(q: LogQueue) -> Seq<LogEntry>;

/// The fixed capacity the queue was made with.
pub uninterp spec fn log_queue_cap(q: LogQueue) -> nat;

impl LogQueue {
    /// Relies on ringbuf's `LocalRb::new`: an empty ring buffer of exactly
    /// `capacity` slots. `new` panics on capacity zero, which is excluded.
    #[verifier::external_body]
    pub fn new(capacity: usize) -> (q: LogQueue)
        requires
            capacity >= 1,
        ensures
            log_queue_seq(q) == Seq::<LogEntry>::empty(),
            log_queue_cap(q) == capacity as nat,
    {
        LogQueue { rb: LocalRb::new(capacity) }
    }

    /// Relies on ringbuf's `Producer::try_push`: appends the item when a slot
    /// is free, else returns it back unchanged; never blocks.
    #[verifier::external_body]
    pub fn try_push(&mut self, item: LogEntry) -> (r: Result<(), LogEntry>)
        ensures
            log_queue_cap(*final(self)) == log_queue_cap(*old(self)),
            log_queue_seq(*final(self)).len() <= log_queue_cap(*final(self)),
            log_queue_seq(*old(self)).len() < log_queue_cap(*old(self)) ==> r is Ok
                && log_queue_seq(*final(self)) == log_queue_seq(*old(self)).push(item),
            log_queue_seq(*old(self)).len() >= log_queue_cap(*old(self)) ==> r is Err && r->Err_0 == item
                && log_queue_seq(*final(self)) == log_queue_seq(*old(self)),
    {
        self.rb.try_push(item)
    }

    /// Relies on ringbuf's `Consumer::try_pop`: removes and returns the
    /// eldest item, or `None` when the queue is empty; never blocks.
    #[verifier::external_body]
    pub fn try_pop(&mut self) -> (r: Option<LogEntry>)
        ensures
            log_queue_cap(*final(self)) == log_queue_cap(*old(self)),
            log_queue_seq(*final(self)).len() <= log_queue_cap(*final(self)),
            log_queue_seq(*old(self)).len() == 0 ==> r is None && log_queue_seq(*final(self))
                == log_queue_seq(*old(self)),
            log_queue_seq(*old(self)).len() > 0 ==> r == Some(log_queue_seq(*old(self))[0])
                && log_queue_seq(*final(self)) == log_queue_seq(*old(self)).drop_first(),
    {
        self.rb.try_pop()
    }

    /// Relies on ringbuf's `Observer::occupied_len`: the number of items held.
    #[verifier::external_body]
    pub fn occupied_len(&self) -> (r: usize)
        ensures
            r as nat == log_queue_seq(*self).len(),
            r as nat <= log_queue_cap(*self),
    {
        self.rb.occupied_len()
    }
}

} // verus!
