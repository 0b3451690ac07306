//! A cross-core task-dispatch ("spawn") layer for a dual-core microcontroller,
//! modelled on plain data so that every rule of the mechanism is verified.
//!
//! Two cores share memory but own private interrupt controllers and are joined
//! only by a one-word hardware mailbox. One core asks the other to run a task
//! by pushing the payload into the target core's single-producer,
//! single-consumer ring queue and then sending the target's dispatch-interrupt
//! line through the mailbox; the target's forwarding handler pends that line
//! on its own controller, and its dispatcher drains the queue, invoking the
//! bound task handler once per payload.
//!
//! The crate holds the logic of that mechanism: the ring queue
//! ([`queue::MessageQueue`]), the mailbox relay ([`relay::CoreBridge`]), the
//! checked signal-identifier codec ([`signal::SignalId`]), the per-core
//! interrupt-controller state ([`controller::InterruptController`]), the
//! dispatcher ([`dispatcher::Dispatcher`]), and the cross-core call surface
//! ([`spawn::SpawnApi`]). Hardware register access is left to the embedding:
//! the types here carry the same words and flags as the hardware, as plain
//! values.

pub mod controller;
pub mod dispatcher;
pub mod queue;
pub mod relay;
pub mod signal;
pub mod spawn;

pub use queue::FullQueueError;
pub use queue::MessageQueue;
