use vstd::prelude::*;

use crate::dispatcher::CoreId;
use crate::dispatcher::Dispatcher;
use crate::dispatcher::DispatcherModel;
use crate::dispatcher::Invocation;
use crate::dispatcher::spec_invocations;
use crate::relay::CoreBridge;
use crate::signal::InvalidSignalId;
use crate::signal::SignalId;

verus! {

/// Why a cross-core call was not completed.
#[derive(Copy, Clone, Debug, PartialEq, Eq, Structural)]
pub enum SpawnError {
    /// The target core's queue already holds its maximum; nothing was
    /// queued and no signal was sent. The caller may retry, drop, or
    /// escalate — a full queue is an expected condition under load.
    QueueFull,
    /// The payload was queued, but the wake-up signal could not be sent:
    /// the mailbox still holds an undrained signal for a different line.
    /// The payload stays queued and is drained with the next successful
    /// wake-up of the target; the caller may retry the signal by invoking
    /// again once the mailbox has been drained.
    SignalLost,
}

/// Abstract state of the whole two-core mechanism: the shared mailbox word
/// and each core's dispatch machinery.
#[verifier::ext_equal]
pub struct SpawnModel<T> {
    pub mailbox: Option<u32>,
    pub core0: DispatcherModel<T>,
    pub core1: DispatcherModel<T>,
}

impl<T> SpawnModel<T> {
    /// The named core's half of the state.
    pub open spec fn dispatcher(&self, core: CoreId) -> DispatcherModel<T> {
        match core {
            CoreId::Core0 => self.core0,
            CoreId::Core1 => self.core1,
        }
    }

    /// The same state with the named core's half replaced.
    pub open spec fn with_dispatcher(&self, core: CoreId, d: DispatcherModel<T>) -> SpawnModel<T> {
        match core {
            CoreId::Core0 => SpawnModel { core0: d, ..*self },
            CoreId::Core1 => SpawnModel { core1: d, ..*self },
        }
    }

    /// Each half is well formed and bound to its own core.
    pub open spec fn wf(&self) -> bool {
        &&& self.core0.wf()
        &&& self.core1.wf()
        &&& self.core0.core == CoreId::Core0
        &&& self.core1.core == CoreId::Core1
    }
}

/// The cross-core call surface: "invoke the bound task on core `C` with
/// payload `P`". It owns the shared mailbox relay and both cores'
/// dispatchers, wired together once at startup.
///
/// A call pushes the payload into the target core's queue and only then
/// sends the target's dispatch line through the mailbox — the queue must be
/// populated before the signal, for the signal carries no data ordering of
/// its own. The call is fire-and-forget: it never waits for the remote
/// handler, and a queued payload cannot be cancelled.
pub struct SpawnApi<T: Default + Copy, const DEPTH: usize> {
    bridge: CoreBridge,
    core0: Dispatcher<T, DEPTH>,
    core1: Dispatcher<T, DEPTH>,
}

impl<T: Default + Copy, const DEPTH: usize> View for SpawnApi<T, DEPTH> {
    type V = SpawnModel<T>;

    closed spec fn view(&self) -> SpawnModel<T> {
        SpawnModel { mailbox: self.bridge@, core0: self.core0@, core1: self.core1@ }
    }
}

impl<T: Default + Copy, const DEPTH: usize> SpawnApi<T, DEPTH> {
    /// Internal consistency of the pieces.
    pub closed spec fn wf(&self) -> bool {
        &&& self.core0.wf()
        &&& self.core1.wf()
        &&& self.core0@.core == CoreId::Core0
        &&& self.core1@.core == CoreId::Core1
    }

    /// A well-formed call surface has a well-formed model, and neither
    /// queue ever holds more than `DEPTH - 1` payloads.
    pub proof fn lemma_wf_model(&self)
        requires
            self.wf(),
        ensures
            self@.wf(),
            self@.core0.queue.len() <= DEPTH - 1,
            self@.core1.queue.len() <= DEPTH - 1,
    {
        self.core0.lemma_wf_model();
        self.core1.lemma_wf_model();
    }

    /// One cross-core call against the model: push into the target's queue,
    /// then send the target's dispatch line through the mailbox. A full
    /// queue rejects the call outright — nothing queued, nothing sent. An
    /// empty mailbox takes the signal; a mailbox already carrying the very
    /// same signal coalesces with it; a mailbox carrying anything else
    /// refuses — the payload stays queued, the loss of the wake-up is
    /// reported.
    pub open spec fn spec_invoke(m: SpawnModel<T>, target: CoreId, payload: T) -> (SpawnModel<
        T,
    >, Result<(), SpawnError>) {
        let d = m.dispatcher(target);
        if d.queue.len() >= DEPTH - 1 {
            (m, Err(SpawnError::QueueFull))
        } else {
            let m1 = m.with_dispatcher(
                target,
                DispatcherModel { queue: d.queue.push(payload), ..d },
            );
            let word = d.line as u32;
            if m.mailbox is None {
                (SpawnModel { mailbox: Some(word), ..m1 }, Ok(()))
            } else if m.mailbox == Some(word) {
                (m1, Ok(()))
            } else {
                (m1, Err(SpawnError::SignalLost))
            }
        }
    }

    /// The named core's forwarding interrupt against the model: it drains
    /// the mailbox into that core's own controller.
    pub open spec fn spec_forward(m: SpawnModel<T>, core: CoreId) -> (SpawnModel<T>, Result<
        (),
        InvalidSignalId,
    >) {
        let t = Dispatcher::<T, DEPTH>::spec_forward(m.dispatcher(core), m.mailbox);
        (SpawnModel { mailbox: t.1, ..m.with_dispatcher(core, t.0) }, t.2)
    }

    /// The named core's dispatch interrupt against the model.
    pub open spec fn spec_dispatch(m: SpawnModel<T>, core: CoreId) -> SpawnModel<T> {
        m.with_dispatcher(core, Dispatcher::<T, DEPTH>::spec_run(m.dispatcher(core)))
    }

    /// Wires the whole mechanism: an empty mailbox and one fresh dispatcher
    /// per core, core 0 bound to `line0` and core 1 to `line1`. Done once at
    /// startup, before either core begins normal operation.
    pub fn new(line0: SignalId, line1: SignalId) -> (s: Self)
        requires
            line0.wf(),
            line1.wf(),
            1 <= DEPTH,
        ensures
            s.wf(),
            s@.mailbox is None,
            s@.core0.is_fresh(CoreId::Core0, line0@),
            s@.core1.is_fresh(CoreId::Core1, line1@),
    {
        SpawnApi {
            bridge: CoreBridge::new(),
            core0: Dispatcher::new(CoreId::Core0, line0),
            core1: Dispatcher::new(CoreId::Core1, line1),
        }
    }

    /// The call surface: queue `payload` for the task bound on `target` and
    /// wake that core. Asynchronous by design: success means the payload is
    /// queued and the wake-up pending, not that the handler has run.
    pub fn invoke(&mut self, target: CoreId, payload: T) -> (r: Result<(), SpawnError>)
        requires
            old(self).wf(),
        ensures
            final(self).wf(),
            final(self)@ == Self::spec_invoke(old(self)@, target, payload).0,
            r == Self::spec_invoke(old(self)@, target, payload).1,
    {
        let r = match target {
            CoreId::Core0 => Self::invoke_on(&mut self.core0, &mut self.bridge, payload),
            CoreId::Core1 => Self::invoke_on(&mut self.core1, &mut self.bridge, payload),
        };
        proof {
            assert(self@ =~= Self::spec_invoke(old(self)@, target, payload).0);
        }
        r
    }

    /// One call against one dispatcher and the shared mailbox.
    fn invoke_on(d: &mut Dispatcher<T, DEPTH>, bridge: &mut CoreBridge, payload: T) -> (r: Result<
        (),
        SpawnError,
    >)
        requires
            old(d).wf(),
        ensures
            final(d).wf(),
            ({
                let dm = Dispatcher::<T, DEPTH>::spec_enqueue(old(d)@, payload);
                if dm.1 is Err {
                    &&& r == Err::<(), SpawnError>(SpawnError::QueueFull)
                    &&& final(d)@ == old(d)@
                    &&& *final(bridge) == *old(bridge)
                } else {
                    &&& final(d)@ == dm.0
                    &&& if old(bridge)@ is None {
                        &&& final(bridge)@ == Some(old(d)@.line as u32)
                        &&& r == Ok::<(), SpawnError>(())
                    } else if old(bridge)@ == Some(old(d)@.line as u32) {
                        &&& *final(bridge) == *old(bridge)
                        &&& r == Ok::<(), SpawnError>(())
                    } else {
                        &&& *final(bridge) == *old(bridge)
                        &&& r == Err::<(), SpawnError>(SpawnError::SignalLost)
                    }
                }
            }),
    {
        match d.enqueue(payload) {
            Err(_) => Err(SpawnError::QueueFull),
            Ok(_) => {
                let line = d.dispatch_line();
                match bridge.send_signal(line) {
                    Ok(_) => Ok(()),
                    Err(_) => Err(SpawnError::SignalLost),
                }
            },
        }
    }

    /// The named core's forwarding interrupt: read one pending signal from
    /// the shared mailbox and pend the line it names on that core's own
    /// controller. This is how a sent signal becomes a local interrupt.
    pub fn forward(&mut self, core: CoreId) -> (r: Result<(), InvalidSignalId>)
        requires
            old(self).wf(),
        ensures
            final(self).wf(),
            final(self)@ == Self::spec_forward(old(self)@, core).0,
            r == Self::spec_forward(old(self)@, core).1,
    {
        let r = match core {
            CoreId::Core0 => self.core0.forward(&mut self.bridge),
            CoreId::Core1 => self.core1.forward(&mut self.bridge),
        };
        proof {
            assert(self@ =~= Self::spec_forward(old(self)@, core).0);
        }
        r
    }

    /// The named core's dispatch interrupt: if its dispatch line is pended
    /// and unmasked, drain that core's queue to empty, invoking the bound
    /// handler once per payload in order.
    pub fn dispatch(&mut self, core: CoreId)
        requires
            old(self).wf(),
        ensures
            final(self).wf(),
            final(self)@ == Self::spec_dispatch(old(self)@, core),
    {
        match core {
            CoreId::Core0 => self.core0.run(),
            CoreId::Core1 => self.core1.run(),
        }
        proof {
            assert(self@ =~= Self::spec_dispatch(old(self)@, core));
        }
    }

    /// The handler invocations the named core has performed, oldest first.
    pub fn invocations(&self, core: CoreId) -> (v: &Vec<Invocation<T>>)
        ensures
            v@ == self@.dispatcher(core).log,
    {
        match core {
            CoreId::Core0 => self.core0.invocations(),
            CoreId::Core1 => self.core1.invocations(),
        }
    }

    /// How many payloads wait in the named core's queue.
    pub fn queued(&self, core: CoreId) -> (n: usize)
        requires
            self.wf(),
        ensures
            n == self@.dispatcher(core).queue.len(),
    {
        match core {
            CoreId::Core0 => self.core0.queued(),
            CoreId::Core1 => self.core1.queued(),
        }
    }

    /// Whether a signal is waiting in the mailbox.
    pub fn signal_pending(&self) -> (p: bool)
        ensures
            p == (self@.mailbox is Some),
    {
        self.bridge.is_pending()
    }

    /// One call, one wake-up, one handler run. From a quiet state — empty
    /// mailbox, nothing queued for the target, its dispatch line unmasked
    /// and not pended — a successful `invoke` followed by the target's
    /// forwarding interrupt and then its dispatcher performs exactly one
    /// handler invocation, carrying exactly the payload that was sent; and
    /// as long as the signal has not been forwarded, the dispatcher, were it
    /// to run, performs no invocation at all.
    pub proof fn lemma_invoke_is_one_invocation(m: SpawnModel<T>, target: CoreId, payload: T)
        requires
            m.wf(),
            2 <= DEPTH,
            m.mailbox is None,
            m.dispatcher(target).queue.len() == 0,
            !m.dispatcher(target).ctrl.pended[m.dispatcher(target).line as int],
            !m.dispatcher(target).ctrl.masked[m.dispatcher(target).line as int],
        ensures
            ({
                let i = Self::spec_invoke(m, target, payload);
                let f = Self::spec_forward(i.0, target);
                let a = Self::spec_dispatch(f.0, target);
                &&& i.1 == Ok::<(), SpawnError>(())
                &&& f.1 == Ok::<(), InvalidSignalId>(())
                &&& a.dispatcher(target).log == m.dispatcher(target).log.push(
                    Invocation { payload, core: target },
                )
                &&& a.dispatcher(target).queue.len() == 0
                &&& Self::spec_dispatch(i.0, target).dispatcher(target).log == m.dispatcher(
                    target,
                ).log
            }),
    {
        let i = Self::spec_invoke(m, target, payload);
        let f = Self::spec_forward(i.0, target);
        let a = Self::spec_dispatch(f.0, target);
        assert(spec_invocations(Seq::<T>::empty().push(payload), target) =~= Seq::<Invocation<
            T,
        >>::empty().push(Invocation { payload, core: target }));
        assert(m.dispatcher(target).core == target);
        assert(a.dispatcher(target).log =~= m.dispatcher(target).log.push(
            Invocation { payload, core: target },
        ));
    }

    /// Back-to-back calls coalesce into one wake-up and drain in order.
    /// From an empty mailbox, two consecutive successful `invoke` calls to
    /// the same core — with no dispatcher run in between, and room for both
    /// payloads — leave both payloads queued in sending order; the second
    /// call finds the first call's signal already in the mailbox and rides
    /// on it. Once the signal is forwarded and the dispatcher runs, the
    /// handler is invoked with every previously queued payload and then the
    /// two new ones, first-sent first, and the queue is empty.
    pub proof fn lemma_back_to_back_invokes_drain_in_order(
        m: SpawnModel<T>,
        target: CoreId,
        p1: T,
        p2: T,
    )
        requires
            m.wf(),
            m.mailbox is None,
            m.dispatcher(target).queue.len() + 2 <= DEPTH - 1,
            !m.dispatcher(target).ctrl.masked[m.dispatcher(target).line as int],
        ensures
            ({
                let i1 = Self::spec_invoke(m, target, p1);
                let i2 = Self::spec_invoke(i1.0, target, p2);
                let f = Self::spec_forward(i2.0, target);
                let a = Self::spec_dispatch(f.0, target);
                &&& i1.1 == Ok::<(), SpawnError>(())
                &&& i2.1 == Ok::<(), SpawnError>(())
                &&& f.1 == Ok::<(), InvalidSignalId>(())
                &&& i2.0.dispatcher(target).queue == m.dispatcher(target).queue.push(p1).push(p2)
                &&& a.dispatcher(target).log == m.dispatcher(target).log + spec_invocations(
                    m.dispatcher(target).queue.push(p1).push(p2),
                    target,
                )
                &&& a.dispatcher(target).queue.len() == 0
            }),
    {
        let i1 = Self::spec_invoke(m, target, p1);
        let i2 = Self::spec_invoke(i1.0, target, p2);
        let f = Self::spec_forward(i2.0, target);
        let a = Self::spec_dispatch(f.0, target);
        assert(m.dispatcher(target).core == target);
        assert(a.dispatcher(target).log =~= m.dispatcher(target).log + spec_invocations(
            m.dispatcher(target).queue.push(p1).push(p2),
            target,
        ));
    }
}

} // verus!
