use vstd::prelude::*;

use crate::controller::ControllerModel;
use crate::controller::InterruptController;
use crate::queue::FullQueueError;
use crate::queue::MessageQueue;
use crate::relay::CoreBridge;
use crate::signal::InvalidSignalId;
use crate::signal::SIGNAL_LINE_COUNT;
use crate::signal::SignalId;

verus! {

/// One of the two cores. Each owns a private interrupt controller, a task
/// queue and a dispatcher; they share memory and the one-word mailbox.
#[derive(Copy, Clone, Debug, PartialEq, Eq, Structural)]
pub enum CoreId {
    Core0,
    Core1,
}

impl CoreId {
    /// The core's number, as task handlers receive it.
    pub open spec fn spec_index(self) -> u32 {
        match self {
            CoreId::Core0 => 0,
            CoreId::Core1 => 1,
        }
    }

    /// The core's number, as task handlers receive it.
    pub fn index(self) -> (i: u32)
        ensures
            i == self.spec_index(),
    {
        match self {
            CoreId::Core0 => 0,
            CoreId::Core1 => 1,
        }
    }
}

/// One invocation of the bound task handler: the payload it was handed and
/// the core it ran on. The dispatcher records its invocations in order; an
/// embedding realises each record as one synchronous call of the bound
/// function with `(payload, core index)`.
#[derive(Copy, Clone, Debug, PartialEq, Eq)]
pub struct Invocation<T> {
    pub payload: T,
    pub core: CoreId,
}

/// The handler invocations that draining `s` on `core` performs: one per
/// element, in queue order.
pub open spec fn spec_invocations<T>(s: Seq<T>, core: CoreId) -> Seq<Invocation<T>> {
    s.map_values(|p: T| (Invocation { payload: p, core: core }))
}

/// Abstract state of one core's dispatch machinery: the binding fixed at
/// startup (core and dispatch line), the live queue content, the
/// controller's flags, and the handler invocations performed so far.
#[verifier::ext_equal]
pub struct DispatcherModel<T> {
    pub core: CoreId,
    pub line: u16,
    pub queue: Seq<T>,
    pub ctrl: ControllerModel,
    pub log: Seq<Invocation<T>>,
}

impl<T> DispatcherModel<T> {
    /// The binding names an existing line and the controller carries one
    /// flag of each kind per line.
    pub open spec fn wf(&self) -> bool {
        &&& self.line < SIGNAL_LINE_COUNT
        &&& self.ctrl.pended.len() == SIGNAL_LINE_COUNT as nat
        &&& self.ctrl.masked.len() == SIGNAL_LINE_COUNT as nat
    }

    /// The state a dispatcher is born in: bound to `core` and `line`, its
    /// own line unmasked and every other line still masked, nothing pended,
    /// queue and log empty.
    pub open spec fn is_fresh(&self, core: CoreId, line: u16) -> bool {
        &&& self.core == core
        &&& self.line == line
        &&& self.queue == Seq::<T>::empty()
        &&& self.log == Seq::<Invocation<T>>::empty()
        &&& self.ctrl.pended.len() == SIGNAL_LINE_COUNT as nat
        &&& self.ctrl.masked.len() == SIGNAL_LINE_COUNT as nat
        &&& forall|i: int| 0 <= i < SIGNAL_LINE_COUNT as int ==> !self.ctrl.pended[i]
        &&& forall|i: int|
            0 <= i < SIGNAL_LINE_COUNT as int ==> self.ctrl.masked[i] == (i != line as int)
    }
}

/// The per-core dispatcher: the interrupt-driven routine that, when its
/// dispatch line fires, drains the core's queue to empty and invokes the
/// bound task handler once per payload, in arrival order.
///
/// Draining to empty — rather than one payload per interrupt — is what makes
/// a coalesced wake-up harmless: however many payloads were queued behind a
/// single signal, one run of the dispatcher hands all of them to the
/// handler.
///
/// The binding of core, queue and dispatch line is fixed at construction and
/// never changes afterwards.
pub struct Dispatcher<T: Default + Copy, const DEPTH: usize> {
    core: CoreId,
    line: SignalId,
    queue: MessageQueue<T, DEPTH>,
    ctrl: InterruptController,
    log: Vec<Invocation<T>>,
}

impl<T: Default + Copy, const DEPTH: usize> View for Dispatcher<T, DEPTH> {
    type V = DispatcherModel<T>;

    closed spec fn view(&self) -> DispatcherModel<T> {
        DispatcherModel {
            core: self.core,
            line: self.line@,
            queue: self.queue@,
            ctrl: self.ctrl@,
            log: self.log@,
        }
    }
}

impl<T: Default + Copy, const DEPTH: usize> Dispatcher<T, DEPTH> {
    /// Internal consistency of the pieces.
    pub closed spec fn wf(&self) -> bool {
        &&& self.queue.wf()
        &&& self.ctrl.wf()
        &&& self.line.wf()
    }

    /// A well-formed dispatcher has a well-formed model, and its queue never
    /// holds more than `DEPTH - 1` payloads.
    pub proof fn lemma_wf_model(&self)
        requires
            self.wf(),
        ensures
            self@.wf(),
            self@.queue.len() <= DEPTH - 1,
    {
        self.queue.lemma_len_bound();
    }

    /// Whether the dispatch interrupt fires on `m`: its line is pended and
    /// unmasked.
    pub open spec fn spec_ready(m: DispatcherModel<T>) -> bool {
        &&& m.ctrl.pended[m.line as int]
        &&& !m.ctrl.masked[m.line as int]
    }

    /// One run of the dispatch interrupt on `m`. If the line is not firing,
    /// nothing happens. Otherwise the pend flag is consumed and the queue is
    /// drained to empty, the handler invoked once per payload in order.
    pub open spec fn spec_run(m: DispatcherModel<T>) -> DispatcherModel<T> {
        if Self::spec_ready(m) {
            DispatcherModel {
                queue: Seq::<T>::empty(),
                ctrl: ControllerModel {
                    pended: m.ctrl.pended.update(m.line as int, false),
                    masked: m.ctrl.masked,
                },
                log: m.log + spec_invocations(m.queue, m.core),
                ..m
            }
        } else {
            m
        }
    }

    /// A producer hands `payload` to this core: it is appended to the queue
    /// unless the queue is full.
    pub open spec fn spec_enqueue(m: DispatcherModel<T>, payload: T) -> (DispatcherModel<
        T,
    >, Result<(), FullQueueError>) {
        if m.queue.len() < DEPTH - 1 {
            (DispatcherModel { queue: m.queue.push(payload), ..m }, Ok(()))
        } else {
            (m, Err(FullQueueError))
        }
    }

    /// One run of the mailbox-forwarding interrupt on `m`, with `mailbox`
    /// the channel's pending word. An empty channel leaves everything as it
    /// is; a word that names a line is consumed and that line is pended on
    /// this core's controller; a stray word is consumed and reported.
    pub open spec fn spec_forward(m: DispatcherModel<T>, mailbox: Option<u32>) -> (DispatcherModel<
        T,
    >, Option<u32>, Result<(), InvalidSignalId>) {
        match mailbox {
            None => (m, None::<u32>, Ok(())),
            Some(w) => if w < SIGNAL_LINE_COUNT as u32 {
                (
                    DispatcherModel {
                        ctrl: ControllerModel {
                            pended: m.ctrl.pended.update(w as int, true),
                            masked: m.ctrl.masked,
                        },
                        ..m
                    },
                    None::<u32>,
                    Ok(()),
                )
            } else {
                (m, None::<u32>, Err(InvalidSignalId { word: w }))
            },
        }
    }

    /// Builds the dispatcher for `core`, bound to the dispatch line `line`:
    /// empty queue, empty log, and a controller out of reset with exactly
    /// the dispatch line unmasked. Done once at startup, before any signal
    /// that references the queue can be sent.
    pub fn new(core: CoreId, line: SignalId) -> (d: Self)
        requires
            line.wf(),
            1 <= DEPTH,
        ensures
            d.wf(),
            d@.is_fresh(core, line@),
    {
        let mut ctrl = InterruptController::new();
        ctrl.unmask(line);
        let d = Dispatcher {
            core,
            line,
            queue: MessageQueue::new(),
            ctrl,
            log: Vec::new(),
        };
        d
    }

    /// The core this dispatcher runs on.
    pub fn core_id(&self) -> (c: CoreId)
        ensures
            c == self@.core,
    {
        self.core
    }

    /// The interrupt line that triggers this dispatcher.
    pub fn dispatch_line(&self) -> (l: SignalId)
        requires
            self.wf(),
        ensures
            l@ == self@.line,
            l.wf(),
    {
        self.line
    }

    /// How many payloads are queued and not yet drained.
    pub fn queued(&self) -> (n: usize)
        requires
            self.wf(),
        ensures
            n == self@.queue.len(),
    {
        self.queue.len()
    }

    /// The handler invocations performed so far, oldest first.
    pub fn invocations(&self) -> (v: &Vec<Invocation<T>>)
        ensures
            v@ == self@.log,
    {
        &self.log
    }

    /// The producer side: appends `payload` for this core's handler, or
    /// reports a full queue and changes nothing.
    pub fn enqueue(&mut self, payload: T) -> (r: Result<(), FullQueueError>)
        requires
            old(self).wf(),
        ensures
            final(self).wf(),
            final(self)@ == Self::spec_enqueue(old(self)@, payload).0,
            r == Self::spec_enqueue(old(self)@, payload).1,
    {
        let r = self.queue.push(payload);
        proof {
            assert(self@ =~= Self::spec_enqueue(old(self)@, payload).0);
        }
        match r {
            Ok(_) => Ok(()),
            Err(e) => Err(e),
        }
    }

    /// The forwarding interrupt: reads one pending signal from the mailbox,
    /// and if there is one, pends the line it names on this core's own
    /// controller. This is the receiving half of the only path by which the
    /// other core can reach this one.
    pub fn forward(&mut self, bridge: &mut CoreBridge) -> (r: Result<(), InvalidSignalId>)
        requires
            old(self).wf(),
        ensures
            final(self).wf(),
            final(self)@ == Self::spec_forward(old(self)@, old(bridge)@).0,
            final(bridge)@ == Self::spec_forward(old(self)@, old(bridge)@).1,
            r == Self::spec_forward(old(self)@, old(bridge)@).2,
    {
        let r = match bridge.read_signal() {
            Ok(Some(id)) => {
                self.ctrl.pend(id);
                Ok(())
            },
            Ok(None) => Ok(()),
            Err(e) => Err(e),
        };
        proof {
            assert(self@ =~= Self::spec_forward(old(self)@, old(bridge)@).0);
        }
        r
    }

    /// The dispatch interrupt. If this core's dispatch line is pended and
    /// unmasked, the pend flag is consumed and the queue drained to empty:
    /// every payload, in the order it arrived, is recorded as one handler
    /// invocation on this core before the drain moves on. If the line is
    /// not firing, nothing at all happens — in particular, no invocation.
    pub fn run(&mut self)
        requires
            old(self).wf(),
        ensures
            final(self).wf(),
            final(self)@ == Self::spec_run(old(self)@),
    {
        if self.ctrl.is_pended(self.line) && !self.ctrl.is_masked(self.line) {
            self.ctrl.unpend(self.line);
            let ghost q0 = self.queue@;
            let ghost log0 = self.log@;
            let ghost c0 = self.core;
            let ghost ctrl1 = self.ctrl@;
            let ghost line0 = self.line;
            let ghost mut k: int = 0;
            loop
                invariant
                    self.queue.wf(),
                    self.ctrl.wf(),
                    self.line.wf(),
                    0 <= k <= q0.len(),
                    self.queue@ == q0.subrange(k, q0.len() as int),
                    self.log@ == log0 + spec_invocations(q0.subrange(0, k), c0),
                    self.core == c0,
                    self.line == line0,
                    self.ctrl@ == ctrl1,
                ensures
                    self.queue.wf(),
                    self.ctrl.wf(),
                    self.line.wf(),
                    self.queue@.len() == 0,
                    self.log@ == log0 + spec_invocations(q0, c0),
                    self.core == c0,
                    self.line == line0,
                    self.ctrl@ == ctrl1,
                decreases q0.len() - k,
            {
                match self.queue.pop() {
                    Some(v) => {
                        self.log.push(Invocation { payload: v, core: self.core });
                        proof {
                            assert(q0.subrange(k, q0.len() as int)[0] == q0[k]);
                            assert(q0.subrange(0, k + 1) =~= q0.subrange(0, k).push(q0[k]));
                            assert(spec_invocations(q0.subrange(0, k + 1), c0) =~= spec_invocations(
                                q0.subrange(0, k),
                                c0,
                            ).push(Invocation { payload: v, core: c0 }));
                            assert(q0.subrange(k, q0.len() as int).subrange(
                                1,
                                q0.subrange(k, q0.len() as int).len() as int,
                            ) =~= q0.subrange(k + 1, q0.len() as int));
                            k = k + 1;
                        }
                    },
                    None => {
                        proof {
                            assert(q0.subrange(k, q0.len() as int).len() == 0);
                            assert(k == q0.len());
                            assert(q0.subrange(0, k) =~= q0);
                        }
                        break ;
                    },
                }
            }
            proof {
                assert(self.queue@ =~= Seq::<T>::empty());
                assert(self@ =~= Self::spec_run(old(self)@));
            }
        } else {
            proof {
                assert(self@ =~= Self::spec_run(old(self)@));
            }
        }
    }
}

} // verus!
