use vstd::prelude::*;

use crate::signal::SIGNAL_LINE_COUNT;
use crate::signal::SignalId;

verus! {

/// Abstract state of a core's interrupt controller: for every line, whether
/// an interrupt is pended and whether the line is masked.
#[verifier::ext_equal]
pub struct ControllerModel {
    pub pended: Seq<bool>,
    pub masked: Seq<bool>,
}

/// The private interrupt controller of one core, as far as this mechanism
/// reads it: one pend flag and one mask flag per line. The platform's
/// controller is hardware; this type carries its two flag sets as plain
/// values with the operations the platform exposes — pend, unpend, mask,
/// unmask — so that the dispatch logic above it is checked against exact
/// controller behaviour.
///
/// Out of reset every line is masked and nothing is pended; a line fires
/// only once it has been pended while unmasked.
pub struct InterruptController {
    pended: Vec<bool>,
    masked: Vec<bool>,
}

impl View for InterruptController {
    type V = ControllerModel;

    closed spec fn view(&self) -> ControllerModel {
        ControllerModel { pended: self.pended@, masked: self.masked@ }
    }
}

impl InterruptController {
    /// One flag of each kind per line.
    pub open spec fn wf(&self) -> bool {
        &&& self@.pended.len() == SIGNAL_LINE_COUNT as nat
        &&& self@.masked.len() == SIGNAL_LINE_COUNT as nat
    }

    /// The reset state: no line pended, every line masked.
    pub fn new() -> (c: Self)
        ensures
            c.wf(),
            forall|i: int| 0 <= i < SIGNAL_LINE_COUNT as int ==> !c@.pended[i],
            forall|i: int| 0 <= i < SIGNAL_LINE_COUNT as int ==> c@.masked[i],
    {
        InterruptController { pended: Self::filled(false), masked: Self::filled(true) }
    }

    /// A flag per line, all set the same way.
    fn filled(value: bool) -> (v: Vec<bool>)
        ensures
            v@.len() == SIGNAL_LINE_COUNT as nat,
            forall|i: int| 0 <= i < SIGNAL_LINE_COUNT as int ==> v@[i] == value,
    {
        let mut v: Vec<bool> = Vec::new();
        let mut n: usize = 0;
        while n < SIGNAL_LINE_COUNT as usize
            invariant
                n <= SIGNAL_LINE_COUNT as usize,
                v@.len() == n as nat,
                forall|i: int| 0 <= i < n as int ==> v@[i] == value,
            decreases SIGNAL_LINE_COUNT as usize - n,
        {
            v.push(value);
            n = n + 1;
        }
        v
    }

    /// Marks the line's interrupt as pending. Pending is a single flag, so
    /// pending an already-pended line changes nothing — requests coalesce.
    pub fn pend(&mut self, id: SignalId)
        requires
            old(self).wf(),
            id.wf(),
        ensures
            final(self).wf(),
            final(self)@.pended == old(self)@.pended.update(id@ as int, true),
            final(self)@.masked == old(self)@.masked,
    {
        let i = id.code() as usize;
        self.pended[i] = true;
    }

    /// Clears the line's pending flag — what the hardware does on its own
    /// when it begins running the line's handler.
    pub fn unpend(&mut self, id: SignalId)
        requires
            old(self).wf(),
            id.wf(),
        ensures
            final(self).wf(),
            final(self)@.pended == old(self)@.pended.update(id@ as int, false),
            final(self)@.masked == old(self)@.masked,
    {
        let i = id.code() as usize;
        self.pended[i] = false;
    }

    /// Masks the line: a pended interrupt on it stays put and does not fire.
    pub fn mask(&mut self, id: SignalId)
        requires
            old(self).wf(),
            id.wf(),
        ensures
            final(self).wf(),
            final(self)@.masked == old(self)@.masked.update(id@ as int, true),
            final(self)@.pended == old(self)@.pended,
    {
        let i = id.code() as usize;
        self.masked[i] = true;
    }

    /// Unmasks the line, allowing a pended interrupt on it to fire. Done
    /// once at startup for the dispatch line, before any signal referencing
    /// the queue is sent.
    pub fn unmask(&mut self, id: SignalId)
        requires
            old(self).wf(),
            id.wf(),
        ensures
            final(self).wf(),
            final(self)@.masked == old(self)@.masked.update(id@ as int, false),
            final(self)@.pended == old(self)@.pended,
    {
        let i = id.code() as usize;
        self.masked[i] = false;
    }

    /// Whether the line's interrupt is pending.
    pub fn is_pended(&self, id: SignalId) -> (p: bool)
        requires
            self.wf(),
            id.wf(),
        ensures
            p == self@.pended[id@ as int],
    {
        self.pended[id.code() as usize]
    }

    /// Whether the line is masked.
    pub fn is_masked(&self, id: SignalId) -> (m: bool)
        requires
            self.wf(),
            id.wf(),
        ensures
            m == self@.masked[id@ as int],
    {
        self.masked[id.code() as usize]
    }
}

} // verus!
