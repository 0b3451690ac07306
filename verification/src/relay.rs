use vstd::prelude::*;

use crate::signal::InvalidSignalId;
use crate::signal::SIGNAL_LINE_COUNT;
use crate::signal::SignalId;
use crate::signal::SignalLost;

verus! {

/// The relay over the one-word hardware mailbox that joins the two cores: a
/// 32-bit payload register and a "data valid" flag, visible to both sides.
/// It carries at most one pending signal at a time — "wake the other core
/// for the line this word names" — and is the only path by which one core
/// can make code run on its sibling.
///
/// The hardware register pair itself lives outside this crate; this type
/// holds the same word and flag as plain values, and its operations are the
/// relay's whole decision logic. An embedding that drives real hardware
/// performs the register access with exactly these rules.
///
/// The relay never blocks. When the channel is already occupied by a
/// *different* word, a raw hardware write would overwrite it and the wake-up
/// it promises would be lost silently; the relay surfaces that as
/// [`SignalLost`] instead and leaves the channel alone. A send of the word
/// already pending coalesces: the wake-up it asks for is the one already
/// promised, so there is nothing left to send.
pub struct CoreBridge {
    word: u32,
    valid: bool,
}

impl View for CoreBridge {
    type V = Option<u32>;

    /// The pending word, if the valid flag is set.
    closed spec fn view(&self) -> Option<u32> {
        if self.valid {
            Some(self.word)
        } else {
            None
        }
    }
}

impl CoreBridge {
    /// An empty channel: nothing pending. Built once at startup, before
    /// either core is released into normal operation.
    pub fn new() -> (b: Self)
        ensures
            b@ == None::<u32>,
    {
        CoreBridge { word: 0, valid: false }
    }

    /// Whether a word is waiting to be drained.
    pub fn is_pending(&self) -> (p: bool)
        ensures
            p == (self@ is Some),
    {
        self.valid
    }

    /// Writes one raw word into the channel — the bare hardware send. An
    /// empty channel accepts the word; a channel already holding the same
    /// word coalesces the send; a channel holding a different word refuses
    /// with [`SignalLost`] and keeps what it holds.
    pub fn send_word(&mut self, word: u32) -> (r: Result<(), SignalLost>)
        ensures
            old(self)@ is None ==> r == Ok::<(), SignalLost>(()) && final(self)@ == Some(word),
            old(self)@ == Some(word) ==> r == Ok::<(), SignalLost>(()) && *final(self) == *old(
                self,
            ),
            old(self)@ is Some && old(self)@ != Some(word) ==> r == Err::<(), SignalLost>(
                SignalLost,
            ) && *final(self) == *old(self),
    {
        if !self.valid {
            self.word = word;
            self.valid = true;
            Ok(())
        } else if self.word == word {
            Ok(())
        } else {
            Err(SignalLost)
        }
    }

    /// Sends a signal: the identifier travels as its 32-bit word. The queue
    /// an invocation rides in must be filled before this is called — the
    /// signal carries no data of its own, only the promise of a wake-up.
    pub fn send_signal(&mut self, id: SignalId) -> (r: Result<(), SignalLost>)
        ensures
            old(self)@ is None ==> r == Ok::<(), SignalLost>(()) && final(self)@ == Some(
                id.spec_encode(),
            ),
            old(self)@ == Some(id.spec_encode()) ==> r == Ok::<(), SignalLost>(()) && *final(self)
                == *old(self),
            old(self)@ is Some && old(self)@ != Some(id.spec_encode()) ==> r == Err::<
                (),
                SignalLost,
            >(SignalLost) && *final(self) == *old(self),
    {
        let w = id.encode();
        self.send_word(w)
    }

    /// Reads and clears one pending signal, if any, decoding the word with
    /// [`SignalId::decode`]. An empty channel yields `Ok(None)` and stays as
    /// it is. A pending word is consumed either way: a word that names a
    /// line comes back as the identifier, a stray word comes back as
    /// [`InvalidSignalId`] — reported, never reinterpreted.
    pub fn read_signal(&mut self) -> (r: Result<Option<SignalId>, InvalidSignalId>)
        ensures
            old(self)@ is None ==> r == Ok::<Option<SignalId>, InvalidSignalId>(None)
                && *final(self) == *old(self),
            old(self)@ is Some ==> final(self)@ is None,
            old(self)@ is Some && old(self)@.unwrap() < SIGNAL_LINE_COUNT as u32 ==> r is Ok
                && r.unwrap() is Some && r.unwrap().unwrap()@ == old(self)@.unwrap() as u16,
            old(self)@ is Some && old(self)@.unwrap() >= SIGNAL_LINE_COUNT as u32 ==> r == Err::<
                Option<SignalId>,
                InvalidSignalId,
            >(InvalidSignalId { word: old(self)@.unwrap() }),
    {
        if self.valid {
            let w = self.word;
            self.valid = false;
            match SignalId::decode(w) {
                Ok(id) => Ok(Some(id)),
                Err(e) => Err(e),
            }
        } else {
            Ok(None)
        }
    }
}

} // verus!
