use vstd::prelude::*;

verus! {

/// Number of interrupt lines a core's controller knows; every signal
/// identifier names one of them. The mailbox carries a signal as a bare
/// 32-bit word, so any word at or above this bound decodes to an error.
pub const SIGNAL_LINE_COUNT: u16 = 26;

/// A word read from the mailbox did not name any interrupt line. The channel
/// carries no type tag, so the decode is the place where a stray word is
/// caught; the offending word is kept for the report. The error is fatal to
/// the one handler invocation that met it, not to the running core.
#[derive(Copy, Clone, Debug, PartialEq, Eq, Structural)]
pub struct InvalidSignalId {
    pub word: u32,
}

/// A signal could not be sent because the mailbox still holds a different,
/// undrained signal: sending would overwrite it and the wake-up it promises
/// would be silently lost. The relay refuses instead and reports.
#[derive(Copy, Clone, Debug, PartialEq, Eq, Structural)]
pub struct SignalLost;

/// Identifier of one interrupt line on the receiving core's controller: the
/// line its forwarding handler is asked to pend. It travels through the
/// mailbox as the line number itself, so it round-trips exactly through the
/// channel's native 32-bit representation.
///
/// The only way to obtain one is through the checked constructors, so every
/// value in circulation names an existing line.
#[derive(Copy, Clone, Debug, PartialEq, Eq, Structural)]
pub struct SignalId {
    code: u16,
}

impl View for SignalId {
    type V = u16;

    /// The number of the interrupt line this identifier names.
    closed spec fn view(&self) -> u16 {
        self.code
    }
}

impl SignalId {
    /// A defined identifier names an existing interrupt line.
    pub open spec fn wf(&self) -> bool {
        self@ < SIGNAL_LINE_COUNT
    }

    /// The word this identifier becomes on the mailbox channel.
    pub open spec fn spec_encode(&self) -> u32 {
        self@ as u32
    }

    /// Checked construction from a line number: defined line numbers and
    /// nothing else.
    pub fn new(code: u16) -> (r: Result<SignalId, InvalidSignalId>)
        ensures
            code < SIGNAL_LINE_COUNT ==> r is Ok && r.unwrap()@ == code,
            code >= SIGNAL_LINE_COUNT ==> (r == Err::<SignalId, InvalidSignalId>(
                InvalidSignalId { word: code as u32 },
            )),
    {
        if code < SIGNAL_LINE_COUNT {
            Ok(SignalId { code })
        } else {
            Err(InvalidSignalId { word: code as u32 })
        }
    }

    /// The line number behind the identifier.
    pub fn code(&self) -> (c: u16)
        ensures
            c == self@,
    {
        self.code
    }

    /// The identifier as the 32-bit word the mailbox carries.
    pub fn encode(&self) -> (w: u32)
        ensures
            w == self.spec_encode(),
    {
        self.code as u32
    }

    /// Checked decode of a mailbox word: the tagged replacement for a raw
    /// reinterpretation. Exactly the words below [`SIGNAL_LINE_COUNT`] name a
    /// line; every other word is reported, never reinterpreted.
    pub fn decode(word: u32) -> (r: Result<SignalId, InvalidSignalId>)
        ensures
            word < SIGNAL_LINE_COUNT as u32 ==> r is Ok && r.unwrap()@ == word as u16
                && r.unwrap().wf() && r.unwrap().spec_encode() == word,
            word >= SIGNAL_LINE_COUNT as u32 ==> (r == Err::<SignalId, InvalidSignalId>(
                InvalidSignalId { word },
            )),
    {
        if word < SIGNAL_LINE_COUNT as u32 {
            Ok(SignalId { code: word as u16 })
        } else {
            Err(InvalidSignalId { word })
        }
    }

    /// An identifier is nothing but its line number: two identifiers that
    /// name the same line are the same identifier. With the contracts of
    /// [`SignalId::encode`] and [`SignalId::decode`] this gives the exact
    /// round trip through the mailbox word — no identifier is invented or
    /// lost by the channel's integer representation.
    pub proof fn lemma_line_determines_id(a: SignalId, b: SignalId)
        requires
            a@ == b@,
        ensures
            a == b,
    {
    }
}

} // verus!
