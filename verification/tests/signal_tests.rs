use cross_core::signal::InvalidSignalId;
use cross_core::signal::SIGNAL_LINE_COUNT;
use cross_core::signal::SignalId;

#[test]
fn new_accepts_defined_lines() {
    let id = SignalId::new(0).unwrap();
    assert_eq!(id.code(), 0);
    let id = SignalId::new(SIGNAL_LINE_COUNT - 1).unwrap();
    assert_eq!(id.code(), SIGNAL_LINE_COUNT - 1);
}

#[test]
fn new_rejects_lines_out_of_range() {
    assert_eq!(
        SignalId::new(SIGNAL_LINE_COUNT),
        Err(InvalidSignalId { word: SIGNAL_LINE_COUNT as u32 })
    );
    assert_eq!(SignalId::new(u16::MAX), Err(InvalidSignalId { word: u16::MAX as u32 }));
}

#[test]
fn encode_decode_round_trip() {
    for code in 0..SIGNAL_LINE_COUNT {
        let id = SignalId::new(code).unwrap();
        let word = id.encode();
        assert_eq!(word, code as u32);
        assert_eq!(SignalId::decode(word), Ok(id));
    }
}

#[test]
fn decode_rejects_stray_words() {
    assert_eq!(
        SignalId::decode(SIGNAL_LINE_COUNT as u32),
        Err(InvalidSignalId { word: SIGNAL_LINE_COUNT as u32 })
    );
    assert_eq!(SignalId::decode(0xdead_beef), Err(InvalidSignalId { word: 0xdead_beef }));
    assert_eq!(SignalId::decode(u32::MAX), Err(InvalidSignalId { word: u32::MAX }));
}
