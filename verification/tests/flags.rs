use shiguredo_dav1d::{DecodeFrameType, EventFlags, InloopFilterType};

fn inloop_filters() -> [InloopFilterType; 5] {
    [
        InloopFilterType::NONE(),
        InloopFilterType::DEBLOCK(),
        InloopFilterType::CDEF(),
        InloopFilterType::RESTORATION(),
        InloopFilterType::ALL(),
    ]
}

fn event_flags() -> [EventFlags; 2] {
    [EventFlags::NEW_SEQUENCE(), EventFlags::NEW_OP_PARAMS_INFO()]
}

#[test]
fn inloop_filter_raw_values() {
    let raw: Vec<u32> = inloop_filters().iter().map(|f| f.to_raw()).collect();
    assert_eq!(raw, vec![0, 1, 2, 4, 7]);
}

#[test]
fn inloop_filter_bitor_combines_bits() {
    let f = InloopFilterType::DEBLOCK() | InloopFilterType::RESTORATION();
    assert_eq!(f.to_raw(), 5);
    let g = InloopFilterType::DEBLOCK() | InloopFilterType::CDEF() | InloopFilterType::RESTORATION();
    assert_eq!(g, InloopFilterType::ALL());
}

#[test]
fn inloop_filter_bitor_associative() {
    for a in inloop_filters() {
        for b in inloop_filters() {
            for c in inloop_filters() {
                assert_eq!((a | b) | c, a | (b | c));
            }
        }
    }
}

#[test]
fn inloop_filter_bitor_commutative() {
    for a in inloop_filters() {
        for b in inloop_filters() {
            assert_eq!(a | b, b | a);
        }
    }
}

#[test]
fn inloop_filter_bitor_identity() {
    for a in inloop_filters() {
        assert_eq!(a | InloopFilterType::NONE(), a);
    }
}

#[test]
fn inloop_filter_bitor_absorbing() {
    for a in inloop_filters() {
        assert_eq!(a | InloopFilterType::ALL(), InloopFilterType::ALL());
    }
}

#[test]
fn event_flags_contains_reflexive() {
    for f in event_flags() {
        assert!(f.contains(f));
    }
}

#[test]
fn event_flags_contains_mutually_exclusive() {
    let flags = event_flags();
    for (i, f) in flags.iter().enumerate() {
        for (j, g) in flags.iter().enumerate() {
            assert_eq!(f.contains(*g), i == j);
        }
    }
}

#[test]
fn event_flags_from_raw() {
    let both = EventFlags::from_raw(3);
    assert!(both.contains(EventFlags::NEW_SEQUENCE()));
    assert!(both.contains(EventFlags::NEW_OP_PARAMS_INFO()));
    let none = EventFlags::from_raw(0);
    assert!(!none.contains(EventFlags::NEW_SEQUENCE()));
    assert!(!none.contains(EventFlags::NEW_OP_PARAMS_INFO()));
    assert_eq!(EventFlags::from_raw(1), EventFlags::NEW_SEQUENCE());
}

#[test]
fn decode_frame_type_raw_values() {
    assert_eq!(DecodeFrameType::All.to_raw(), 0);
    assert_eq!(DecodeFrameType::Reference.to_raw(), 1);
    assert_eq!(DecodeFrameType::Intra.to_raw(), 2);
    assert_eq!(DecodeFrameType::Key.to_raw(), 3);
}
