use rw::event::{ends_loop, event_kind, next_action, LoopAction, RawEvent};

#[test]
fn event_kind_clears_send_event_bit() {
    assert_eq!(event_kind(12), 12);
    assert_eq!(event_kind(12 | 0x80), 12);
    assert_eq!(event_kind(0xff), 0x7f);
    assert_eq!(event_kind(0), 0);
}

#[test]
fn no_event_stops_the_loop() {
    assert_eq!(next_action(None), LoopAction::Stop);
    assert!(ends_loop(LoopAction::Stop));
}

#[test]
fn quit_key_quits() {
    let a = next_action(Some(RawEvent { response_type: 2, detail: 24 }));
    assert_eq!(a, LoopAction::Quit);
    assert!(ends_loop(a));
}

#[test]
fn other_key_is_reported() {
    let a = next_action(Some(RawEvent { response_type: 2, detail: 38 }));
    assert_eq!(a, LoopAction::KeyPressed(38));
    assert!(!ends_loop(a));
}

#[test]
fn exposure_is_reported() {
    let a = next_action(Some(RawEvent { response_type: 12, detail: 0 }));
    assert_eq!(a, LoopAction::Exposed(12));
    assert!(!ends_loop(a));
}

#[test]
fn other_events_are_ignored() {
    let a = next_action(Some(RawEvent { response_type: 22, detail: 24 }));
    assert_eq!(a, LoopAction::Ignore);
    assert!(!ends_loop(a));
}

#[test]
fn sent_events_are_handled_alike() {
    for rt in 0u8..128 {
        for detail in [0u8, 24, 38] {
            assert_eq!(
                next_action(Some(RawEvent { response_type: rt | 0x80, detail })),
                next_action(Some(RawEvent { response_type: rt, detail }))
            );
        }
    }
    assert_eq!(next_action(Some(RawEvent { response_type: 0x82, detail: 24 })), LoopAction::Quit);
}
