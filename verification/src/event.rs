//! Classification of the events that the bar's event loop receives, and the
//! decision that the loop takes on each of them.

use vstd::prelude::*;
use crate::protocol::{EXPOSE, KEY_PRESS, QUIT_KEYCODE, SEND_EVENT_BIT};

verus! {

/// An X event as the bar reads it: its response type and its detail byte
/// (the keycode for a key press).
#[derive(Clone, Copy, Debug, PartialEq, Eq, Structural)]
pub struct RawEvent {
    pub response_type: u8,
    pub detail: u8,
}

/// The event code of a response type, with the send-event bit cleared.
pub open spec fn spec_event_kind(response_type: u8) -> u8 {
    (response_type % 128) as u8
}

/// Clears the send-event bit of a response type (`response_type & !0x80`).
pub fn event_kind(response_type: u8) -> (kind: u8)
    ensures
        kind == spec_event_kind(response_type),
        kind < 128,
{
    let kind: u8 = response_type & 0x7f;
    assert(response_type & 0x7f == response_type % 128) by (bit_vector);
    kind
}

/// What the event loop does after waiting for one event.
#[derive(Clone, Copy, Debug, PartialEq, Eq, Structural)]
pub enum LoopAction {
    /// The connection delivered no event: the loop ends.
    Stop,
    /// The quit key was pressed: the loop ends.
    Quit,
    /// The window was exposed; the event code is reported.
    Exposed(u8),
    /// A key other than the quit key was pressed; its keycode is reported.
    KeyPressed(u8),
    /// Any other event: nothing is done.
    Ignore,
}

/// The action that the event loop takes on what waiting for an event gave.
pub open spec fn spec_next_action(event: Option<RawEvent>) -> LoopAction {
    match event {
        None => LoopAction::Stop,
        Some(e) => {
            let kind = spec_event_kind(e.response_type);
            if kind == EXPOSE {
                LoopAction::Exposed(kind)
            } else if kind == KEY_PRESS {
                if e.detail == QUIT_KEYCODE {
                    LoopAction::Quit
                } else {
                    LoopAction::KeyPressed(e.detail)
                }
            } else {
                LoopAction::Ignore
            }
        },
    }
}

/// Decides what the event loop does with the outcome of one wait for an event.
pub fn next_action(event: Option<RawEvent>) -> (action: LoopAction)
    ensures
        action == spec_next_action(event),
{
    match event {
        None => LoopAction::Stop,
        Some(e) => {
            let kind = event_kind(e.response_type);
            if kind == EXPOSE {
                LoopAction::Exposed(kind)
            } else if kind == KEY_PRESS {
                if e.detail == QUIT_KEYCODE {
                    LoopAction::Quit
                } else {
                    LoopAction::KeyPressed(e.detail)
                }
            } else {
                LoopAction::Ignore
            }
        },
    }
}

/// Whether the event loop ends after taking this action.
pub open spec fn spec_ends_loop(action: LoopAction) -> bool {
    action is Stop || action is Quit
}

/// Whether the event loop ends after taking this action.
pub fn ends_loop(action: LoopAction) -> (ends: bool)
    ensures
        ends == spec_ends_loop(action),
{
    match action {
        LoopAction::Stop => true,
        LoopAction::Quit => true,
        _ => false,
    }
}

/// An event sent by another client is handled as the same event sent by
/// the server: the send-event bit changes neither its code nor the loop's
/// action on it.
pub proof fn lemma_send_event_bit_ignored(response_type: u8, detail: u8)
    ensures
        spec_event_kind(response_type | SEND_EVENT_BIT) == spec_event_kind(response_type),
        spec_next_action(Some(RawEvent { response_type: response_type | SEND_EVENT_BIT, detail }))
            == spec_next_action(Some(RawEvent { response_type, detail })),
{
    assert((response_type | 0x80u8) % 128 == response_type % 128) by (bit_vector);
}

/// The event loop ends exactly when no event comes, or when the quit key
/// is pressed.
pub proof fn lemma_loop_ends(event: Option<RawEvent>)
    ensures
        spec_ends_loop(spec_next_action(event)) == match event {
            None => true,
            Some(e) => spec_event_kind(e.response_type) == KEY_PRESS && e.detail == QUIT_KEYCODE,
        },
{
}

/// The event code is the response type with its top bit cleared.
pub proof fn lemma_event_kind(response_type: u8)
    ensures
        spec_event_kind(response_type) == response_type % 128,
        spec_event_kind(response_type) < 128,
{
}

/// What the event loop does with each outcome of a wait: no event stops it;
/// an exposure is reported with its code; the quit key quits; any other key
/// press is reported with its keycode; every other event is ignored.
pub proof fn lemma_next_action_cases(event: Option<RawEvent>)
    ensures
        event is None ==> spec_next_action(event) == LoopAction::Stop,
        event matches Some(e) ==> (e.response_type % 128 == EXPOSE
            ==> spec_next_action(event) == LoopAction::Exposed(EXPOSE)),
        event matches Some(e) ==> (e.response_type % 128 == KEY_PRESS && e.detail == QUIT_KEYCODE
            ==> spec_next_action(event) == LoopAction::Quit),
        event matches Some(e) ==> (e.response_type % 128 == KEY_PRESS && e.detail != QUIT_KEYCODE
            ==> spec_next_action(event) == LoopAction::KeyPressed(e.detail)),
        event matches Some(e) ==> (e.response_type % 128 != KEY_PRESS && e.response_type % 128 != EXPOSE
            ==> spec_next_action(event) == LoopAction::Ignore),
{
}

} // verus!
