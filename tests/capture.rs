use zr_alshasha::capture::{CaptureInput, Event, HookEvent, State};
use zr_alshasha::keys::HookKey;

#[test]
fn installing_emits_ready() {
    assert_eq!(State::Starting.advance(CaptureInput::HookInstalled), (Some(Event::Ready), State::Ready));
}

#[test]
fn nothing_before_install() {
    let e = HookEvent::KeyPress(HookKey::KeyA);
    assert_eq!(State::Starting.advance(CaptureInput::Delivered(e)), (None, State::Starting));
    assert_eq!(State::Starting.advance(CaptureInput::Closed), (None, State::Starting));
}

#[test]
fn events_pass_in_order() {
    let mut state = State::Starting;
    let inputs = [
        CaptureInput::Delivered(HookEvent::Other),
        CaptureInput::HookInstalled,
        CaptureInput::Delivered(HookEvent::KeyPress(HookKey::KeyA)),
        CaptureInput::HookInstalled,
        CaptureInput::Delivered(HookEvent::Other),
        CaptureInput::Delivered(HookEvent::KeyPress(HookKey::KeyB)),
        CaptureInput::Closed,
    ];
    let mut out = Vec::new();
    for i in inputs.iter() {
        let (e, next) = state.advance(*i);
        if let Some(e) = e {
            out.push(e);
        }
        state = next;
    }
    assert_eq!(
        out,
        vec![
            Event::Ready,
            Event::Received(HookEvent::KeyPress(HookKey::KeyA)),
            Event::Received(HookEvent::Other),
            Event::Received(HookEvent::KeyPress(HookKey::KeyB)),
        ]
    );
}
