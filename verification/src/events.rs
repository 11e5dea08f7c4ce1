//! Classification of native input events into a semantic event stream.
//!
//! The native event queue hands the host integration opaque event records;
//! the integration extracts the record's type tag and the payload fields
//! that tag calls for, and this module turns them into exactly one
//! [`SemanticInputEvent`]. Classification is observational: the raw event
//! is always forwarded back to the windowing system for default handling,
//! whatever this module decided.

use vstd::prelude::*;

use crate::geometry::Point;
use crate::modifiers::ModifierKeySet;
use crate::modifiers::device_independent_mask;
use crate::modifiers::spec_decode;
use crate::modifiers::decode;
use crate::modifiers::isolate_device_independent;

verus! {

/// Native event type tags, as the platform's event queue reports them.
pub const TAG_LEFT_MOUSE_DOWN: u64 = 1;
pub const TAG_LEFT_MOUSE_UP: u64 = 2;
pub const TAG_RIGHT_MOUSE_DOWN: u64 = 3;
pub const TAG_RIGHT_MOUSE_UP: u64 = 4;
pub const TAG_MOUSE_MOVED: u64 = 5;
pub const TAG_LEFT_MOUSE_DRAGGED: u64 = 6;
pub const TAG_RIGHT_MOUSE_DRAGGED: u64 = 7;
pub const TAG_KEY_DOWN: u64 = 10;
pub const TAG_KEY_UP: u64 = 11;
pub const TAG_FLAGS_CHANGED: u64 = 12;
pub const TAG_SCROLL_WHEEL: u64 = 22;
pub const TAG_OTHER_MOUSE_DOWN: u64 = 25;
pub const TAG_OTHER_MOUSE_UP: u64 = 26;
pub const TAG_OTHER_MOUSE_DRAGGED: u64 = 27;

/// Which pointer button an event concerns. Buttons beyond the primary and
/// secondary ones are identified by the platform's button number.
#[derive(Clone, Copy, PartialEq, Eq, Structural, Debug)]
pub enum Button {
    Left,
    Right,
    Other(i64),
}

/// Whether a button event is a press or a release.
#[derive(Clone, Copy, PartialEq, Eq, Structural, Debug)]
pub enum ButtonPhase {
    Down,
    Up,
}

/// One semantic input event, constructed fresh per polled native event and
/// consumed immediately by the emission step. Pointer coordinates are in
/// backing (device-pixel) space, clamped to the key window's content
/// bounds before conversion; scroll deltas are scaled fixed-point values
/// in thousandths.
#[derive(Clone, PartialEq, Debug)]
pub enum SemanticInputEvent {
    PointerMoved { x: i64, y: i64 },
    PointerButton { button: Button, phase: ButtonPhase },
    ScrollWheel { dx: i64, dy: i64 },
    ModifiersChanged { keys: ModifierKeySet },
    KeyDown { code: u16, text: String },
    KeyUp { code: u16 },
    Unclassified,
}

/// What payload the host integration must extract from a native event
/// record before this module can classify it.
#[derive(Clone, Copy, PartialEq, Eq, Structural, Debug)]
pub enum PayloadKind {
    /// Pointer motion: the pointer location and the key window's content
    /// bounds, clamped and converted to backing space by the integration.
    PointerLocation,
    /// A press or release of a button the tag itself identifies.
    ButtonOnly,
    /// A press or release of some other button: its number is needed.
    ButtonNumber,
    /// Scroll: both raw deltas and the precision flag.
    ScrollDeltas,
    /// Modifier-key change: the raw modifier-flags word.
    ModifierFlags,
    /// Key press: the key code and the decoded character text.
    KeyWithText,
    /// Key release: the key code alone.
    KeyCodeOnly,
    /// A tag outside the classified set: nothing to extract.
    NoPayload,
}

/// The payload kind each native tag calls for.
pub open spec fn spec_payload_kind(tag: u64) -> PayloadKind {
    if tag == TAG_MOUSE_MOVED || tag == TAG_LEFT_MOUSE_DRAGGED || tag == TAG_RIGHT_MOUSE_DRAGGED
        || tag == TAG_OTHER_MOUSE_DRAGGED {
        PayloadKind::PointerLocation
    } else if tag == TAG_LEFT_MOUSE_DOWN || tag == TAG_LEFT_MOUSE_UP || tag == TAG_RIGHT_MOUSE_DOWN
        || tag == TAG_RIGHT_MOUSE_UP {
        PayloadKind::ButtonOnly
    } else if tag == TAG_OTHER_MOUSE_DOWN || tag == TAG_OTHER_MOUSE_UP {
        PayloadKind::ButtonNumber
    } else if tag == TAG_SCROLL_WHEEL {
        PayloadKind::ScrollDeltas
    } else if tag == TAG_FLAGS_CHANGED {
        PayloadKind::ModifierFlags
    } else if tag == TAG_KEY_DOWN {
        PayloadKind::KeyWithText
    } else if tag == TAG_KEY_UP {
        PayloadKind::KeyCodeOnly
    } else {
        PayloadKind::NoPayload
    }
}

/// Tells the host integration which payload fields to read off a native
/// event record with the given type tag.
pub fn payload_kind(tag: u64) -> (r: PayloadKind)
    ensures
        r == spec_payload_kind(tag),
{
    if tag == TAG_MOUSE_MOVED || tag == TAG_LEFT_MOUSE_DRAGGED || tag == TAG_RIGHT_MOUSE_DRAGGED
        || tag == TAG_OTHER_MOUSE_DRAGGED {
        PayloadKind::PointerLocation
    } else if tag == TAG_LEFT_MOUSE_DOWN || tag == TAG_LEFT_MOUSE_UP || tag == TAG_RIGHT_MOUSE_DOWN
        || tag == TAG_RIGHT_MOUSE_UP {
        PayloadKind::ButtonOnly
    } else if tag == TAG_OTHER_MOUSE_DOWN || tag == TAG_OTHER_MOUSE_UP {
        PayloadKind::ButtonNumber
    } else if tag == TAG_SCROLL_WHEEL {
        PayloadKind::ScrollDeltas
    } else if tag == TAG_FLAGS_CHANGED {
        PayloadKind::ModifierFlags
    } else if tag == TAG_KEY_DOWN {
        PayloadKind::KeyWithText
    } else if tag == TAG_KEY_UP {
        PayloadKind::KeyCodeOnly
    } else {
        PayloadKind::NoPayload
    }
}

/// The payload fields the host integration extracted from a native event
/// record, matching the event's `PayloadKind`.
#[derive(Clone, PartialEq, Debug)]
pub enum EventPayload {
    /// The pointer location, already clamped to the key window's content
    /// bounds and converted to backing space by the display subsystem.
    BackingLocation { point: Point },
    /// The platform's button number, for buttons beyond the first two.
    ButtonIndex { number: i64 },
    /// Raw scroll deltas in thousandths, and whether the device reports
    /// high-precision deltas.
    ScrollDeltas { dx: i64, dy: i64, precise: bool },
    /// The raw modifier-flags word.
    ModifierFlags { flags: u64 },
    /// Key code and decoded character text of a key press.
    KeyWithText { code: u16, text: String },
    /// Key code of a key release.
    KeyCode { code: u16 },
    /// Nothing beyond the tag itself.
    Empty,
}

/// A scroll delta scaled for emission: high-precision deltas are scaled by
/// one tenth, others are kept as they are. Division truncates toward zero,
/// as the fixed-point representation's granularity dictates.
pub open spec fn scaled_delta(raw: int, precise: bool) -> int {
    if !precise {
        raw
    } else if raw >= 0 {
        raw / 10
    } else {
        -((-raw) / 10)
    }
}

/// Scales one raw scroll delta: by one tenth when the device reports
/// high-precision deltas, else unchanged.
pub fn scale_delta(raw: i64, precise: bool) -> (r: i64)
    requires
        raw > i64::MIN,
    ensures
        r == scaled_delta(raw as int, precise),
{
    if !precise {
        raw
    } else if raw >= 0 {
        raw / 10
    } else {
        -((-raw) / 10)
    }
}

/// The semantic event denoted by a native tag and its extracted payload.
/// Tags outside the classified set, and payloads that do not carry what
/// the tag calls for, denote `Unclassified`.
///
/// Both scroll axes are derived from the *horizontal* raw delta: the
/// vertical raw reading is deliberately ignored, a documented quirk of
/// this shell's event stream.
pub open spec fn spec_classify(tag: u64, payload: EventPayload) -> SemanticInputEvent {
    match payload {
        EventPayload::BackingLocation { point } => {
            if spec_payload_kind(tag) == PayloadKind::PointerLocation {
                SemanticInputEvent::PointerMoved { x: point.x, y: point.y }
            } else {
                SemanticInputEvent::Unclassified
            }
        },
        EventPayload::Empty => {
            if tag == TAG_LEFT_MOUSE_DOWN {
                SemanticInputEvent::PointerButton { button: Button::Left, phase: ButtonPhase::Down }
            } else if tag == TAG_LEFT_MOUSE_UP {
                SemanticInputEvent::PointerButton { button: Button::Left, phase: ButtonPhase::Up }
            } else if tag == TAG_RIGHT_MOUSE_DOWN {
                SemanticInputEvent::PointerButton {
                    button: Button::Right,
                    phase: ButtonPhase::Down,
                }
            } else if tag == TAG_RIGHT_MOUSE_UP {
                SemanticInputEvent::PointerButton { button: Button::Right, phase: ButtonPhase::Up }
            } else {
                SemanticInputEvent::Unclassified
            }
        },
        EventPayload::ButtonIndex { number } => {
            if tag == TAG_OTHER_MOUSE_DOWN {
                SemanticInputEvent::PointerButton {
                    button: Button::Other(number),
                    phase: ButtonPhase::Down,
                }
            } else if tag == TAG_OTHER_MOUSE_UP {
                SemanticInputEvent::PointerButton {
                    button: Button::Other(number),
                    phase: ButtonPhase::Up,
                }
            } else {
                SemanticInputEvent::Unclassified
            }
        },
        EventPayload::ScrollDeltas { dx, dy, precise } => {
            if tag == TAG_SCROLL_WHEEL {
                SemanticInputEvent::ScrollWheel {
                    dx: scaled_delta(dx as int, precise) as i64,
                    dy: scaled_delta(dx as int, precise) as i64,
                }
            } else {
                SemanticInputEvent::Unclassified
            }
        },
        EventPayload::ModifierFlags { flags } => {
            if tag == TAG_FLAGS_CHANGED {
                SemanticInputEvent::ModifiersChanged {
                    keys: spec_decode(device_independent_mask(flags)),
                }
            } else {
                SemanticInputEvent::Unclassified
            }
        },
        EventPayload::KeyWithText { code, text } => {
            if tag == TAG_KEY_DOWN {
                SemanticInputEvent::KeyDown { code, text }
            } else {
                SemanticInputEvent::Unclassified
            }
        },
        EventPayload::KeyCode { code } => {
            if tag == TAG_KEY_UP {
                SemanticInputEvent::KeyUp { code }
            } else {
                SemanticInputEvent::Unclassified
            }
        },
    }
}

/// Classifies one native event, given its type tag and the payload the
/// host integration extracted for that tag, into exactly one semantic
/// event. A tag outside the classified set, or a payload that does not
/// carry what the tag calls for, yields `Unclassified`, which is still
/// forwarded for default handling but produces no output.
pub fn classify(tag: u64, payload: EventPayload) -> (r: SemanticInputEvent)
    requires
        payload matches EventPayload::ScrollDeltas { dx, .. } ==> dx > i64::MIN,
    ensures
        r == spec_classify(tag, payload),
{
    match payload {
        EventPayload::BackingLocation { point } => {
            if payload_kind(tag) == PayloadKind::PointerLocation {
                SemanticInputEvent::PointerMoved { x: point.x, y: point.y }
            } else {
                SemanticInputEvent::Unclassified
            }
        },
        EventPayload::Empty => {
            if tag == TAG_LEFT_MOUSE_DOWN {
                SemanticInputEvent::PointerButton { button: Button::Left, phase: ButtonPhase::Down }
            } else if tag == TAG_LEFT_MOUSE_UP {
                SemanticInputEvent::PointerButton { button: Button::Left, phase: ButtonPhase::Up }
            } else if tag == TAG_RIGHT_MOUSE_DOWN {
                SemanticInputEvent::PointerButton {
                    button: Button::Right,
                    phase: ButtonPhase::Down,
                }
            } else if tag == TAG_RIGHT_MOUSE_UP {
                SemanticInputEvent::PointerButton { button: Button::Right, phase: ButtonPhase::Up }
            } else {
                SemanticInputEvent::Unclassified
            }
        },
        EventPayload::ButtonIndex { number } => {
            if tag == TAG_OTHER_MOUSE_DOWN {
                SemanticInputEvent::PointerButton {
                    button: Button::Other(number),
                    phase: ButtonPhase::Down,
                }
            } else if tag == TAG_OTHER_MOUSE_UP {
                SemanticInputEvent::PointerButton {
                    button: Button::Other(number),
                    phase: ButtonPhase::Up,
                }
            } else {
                SemanticInputEvent::Unclassified
            }
        },
        EventPayload::ScrollDeltas { dx, dy: _, precise } => {
            if tag == TAG_SCROLL_WHEEL {
                let d = scale_delta(dx, precise);
                SemanticInputEvent::ScrollWheel { dx: d, dy: d }
            } else {
                SemanticInputEvent::Unclassified
            }
        },
        EventPayload::ModifierFlags { flags } => {
            if tag == TAG_FLAGS_CHANGED {
                SemanticInputEvent::ModifiersChanged {
                    keys: decode(isolate_device_independent(flags)),
                }
            } else {
                SemanticInputEvent::Unclassified
            }
        },
        EventPayload::KeyWithText { code, text } => {
            if tag == TAG_KEY_DOWN {
                SemanticInputEvent::KeyDown { code, text }
            } else {
                SemanticInputEvent::Unclassified
            }
        },
        EventPayload::KeyCode { code } => {
            if tag == TAG_KEY_UP {
                SemanticInputEvent::KeyUp { code }
            } else {
                SemanticInputEvent::Unclassified
            }
        },
    }
}

/// Whether a semantic event produces a line of output. Everything but
/// `Unclassified` is emitted, except a scroll event both of whose scaled
/// deltas are zero, which is suppressed entirely.
pub open spec fn spec_emitted(e: SemanticInputEvent) -> bool {
    match e {
        SemanticInputEvent::Unclassified => false,
        SemanticInputEvent::ScrollWheel { dx, dy } => dx != 0 || dy != 0,
        _ => true,
    }
}

/// Decides whether the emission step logs this event: every classified
/// event is logged except a scroll whose scaled deltas are both zero.
pub fn should_emit(e: &SemanticInputEvent) -> (r: bool)
    ensures
        r == spec_emitted(*e),
{
    match e {
        SemanticInputEvent::Unclassified => false,
        SemanticInputEvent::ScrollWheel { dx, dy } => *dx != 0 || *dy != 0,
        _ => true,
    }
}

} // verus!
