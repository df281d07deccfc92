use vstd::prelude::*;

verus! {

/// A pointer event's payload. Coordinates are kept as the bit patterns of
/// the host's floating-point values and compared bit for bit. This differs
/// from floating-point `==` in two places: 0.0 and -0.0 are different here,
/// and a NaN is equal to a NaN with the same bits.
#[derive(Clone, Copy, Debug, PartialEq, Eq, Structural)]
pub struct MouseRecord {
    pub pos_x: u64,
    pub pos_y: u64,
    pub window_pos_x: u64,
    pub window_pos_y: u64,
    pub button: u8,
    pub buttons: u8,
    pub count: u8,
    pub focus: bool,
    pub mods: u32,
    pub wheel_x: u64,
    pub wheel_y: u64,
}

/// A keyboard event's payload.
#[derive(Clone, Debug)]
pub struct KeyRecord {
    pub code: u32,
    pub is_composing: bool,
    pub key: String,
    pub location: u8,
    pub mods: u32,
    pub repeat: bool,
    pub state: u8,
}

/// A window size, as the bit patterns of its width and height, compared bit
/// for bit (so 0.0 and -0.0 differ, and a NaN equals itself).
#[derive(Clone, Copy, Debug, PartialEq, Eq, Structural)]
pub struct SizeRecord {
    pub width: u64,
    pub height: u64,
}

/// The kinds of event the host can deliver, with the fields that equality reads.
/// Payloads that are unique to one occurrence (timer tokens, frame timestamps,
/// command identities) are carried as a token that equality ignores.
#[derive(Clone, Debug)]
pub enum Payload {
    WindowConnected,
    WindowCloseRequested,
    WindowDisconnected,
    WindowSize(SizeRecord),
    MouseDown(MouseRecord),
    MouseUp(MouseRecord),
    MouseMove(MouseRecord),
    Wheel(MouseRecord),
    KeyDown(KeyRecord),
    KeyUp(KeyRecord),
    Paste(u64),
    Zoom(u64),
    Timer(u64),
    AnimFrame(u64),
    Command(u64),
    Notification(u64),
    Internal(u64),
    /// Any other kind of event; never the same as anything.
    Unlisted(u64),
}

/// One captured event: its payload and the text a row of the log shows for it.
#[derive(Clone, Debug)]
pub struct Event {
    pub payload: Payload,
    pub text: String,
}

pub open spec fn mouse_same(a: MouseRecord, b: MouseRecord) -> bool {
    a == b
}

pub open spec fn key_same(a: KeyRecord, b: KeyRecord) -> bool {
    &&& a.code == b.code
    &&& a.is_composing == b.is_composing
    &&& a.key@ == b.key@
    &&& a.location == b.location
    &&& a.mods == b.mods
    &&& a.repeat == b.repeat
    &&& a.state == b.state
}

/// Two payloads are the same when they are of one kind and agree on the
/// fields that kind compares.
pub open spec fn payload_same(a: Payload, b: Payload) -> bool {
    match (a, b) {
        (Payload::WindowConnected, Payload::WindowConnected) => true,
        (Payload::WindowCloseRequested, Payload::WindowCloseRequested) => true,
        (Payload::WindowDisconnected, Payload::WindowDisconnected) => true,
        (Payload::WindowSize(x), Payload::WindowSize(y)) => x == y,
        (Payload::MouseDown(x), Payload::MouseDown(y)) => mouse_same(x, y),
        (Payload::MouseUp(x), Payload::MouseUp(y)) => mouse_same(x, y),
        (Payload::MouseMove(x), Payload::MouseMove(y)) => mouse_same(x, y),
        (Payload::Wheel(x), Payload::Wheel(y)) => mouse_same(x, y),
        (Payload::KeyDown(x), Payload::KeyDown(y)) => key_same(x, y),
        (Payload::KeyUp(x), Payload::KeyUp(y)) => key_same(x, y),
        (Payload::Paste(_), Payload::Paste(_)) => true,
        (Payload::Zoom(_), Payload::Zoom(_)) => true,
        (Payload::Timer(_), Payload::Timer(_)) => true,
        (Payload::AnimFrame(_), Payload::AnimFrame(_)) => true,
        (Payload::Command(_), Payload::Command(_)) => true,
        (Payload::Notification(_), Payload::Notification(_)) => true,
        (Payload::Internal(_), Payload::Internal(_)) => true,
        _ => false,
    }
}

fn key_eq(a: &KeyRecord, b: &KeyRecord) -> (r: bool)
    ensures
        r == key_same(*a, *b),
{
    a.code == b.code && a.is_composing == b.is_composing && a.key == b.key && a.location
        == b.location && a.mods == b.mods && a.repeat == b.repeat && a.state == b.state
}

impl Event {
    pub open spec fn same_spec(&self, other: &Event) -> bool {
        payload_same(self.payload, other.payload)
    }

    /// Whether two captured events carry equivalent payloads; the shown text
    /// and per-occurrence tokens are ignored.
    pub fn same(&self, other: &Event) -> (r: bool)
        ensures
            r == self.same_spec(other),
    {
        match (&self.payload, &other.payload) {
            (Payload::WindowConnected, Payload::WindowConnected) => true,
            (Payload::WindowCloseRequested, Payload::WindowCloseRequested) => true,
            (Payload::WindowDisconnected, Payload::WindowDisconnected) => true,
            (Payload::WindowSize(x), Payload::WindowSize(y)) => *x == *y,
            (Payload::MouseDown(x), Payload::MouseDown(y)) => *x == *y,
            (Payload::MouseUp(x), Payload::MouseUp(y)) => *x == *y,
            (Payload::MouseMove(x), Payload::MouseMove(y)) => *x == *y,
            (Payload::Wheel(x), Payload::Wheel(y)) => *x == *y,
            (Payload::KeyDown(x), Payload::KeyDown(y)) => key_eq(x, y),
            (Payload::KeyUp(x), Payload::KeyUp(y)) => key_eq(x, y),
            (Payload::Paste(_), Payload::Paste(_)) => true,
            (Payload::Zoom(_), Payload::Zoom(_)) => true,
            (Payload::Timer(_), Payload::Timer(_)) => true,
            (Payload::AnimFrame(_), Payload::AnimFrame(_)) => true,
            (Payload::Command(_), Payload::Command(_)) => true,
            (Payload::Notification(_), Payload::Notification(_)) => true,
            (Payload::Internal(_), Payload::Internal(_)) => true,
            _ => false,
        }
    }
}

/// Two mouse moves that agree on position, buttons and modifiers are the same
/// whatever else differs; two that differ in position are not.
pub proof fn lemma_mouse_move_same(a: Event, b: Event, x: MouseRecord, y: MouseRecord)
    requires
        a.payload == Payload::MouseMove(x),
        b.payload == Payload::MouseMove(y),
    ensures
        x == y ==> a.same_spec(&b),
        (x.pos_x != y.pos_x || x.pos_y != y.pos_y) ==> !a.same_spec(&b),
{
}

} // verus!
