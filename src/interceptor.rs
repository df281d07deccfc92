use vstd::prelude::*;

verus! {

/// How an interceptor's step sees one incoming event.
#[derive(Clone, Copy, Debug, PartialEq, Eq, Structural)]
pub enum EventClass {
    /// The broadcast that enters selection mode.
    BeginSelection,
    /// The broadcast that some widget has been identified.
    Identification,
    /// The primary pointer button went down over this widget.
    PrimaryDown,
    /// The primary pointer button went up.
    PrimaryUp,
    /// Anything else.
    Other,
}

/// What the host is asked to do after an interceptor's step.
#[derive(Clone, Copy, Debug, PartialEq, Eq, Structural)]
pub struct Reaction {
    pub request_paint: bool,
    /// `Some(b)`: make this widget the active pointer target (`b`) or release it.
    pub set_active: Option<bool>,
    /// Announce this widget's identity and name.
    pub identify: bool,
    /// Send a copy of the event to the inspector.
    pub mirror: bool,
    /// Hand the event on to the wrapped child.
    pub deliver: bool,
}

/// The decisions of a wrapper around one widget of the application: whether a
/// selection is pending ("armed") and whether this widget was selected ("bound").
pub struct DebuggerWidget {
    pub debug_name: String,
    pub is_selecting: bool,
    pub attached: bool,
}

/// The armed flag after the broadcast part of an event. A bound wrapper is
/// never armed by a new selection broadcast.
pub open spec fn armed_after(armed: bool, bound: bool, class: EventClass) -> bool {
    match class {
        EventClass::BeginSelection => !bound,
        EventClass::Identification => false,
        _ => armed,
    }
}

/// Whether an event is the release that selects this widget.
pub open spec fn selects(armed: bool, bound: bool, class: EventClass, is_active: bool) -> bool {
    class == EventClass::PrimaryUp && is_active && armed_after(armed, bound, class)
}

/// The state `(armed, bound)` after one event.
pub open spec fn next_state(armed: bool, bound: bool, class: EventClass, is_active: bool) -> (
    bool,
    bool,
) {
    (armed_after(armed, bound, class), bound || selects(armed, bound, class, is_active))
}

/// The reaction to one event. `always_delivered` marks the events the host
/// requires every widget to see, hidden or not.
pub open spec fn reaction(
    armed: bool,
    bound: bool,
    class: EventClass,
    is_active: bool,
    always_delivered: bool,
) -> Reaction {
    let a = armed_after(armed, bound, class);
    let paint = class == EventClass::BeginSelection || class == EventClass::Identification;
    if selects(armed, bound, class, is_active) {
        Reaction {
            request_paint: paint,
            set_active: Some(false),
            identify: true,
            mirror: false,
            deliver: false,
        }
    } else {
        Reaction {
            request_paint: paint,
            set_active: if class == EventClass::PrimaryDown {
                Some(true)
            } else {
                None
            },
            identify: false,
            mirror: bound,
            deliver: !a || always_delivered,
        }
    }
}

impl DebuggerWidget {
    /// A wrapper that is neither armed nor bound.
    pub fn new(debug_name: String) -> (r: DebuggerWidget)
        ensures
            r.debug_name@ == debug_name@,
            !r.is_selecting,
            !r.attached,
    {
        DebuggerWidget { debug_name, is_selecting: false, attached: false }
    }

    /// Decides what one incoming event does to this wrapper and what the host
    /// must do. `is_active` tells whether this widget holds the pointer capture.
    pub fn event(&mut self, class: EventClass, is_active: bool, always_delivered: bool) -> (r:
        Reaction)
        ensures
            (final(self).is_selecting, final(self).attached) == next_state(
                old(self).is_selecting,
                old(self).attached,
                class,
                is_active,
            ),
            r == reaction(old(self).is_selecting, old(self).attached, class, is_active, always_delivered),
            final(self).debug_name@ == old(self).debug_name@,
    {
        let mut paint = false;
        match class {
            EventClass::BeginSelection => {
                self.is_selecting = !self.attached;
                paint = true;
            },
            EventClass::Identification => {
                self.is_selecting = false;
                paint = true;
            },
            _ => {},
        }
        let mut set_active: Option<bool> = None;
        match class {
            EventClass::PrimaryDown => {
                set_active = Some(true);
            },
            EventClass::PrimaryUp => {
                if is_active && self.is_selecting {
                    self.attached = true;
                    return Reaction {
                        request_paint: paint,
                        set_active: Some(false),
                        identify: true,
                        mirror: false,
                        deliver: false,
                    };
                }
            },
            _ => {},
        }
        Reaction {
            request_paint: paint,
            set_active,
            identify: false,
            mirror: self.attached,
            deliver: !self.is_selecting || always_delivered,
        }
    }

    /// Whether the highlight overlay is painted over the child.
    pub fn highlighted(&self, is_hot: bool) -> (r: bool)
        ensures
            r == (is_hot && self.is_selecting),
    {
        is_hot && self.is_selecting
    }

    /// The name announced when this widget is selected.
    pub fn announced_name(&self) -> (r: String)
        ensures
            r@ == self.debug_name@,
    {
        self.debug_name.clone()
    }
}

/// While armed and not bound, an event outside the always-delivered set that
/// does not end selection mode never reaches the wrapped child.
pub proof fn lemma_armed_withholds(class: EventClass, is_active: bool)
    requires
        class != EventClass::Identification,
    ensures
        !reaction(true, false, class, is_active, false).deliver,
{
}

/// A press and then a release on an armed widget identify it exactly once; the
/// identification broadcast that follows disarms every wrapper, selected or not.
pub proof fn lemma_press_release_identifies(armed_other: bool, bound_other: bool, up_active: bool)
    requires
        up_active,
    ensures
        ({
            let down = reaction(true, false, EventClass::PrimaryDown, false, false);
            let s1 = next_state(true, false, EventClass::PrimaryDown, false);
            let up = reaction(s1.0, s1.1, EventClass::PrimaryUp, up_active, false);
            let s2 = next_state(s1.0, s1.1, EventClass::PrimaryUp, up_active);
            &&& down.set_active == Some(true)
            &&& !down.identify
            &&& up.identify
            &&& s2.1
            &&& !next_state(s2.0, s2.1, EventClass::Identification, false).0
            &&& !next_state(armed_other, bound_other, EventClass::Identification, false).0
        }),
{
}

/// Once bound, a wrapper stays bound whatever it receives. A new selection
/// broadcast does not arm it again: a bound wrapper that is not armed stays
/// unarmed through every event, never announces itself again, and keeps
/// mirroring events.
pub proof fn lemma_bound_is_terminal(
    armed: bool,
    class: EventClass,
    is_active: bool,
    always_delivered: bool,
)
    ensures
        next_state(armed, true, class, is_active).1,
        !next_state(armed, true, EventClass::BeginSelection, is_active).0,
        !armed ==> !next_state(armed, true, class, is_active).0,
        !armed ==> !reaction(armed, true, class, is_active, always_delivered).identify,
        !armed ==> reaction(armed, true, class, is_active, always_delivered).mirror,
{
}

} // verus!
