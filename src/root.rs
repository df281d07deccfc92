use vstd::prelude::*;
use crate::data::{DebugItem, DebuggerData};
use crate::event::Event;

verus! {

/// A message that reaches the root wrapper over the command bus.
pub enum Announcement {
    /// A widget was selected: its identity and display name.
    Identification(u64, String),
    /// A selected widget saw an event: its identity and the event.
    EventObserved(u64, Event),
    /// Anything else.
    Other,
}

/// Hosts the application and the inspector panel, and owns the panel's data.
pub struct AppWrapper {
    pub data: DebuggerData,
}

/// The panel's log after one announcement, as `Some((id, name, log))` or `None`.
pub open spec fn apply(s: Option<(u64, Seq<char>, Seq<Event>)>, a: Announcement) -> Option<
    (u64, Seq<char>, Seq<Event>),
> {
    match a {
        Announcement::Identification(id, name) => Some((id, name@, Seq::<Event>::empty())),
        Announcement::EventObserved(_, e) => match s {
            Some(t) => Some((t.0, t.1, t.2.push(e))),
            None => None,
        },
        Announcement::Other => s,
    }
}

/// The panel's log after a run of announcements, in order.
pub open spec fn apply_all(s: Option<(u64, Seq<char>, Seq<Event>)>, run: Seq<Announcement>) -> Option<
    (u64, Seq<char>, Seq<Event>),
>
    decreases run.len(),
{
    if run.len() == 0 {
        s
    } else {
        apply_all(apply(s, run[0]), run.drop_first())
    }
}

/// The events observed in a run, in order.
pub open spec fn observed(run: Seq<Announcement>) -> Seq<Event>
    decreases run.len(),
{
    if run.len() == 0 {
        Seq::<Event>::empty()
    } else {
        let rest = observed(run.drop_first());
        match run[0] {
            Announcement::EventObserved(_, e) => seq![e] + rest,
            _ => rest,
        }
    }
}

impl AppWrapper {
    pub open spec fn model(&self) -> Option<(u64, Seq<char>, Seq<Event>)> {
        match self.data.item {
            Some(item) => Some((item.widget_id, item.name@, item.log())),
            None => None,
        }
    }

    /// A root with nothing selected.
    pub fn new() -> (r: AppWrapper)
        ensures
            r.model().is_none(),
    {
        AppWrapper { data: DebuggerData::new() }
    }

    /// Takes one announcement into the panel's data. An identification
    /// replaces the selection with a fresh item; an observed event is added
    /// to the current item's log whatever identity it names, and dropped when
    /// nothing is selected. Returns whether the panel's children changed.
    pub fn receive(&mut self, a: Announcement) -> (children_changed: bool)
        ensures
            final(self).model() == apply(old(self).model(), a),
            children_changed == match a {
                Announcement::Identification(_, _) => true,
                Announcement::EventObserved(_, _) => old(self).model().is_some(),
                Announcement::Other => false,
            },
    {
        match a {
            Announcement::Identification(widget_id, name) => {
                self.data.item = Some(DebugItem::new(widget_id, name));
                true
            },
            Announcement::EventObserved(_widget_id, e) => {
                match &mut self.data.item {
                    Some(item) => {
                        item.push_event(e);
                        true
                    },
                    None => false,
                }
            },
            Announcement::Other => false,
        }
    }
}

/// N observed events for the current selection leave its log longer by N,
/// holding them in the order they were sent.
pub proof fn lemma_log_round_trip(
    id: u64,
    name: Seq<char>,
    log: Seq<Event>,
    run: Seq<Announcement>,
)
    requires
        forall|i: int| 0 <= i < run.len() ==> (#[trigger] run[i]) is EventObserved,
    ensures
        apply_all(Some((id, name, log)), run) == Some((id, name, log + observed(run))),
        observed(run).len() == run.len(),
    decreases run.len(),
{
    if run.len() == 0 {
        assert(log + Seq::<Event>::empty() =~= log);
    } else {
        let rest = run.drop_first();
        assert forall|i: int| 0 <= i < rest.len() implies (#[trigger] rest[i]) is EventObserved by {
            assert(rest[i] == run[i + 1]);
        }
        assert(run[0] is EventObserved);
        let e = run[0]->EventObserved_1;
        lemma_log_round_trip(id, name, log.push(e), rest);
        assert(log.push(e) + observed(rest) =~= log + (seq![e] + observed(rest)));
    }
}

/// An identification replaces whatever was selected with the new widget and
/// an empty log; an event observed next is then the log's only entry.
pub proof fn lemma_identification_starts_fresh(
    s: Option<(u64, Seq<char>, Seq<Event>)>,
    id: u64,
    name: String,
    other: u64,
    e: Event,
)
    ensures
        apply(s, Announcement::Identification(id, name)) == Some(
            (id, name@, Seq::<Event>::empty()),
        ),
        apply(apply(s, Announcement::Identification(id, name)), Announcement::EventObserved(other, e))
            == Some((id, name@, seq![e])),
{
    assert(Seq::<Event>::empty().push(e) =~= seq![e]);
}

} // verus!
