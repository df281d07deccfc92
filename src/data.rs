use vstd::prelude::*;
use crate::event::Event;

verus! {

#[verifier::external_type_specification]
#[verifier::external_body]
#[verifier::reject_recursive_types(A)]
pub struct ExVector<A>(im::Vector<A>);

/// The events held by a persistent log, in order.
pub uninterp spec fn log_items(v: im::Vector<Event>) -> Seq<Event>;

/// Relies on im::Vector::new: a fresh vector holds nothing.
#[verifier::external_body]
fn log_new() -> (r: im::Vector<Event>)
    ensures
        log_items(r) == Seq::<Event>::empty(),
{
    im::Vector::new()
}

/// Relies on im::Vector::push_back: the value is added after the last one.
#[verifier::external_body]
fn log_push(v: &mut im::Vector<Event>, e: Event)
    ensures
        log_items(*final(v)) == log_items(*old(v)).push(e),
{
    v.push_back(e)
}

/// Relies on im::Vector::len: the number of values held.
#[verifier::external_body]
fn log_len(v: &im::Vector<Event>) -> (r: usize)
    ensures
        r == log_items(*v).len(),
{
    v.len()
}

/// Relies on im::Vector::get: the value at an index below the length.
#[verifier::external_body]
fn log_get(v: &im::Vector<Event>, i: usize) -> (r: Option<&Event>)
    ensures
        i < log_items(*v).len() ==> r == Some(&log_items(*v)[i as int]),
        i >= log_items(*v).len() ==> r.is_none(),
{
    v.get(i)
}

/// The record of one selected widget: its identity, its display name and
/// the events it has been seen to receive, oldest first.
pub struct DebugItem {
    pub name: String,
    pub events: im::Vector<Event>,
    pub widget_id: u64,
}

impl DebugItem {
    pub open spec fn log(&self) -> Seq<Event> {
        log_items(self.events)
    }

    /// A fresh item with an empty log.
    pub fn new(widget_id: u64, name: String) -> (r: DebugItem)
        ensures
            r.widget_id == widget_id,
            r.name@ == name@,
            r.log() == Seq::<Event>::empty(),
    {
        DebugItem { name, events: log_new(), widget_id }
    }

    /// Adds an event at the end of the log.
    pub fn push_event(&mut self, e: Event)
        ensures
            final(self).log() == old(self).log().push(e),
            final(self).widget_id == old(self).widget_id,
            final(self).name@ == old(self).name@,
    {
        log_push(&mut self.events, e);
    }

    /// The number of events logged.
    pub fn event_count(&self) -> (r: usize)
        ensures
            r == self.log().len(),
    {
        log_len(&self.events)
    }

    /// The logged event at an index, if there is one.
    pub fn event_at(&self, i: usize) -> (r: Option<&Event>)
        ensures
            i < self.log().len() ==> r == Some(&self.log()[i as int]),
            i >= self.log().len() ==> r.is_none(),
    {
        log_get(&self.events, i)
    }

    /// The text of each logged event, in log order: the rows the panel shows.
    pub fn row_texts(&self) -> (r: Vec<String>)
        ensures
            r@.len() == self.log().len(),
            forall|k: int| 0 <= k < r@.len() ==> #[trigger] r@[k]@ == self.log()[k].text@,
    {
        let n = log_len(&self.events);
        let mut out: Vec<String> = Vec::new();
        let mut i: usize = 0;
        while i < n
            invariant
                n == self.log().len(),
                i <= n,
                out@.len() == i,
                forall|k: int| 0 <= k < i ==> #[trigger] out@[k]@ == self.log()[k].text@,
            decreases n - i,
        {
            match log_get(&self.events, i) {
                Some(e) => {
                    out.push(e.text.clone());
                },
                None => {},
            }
            i = i + 1;
        }
        out
    }
}

/// What the inspector panel shows: the selected widget, if any.
pub struct DebuggerData {
    pub item: Option<DebugItem>,
}

impl DebuggerData {
    /// The panel's state before anything is selected.
    pub fn new() -> (r: DebuggerData)
        ensures
            r.item.is_none(),
    {
        DebuggerData { item: None }
    }

    /// Whether a widget is selected.
    pub fn has_item(&self) -> (r: bool)
        ensures
            r == self.item.is_some(),
    {
        self.item.is_some()
    }
}

} // verus!
