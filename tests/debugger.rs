use druid_debugger::branch::{Branch, Maybe, UpdateAction};
use druid_debugger::data::{DebugItem, DebuggerData};
use druid_debugger::event::{Event, KeyRecord, MouseRecord, Payload, SizeRecord};
use druid_debugger::interceptor::{DebuggerWidget, EventClass};
use druid_debugger::root::{Announcement, AppWrapper};

fn mouse(x: f64, y: f64) -> MouseRecord {
    MouseRecord {
        pos_x: x.to_bits(),
        pos_y: y.to_bits(),
        window_pos_x: x.to_bits(),
        window_pos_y: y.to_bits(),
        button: 1,
        buttons: 1,
        count: 1,
        focus: false,
        mods: 0,
        wheel_x: 0f64.to_bits(),
        wheel_y: 0f64.to_bits(),
    }
}

fn key(k: &str, repeat: bool) -> KeyRecord {
    KeyRecord {
        code: 30,
        is_composing: false,
        key: k.to_string(),
        location: 0,
        mods: 0,
        repeat,
        state: 0,
    }
}

fn ev(payload: Payload, text: &str) -> Event {
    Event { payload, text: text.to_string() }
}

#[test]
fn mouse_moves_with_equal_payload_are_same() {
    let a = ev(Payload::MouseMove(mouse(3.0, 4.0)), "first");
    let b = ev(Payload::MouseMove(mouse(3.0, 4.0)), "second");
    assert!(a.same(&b));
}

#[test]
fn mouse_moves_at_other_positions_differ() {
    let a = ev(Payload::MouseMove(mouse(3.0, 4.0)), "m");
    let b = ev(Payload::MouseMove(mouse(3.0, 5.0)), "m");
    assert!(!a.same(&b));
}

#[test]
fn kinds_never_mix() {
    let a = ev(Payload::MouseDown(mouse(1.0, 1.0)), "m");
    let b = ev(Payload::MouseUp(mouse(1.0, 1.0)), "m");
    assert!(!a.same(&b));
    let t = ev(Payload::Timer(1), "t");
    let f = ev(Payload::AnimFrame(1), "f");
    assert!(!t.same(&f));
}

#[test]
fn occurrence_tokens_are_ignored() {
    assert!(ev(Payload::Timer(1), "a").same(&ev(Payload::Timer(2), "b")));
    assert!(ev(Payload::AnimFrame(10), "a").same(&ev(Payload::AnimFrame(20), "b")));
    assert!(ev(Payload::Command(5), "a").same(&ev(Payload::Command(6), "b")));
    assert!(ev(Payload::Internal(5), "a").same(&ev(Payload::Internal(6), "b")));
}

#[test]
fn unlisted_events_are_never_same() {
    let a = ev(Payload::Unlisted(0), "x");
    assert!(!a.same(&a.clone()));
}

#[test]
fn key_events_compare_fields() {
    let a = ev(Payload::KeyDown(key("a", false)), "k");
    assert!(a.same(&ev(Payload::KeyDown(key("a", false)), "other")));
    assert!(!a.same(&ev(Payload::KeyDown(key("b", false)), "k")));
    assert!(!a.same(&ev(Payload::KeyDown(key("a", true)), "k")));
    assert!(!a.same(&ev(Payload::KeyUp(key("a", false)), "k")));
}

#[test]
fn window_sizes_compare_exactly() {
    let s = |w: f64, h: f64| SizeRecord { width: w.to_bits(), height: h.to_bits() };
    assert!(ev(Payload::WindowSize(s(800.0, 600.0)), "a").same(&ev(Payload::WindowSize(s(800.0, 600.0)), "b")));
    assert!(!ev(Payload::WindowSize(s(800.0, 600.0)), "a").same(&ev(Payload::WindowSize(s(801.0, 600.0)), "a")));
}

#[test]
fn armed_unbound_withholds_events() {
    let mut w = DebuggerWidget::new("A".to_string());
    w.event(EventClass::BeginSelection, false, false);
    assert!(w.is_selecting);
    let r = w.event(EventClass::Other, false, false);
    assert!(!r.deliver);
    assert!(!r.mirror);
    let r = w.event(EventClass::Other, false, true);
    assert!(r.deliver);
    let r = w.event(EventClass::PrimaryDown, false, false);
    assert!(!r.deliver);
    assert_eq!(r.set_active, Some(true));
}

#[test]
fn idle_wrapper_delivers_everything() {
    let mut w = DebuggerWidget::new("A".to_string());
    let r = w.event(EventClass::Other, false, false);
    assert!(r.deliver);
    assert!(!r.identify);
    assert!(!w.highlighted(true));
}

#[test]
fn press_release_identifies_once() {
    let mut w = DebuggerWidget::new("A".to_string());
    let r = w.event(EventClass::BeginSelection, false, false);
    assert!(r.request_paint);
    assert!(w.highlighted(true));
    assert!(!w.highlighted(false));
    let down = w.event(EventClass::PrimaryDown, false, false);
    assert!(!down.identify);
    let up = w.event(EventClass::PrimaryUp, true, false);
    assert!(up.identify);
    assert!(!up.deliver);
    assert!(!up.mirror);
    assert_eq!(up.set_active, Some(false));
    assert!(w.attached);
    assert_eq!(w.announced_name(), "A");
    let resp = w.event(EventClass::Identification, false, false);
    assert!(!w.is_selecting);
    assert!(!resp.identify);
    let again = w.event(EventClass::PrimaryUp, true, false);
    assert!(!again.identify);
}

#[test]
fn bound_stays_bound() {
    let mut w = DebuggerWidget::new("A".to_string());
    w.event(EventClass::BeginSelection, false, false);
    w.event(EventClass::PrimaryUp, true, false);
    w.event(EventClass::Identification, false, false);
    let r = w.event(EventClass::BeginSelection, false, false);
    assert!(w.attached);
    assert!(!w.is_selecting);
    assert!(r.mirror);
    let r = w.event(EventClass::Other, false, false);
    assert!(w.attached);
    assert!(r.mirror);
    assert!(r.deliver);
    assert!(!w.event(EventClass::PrimaryDown, false, false).identify);
    let up = w.event(EventClass::PrimaryUp, true, false);
    assert!(!up.identify);
    assert!(up.deliver);
    assert!(!w.highlighted(true));
}

#[test]
fn two_armed_only_clicked_announces() {
    let mut a = DebuggerWidget::new("A".to_string());
    let mut b = DebuggerWidget::new("B".to_string());
    a.event(EventClass::BeginSelection, false, false);
    b.event(EventClass::BeginSelection, false, false);
    assert!(!a.event(EventClass::PrimaryDown, false, false).identify);
    let ra = a.event(EventClass::PrimaryUp, true, false);
    let rb = b.event(EventClass::Other, false, false);
    assert!(ra.identify);
    assert!(!rb.identify);
    a.event(EventClass::Identification, false, false);
    b.event(EventClass::Identification, false, false);
    assert!(!a.is_selecting);
    assert!(!b.is_selecting);
    assert!(a.attached);
    assert!(!b.attached);
}

#[test]
fn branch_rebuilds_on_flips_only() {
    let mut m = Maybe::new();
    assert_eq!(m.widget, Branch::Present);
    assert!(m.lifecycle(false));
    assert_eq!(m.widget, Branch::Absent);
    assert!(!m.lifecycle(false));
    assert_eq!(m.update(false, false), UpdateAction::Forward);
    assert_eq!(m.update(false, true), UpdateAction::Rebuild);
    assert_eq!(m.widget, Branch::Present);
    assert!(m.routes_event(true));
    assert!(!m.routes_event(false));
    assert_eq!(m.update(true, true), UpdateAction::Forward);
    assert_eq!(m.update(true, false), UpdateAction::Rebuild);
    assert_eq!(m.widget, Branch::Absent);
    assert!(!m.is_some());
}

#[test]
fn root_ignores_events_without_selection() {
    let mut root = AppWrapper::new();
    let changed = root.receive(Announcement::EventObserved(7, ev(Payload::Timer(1), "Timer")));
    assert!(!changed);
    assert!(root.data.item.is_none());
    assert!(!root.receive(Announcement::Other));
}

#[test]
fn log_keeps_submission_order() {
    let mut root = AppWrapper::new();
    assert!(root.receive(Announcement::Identification(3, "Button".to_string())));
    for i in 0..5u64 {
        assert!(root.receive(Announcement::EventObserved(99, ev(Payload::Timer(i), &format!("ev{}", i)))));
    }
    let item = root.data.item.as_ref().unwrap();
    assert_eq!(item.event_count(), 5);
    assert_eq!(item.row_texts(), vec!["ev0", "ev1", "ev2", "ev3", "ev4"]);
    assert_eq!(item.event_at(2).unwrap().text, "ev2");
    assert!(item.event_at(5).is_none());
}

#[test]
fn debug_item_push_grows_log() {
    let mut item = DebugItem::new(1, "x".to_string());
    assert_eq!(item.event_count(), 0);
    assert!(item.event_at(0).is_none());
    item.push_event(ev(Payload::Paste(0), "Paste"));
    assert_eq!(item.event_count(), 1);
    assert_eq!(item.row_texts(), vec!["Paste"]);
    let d = DebuggerData::new();
    assert!(!d.has_item());
}

#[test]
fn select_observe_reselect_scenario() {
    let mut root = AppWrapper::new();
    let mut a = DebuggerWidget::new("Widget A".to_string());
    let mut b = DebuggerWidget::new("Widget B".to_string());
    let mut panel = Maybe::new();
    panel.lifecycle(root.data.has_item());
    assert_eq!(panel.widget, Branch::Absent);

    a.event(EventClass::BeginSelection, false, false);
    b.event(EventClass::BeginSelection, false, false);
    a.event(EventClass::PrimaryDown, false, false);
    let up = a.event(EventClass::PrimaryUp, true, false);
    assert!(up.identify);
    let before = root.data.has_item();
    root.receive(Announcement::Identification(1, a.announced_name()));
    assert_eq!(panel.update(before, root.data.has_item()), UpdateAction::Rebuild);
    a.event(EventClass::Identification, false, false);
    b.event(EventClass::Identification, false, false);
    assert_eq!(root.data.item.as_ref().unwrap().name, "Widget A");

    let r = a.event(EventClass::Other, false, false);
    assert!(r.mirror);
    let text = "KeyDown(KeyEvent { key: Character(\"q\") })";
    root.receive(Announcement::EventObserved(1, ev(Payload::KeyDown(key("q", false)), text)));
    assert_eq!(root.data.item.as_ref().unwrap().row_texts(), vec![text]);

    a.event(EventClass::BeginSelection, false, false);
    b.event(EventClass::BeginSelection, false, false);
    assert!(!a.is_selecting);
    assert!(b.is_selecting);
    b.event(EventClass::PrimaryDown, false, false);
    assert!(b.event(EventClass::PrimaryUp, true, false).identify);
    let before = root.data.has_item();
    root.receive(Announcement::Identification(2, b.announced_name()));
    assert_eq!(panel.update(before, root.data.has_item()), UpdateAction::Forward);
    let item = root.data.item.as_ref().unwrap();
    assert_eq!(item.name, "Widget B");
    assert_eq!(item.widget_id, 2);
    assert_eq!(item.event_count(), 0);
}
