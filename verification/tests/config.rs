use std::sync::atomic::{AtomicBool, Ordering};
use std::sync::Arc;

use nlhgui::align::{Alignment, BoxAlignment};
use nlhgui::concurrency::{ConcurrencyData, GlobalRebuildTrigger};
use nlhgui::frame::decide_frame;
use nlhgui::radio::{RadioButtonGroupCtrl, RadioItemState};
use nlhgui::reactive::RebuildRequest;
use nlhgui::LaunchConfig;

#[test]
fn launch_config_title() {
    let c = LaunchConfig::default();
    assert_eq!(c.title(), "nlhgui window");
    let c = c.with_title("custom title");
    assert_eq!(c.title(), "custom title");
}

#[test]
fn radio_items() {
    let mut r = RadioButtonGroupCtrl::new(["one", "two", "three"], 1);
    assert_eq!(r.selected(), 1);
    assert_eq!(r.texts(), &vec!["one".to_string(), "two".to_string(), "three".to_string()]);
    assert_eq!(
        r.item_states(Some(2)),
        vec![RadioItemState::Nothing, RadioItemState::Selected, RadioItemState::Hovered]
    );
    assert_eq!(
        r.item_states(Some(1)),
        vec![RadioItemState::Nothing, RadioItemState::Selected, RadioItemState::Nothing]
    );
    assert_eq!(
        r.item_states(None),
        vec![RadioItemState::Nothing, RadioItemState::Selected, RadioItemState::Nothing]
    );
    r.select(0);
    assert_eq!(r.selected(), 0);
    let st = r.item_states(Some(2));
    assert_eq!(st.iter().filter(|s| **s == RadioItemState::Selected).count(), 1);
    assert_eq!(st[0], RadioItemState::Selected);
}

#[test]
fn alignment_flags() {
    let mut a = BoxAlignment::new();
    assert!(a.x_align == Alignment::Start && a.y_align == Alignment::Start);
    assert!(!a.max_own_width && !a.max_own_height);
    a.set_alignment(Alignment::Start, Alignment::Center);
    assert!(!a.max_own_width && a.max_own_height);
    assert!(a.y_align == Alignment::Center);
    a.set_alignment(Alignment::End, Alignment::Start);
    assert!(a.max_own_width && a.max_own_height);
    a.set_alignment(Alignment::Start, Alignment::Start);
    assert!(a.max_own_width && a.max_own_height);
}

#[test]
fn horizontal_alignment_alone_takes_only_width() {
    let mut a = BoxAlignment::new();
    a.set_alignment(Alignment::Center, Alignment::Start);
    assert!(a.max_own_width && !a.max_own_height);
}

#[test]
fn rebuild_trigger_raises_flag() {
    let flag = Arc::new(AtomicBool::new(false));
    let t = GlobalRebuildTrigger::new(flag.clone());
    t.trigger_rebuild();
    assert!(flag.load(Ordering::Relaxed));
}

#[test]
fn task_events_arrive_and_trigger_rebuild() {
    let flag = Arc::new(AtomicBool::new(false));
    let data: ConcurrencyData<u8> = ConcurrencyData::new();
    assert_eq!(data.try_recv(), None);
    let arg = data.task_arg(GlobalRebuildTrigger::new(flag.clone()));
    assert!(arg.send(33).is_ok());
    assert!(arg.send(66).is_ok());
    assert!(flag.load(Ordering::Relaxed));
    assert_eq!(data.try_recv(), Some(33));
    assert_eq!(data.try_recv(), Some(66));
    assert_eq!(data.try_recv(), None);
}

#[test]
fn send_to_dropped_ui_gives_value_back() {
    let flag = Arc::new(AtomicBool::new(false));
    let data: ConcurrencyData<u8> = ConcurrencyData::new();
    let arg = data.task_arg(GlobalRebuildTrigger::new(flag));
    drop(data);
    assert_eq!(arg.send(7), Err(7));
}

#[test]
fn build_runs_first_then_only_on_request() {
    let mut r = RebuildRequest::new();
    assert!(r.take());
    assert!(!r.take());
    assert!(!r.take());
    r.request();
    r.request();
    assert!(r.take());
    assert!(!r.take());
}

#[test]
fn frame_decision() {
    let d = decide_frame(false, 50, 100);
    assert!(!d.draw && !d.restart_period);
    let d = decide_frame(true, 50, 100);
    assert!(d.draw && !d.restart_period);
    let d = decide_frame(false, 101, 100);
    assert!(d.draw && d.restart_period);
    let d = decide_frame(false, 100, 100);
    assert!(!d.draw && !d.restart_period);
}
