use clockface::scheduler::{Panel, Scheduler, UiAction};
use clockface::state::{Btn, Http, State};

fn confirm() -> Option<State> {
    Some(State::Btn(Btn::Confirm))
}

fn right() -> Option<State> {
    Some(State::Btn(Btn::Right))
}

#[test]
fn starts_on_carousel() {
    let s = Scheduler::new();
    assert_eq!(s.panel, Panel::Carousel);
    assert_eq!(s.selection, 0);
    assert_eq!(s.counter, 0);
}

#[test]
fn selection_wraps_both_ways() {
    let mut s = Scheduler::new();
    let out = s.tick(Some(State::Btn(Btn::Left)));
    assert_eq!(out.action, Some(UiAction::SelectPrev));
    assert_eq!(s.selection, 3);
    let out = s.tick(right());
    assert_eq!(out.action, Some(UiAction::SelectNext));
    assert_eq!(s.selection, 0);
    s.tick(right());
    s.tick(right());
    s.tick(right());
    s.tick(right());
    assert_eq!(s.selection, 0);
}

#[test]
fn confirm_opens_selected_panel() {
    let mut s = Scheduler::new();
    let out = s.tick(confirm());
    assert_eq!(out.action, Some(UiAction::ShowInfo));
    assert_eq!(s.panel, Panel::Info);
    let out = s.tick(Some(State::Btn(Btn::Exit)));
    assert_eq!(out.action, Some(UiAction::ShowCarousel));
    assert_eq!(s.panel, Panel::Carousel);
    s.tick(right());
    s.tick(right());
    s.tick(right());
    let out = s.tick(confirm());
    assert_eq!(out.action, Some(UiAction::ShowAbout));
    assert_eq!(s.panel, Panel::About);
}

#[test]
fn clock_scenario_end_to_end() {
    // Select the clock (panel index 1), then let 80 idle ticks pass:
    // exactly one clock update becomes due and the panel stays Clock.
    let mut s = Scheduler::new();
    s.tick(right());
    let out = s.tick(confirm());
    assert_eq!(out.action, Some(UiAction::ShowClock));
    assert_eq!(s.panel, Panel::Clock);
    assert!(!out.update_clock);
    let mut updates = 0;
    for _ in 0..80 {
        if s.tick(None).update_clock {
            updates += 1;
        }
    }
    assert_eq!(updates, 1);
    assert_eq!(s.panel, Panel::Clock);
    // After exit the panel is the carousel again and the ticking
    // stops: no update becomes due however long the idle run.
    let out = s.tick(Some(State::Btn(Btn::Exit)));
    assert_eq!(out.action, Some(UiAction::ShowCarousel));
    assert_eq!(s.panel, Panel::Carousel);
    let mut updates = 0;
    for _ in 0..80 {
        if s.tick(None).update_clock {
            updates += 1;
        }
    }
    assert_eq!(updates, 0);
}

#[test]
fn cadence_is_at_most_once_per_eighty_ticks() {
    let mut s = Scheduler::new();
    s.tick(right());
    s.tick(confirm());
    // Find the first due update, then check the gap to the next one.
    let mut ticks_to_first = 0;
    while !s.tick(None).update_clock {
        ticks_to_first += 1;
        assert!(ticks_to_first < 1000);
    }
    for _ in 0..79 {
        assert!(!s.tick(None).update_clock);
    }
    assert!(s.tick(None).update_clock);
}

#[test]
fn reentering_clock_rearms_the_counter() {
    let mut s = Scheduler::new();
    s.tick(right());
    s.tick(confirm());
    for _ in 0..40 {
        s.tick(None);
    }
    // Confirming the clock again re-arms the accumulator: a full
    // threshold's worth of ticks is needed once more.
    s.tick(confirm());
    let mut updates = 0;
    for _ in 0..79 {
        if s.tick(None).update_clock {
            updates += 1;
        }
    }
    assert_eq!(updates, 0);
    assert!(s.tick(None).update_clock);
}

#[test]
fn debug_overlay_logs_events() {
    let mut s = Scheduler::new();
    s.tick(right());
    s.tick(right());
    // The confirm that opens the debug panel is itself logged.
    let out = s.tick(confirm());
    assert_eq!(out.action, Some(UiAction::ShowDebug));
    assert_eq!(s.panel, Panel::Debug);
    assert_eq!(out.debug_line.as_deref(), Some("Btn(Confirm)"));
    let out = s.tick(Some(State::Msg(String::from("hello"))));
    assert_eq!(out.debug_line.as_deref(), Some("Msg(\"hello\")"));
    let out = s.tick(Some(State::Http(Http::Request(String::from("up")))));
    assert_eq!(out.debug_line.as_deref(), Some("Http(Request(\"up\"))"));
    // A long message wraps every 26 characters.
    let out = s.tick(Some(State::Msg(String::from("aaaaaaaaaaaaaaaaaaaaaaaaaaaaaa"))));
    assert_eq!(
        out.debug_line.as_deref(),
        Some("Msg(\"aaaaaaaaaaaaaaaaaaaaa\naaaaaaaaa\")\n")
    );
    // No line is produced outside the debug panel.
    let out = s.tick(Some(State::Btn(Btn::Exit)));
    assert_eq!(out.debug_line, None);
    let out = s.tick(Some(State::Msg(String::from("quiet"))));
    assert_eq!(out.debug_line, None);
}

#[test]
fn no_event_no_action() {
    let mut s = Scheduler::new();
    let out = s.tick(None);
    assert_eq!(out.action, None);
    assert_eq!(out.debug_line, None);
    assert!(!out.update_clock);
    let out = s.tick(Some(State::Btn(Btn::Boot)));
    assert_eq!(out.action, None);
}
