//! The periodic render scheduler and event funnel.
//!
//! A timer calls [`Scheduler::tick`] once per fixed period. Each tick
//! consumes at most one pending external event, turns it into a panel
//! transition and a toolkit action, and — while the clock panel is
//! active — accumulates elapsed time until the redraw threshold is
//! reached, at which point one differential clock update is due and the
//! accumulator re-arms. While the debug overlay is visible, the tick
//! also yields the consumed event rendered as one wrapped text line.

use vstd::prelude::*;

use crate::state::{spec_state_label, Btn, State};
use crate::textfmt::{inert_lf, spec_inert_lf};

verus! {

/// The fixed scheduler period in milliseconds.
pub const TICK_PERIOD_MS: u32 = 10;

/// Accumulated milliseconds after which a clock redraw is due.
pub const CLOCK_REDRAW_THRESHOLD_MS: u32 = 800;

/// Panels selectable from the carousel.
pub const PANEL_COUNT: u32 = 4;

/// Characters per line on the debug overlay.
pub const DEBUG_WRAP_COLUMNS: usize = 26;

/// The panel currently visible.
#[derive(Clone, Copy, PartialEq, Eq, Structural, Debug)]
pub enum Panel {
    Carousel,
    Info,
    Clock,
    Debug,
    About,
}

/// What the toolkit is asked to do in response to one event.
#[derive(Clone, Copy, PartialEq, Eq, Structural, Debug)]
pub enum UiAction {
    SelectNext,
    SelectPrev,
    ShowCarousel,
    ShowInfo,
    ShowClock,
    ShowDebug,
    ShowAbout,
}

/// Everything one tick decides: the toolkit action for the consumed
/// event, the debug overlay line while that overlay is visible, and
/// whether a differential clock update is due this tick.
pub struct TickOutcome {
    pub action: Option<UiAction>,
    pub debug_line: Option<String>,
    pub update_clock: bool,
}

/// The scheduler's own state: the visible panel, the carousel's
/// selection index, and the redraw accumulator in milliseconds.
pub struct Scheduler {
    pub panel: Panel,
    pub selection: u32,
    pub counter: u32,
}

/// The panel the confirm gesture opens for a selection index: info,
/// clock, debug and about, in carousel order.
pub open spec fn spec_panel_of_selection(sel: u32) -> Panel {
    if sel == 0 {
        Panel::Info
    } else if sel == 1 {
        Panel::Clock
    } else if sel == 2 {
        Panel::Debug
    } else {
        Panel::About
    }
}

/// The scheduler state right after dispatching one event, before the
/// cadence step: next and previous move the selection around the
/// carousel, exit returns to the carousel, confirm opens the selected
/// panel and re-arms the redraw accumulator when it selects the clock.
/// Every other event leaves the state as it is.
pub open spec fn spec_dispatch(s: Scheduler, ev: Option<State>) -> Scheduler {
    match ev {
        Some(State::Btn(Btn::Right)) => Scheduler {
            selection: ((s.selection + 1) % (PANEL_COUNT as int)) as u32,
            ..s
        },
        Some(State::Btn(Btn::Left)) => Scheduler {
            selection: ((s.selection + (PANEL_COUNT - 1)) % (PANEL_COUNT as int)) as u32,
            ..s
        },
        Some(State::Btn(Btn::Exit)) => Scheduler { panel: Panel::Carousel, ..s },
        Some(State::Btn(Btn::Confirm)) => Scheduler {
            panel: spec_panel_of_selection(s.selection),
            counter: if s.selection == 1 {
                0
            } else {
                s.counter
            },
            ..s
        },
        _ => s,
    }
}

/// The toolkit action one event maps to.
pub open spec fn spec_action(s: Scheduler, ev: Option<State>) -> Option<UiAction> {
    match ev {
        Some(State::Btn(Btn::Right)) => Some(UiAction::SelectNext),
        Some(State::Btn(Btn::Left)) => Some(UiAction::SelectPrev),
        Some(State::Btn(Btn::Exit)) => Some(UiAction::ShowCarousel),
        Some(State::Btn(Btn::Confirm)) => Some(
            match spec_panel_of_selection(s.selection) {
                Panel::Info => UiAction::ShowInfo,
                Panel::Clock => UiAction::ShowClock,
                Panel::Debug => UiAction::ShowDebug,
                Panel::About => UiAction::ShowAbout,
                Panel::Carousel => UiAction::ShowCarousel,
            },
        ),
        _ => None,
    }
}

/// Whether the tick ends with a clock update due: the clock panel is
/// active after dispatch and the accumulator, unless the dispatch just
/// re-armed it, has reached the threshold.
pub open spec fn spec_fires(s: Scheduler, ev: Option<State>) -> bool {
    let d = spec_dispatch(s, ev);
    d.panel == Panel::Clock && d.counter >= CLOCK_REDRAW_THRESHOLD_MS
}

/// The scheduler state after a whole tick: dispatch, then — only while
/// the clock panel is active — reset the accumulator on a redraw and
/// advance it by one period.
pub open spec fn spec_next(s: Scheduler, ev: Option<State>) -> Scheduler {
    let d = spec_dispatch(s, ev);
    if d.panel == Panel::Clock {
        Scheduler {
            counter: ((if spec_fires(s, ev) {
                0
            } else {
                d.counter
            }) + TICK_PERIOD_MS) as u32,
            ..d
        }
    } else {
        d
    }
}

impl Scheduler {
    /// Selection on the carousel and the accumulator within one period
    /// of the threshold, in whole periods.
    pub open spec fn wf(&self) -> bool {
        &&& self.selection < PANEL_COUNT
        &&& self.counter <= CLOCK_REDRAW_THRESHOLD_MS
        &&& self.counter % TICK_PERIOD_MS == 0
    }

    /// A scheduler showing the carousel with the first panel selected.
    pub fn new() -> (r: Scheduler)
        ensures
            r.wf(),
            r == (Scheduler { panel: Panel::Carousel, selection: 0, counter: 0 }),
    {
        Scheduler { panel: Panel::Carousel, selection: 0, counter: 0 }
    }

    /// One scheduler tick: consume at most one pending event, move the
    /// panel state, and report whether a clock update is due. While
    /// the debug overlay is visible after dispatch, a consumed event
    /// is also returned as one wrapped overlay line.
    pub fn tick(&mut self, event: Option<State>) -> (r: TickOutcome)
        requires
            old(self).wf(),
        ensures
            final(self).wf(),
            *final(self) == spec_next(*old(self), event),
            r.action == spec_action(*old(self), event),
            r.update_clock == spec_fires(*old(self), event),
            r.debug_line is Some <==> (event is Some && spec_dispatch(*old(self), event).panel
                == Panel::Debug),
            r.debug_line is Some ==> r.debug_line.unwrap()@ == spec_inert_lf(
                spec_state_label(event.unwrap()),
                DEBUG_WRAP_COLUMNS as int,
            ),
    {
        let action: Option<UiAction> = match &event {
            Some(State::Btn(Btn::Right)) => {
                self.selection = (self.selection + 1) % PANEL_COUNT;
                Some(UiAction::SelectNext)
            },
            Some(State::Btn(Btn::Left)) => {
                self.selection = (self.selection + (PANEL_COUNT - 1)) % PANEL_COUNT;
                Some(UiAction::SelectPrev)
            },
            Some(State::Btn(Btn::Exit)) => {
                self.panel = Panel::Carousel;
                Some(UiAction::ShowCarousel)
            },
            Some(State::Btn(Btn::Confirm)) => {
                if self.selection == 0 {
                    self.panel = Panel::Info;
                    Some(UiAction::ShowInfo)
                } else if self.selection == 1 {
                    self.panel = Panel::Clock;
                    self.counter = 0;
                    Some(UiAction::ShowClock)
                } else if self.selection == 2 {
                    self.panel = Panel::Debug;
                    Some(UiAction::ShowDebug)
                } else {
                    self.panel = Panel::About;
                    Some(UiAction::ShowAbout)
                }
            },
            _ => None,
        };
        let debug_line: Option<String> = match &event {
            Some(ev) => {
                if self.panel == Panel::Debug {
                    Some(inert_lf(ev.text().as_str(), DEBUG_WRAP_COLUMNS))
                } else {
                    None
                }
            },
            None => None,
        };
        let update_clock: bool = if self.panel == Panel::Clock {
            let fire = self.counter >= CLOCK_REDRAW_THRESHOLD_MS;
            if fire {
                self.counter = 0;
            }
            self.counter = self.counter + TICK_PERIOD_MS;
            fire
        } else {
            false
        };
        TickOutcome { action, debug_line, update_clock }
    }
}

/// The scheduler state after a whole sequence of ticks.
pub open spec fn spec_run(s: Scheduler, evs: Seq<Option<State>>) -> Scheduler
    decreases evs.len(),
{
    if evs.len() == 0 {
        s
    } else {
        spec_run(spec_next(s, evs[0]), evs.skip(1))
    }
}

/// How many of a sequence of ticks end with a clock update due.
pub open spec fn spec_fire_count(s: Scheduler, evs: Seq<Option<State>>) -> nat
    decreases evs.len(),
{
    if evs.len() == 0 {
        0nat
    } else {
        (if spec_fires(s, evs[0]) {
            1nat
        } else {
            0nat
        }) + spec_fire_count(spec_next(s, evs[0]), evs.skip(1))
    }
}

/// A clock update is only ever due while the clock panel is active: a
/// tick that fires ends, and dispatched, on the clock panel.
pub proof fn lemma_update_only_while_clock_active(s: Scheduler, ev: Option<State>)
    ensures
        spec_fires(s, ev) ==> spec_dispatch(s, ev).panel == Panel::Clock,
        spec_fires(s, ev) ==> spec_next(s, ev).panel == Panel::Clock,
{
}

/// A tick that fires leaves the accumulator at exactly one period.
pub proof fn lemma_fire_rearms_counter(s: Scheduler, ev: Option<State>)
    requires
        spec_fires(s, ev),
    ensures
        spec_next(s, ev).counter == TICK_PERIOD_MS,
{
}

/// No tick fires while the accumulated time stays short of the
/// threshold: each tick advances the accumulator by at most one period
/// and never fires below the threshold, whatever events arrive.
pub proof fn lemma_no_fire_below_threshold(s: Scheduler, evs: Seq<Option<State>>)
    requires
        s.counter + TICK_PERIOD_MS * evs.len() <= CLOCK_REDRAW_THRESHOLD_MS,
    ensures
        spec_fire_count(s, evs) == 0,
    decreases evs.len(),
{
    if evs.len() > 0 {
        assert(!spec_fires(s, evs[0]));
        let s2 = spec_next(s, evs[0]);
        assert(s2.counter <= s.counter + TICK_PERIOD_MS);
        assert(s2.counter + TICK_PERIOD_MS * evs.skip(1).len() <= CLOCK_REDRAW_THRESHOLD_MS);
        lemma_no_fire_below_threshold(s2, evs.skip(1));
    }
}

/// The clock redraw cadence: right after a tick (the accumulator at or
/// below one period, as [`lemma_fire_rearms_counter`] leaves it), at
/// least 79 further ticks pass with no update due, so with a 10 ms
/// period and an 800 ms threshold the clock renderer runs at most once
/// per 80 ticks.
pub proof fn lemma_at_most_once_per_eighty_ticks(s: Scheduler, evs: Seq<Option<State>>)
    requires
        s.counter <= TICK_PERIOD_MS,
        evs.len() <= 79,
    ensures
        spec_fire_count(s, evs) == 0,
{
    lemma_no_fire_below_threshold(s, evs);
}

/// While a panel other than the clock is showing and no event arrives,
/// no tick ever fires: leaving the clock panel stops the updates.
pub proof fn lemma_inactive_panel_never_fires(s: Scheduler, evs: Seq<Option<State>>)
    requires
        s.panel != Panel::Clock,
        forall|i: int| 0 <= i < evs.len() ==> evs[i] is None,
    ensures
        spec_fire_count(s, evs) == 0,
        spec_run(s, evs) == s,
    decreases evs.len(),
{
    if evs.len() > 0 {
        assert(evs[0] is None);
        assert(spec_next(s, evs[0]) == s);
        lemma_inactive_panel_never_fires(s, evs.skip(1));
    }
}

} // verus!
