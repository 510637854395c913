//! The timeline: a row of dated events, one of them in focus, and a view
//! that glides from one focus to the next.

use vstd::prelude::*;
use crate::scene::NextStep;
use crate::utils::{lerp, lerp_i64, ONE};
use crate::target_value::{fraction, tick_fraction};

verus! {

/// Damping rate of the glide: 0.75 per second.
pub const GLIDE_SPEED: u32 = 750_000;

/// One event on the timeline.
pub struct TimelineEvent {
    pub year: String,
    pub label: String,
    /// The host's handle of a picture for the event, if it has one.
    pub image: Option<usize>,
}

/// A [`TimelineEvent`] as contracts see it.
pub ghost struct TimelineEventView {
    pub year: Seq<char>,
    pub label: Seq<char>,
    pub image: Option<usize>,
}

impl View for TimelineEvent {
    type V = TimelineEventView;

    open spec fn view(&self) -> TimelineEventView {
        TimelineEventView { year: self.year@, label: self.label@, image: self.image }
    }
}

impl TimelineEvent {
    pub fn new(year: &str, label: &str, image: Option<usize>) -> (r: TimelineEvent)
        ensures
            r@ == (TimelineEventView { year: year@, label: label@, image }),
    {
        TimelineEvent { year: year.to_owned(), label: label.to_owned(), image }
    }
}

/// The events, the event in focus, and where the view is now.
pub struct TimelineScene {
    pub name: String,
    pub events: Vec<TimelineEvent>,
    /// Where the view is, counted in events and in millionths of one:
    /// `-ONE` is one place before the first event.
    pub current_event: i64,
    /// The event in focus: -1 before the first one, and the number of
    /// events once the last one has been left behind.
    pub target: i32,
}

/// A [`TimelineScene`] as contracts see it.
pub ghost struct TimelineView {
    pub name: Seq<char>,
    pub events: Seq<TimelineEventView>,
    pub current_event: i64,
    pub target: i32,
}

impl View for TimelineScene {
    type V = TimelineView;

    open spec fn view(&self) -> TimelineView {
        TimelineView {
            name: self.name@,
            events: self.events@.map_values(|e: TimelineEvent| e@),
            current_event: self.current_event,
            target: self.target,
        }
    }
}

impl TimelineView {
    /// A timeline with view and focus one place before the first event.
    pub open spec fn fresh(name: Seq<char>, events: Seq<TimelineEventView>) -> TimelineView {
        TimelineView { name, events, current_event: (-ONE) as i64, target: (-1) as i32 }
    }

    /// The events can be counted in an `i32`.
    pub open spec fn wf(self) -> bool {
        self.events.len() <= i32::MAX
    }

    /// How many more steps will be taken: one to each event that lies
    /// ahead, and one more to leave the last event behind.
    pub open spec fn remaining(self) -> nat {
        if self.target < self.events.len() {
            (self.events.len() - self.target) as nat
        } else {
            0
        }
    }

    /// The timeline after one request to advance: the focus moves on by
    /// one event until it has passed the last. The view itself only
    /// follows with the next ticks.
    pub open spec fn after_step(self) -> TimelineView {
        if self.target < self.events.len() {
            TimelineView { target: (self.target + 1) as i32, ..self }
        } else {
            self
        }
    }

    /// The timeline with view and focus back before the first event.
    pub open spec fn rewound(self) -> TimelineView {
        TimelineView { current_event: (-ONE) as i64, target: (-1) as i32, ..self }
    }

    /// The timeline after one tick of `dt` microseconds: the view has
    /// eased toward the event in focus.
    pub open spec fn tick(self, dt: u32) -> TimelineView {
        TimelineView {
            current_event: lerp_i64(
                self.current_event,
                (self.target * ONE) as i64,
                tick_fraction(GLIDE_SPEED, dt),
            ),
            ..self
        }
    }
}

impl TimelineScene {
    /// A timeline of `events`, with view and focus before the first one.
    pub fn new(events: Vec<TimelineEvent>, name: &str) -> (r: TimelineScene)
        requires
            events@.len() <= i32::MAX,
        ensures
            r@.wf(),
            r@ == TimelineView::fresh(name@, events@.map_values(|e: TimelineEvent| e@)),
    {
        TimelineScene { name: name.to_owned(), events, current_event: -ONE, target: -1 }
    }

    /// Eases the view toward the event in focus.
    pub fn update(&mut self, dt: u32)
        ensures
            final(self)@ == old(self)@.tick(dt),
    {
        self.current_event = lerp(
            self.current_event,
            self.target as i64 * ONE,
            fraction(GLIDE_SPEED, dt),
        );
    }

    /// Snaps view and focus back before the first event.
    pub fn reset(&mut self)
        ensures
            final(self)@ == old(self)@.rewound(),
    {
        self.current_event = -ONE;
        self.target = -1;
    }

    /// Moves the focus on by one event, if it has not passed the last.
    pub fn next_step(&mut self) -> (r: NextStep)
        requires
            old(self)@.wf(),
        ensures
            final(self)@ == old(self)@.after_step(),
            r == NextStep::Running <==> old(self)@.remaining() > 0,
    {
        if self.target < 0 || (self.target as usize) < self.events.len() {
            self.target += 1;
            NextStep::Running
        } else {
            NextStep::Finished
        }
    }
}

} // verus!
