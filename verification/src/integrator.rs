//! The control of the colour integrator: a path is traced bounce by bounce
//! until it leaves the scene, is absorbed, or has used up its depth.
//!
//! The caller traces the current ray, reports what it found as an [`Event`],
//! and multiplies the attenuations of the scatterings into the colour of the
//! [`Terminal`] that ends the path.

use vstd::prelude::*;
use crate::double::{Double, INFINITY_BITS};

verus! {

/// The pattern of `0.001`, the lower end of every trace: it keeps a scattered
/// ray from hitting the surface it starts on.
pub const SHADOW_ACNE_GUARD_BITS: u64 = 0x3F50_624D_D2F1_A9FC;

/// What tracing one ray found.
#[derive(Clone, Copy, Debug, PartialEq, Eq, Structural)]
pub enum Event {
    /// Nothing was hit.
    Miss,
    /// A surface was hit and its material did not scatter.
    Absorbed,
    /// A surface was hit and its material scattered a new ray.
    Scattered,
}

/// The colour that ends a path.
#[derive(Clone, Copy, Debug, PartialEq, Eq, Structural)]
pub enum Terminal {
    /// No light: the ray was absorbed, or the depth is used up.
    Black,
    /// The sky gradient along the last ray.
    Background,
}

/// What the integrator does next.
#[derive(Clone, Copy, Debug, PartialEq, Eq, Structural)]
pub enum Step {
    /// Trace the current ray and report the event.
    Trace,
    /// Stop with this colour.
    Finish(Terminal),
}

/// A path in progress: the depth that is left and, once it has ended, how.
#[derive(Clone, Copy, Debug, PartialEq, Eq, Structural)]
pub struct Path {
    pub depth: u32,
    pub ended: Option<Terminal>,
}

impl Path {
    /// A path that may still scatter `depth` times.
    pub open spec fn begun(depth: u32) -> Path {
        Path { depth, ended: None }
    }

    /// The next step: a path that has ended finishes with its terminal, one
    /// without depth finishes black, any other traces.
    pub open spec fn next(self) -> Step {
        match self.ended {
            Some(terminal) => Step::Finish(terminal),
            None => if self.depth == 0 {
                Step::Finish(Terminal::Black)
            } else {
                Step::Trace
            },
        }
    }

    /// The path once `event` has been reported. A path that is not tracing
    /// stays as it is.
    pub open spec fn after(self, event: Event) -> Path {
        if self.next() is Trace {
            match event {
                Event::Miss => Path { depth: self.depth, ended: Some(Terminal::Background) },
                Event::Absorbed => Path { depth: self.depth, ended: Some(Terminal::Black) },
                Event::Scattered => Path { depth: (self.depth - 1) as u32, ended: None },
            }
        } else {
            self
        }
    }

    /// The path after a whole run of events, first to last.
    pub open spec fn after_all(self, events: Seq<Event>) -> Path
        decreases events.len(),
    {
        if events.len() == 0 {
            self
        } else {
            self.after(events[0]).after_all(events.skip(1))
        }
    }

    pub fn start(depth: u32) -> (r: Path)
        ensures
            r == Path::begun(depth),
            depth == 0 ==> r.next() == Step::Finish(Terminal::Black),
    {
        Path { depth, ended: None }
    }

    pub fn step(&self) -> (r: Step)
        ensures
            r == self.next(),
    {
        match self.ended {
            Some(terminal) => Step::Finish(terminal),
            None => if self.depth == 0 {
                Step::Finish(Terminal::Black)
            } else {
                Step::Trace
            },
        }
    }

    pub fn advance(self, event: Event) -> (r: Path)
        ensures
            r == self.after(event),
    {
        match self.step() {
            Step::Trace => match event {
                Event::Miss => Path { depth: self.depth, ended: Some(Terminal::Background) },
                Event::Absorbed => Path { depth: self.depth, ended: Some(Terminal::Black) },
                Event::Scattered => Path { depth: self.depth - 1, ended: None },
            },
            Step::Finish(_) => self,
        }
    }
}

/// The window `[0.001, +infinity]` in which every ray of a path is traced.
pub fn trace_window() -> (r: (Double, Double))
    ensures
        r.0.bits == SHADOW_ACNE_GUARD_BITS,
        r.1.bits == INFINITY_BITS,
{
    (Double { bits: SHADOW_ACNE_GUARD_BITS }, Double { bits: INFINITY_BITS })
}

/// The recursive definition of the integrator: how a ray with `depth` left
/// ends, given what the successive traces find. `None` means that the events
/// run out while the path is still being traced.
pub open spec fn ray_color_end(depth: nat, events: Seq<Event>) -> Option<Terminal>
    decreases events.len(),
{
    if depth == 0 {
        Some(Terminal::Black)
    } else if events.len() == 0 {
        None
    } else {
        match events[0] {
            Event::Miss => Some(Terminal::Background),
            Event::Absorbed => Some(Terminal::Black),
            Event::Scattered => ray_color_end((depth - 1) as nat, events.skip(1)),
        }
    }
}

/// The number of scatterings along the path, each of which contributes one
/// attenuation factor to the colour.
pub open spec fn scatterings(depth: nat, events: Seq<Event>) -> nat
    decreases events.len(),
{
    if depth == 0 || events.len() == 0 || !(events[0] is Scattered) {
        0
    } else {
        1 + scatterings((depth - 1) as nat, events.skip(1))
    }
}

/// A path that has ended is not moved by further events.
pub proof fn lemma_ended_stays(path: Path, events: Seq<Event>)
    requires
        path.next() is Finish,
    ensures
        path.after_all(events) == path,
    decreases events.len(),
{
    if events.len() > 0 {
        lemma_ended_stays(path, events.skip(1));
    }
}

/// With no depth the colour is black, whatever the ray would meet, and
/// nothing is traced.
pub proof fn lemma_depth_zero_is_black(events: Seq<Event>)
    ensures
        Path::begun(0).next() == Step::Finish(Terminal::Black),
        Path::begun(0).after_all(events).next() == Step::Finish(Terminal::Black),
        ray_color_end(0, events) == Some(Terminal::Black),
{
    lemma_ended_stays(Path::begun(0), events);
}

/// Stepping the path event by event ends exactly as the recursive definition
/// does, and keeps tracing exactly while that definition has not ended.
pub proof fn lemma_steps_follow_recursion(depth: u32, events: Seq<Event>)
    ensures
        Path::begun(depth).after_all(events).next() == match ray_color_end(depth as nat, events) {
            Some(terminal) => Step::Finish(terminal),
            None => Step::Trace,
        },
    decreases events.len(),
{
    let path = Path::begun(depth);
    if depth == 0 {
        lemma_ended_stays(path, events);
    } else if events.len() > 0 {
        match events[0] {
            Event::Scattered => {
                lemma_steps_follow_recursion((depth - 1) as u32, events.skip(1));
            },
            _ => {
                lemma_ended_stays(path.after(events[0]), events.skip(1));
            },
        }
    }
}

/// The depth is a hard bound on the work: a path never scatters more often
/// than its depth, and once `depth` events have been reported it has ended.
pub proof fn lemma_depth_bounds_work(depth: u32, events: Seq<Event>)
    ensures
        scatterings(depth as nat, events) <= depth,
        scatterings(depth as nat, events) <= events.len(),
        events.len() >= depth ==> ray_color_end(depth as nat, events) is Some,
    decreases events.len(),
{
    if depth > 0 && events.len() > 0 {
        lemma_depth_bounds_work((depth - 1) as u32, events.skip(1));
    }
}

} // verus!
