//! The hourly scheduler: a two-state machine. It rests in `Idle`; every
//! wall-clock hour a tick moves it to `Evaluating`, where it decides whether
//! a post is due — only when the current hour equals the target hour — and
//! what the post is; and it returns to `Idle` whatever came of the send.
//!
//! The surrounding program owns the timer and the transport: it calls
//! [`Scheduler::tick_now`] on each tick, performs the send if a post came
//! back, and reports the outcome to [`Scheduler::finish_tick`].

use vstd::prelude::*;
use crate::catalog::{Catalog, EntryModel, entry_for};
use crate::clock::local_hour_and_day;
use crate::day::Day;
use crate::picker::{gif_and_quote, postable};
use crate::selector::{day_character, select_character, wildcard_character};

verus! {

/// The two states of the scheduler.
#[derive(Clone, Copy, PartialEq, Eq, Structural, Debug)]
pub enum Phase {
    /// Waiting for the next tick.
    Idle,
    /// Processing a tick.
    Evaluating,
}

/// One post, built during a tick and discarded after the send attempt.
#[derive(Clone, Debug)]
pub struct PostEvent {
    pub gif: String,
    pub quote: String,
}

/// Whether `p` posts the entry of `id`: its image link, and one of its
/// quotes.
pub open spec fn post_from(entries: Seq<EntryModel>, id: Seq<char>, p: PostEvent) -> bool {
    &&& p.gif@ == entry_for(entries, id).gif
    &&& entry_for(entries, id).quotes.contains(p.quote@)
}

/// The scheduler's state: the configured target hour and the phase it is in.
pub struct Scheduler {
    target_hour: u32,
    phase: Phase,
}

impl Scheduler {
    /// The configured posting hour.
    pub closed spec fn spec_target_hour(&self) -> u32 {
        self.target_hour
    }

    /// The phase the scheduler is in.
    pub closed spec fn spec_phase(&self) -> Phase {
        self.phase
    }

    /// Well-formedness: the target is a wall-clock hour.
    pub open spec fn wf(&self) -> bool {
        self.spec_target_hour() < 24
    }

    /// A scheduler for posting at `target_hour`, starting out idle.
    pub fn new(target_hour: u32) -> (r: Scheduler)
        requires
            target_hour < 24,
        ensures
            r.wf(),
            r.spec_target_hour() == target_hour,
            r.spec_phase() == Phase::Idle,
    {
        Scheduler { target_hour, phase: Phase::Idle }
    }

    /// The configured posting hour.
    pub fn target_hour(&self) -> (h: u32)
        ensures
            h == self.spec_target_hour(),
    {
        self.target_hour
    }

    /// Whether the scheduler is between ticks.
    pub fn is_idle(&self) -> (r: bool)
        ensures
            r == (self.spec_phase() == Phase::Idle),
    {
        matches!(self.phase, Phase::Idle)
    }

    /// One tick: enters `Evaluating` and decides the post. Nothing is due
    /// unless `hour` is the target hour; when it is, the character selected
    /// for `day` is looked up, and the post carries its image link and one
    /// of its quotes. The selected character is the day's fixed one or the
    /// wildcard, so a post is certain when both are in the roster with
    /// quotes, and impossible when neither is.
    pub fn begin_tick(&mut self, catalog: &Catalog, hour: u32, day: Day) -> (r: Option<PostEvent>)
        requires
            old(self).spec_phase() == Phase::Idle,
            catalog.wf(),
        ensures
            final(self).spec_phase() == Phase::Evaluating,
            final(self).spec_target_hour() == old(self).spec_target_hour(),
            hour != old(self).spec_target_hour() ==> r is None,
            r matches Some(p) ==> hour == old(self).spec_target_hour() && (post_from(
                catalog@,
                day_character(day),
                p,
            ) || post_from(catalog@, wildcard_character(), p)),
            hour == old(self).spec_target_hour() && postable(catalog@, day_character(day))
                && postable(catalog@, wildcard_character()) ==> r is Some,
            !postable(catalog@, day_character(day)) && !postable(catalog@, wildcard_character())
                ==> r is None,
    {
        self.phase = Phase::Evaluating;
        if hour != self.target_hour {
            return None;
        }
        let character = select_character(day);
        match gif_and_quote(catalog, character.as_str()) {
            None => None,
            Some((gif, quote)) => Some(PostEvent { gif, quote }),
        }
    }

    /// One tick against the wall clock: reads the local hour and weekday and
    /// evaluates as [`Scheduler::begin_tick`] does. The clock decides whether
    /// anything is due, so only this much holds of every outcome: a post is
    /// always drawn from the roster, and a roster from which nothing is
    /// postable never yields one.
    pub fn tick_now(&mut self, catalog: &Catalog) -> (r: Option<PostEvent>)
        requires
            old(self).spec_phase() == Phase::Idle,
            catalog.wf(),
        ensures
            final(self).spec_phase() == Phase::Evaluating,
            final(self).spec_target_hour() == old(self).spec_target_hour(),
            r matches Some(p) ==> (exists|d: Day| post_from(catalog@, day_character(d), p))
                || post_from(catalog@, wildcard_character(), p),
            (forall|d: Day| !postable(catalog@, day_character(d))) && !postable(
                catalog@,
                wildcard_character(),
            ) ==> r is None,
    {
        let (hour, day) = local_hour_and_day();
        let r = self.begin_tick(catalog, hour, day);
        proof {
            match &r {
                Some(p) => {
                    if post_from(catalog@, day_character(day), *p) {
                        assert(exists|d: Day| post_from(catalog@, day_character(d), *p));
                    }
                },
                None => {},
            }
            if (forall|d: Day| !postable(catalog@, day_character(d))) && !postable(
                catalog@,
                wildcard_character(),
            ) {
                assert(!postable(catalog@, day_character(day)));
            }
        }
        r
    }

    /// The end of a tick: back to `Idle`, whether or not the send succeeded.
    /// A failed send is reported by the surrounding program and never stops
    /// the loop; the next tick evaluates as usual.
    pub fn finish_tick(&mut self, send_ok: bool)
        requires
            old(self).spec_phase() == Phase::Evaluating,
        ensures
            final(self).spec_phase() == Phase::Idle,
            final(self).spec_target_hour() == old(self).spec_target_hour(),
    {
        let _ = send_ok;
        self.phase = Phase::Idle;
    }
}

} // verus!
