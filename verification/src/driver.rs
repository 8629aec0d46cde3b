//! The driver: tick timing, the wait budget for input polling, and the
//! folding of one polled event plus one timing check into the model.
//!
//! The surrounding program runs the real loop — render, poll, step — and
//! hands the driver the milliseconds elapsed since start and the event
//! that the poll returned, if any.

use vstd::prelude::*;
use crate::model::{latencies_have_headroom, model_ticked, quit_applied, Model};

verus! {

/// The fixed tick interval, in milliseconds.
pub const TICK_INTERVAL_MS: u64 = 250;

/// The key that requests termination.
pub const QUIT_KEY: char = 'q';

/// Whether a key event is a press or a release.
#[derive(Clone, Copy, PartialEq, Eq, Structural, Debug)]
pub enum KeyKind {
    Press,
    Release,
}

/// One polled key event.
#[derive(Clone, Copy, PartialEq, Eq, Structural, Debug)]
pub struct InputEvent {
    pub key: char,
    pub kind: KeyKind,
}

/// Only a press — never a release — of the quit key requests termination.
pub open spec fn is_quit_event(ev: Option<InputEvent>) -> bool {
    match ev {
        Some(e) => e.kind == KeyKind::Press && e.key == QUIT_KEY,
        None => false,
    }
}

/// The wait budget: the part of the tick interval not yet elapsed,
/// floored at zero.
pub open spec fn spec_wait_budget(last_tick_at: int, now: int) -> int {
    if now - last_tick_at >= TICK_INTERVAL_MS as int {
        0
    } else {
        TICK_INTERVAL_MS as int - (now - last_tick_at)
    }
}

/// The driver state: the model and the time of the last applied tick,
/// in milliseconds since start.
pub struct Driver {
    pub model: Model,
    pub last_tick_at: u64,
}

/// One driver step, as a relation between the state before and after:
/// the quit key pressed sets the termination flag; a tick is applied,
/// and the tick time reset, exactly when a full interval has elapsed.
pub open spec fn step_rel(
    pre: Driver,
    post: Driver,
    now: int,
    ev: Option<InputEvent>,
    ticked: bool,
) -> bool {
    &&& ticked == (now - pre.last_tick_at >= TICK_INTERVAL_MS as int)
    &&& post.model.terminated == (pre.model.terminated || is_quit_event(ev))
    &&& if ticked {
        &&& post.last_tick_at == now
        &&& model_ticked(
            Model { terminated: post.model.terminated, ..pre.model },
            post.model,
        )
    } else {
        &&& post.last_tick_at == pre.last_tick_at
        &&& post.model.nodes == pre.model.nodes
    }
}

impl Driver {
    /// A driver over the given model, with the tick clock at zero.
    pub fn new(model: Model) -> (d: Driver)
        ensures
            d.model == model,
            d.last_tick_at == 0,
    {
        Driver { model, last_tick_at: 0 }
    }

    /// How long the poll may wait before the tick timing must be
    /// re-checked: never negative, and exactly zero once a full
    /// interval has elapsed.
    pub fn wait_budget(&self, now: u64) -> (b: u64)
        requires
            self.last_tick_at <= now,
        ensures
            b == spec_wait_budget(self.last_tick_at as int, now as int),
            now - self.last_tick_at >= TICK_INTERVAL_MS ==> b == 0,
    {
        let elapsed = now - self.last_tick_at;
        if elapsed >= TICK_INTERVAL_MS {
            0
        } else {
            TICK_INTERVAL_MS - elapsed
        }
    }

    /// Folds one polled event and one timing check into the model: a
    /// press of the quit key requests termination, any other event is
    /// ignored, and the tick is applied exactly when due.
    pub fn step(&mut self, now: u64, ev: Option<InputEvent>) -> (ticked: bool)
        requires
            old(self).last_tick_at <= now,
            latencies_have_headroom(old(self).model.nodes@),
        ensures
            step_rel(*old(self), *final(self), now as int, ev, ticked),
    {
        if let Some(e) = ev {
            if e.kind == KeyKind::Press && e.key == QUIT_KEY {
                self.model.request_quit();
            }
        }
        if now - self.last_tick_at >= TICK_INTERVAL_MS {
            self.model.tick();
            self.last_tick_at = now;
            true
        } else {
            false
        }
    }
}

/// Law: once a step has applied a tick, no further step within the same
/// interval applies another — repeated zero-budget polls cannot double-tick.
pub proof fn lemma_no_double_tick(
    d0: Driver,
    d1: Driver,
    d2: Driver,
    now1: int,
    now2: int,
    ev1: Option<InputEvent>,
    ev2: Option<InputEvent>,
    t2: bool,
)
    requires
        step_rel(d0, d1, now1, ev1, true),
        step_rel(d1, d2, now2, ev2, t2),
        now2 - now1 < TICK_INTERVAL_MS as int,
    ensures
        !t2,
{
}

/// Law: a step whose elapsed time has reached the tick interval always
/// applies the tick — input traffic never makes a due tick be skipped.
pub proof fn lemma_tick_never_skipped(
    d0: Driver,
    d1: Driver,
    now: int,
    ev: Option<InputEvent>,
    ticked: bool,
)
    requires
        step_rel(d0, d1, now, ev, ticked),
        now - d0.last_tick_at >= TICK_INTERVAL_MS as int,
    ensures
        ticked,
{
}

} // verus!
