//! The countdown: which phase the timer is in, how much of it is left, and
//! how the phases follow one another.

use crate::clock::{elapsed_since, instant_now, whole_seconds};
use crate::quotes::{local_quote_for_seed, local_quote_view, Quote, QuoteView};
use crate::settings::{clamp_spec, clamp_u64, MAX_FOCUS_MINUTES, MIN_FOCUS_MINUTES};
use std::time::Instant;
use vstd::prelude::*;

verus! {

/// Seconds in a minute.
pub const SECONDS_PER_MINUTE: u64 = 60;

/// The phase of the timer.
#[derive(Debug, Clone, Copy, PartialEq, Eq, Structural)]
pub enum Phase {
    Idle,
    Focus,
    Break,
}

/// What the shell is to do after a tick of the clock.
#[derive(Debug, Clone, Copy, PartialEq, Eq, Structural)]
pub enum TickAction {
    /// Nothing changed.
    NoChange,
    /// The countdown moved: show the new state.
    Emit,
    /// The focus countdown ran out: start the break.
    EnterBreak,
    /// The break countdown ran out: leave the break.
    ExitBreak,
}

/// The state of the timer while the program runs.
#[derive(Debug)]
pub struct RuntimeState {
    pub phase: Phase,
    pub remaining_seconds: u64,
    pub total_seconds: u64,
    pub paused: bool,
    /// When the countdown last moved.
    pub last_tick: Instant,
    pub current_quote: Quote,
    /// Whether the lock windows may be closed now.
    pub allow_lock_close: bool,
}

/// The mathematical content of [`RuntimeState`], without the clock reading.
pub struct RuntimeView {
    pub phase: Phase,
    pub remaining_seconds: nat,
    pub total_seconds: nat,
    pub paused: bool,
    pub current_quote: QuoteView,
    pub allow_lock_close: bool,
}

impl View for RuntimeState {
    type V = RuntimeView;

    open spec fn view(&self) -> RuntimeView {
        RuntimeView {
            phase: self.phase,
            remaining_seconds: self.remaining_seconds as nat,
            total_seconds: self.total_seconds as nat,
            paused: self.paused,
            current_quote: self.current_quote@,
            allow_lock_close: self.allow_lock_close,
        }
    }
}

impl RuntimeView {
    /// What every operation keeps: no more left than the phase's length, an
    /// idle timer has no countdown, and only a focus phase can be paused.
    pub open spec fn wf(self) -> bool {
        &&& self.remaining_seconds <= self.total_seconds
        &&& self.phase == Phase::Idle ==> self.remaining_seconds == 0 && self.total_seconds == 0
        &&& self.paused ==> self.phase == Phase::Focus
    }
}

/// The idle timer showing `quote`.
pub open spec fn idle_view(quote: QuoteView, allow_lock_close: bool) -> RuntimeView {
    RuntimeView {
        phase: Phase::Idle,
        remaining_seconds: 0,
        total_seconds: 0,
        paused: false,
        current_quote: quote,
        allow_lock_close,
    }
}

/// A running phase of `seconds` seconds.
pub open spec fn running_view(r: RuntimeView, phase: Phase, seconds: nat) -> RuntimeView {
    RuntimeView { phase, remaining_seconds: seconds, total_seconds: seconds, paused: false, ..r }
}

/// The length in seconds of a focus phase asked for as `minutes`: the
/// minutes limited to 1..=180, times sixty.
pub open spec fn focus_seconds(minutes: nat) -> nat {
    (clamp_spec(minutes as int, MIN_FOCUS_MINUTES as int, MAX_FOCUS_MINUTES as int)
        * SECONDS_PER_MINUTE) as nat
}

/// One tick of `elapsed` whole seconds: nothing moves while idle, paused or
/// when no whole second went by; otherwise the countdown goes down, stopping
/// at zero, and when it reaches zero the focus phase asks for the break and
/// the break asks to end.
pub open spec fn advance_spec(r: RuntimeView, elapsed: nat) -> (RuntimeView, TickAction) {
    if r.phase == Phase::Idle || r.paused || elapsed == 0 {
        (r, TickAction::NoChange)
    } else {
        let left: nat = if r.remaining_seconds >= elapsed {
            (r.remaining_seconds - elapsed) as nat
        } else {
            0
        };
        let next = RuntimeView { remaining_seconds: left, ..r };
        if left == 0 {
            (next, if r.phase == Phase::Focus { TickAction::EnterBreak } else { TickAction::ExitBreak })
        } else {
            (next, TickAction::Emit)
        }
    }
}

/// Pausing: a focus phase becomes paused; any other phase stays as it is.
pub open spec fn pause_spec(r: RuntimeView) -> RuntimeView {
    if r.phase == Phase::Focus {
        RuntimeView { paused: true, ..r }
    } else {
        r
    }
}

/// Resuming: a focus phase runs again; any other phase stays as it is.
pub open spec fn resume_spec(r: RuntimeView) -> RuntimeView {
    if r.phase == Phase::Focus {
        RuntimeView { paused: false, ..r }
    } else {
        r
    }
}

/// Whether a tick of `elapsed` whole seconds moves the countdown: the timer
/// runs, is not paused, and at least a second went by.
pub open spec fn tick_moves(r: RuntimeView, elapsed: nat) -> bool {
    r.phase != Phase::Idle && !r.paused && elapsed > 0
}

impl Default for RuntimeState {
    /// An idle timer showing the first built-in quote.
    fn default() -> (r: RuntimeState)
        ensures
            r@ == idle_view(local_quote_view(0), false),
            r@.wf(),
    {
        RuntimeState {
            phase: Phase::Idle,
            remaining_seconds: 0,
            total_seconds: 0,
            paused: false,
            last_tick: instant_now(),
            current_quote: local_quote_for_seed(0),
            allow_lock_close: false,
        }
    }
}

impl RuntimeState {
    /// Starts a focus phase of `focus_minutes` minutes, limited to 1..=180,
    /// not paused, counted from now.
    pub fn start_focus(&mut self, focus_minutes: u64)
        ensures
            final(self)@ == running_view(old(self)@, Phase::Focus, focus_seconds(focus_minutes as nat)),
            final(self)@.wf(),
    {
        let minutes = clamp_u64(focus_minutes, MIN_FOCUS_MINUTES, MAX_FOCUS_MINUTES);
        self.phase = Phase::Focus;
        self.remaining_seconds = minutes * SECONDS_PER_MINUTE;
        self.total_seconds = self.remaining_seconds;
        self.paused = false;
        self.last_tick = instant_now();
    }

    /// Starts a break of `break_minutes` minutes, not paused, counted from
    /// now, showing `quote`.
    pub fn start_break(&mut self, break_minutes: u64, quote: Quote)
        requires
            break_minutes * SECONDS_PER_MINUTE <= u64::MAX,
        ensures
            final(self)@ == (RuntimeView {
                current_quote: quote@,
                ..running_view(old(self)@, Phase::Break, break_minutes as nat * 60)
            }),
            final(self)@.wf(),
    {
        self.phase = Phase::Break;
        self.remaining_seconds = break_minutes * SECONDS_PER_MINUTE;
        self.total_seconds = self.remaining_seconds;
        self.paused = false;
        self.last_tick = instant_now();
        self.current_quote = quote;
    }

    /// Stops the timer: the lock windows may close, and the timer is idle
    /// with no countdown, counted from now.
    pub fn enter_idle(&mut self)
        ensures
            final(self)@ == idle_view(old(self)@.current_quote, true),
            final(self)@.wf(),
    {
        self.allow_lock_close = true;
        self.phase = Phase::Idle;
        self.remaining_seconds = 0;
        self.total_seconds = 0;
        self.paused = false;
        self.last_tick = instant_now();
    }

    /// Moves the countdown by `elapsed` whole seconds (see [`advance_spec`]).
    /// The clock reading is left as it is.
    pub fn advance(&mut self, elapsed: u64) -> (action: TickAction)
        ensures
            (final(self)@, action) == advance_spec(old(self)@, elapsed as nat),
            final(self).last_tick == old(self).last_tick,
            old(self)@.wf() ==> final(self)@.wf(),
    {
        if self.phase == Phase::Idle || self.paused || elapsed == 0 {
            return TickAction::NoChange;
        }
        self.remaining_seconds = self.remaining_seconds.saturating_sub(elapsed);
        if self.remaining_seconds == 0 {
            match self.phase {
                Phase::Focus => TickAction::EnterBreak,
                Phase::Break => TickAction::ExitBreak,
                Phase::Idle => TickAction::NoChange,
            }
        } else {
            TickAction::Emit
        }
    }

    /// One tick that found `elapsed` whole seconds gone by since the
    /// countdown last moved, with `now` a reading of the clock taken for it:
    /// the countdown moves as [`advance_spec`] says, and when it moves the
    /// clock reading of the last move becomes `now`, so that the next tick
    /// measures from here.
    pub fn tick_at(&mut self, elapsed: u64, now: Instant) -> (action: TickAction)
        ensures
            (final(self)@, action) == advance_spec(old(self)@, elapsed as nat),
            final(self).last_tick == if tick_moves(old(self)@, elapsed as nat) {
                now
            } else {
                old(self).last_tick
            },
            old(self)@.wf() ==> final(self)@.wf(),
    {
        if self.phase == Phase::Idle || self.paused {
            return TickAction::NoChange;
        }
        if elapsed > 0 {
            self.last_tick = now;
        }
        self.advance(elapsed)
    }

    /// One tick of the clock: while running and not paused, the whole
    /// seconds since the countdown last moved are taken off it, and when at
    /// least one went by the countdown is counted from a fresh reading of the
    /// clock (see [`RuntimeState::tick_at`]). The clock decides how many
    /// seconds went by; the result is that of [`advance_spec`] for that
    /// number.
    pub fn tick_runtime(&mut self) -> (action: TickAction)
        ensures
            exists|elapsed: nat| (final(self)@, action) == advance_spec(old(self)@, elapsed),
            action == TickAction::NoChange ==> final(self).last_tick == old(self).last_tick,
            old(self)@.wf() ==> final(self)@.wf(),
    {
        if self.phase == Phase::Idle || self.paused {
            assert((self@, TickAction::NoChange) == advance_spec(self@, 0));
            return TickAction::NoChange;
        }
        let gone = elapsed_since(&self.last_tick);
        let elapsed = whole_seconds(&gone);
        if elapsed == 0 {
            assert((self@, TickAction::NoChange) == advance_spec(self@, 0));
            return TickAction::NoChange;
        }
        let now = instant_now();
        proof {
            lemma_moving_tick_acts(self@, elapsed as nat);
        }
        self.tick_at(elapsed, now)
    }

    /// Pauses a focus phase; any other phase is left as it is. Returns
    /// whether the timer is in a focus phase.
    pub fn pause(&mut self) -> (focused: bool)
        ensures
            focused == (old(self).phase == Phase::Focus),
            final(self)@ == pause_spec(old(self)@),
            old(self)@.wf() ==> final(self)@.wf(),
    {
        if self.phase == Phase::Focus {
            self.paused = true;
            true
        } else {
            false
        }
    }

    /// Resumes a focus phase, counted from now; any other phase is left as it
    /// is. Returns whether the timer is in a focus phase.
    pub fn resume(&mut self) -> (focused: bool)
        ensures
            focused == (old(self).phase == Phase::Focus),
            final(self)@ == resume_spec(old(self)@),
            !focused ==> final(self).last_tick == old(self).last_tick,
            old(self)@.wf() ==> final(self)@.wf(),
    {
        if self.phase == Phase::Focus {
            self.paused = false;
            self.last_tick = instant_now();
            true
        } else {
            false
        }
    }

    /// Lets the lock windows close: the timer is about to close them itself.
    pub fn release_lock_windows(&mut self)
        ensures
            final(self)@ == (RuntimeView { allow_lock_close: true, ..old(self)@ }),
            final(self).last_tick == old(self).last_tick,
    {
        self.allow_lock_close = true;
    }

    /// Keeps the lock windows from being closed by anyone but the timer, as
    /// new ones are opened for a break.
    pub fn guard_lock_windows(&mut self)
        ensures
            final(self)@ == (RuntimeView { allow_lock_close: false, ..old(self)@ }),
            final(self).last_tick == old(self).last_tick,
    {
        self.allow_lock_close = false;
    }

    /// Whether a break is on.
    pub fn is_break_active(&self) -> (r: bool)
        ensures
            r == (self.phase == Phase::Break),
    {
        self.phase == Phase::Break
    }

    /// Whether a request to close a lock window is to be refused: during a
    /// break, unless the windows are being closed by the timer itself.
    pub fn lock_close_blocked(&self) -> (r: bool)
        ensures
            r == (self.phase == Phase::Break && !self.allow_lock_close),
    {
        self.phase == Phase::Break && !self.allow_lock_close
    }
}

/// A tick acts (asks the shell for anything) exactly when it moves the
/// countdown; so a tick that acts has restarted the clock reading of the last
/// move, and a tick that does not has kept it.
pub proof fn lemma_moving_tick_acts(r: RuntimeView, elapsed: nat)
    ensures
        tick_moves(r, elapsed) <==> advance_spec(r, elapsed).1 != TickAction::NoChange,
        tick_moves(r, elapsed) ==> advance_spec(r, elapsed).0.remaining_seconds
            < r.remaining_seconds || r.remaining_seconds == 0,
{
}

/// Two ticks that leave time on the countdown take off as much as one tick
/// of their sum.
pub proof fn lemma_advance_additive(r: RuntimeView, a: nat, b: nat)
    requires
        r.phase != Phase::Idle,
        !r.paused,
        a > 0,
        b > 0,
        a + b < r.remaining_seconds,
    ensures
        advance_spec(advance_spec(r, a).0, b) == advance_spec(r, a + b),
        advance_spec(r, a + b).1 == TickAction::Emit,
{
}

/// A running, unpaused countdown always reaches its end: a tick of at least
/// the time left ends the phase, asking for the break after a focus phase
/// and for its end after a break.
pub proof fn lemma_countdown_ends(r: RuntimeView, elapsed: nat)
    requires
        r.phase != Phase::Idle,
        !r.paused,
        elapsed > 0,
        elapsed >= r.remaining_seconds,
    ensures
        advance_spec(r, elapsed).0.remaining_seconds == 0,
        advance_spec(r, elapsed).1 == if r.phase == Phase::Focus {
            TickAction::EnterBreak
        } else {
            TickAction::ExitBreak
        },
{
}

/// Resuming after a pause gives back the phase as it was before the pause,
/// and a paused countdown does not move however much time goes by.
pub proof fn lemma_pause_resume(r: RuntimeView, elapsed: nat)
    requires
        !r.paused,
    ensures
        resume_spec(pause_spec(r)) == r,
        r.phase == Phase::Focus ==> advance_spec(pause_spec(r), elapsed) == (
            pause_spec(r),
            TickAction::NoChange,
        ),
{
}

/// Every step of the timer keeps its invariant (see [`RuntimeView::wf`]).
pub proof fn lemma_steps_keep_invariant(r: RuntimeView, elapsed: nat, seconds: nat, phase: Phase)
    requires
        r.wf(),
        phase != Phase::Idle,
    ensures
        advance_spec(r, elapsed).0.wf(),
        pause_spec(r).wf(),
        resume_spec(r).wf(),
        running_view(r, phase, seconds).wf(),
        idle_view(r.current_quote, true).wf(),
{
}

} // verus!
