//! The whole state of the program and the steps that touch both its saved
//! and its running part. The shell performs the effects around these steps:
//! saving to disk, showing and closing windows, telling the window what
//! changed.

use crate::clock::is_date_text;
use crate::persistent::{
    clone_texts, current_quote, ensure_today_fresh, lemma_refresh_shape, refreshed,
    texts_view, PersistentState, PersistentView,
};
use crate::quotes::{day_quote_view, local_quote_view, Quote, QuoteView};
use crate::runtime::{running_view, Phase, RuntimeState, RuntimeView, SECONDS_PER_MINUTE};
use crate::settings::{
    clamp_spec, clamp_u64, Settings, SettingsView, MAX_BREAK_MINUTES, MAX_FOCUS_MINUTES,
    MIN_BREAK_MINUTES, MIN_FOCUS_MINUTES,
};
use crate::tray::{
    build_tray_menu, entries_view, text_pairs_view, tray_key, tray_key_spec, tray_menu_spec,
    MenuEntry, MenuEntryView,
};
use vstd::prelude::*;

verus! {

/// What the window is shown of the state.
#[derive(Debug)]
pub struct Snapshot {
    pub phase: Phase,
    pub remaining_seconds: u64,
    pub total_seconds: u64,
    pub paused: bool,
    pub completed_cycles: u32,
    pub settings: Settings,
    pub today_tasks: Vec<String>,
    pub task_statuses: Vec<String>,
    pub quote: Quote,
}

/// The mathematical content of [`Snapshot`].
pub struct SnapshotView {
    pub phase: Phase,
    pub remaining_seconds: nat,
    pub total_seconds: nat,
    pub paused: bool,
    pub completed_cycles: nat,
    pub settings: SettingsView,
    pub today_tasks: Seq<Seq<char>>,
    pub task_statuses: Seq<Seq<char>>,
    pub quote: QuoteView,
}

impl View for Snapshot {
    type V = SnapshotView;

    open spec fn view(&self) -> SnapshotView {
        SnapshotView {
            phase: self.phase,
            remaining_seconds: self.remaining_seconds as nat,
            total_seconds: self.total_seconds as nat,
            paused: self.paused,
            completed_cycles: self.completed_cycles as nat,
            settings: self.settings@,
            today_tasks: texts_view(self.today_tasks@),
            task_statuses: texts_view(self.task_statuses@),
            quote: self.quote@,
        }
    }
}

/// The snapshot of a state.
pub open spec fn snapshot_of(p: PersistentView, r: RuntimeView) -> SnapshotView {
    SnapshotView {
        phase: r.phase,
        remaining_seconds: r.remaining_seconds,
        total_seconds: r.total_seconds,
        paused: r.paused,
        completed_cycles: p.completed_cycles,
        settings: p.settings,
        today_tasks: p.today_tasks,
        task_statuses: p.task_statuses,
        quote: r.current_quote,
    }
}

/// The snapshot shows the running state as it is: the phase, the time left
/// and the phase's length, whether it is paused, and the quote; and of the
/// saved state the round count, settings, tasks and statuses.
pub proof fn lemma_snapshot_shows_state(p: PersistentView, r: RuntimeView)
    ensures
        snapshot_of(p, r).phase == r.phase,
        snapshot_of(p, r).remaining_seconds == r.remaining_seconds,
        snapshot_of(p, r).total_seconds == r.total_seconds,
        snapshot_of(p, r).paused == r.paused,
        snapshot_of(p, r).quote == r.current_quote,
        snapshot_of(p, r).completed_cycles == p.completed_cycles,
        snapshot_of(p, r).settings == p.settings,
        snapshot_of(p, r).today_tasks == p.today_tasks,
        snapshot_of(p, r).task_statuses == p.task_statuses,
        r.remaining_seconds <= r.total_seconds ==> snapshot_of(p, r).remaining_seconds
            <= snapshot_of(p, r).total_seconds,
{
}

/// What a request to leave the break leads to.
#[derive(Debug, Clone, Copy, PartialEq, Eq, Structural)]
pub enum ExitBreakPlan {
    /// A forced break with time left goes on: nothing changes.
    KeepBreak,
    /// Start the next focus phase with these lengths, in minutes.
    RestartFocus { focus_minutes: u64, break_minutes: u64 },
    /// Stop the timer.
    Idle,
}

/// Whether a break may not be ended yet: it is forced and time is left.
pub open spec fn break_held(s: AppView) -> bool {
    s.runtime.phase == Phase::Break && s.persistent.settings.force_break
        && s.runtime.remaining_seconds > 0
}

/// What a request to leave the break leads to (see
/// [`AppState::exit_break_plan`]).
pub open spec fn exit_break_plan_spec(s: AppView) -> ExitBreakPlan {
    if break_held(s) {
        ExitBreakPlan::KeepBreak
    } else if s.persistent.settings.auto_restart {
        ExitBreakPlan::RestartFocus {
            focus_minutes: s.persistent.settings.focus_minutes as u64,
            break_minutes: s.persistent.settings.break_minutes as u64,
        }
    } else {
        ExitBreakPlan::Idle
    }
}

/// The whole state of the program.
#[derive(Debug)]
pub struct AppState {
    pub persistent: PersistentState,
    pub runtime: RuntimeState,
    /// The summary of the tray menu last built (see [`tray_key_spec`]).
    pub last_tray_key: String,
}

/// The mathematical content of [`AppState`].
pub struct AppView {
    pub persistent: PersistentView,
    pub runtime: RuntimeView,
    pub last_tray_key: Seq<char>,
}

impl View for AppState {
    type V = AppView;

    open spec fn view(&self) -> AppView {
        AppView {
            persistent: self.persistent@,
            runtime: self.runtime@,
            last_tray_key: self.last_tray_key@,
        }
    }
}

/// Each task paired with its status, as far as both lists go.
pub open spec fn zip_texts(a: Seq<Seq<char>>, b: Seq<Seq<char>>) -> Seq<(Seq<char>, Seq<char>)> {
    Seq::new(
        if a.len() <= b.len() {
            a.len()
        } else {
            b.len()
        },
        |i: int| (a[i], b[i]),
    )
}

/// The summary of the tray menu for a state.
pub open spec fn tray_key_of(s: AppView) -> Seq<char> {
    tray_key_spec(
        s.runtime.phase,
        s.runtime.paused,
        s.persistent.completed_cycles,
        s.persistent.settings.force_break,
        s.persistent.settings.language,
        zip_texts(s.persistent.today_tasks, s.persistent.task_statuses),
    )
}

/// The tray menu for a state.
pub open spec fn tray_menu_of(s: AppView) -> Seq<MenuEntryView> {
    tray_menu_spec(
        s.runtime.phase,
        s.runtime.paused,
        s.persistent.completed_cycles,
        s.persistent.settings.force_break,
        zip_texts(s.persistent.today_tasks, s.persistent.task_statuses),
        s.persistent.settings.language,
    )
}

/// Each task paired with its status, as far as both lists go.
pub fn task_pairs(tasks: &Vec<String>, statuses: &Vec<String>) -> (r: Vec<(String, String)>)
    ensures
        text_pairs_view(r@) == zip_texts(texts_view(tasks@), texts_view(statuses@)),
{
    let n = if tasks.len() <= statuses.len() {
        tasks.len()
    } else {
        statuses.len()
    };
    let mut r: Vec<(String, String)> = Vec::new();
    let mut i: usize = 0;
    while i < n
        invariant
            i <= n,
            n <= tasks@.len(),
            n <= statuses@.len(),
            r@.len() == i,
            forall|j: int|
                0 <= j < i ==> (#[trigger] r@[j]).0@ == tasks@[j]@ && r@[j].1@ == statuses@[j]@,
        decreases n - i,
    {
        r.push((tasks[i].clone(), statuses[i].clone()));
        i = i + 1;
    }
    assert(text_pairs_view(r@) =~= zip_texts(texts_view(tasks@), texts_view(statuses@)));
    r
}

impl Default for AppState {
    /// A first start today: default saved state, idle timer, no tray menu
    /// built yet.
    fn default() -> (r: AppState)
        ensures
            r@.persistent == crate::persistent::fresh_state(r@.persistent.today_date),
            r@.runtime == crate::runtime::idle_view(local_quote_view(0), false),
            r@.last_tray_key == Seq::<char>::empty(),
    {
        AppState {
            persistent: PersistentState::default(),
            runtime: RuntimeState::default(),
            last_tray_key: String::new(),
        }
    }
}

impl AppState {
    /// Takes in the saved state read at start-up and shows its quote: the
    /// cached one, or else the built-in quote of the day.
    pub fn load(&mut self, persistent: PersistentState)
        ensures
            final(self)@.persistent == persistent@,
            final(self)@.last_tray_key == old(self)@.last_tray_key,
            final(self)@.runtime == (RuntimeView {
                current_quote: final(self)@.runtime.current_quote,
                ..old(self)@.runtime
            }),
            persistent@.quote_cache matches Some(q) ==> final(self)@.runtime.current_quote == q,
            persistent@.quote_cache is None ==> exists|day: Seq<char>|
                is_date_text(day) && final(self)@.runtime.current_quote == day_quote_view(day),
    {
        let quote = current_quote(&persistent);
        self.persistent = persistent;
        self.runtime.current_quote = quote;
    }

    /// What the window is shown: the saved state is first brought to today.
    pub fn snapshot(&mut self) -> (r: Snapshot)
        ensures
            final(self)@ == (AppView {
                persistent: refreshed(old(self)@.persistent, final(self)@.persistent.today_date),
                ..old(self)@
            }),
            r@ == snapshot_of(final(self)@.persistent, final(self)@.runtime),
            r.phase == old(self).runtime.phase,
            r.remaining_seconds == old(self).runtime.remaining_seconds,
            r.total_seconds == old(self).runtime.total_seconds,
            r.paused == old(self).runtime.paused,
            r@.quote == old(self)@.runtime.current_quote,
            r.completed_cycles == final(self).persistent.completed_cycles,
            r@.settings == old(self)@.persistent.settings,
            r@.today_tasks == final(self)@.persistent.today_tasks,
            r@.task_statuses == final(self)@.persistent.task_statuses,
            r@.today_tasks.len() == 3,
            r@.task_statuses.len() == 3,
    {
        ensure_today_fresh(&mut self.persistent);
        proof {
            lemma_refresh_shape(old(self)@.persistent, self@.persistent.today_date);
        }
        Snapshot {
            phase: self.runtime.phase,
            remaining_seconds: self.runtime.remaining_seconds,
            total_seconds: self.runtime.total_seconds,
            paused: self.runtime.paused,
            completed_cycles: self.persistent.completed_cycles,
            settings: self.persistent.settings.clone(),
            today_tasks: clone_texts(&self.persistent.today_tasks),
            task_statuses: clone_texts(&self.persistent.task_statuses),
            quote: self.runtime.current_quote.clone(),
        }
    }

    /// The saved half of starting a focus phase: the state is brought to
    /// today and the lengths, limited to 1..=180 and 1..=60 minutes, become
    /// the saved ones. The shell saves the state, then calls
    /// [`RuntimeState::start_focus`].
    pub fn begin_focus_settings(&mut self, focus_minutes: u64, break_minutes: u64)
        ensures
            ({
                let r = refreshed(old(self)@.persistent, final(self)@.persistent.today_date);
                final(self)@ == (AppView {
                    persistent: PersistentView {
                        settings: SettingsView {
                            focus_minutes: clamp_spec(
                                focus_minutes as int,
                                MIN_FOCUS_MINUTES as int,
                                MAX_FOCUS_MINUTES as int,
                            ) as nat,
                            break_minutes: clamp_spec(
                                break_minutes as int,
                                MIN_BREAK_MINUTES as int,
                                MAX_BREAK_MINUTES as int,
                            ) as nat,
                            ..r.settings
                        },
                        ..r
                    },
                    ..old(self)@
                })
            }),
    {
        ensure_today_fresh(&mut self.persistent);
        self.persistent.settings.focus_minutes = clamp_u64(
            focus_minutes,
            MIN_FOCUS_MINUTES,
            MAX_FOCUS_MINUTES,
        );
        self.persistent.settings.break_minutes = clamp_u64(
            break_minutes,
            MIN_BREAK_MINUTES,
            MAX_BREAK_MINUTES,
        );
    }

    /// The end of a focus phase: one more round is counted (stopping at
    /// `u32::MAX`) and a break of the saved length starts, showing the quote
    /// to show (see [`current_quote`]). The shell then saves the state and
    /// shows the lock windows.
    pub fn enter_break(&mut self)
        requires
            old(self).persistent.settings.break_minutes * SECONDS_PER_MINUTE <= u64::MAX,
        ensures
            final(self)@.last_tray_key == old(self)@.last_tray_key,
            final(self)@.persistent == (PersistentView {
                completed_cycles: if old(self).persistent.completed_cycles == u32::MAX {
                    u32::MAX as nat
                } else {
                    old(self).persistent.completed_cycles as nat + 1
                },
                ..old(self)@.persistent
            }),
            final(self)@.runtime == (RuntimeView {
                current_quote: final(self)@.runtime.current_quote,
                ..running_view(
                    old(self)@.runtime,
                    Phase::Break,
                    old(self).persistent.settings.break_minutes as nat * 60,
                )
            }),
            old(self)@.persistent.quote_cache matches Some(q) ==> final(self)@.runtime.current_quote
                == q,
            old(self)@.persistent.quote_cache is None ==> exists|day: Seq<char>|
                is_date_text(day) && final(self)@.runtime.current_quote == day_quote_view(day),
            final(self)@.runtime.wf(),
    {
        self.persistent.record_completed_cycle();
        let quote = current_quote(&self.persistent);
        let minutes = self.persistent.settings.break_minutes;
        self.runtime.start_break(minutes, quote);
    }

    /// What a request to leave the break leads to: a forced break with time
    /// left goes on; otherwise the next focus phase starts with the saved
    /// lengths when rounds restart by themselves, else the timer stops.
    pub fn exit_break_plan(&self) -> (r: ExitBreakPlan)
        ensures
            r == exit_break_plan_spec(self@),
    {
        if self.runtime.phase == Phase::Break && self.persistent.settings.force_break
            && self.runtime.remaining_seconds > 0 {
            ExitBreakPlan::KeepBreak
        } else if self.persistent.settings.auto_restart {
            ExitBreakPlan::RestartFocus {
                focus_minutes: self.persistent.settings.focus_minutes,
                break_minutes: self.persistent.settings.break_minutes,
            }
        } else {
            ExitBreakPlan::Idle
        }
    }

    /// Keeps a quote fetched online: it becomes the cached quote and the one
    /// shown.
    pub fn accept_online_quote(&mut self, quote: Quote)
        ensures
            final(self)@ == (AppView {
                persistent: PersistentView { quote_cache: Some(quote@), ..old(self)@.persistent },
                runtime: RuntimeView { current_quote: quote@, ..old(self)@.runtime },
                ..old(self)@
            }),
    {
        self.persistent.quote_cache = Some(quote.clone());
        self.runtime.current_quote = quote;
    }

    /// The tray menu to show, if it differs from the one last built (see
    /// [`tray_update_spec`]).
    pub fn tray_menu_update(&mut self) -> (r: Option<Vec<MenuEntry>>)
        ensures
            (final(self)@, opt_entries(r)) == tray_update_spec(old(self)@),
    {
        let tasks = task_pairs(&self.persistent.today_tasks, &self.persistent.task_statuses);
        let key = tray_key(
            self.runtime.phase,
            self.runtime.paused,
            self.persistent.completed_cycles,
            self.persistent.settings.force_break,
            self.persistent.settings.language.as_str(),
            tasks.as_slice(),
        );
        if key == self.last_tray_key {
            return None;
        }
        self.last_tray_key = key;
        Some(
            build_tray_menu(
                self.runtime.phase,
                self.runtime.paused,
                self.persistent.completed_cycles,
                self.persistent.settings.force_break,
                tasks.as_slice(),
                self.persistent.settings.language.as_str(),
            ),
        )
    }
}

/// A forced break cannot be ended early: while time is left, a request to
/// leave it keeps it; once its countdown has run out, it ends as any break.
pub proof fn lemma_forced_break_holds(s: AppView)
    requires
        s.runtime.phase == Phase::Break,
        s.persistent.settings.force_break,
    ensures
        s.runtime.remaining_seconds > 0 ==> exit_break_plan_spec(s) == ExitBreakPlan::KeepBreak,
        s.runtime.remaining_seconds == 0 ==> exit_break_plan_spec(s) != ExitBreakPlan::KeepBreak,
{
}

/// The views of an optional menu.
pub open spec fn opt_entries(o: Option<Vec<MenuEntry>>) -> Option<Seq<MenuEntryView>> {
    match o {
        Some(v) => Some(entries_view(v@)),
        None => None,
    }
}

/// One update of the tray menu: nothing when the summary of the state is the
/// one last built; otherwise the summary is kept and the state's menu is
/// built.
pub open spec fn tray_update_spec(s: AppView) -> (AppView, Option<Seq<MenuEntryView>>) {
    if s.last_tray_key == tray_key_of(s) {
        (s, None)
    } else {
        (AppView { last_tray_key: tray_key_of(s), ..s }, Some(tray_menu_of(s)))
    }
}

/// Updating the tray twice with nothing changed in between builds the menu
/// at most once: the second update asks for nothing and changes nothing.
pub proof fn lemma_tray_update_settles(s: AppView)
    ensures
        tray_update_spec(tray_update_spec(s).0).1 is None,
        tray_update_spec(tray_update_spec(s).0).0 == tray_update_spec(s).0,
{
}

} // verus!
