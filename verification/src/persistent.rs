//! The state that is saved between runs: settings, the day's tasks, the
//! cached quote and the number of rounds finished today.

use crate::clock::{is_date_text, today_string};
use crate::quotes::{
    day_quote_view, opt_quote, quote_of_day, Quote, QuoteView,
};
use crate::settings::{sanitized_settings, Settings, SettingsView, default_settings};
use crate::text::{text_equals, trim_spec, trimmed};
use vstd::prelude::*;

verus! {

/// How many task slots a day has.
pub const TASK_SLOTS: usize = 3;

/// The status of a task that is neither started nor done.
pub const STATUS_NONE: &'static str = "none";

/// The status of a task in progress.
pub const STATUS_DOING: &'static str = "doing";

/// The status of a finished task.
pub const STATUS_DONE: &'static str = "done";

/// The message with which a list of more than three tasks is refused.
pub const TOO_MANY_TASKS: &'static str = "今日重要事项最多 3 件";

/// Whether `s` is one of the three task statuses.
pub open spec fn is_task_status(s: Seq<char>) -> bool {
    s == STATUS_NONE@ || s == STATUS_DOING@ || s == STATUS_DONE@
}

/// The views of a list of texts.
pub open spec fn texts_view(v: Seq<String>) -> Seq<Seq<char>> {
    v.map_values(|s: String| s@)
}

/// `s` brought to exactly three slots: cut after the third, or padded with
/// `fill`.
pub open spec fn fit_slots(s: Seq<Seq<char>>, fill: Seq<char>) -> Seq<Seq<char>> {
    if s.len() >= TASK_SLOTS {
        s.take(TASK_SLOTS as int)
    } else {
        s + Seq::new((TASK_SLOTS - s.len()) as nat, |_i: int| fill)
    }
}

/// Three empty task slots.
pub open spec fn blank_tasks() -> Seq<Seq<char>> {
    seq![Seq::<char>::empty(), Seq::<char>::empty(), Seq::<char>::empty()]
}

/// Three `none` statuses.
pub open spec fn blank_statuses() -> Seq<Seq<char>> {
    seq![STATUS_NONE@, STATUS_NONE@, STATUS_NONE@]
}

/// The saved state.
#[derive(Debug)]
pub struct PersistentState {
    pub settings: Settings,
    /// The day the tasks and the round count belong to, `YYYY-MM-DD`.
    pub today_date: String,
    pub today_tasks: Vec<String>,
    /// One of `none`, `doing`, `done` per task slot.
    pub task_statuses: Vec<String>,
    pub quote_cache: Option<Quote>,
    pub completed_cycles: u32,
}

/// The mathematical content of [`PersistentState`].
pub struct PersistentView {
    pub settings: SettingsView,
    pub today_date: Seq<char>,
    pub today_tasks: Seq<Seq<char>>,
    pub task_statuses: Seq<Seq<char>>,
    pub quote_cache: Option<QuoteView>,
    pub completed_cycles: nat,
}

impl View for PersistentState {
    type V = PersistentView;

    open spec fn view(&self) -> PersistentView {
        PersistentView {
            settings: self.settings@,
            today_date: self.today_date@,
            today_tasks: texts_view(self.today_tasks@),
            task_statuses: texts_view(self.task_statuses@),
            quote_cache: opt_quote(self.quote_cache),
            completed_cycles: self.completed_cycles as nat,
        }
    }
}

/// The state of a first start on `today`: default settings, three empty
/// tasks marked `none`, no cached quote, no round finished.
pub open spec fn fresh_state(today: Seq<char>) -> PersistentView {
    PersistentView {
        settings: default_settings(),
        today_date: today,
        today_tasks: blank_tasks(),
        task_statuses: blank_statuses(),
        quote_cache: None,
        completed_cycles: 0,
    }
}

/// The state brought to `today`: a state of another day loses its tasks,
/// their statuses and its round count; either way exactly three task slots
/// and three statuses remain.
pub open spec fn refreshed(p: PersistentView, today: Seq<char>) -> PersistentView {
    if p.today_date != today {
        PersistentView {
            today_date: today,
            today_tasks: blank_tasks(),
            task_statuses: blank_statuses(),
            completed_cycles: 0,
            ..p
        }
    } else {
        PersistentView {
            today_tasks: fit_slots(p.today_tasks, Seq::empty()),
            task_statuses: fit_slots(p.task_statuses, STATUS_NONE@),
            ..p
        }
    }
}

/// Three empty texts.
pub fn blank_task_slots() -> (r: Vec<String>)
    ensures
        texts_view(r@) == blank_tasks(),
{
    let mut v: Vec<String> = Vec::new();
    v.push(String::new());
    v.push(String::new());
    v.push(String::new());
    assert(texts_view(v@) =~= blank_tasks());
    v
}

/// Three `none` statuses.
pub fn blank_status_slots() -> (r: Vec<String>)
    ensures
        texts_view(r@) == blank_statuses(),
{
    let mut v: Vec<String> = Vec::new();
    v.push(String::from_str(STATUS_NONE));
    v.push(String::from_str(STATUS_NONE));
    v.push(String::from_str(STATUS_NONE));
    assert(texts_view(v@) =~= blank_statuses());
    v
}

/// Brings a list to exactly three slots, cutting after the third or padding
/// with `fill`, as `Vec::resize(3, fill)` does.
pub fn fit_to_slots(v: &mut Vec<String>, fill: &str)
    ensures
        texts_view(final(v)@) == fit_slots(texts_view(old(v)@), fill@),
{
    if v.len() >= TASK_SLOTS {
        v.truncate(TASK_SLOTS);
        assert(texts_view(v@) =~= fit_slots(texts_view(old(v)@), fill@));
    } else {
        while v.len() < TASK_SLOTS
            invariant
                v@.len() <= TASK_SLOTS,
                old(v)@.len() <= v@.len(),
                v@.subrange(0, old(v)@.len() as int) == old(v)@,
                forall|i: int| old(v)@.len() <= i < v@.len() ==> (#[trigger] v@[i])@ == fill@,
            decreases TASK_SLOTS - v@.len(),
        {
            v.push(String::from_str(fill));
        }
        assert(texts_view(v@) =~= fit_slots(texts_view(old(v)@), fill@)) by {
            assert forall|i: int| 0 <= i < old(v)@.len() implies v@[i] == old(v)@[i] by {
                assert(v@.subrange(0, old(v)@.len() as int)[i] == v@[i]);
            }
        }
    }
}

/// A copy of a list of texts.
pub fn clone_texts(v: &Vec<String>) -> (r: Vec<String>)
    ensures
        texts_view(r@) == texts_view(v@),
{
    let mut r: Vec<String> = Vec::new();
    let mut i: usize = 0;
    while i < v.len()
        invariant
            i <= v@.len(),
            r@.len() == i,
            forall|j: int| 0 <= j < i ==> (#[trigger] r@[j])@ == v@[j]@,
        decreases v@.len() - i,
    {
        r.push(v[i].clone());
        i = i + 1;
    }
    assert(texts_view(r@) =~= texts_view(v@));
    r
}

impl PersistentState {
    /// The state of a first start on the day `today`.
    pub fn new_for_day(today: String) -> (r: PersistentState)
        ensures
            r@ == fresh_state(today@),
    {
        PersistentState {
            settings: Settings::default(),
            today_date: today,
            today_tasks: blank_task_slots(),
            task_statuses: blank_status_slots(),
            quote_cache: None,
            completed_cycles: 0,
        }
    }

    /// Brings the state to the day `today` (see [`refreshed`]).
    pub fn refresh_for_date(&mut self, today: String)
        ensures
            final(self)@ == refreshed(old(self)@, today@),
    {
        proof {
            reveal_strlit("");
            assert(""@ =~= Seq::<char>::empty());
        }
        if !(self.today_date == today) {
            self.today_date = today;
            self.today_tasks = blank_task_slots();
            self.task_statuses = blank_status_slots();
            self.completed_cycles = 0;
        }
        fit_to_slots(&mut self.today_tasks, "");
        fit_to_slots(&mut self.task_statuses, STATUS_NONE);
        proof {
            assert(fit_slots(blank_tasks(), Seq::empty()) =~= blank_tasks());
            assert(fit_slots(blank_statuses(), STATUS_NONE@) =~= blank_statuses());
        }
    }
}

impl Default for PersistentState {
    /// The state of a first start today.
    fn default() -> (r: PersistentState)
        ensures
            r@ == fresh_state(r.today_date@),
    {
        PersistentState::new_for_day(today_string())
    }
}

/// Brings the saved state to today's date (see [`refreshed`]); today's date
/// comes from the clock.
pub fn ensure_today_fresh(persistent: &mut PersistentState)
    ensures
        final(persistent)@ == refreshed(old(persistent)@, final(persistent)@.today_date),
{
    let today = today_string();
    persistent.refresh_for_date(today);
}


/// The quote to show: the cached one, or else the built-in quote of the day.
/// The day comes from the clock, so of the built-in case it is stated that
/// the quote is the one of some text in the form of a date.
pub fn current_quote(persistent: &PersistentState) -> (r: Quote)
    ensures
        persistent.quote_cache matches Some(q) ==> r@ == q@,
        persistent.quote_cache is None ==> exists|day: Seq<char>|
            is_date_text(day) && r@ == day_quote_view(day),
{
    match &persistent.quote_cache {
        Some(q) => q.clone(),
        None => {
            let today = today_string();
            quote_of_day(today.as_str())
        },
    }
}

/// Whether `s` is one of `none`, `doing`, `done`.
pub fn is_valid_status(s: &str) -> (r: bool)
    ensures
        r == is_task_status(s@),
{
    text_equals(s, STATUS_NONE) || text_equals(s, STATUS_DOING) || text_equals(s, STATUS_DONE)
}

/// The status that a click on a task in the tray moves to: `none` to
/// `doing`, `doing` to `done`, anything else to `none`.
pub open spec fn next_status_spec(s: Seq<char>) -> Seq<char> {
    if s == STATUS_NONE@ {
        STATUS_DOING@
    } else if s == STATUS_DOING@ {
        STATUS_DONE@
    } else {
        STATUS_NONE@
    }
}

/// The status that a click on a task in the tray moves to.
pub fn next_task_status(current: &str) -> (r: &'static str)
    ensures
        r@ == next_status_spec(current@),
{
    if text_equals(current, STATUS_NONE) {
        STATUS_DOING
    } else if text_equals(current, STATUS_DOING) {
        STATUS_DONE
    } else {
        STATUS_NONE
    }
}

/// The task slots of a list given by the user: each text trimmed, cut after
/// the third or padded with empty texts.
pub open spec fn task_slots_of(tasks: Seq<Seq<char>>) -> Seq<Seq<char>> {
    fit_slots(tasks.map_values(|t: Seq<char>| trim_spec(t)), Seq::empty())
}

/// The statuses after new task texts `slots` are set: `none` for each empty
/// slot, the old status for the others.
pub open spec fn statuses_for_slots(
    statuses: Seq<Seq<char>>,
    slots: Seq<Seq<char>>,
) -> Seq<Seq<char>> {
    Seq::new(
        TASK_SLOTS as nat,
        |i: int|
            if slots[i].len() == 0 {
                STATUS_NONE@
            } else {
                statuses[i]
            },
    )
}

/// The state after the day's task texts are set to `slots`, starting from
/// the refreshed state `r`.
pub open spec fn with_task_slots(r: PersistentView, slots: Seq<Seq<char>>) -> PersistentView {
    PersistentView {
        today_tasks: slots,
        task_statuses: statuses_for_slots(r.task_statuses, slots),
        ..r
    }
}

/// The state after the status of slot `index` is set to `status`.
pub open spec fn with_status(p: PersistentView, index: int, status: Seq<char>) -> PersistentView {
    PersistentView { task_statuses: p.task_statuses.update(index, status), ..p }
}

impl PersistentState {
    /// Sets the day's tasks. More than three are refused with a message and
    /// nothing changes. Otherwise the state is brought to today, each text is
    /// trimmed, the list is padded to three slots, every empty slot gets the
    /// status `none`, and the three slots are returned.
    pub fn set_today_tasks(&mut self, tasks: Vec<String>) -> (r: Result<Vec<String>, String>)
        ensures
            tasks@.len() > TASK_SLOTS ==> {
                &&& r matches Err(msg) && msg@ == TOO_MANY_TASKS@
                &&& final(self)@ == old(self)@
            },
            tasks@.len() <= TASK_SLOTS ==> {
                &&& r matches Ok(slots)
                    && texts_view(slots@) == task_slots_of(texts_view(tasks@))
                &&& final(self)@ == with_task_slots(
                    refreshed(old(self)@, final(self)@.today_date),
                    task_slots_of(texts_view(tasks@)),
                )
            },
    {
        if tasks.len() > TASK_SLOTS {
            return Err(String::from_str(TOO_MANY_TASKS));
        }
        let ghost given = texts_view(tasks@);
        let mut slots: Vec<String> = Vec::new();
        let mut i: usize = 0;
        while i < tasks.len()
            invariant
                i <= tasks@.len(),
                tasks@.len() <= TASK_SLOTS,
                given == texts_view(tasks@),
                slots@.len() == i,
                forall|j: int| 0 <= j < i ==> (#[trigger] slots@[j])@ == trim_spec(given[j]),
            decreases tasks@.len() - i,
        {
            slots.push(trimmed(tasks[i].as_str()));
            i = i + 1;
        }
        assert(texts_view(slots@) =~= given.map_values(|t: Seq<char>| trim_spec(t)));
        fit_to_slots(&mut slots, "");
        proof {
            reveal_strlit("");
            assert(""@ =~= Seq::<char>::empty());
        }
        let ghost slot_view = texts_view(slots@);
        assert(slot_view == task_slots_of(given));
        ensure_today_fresh(self);
        let ghost r = self@;
        proof {
            lemma_refresh_shape(old(self)@, r.today_date);
        }
        let mut k: usize = 0;
        while k < TASK_SLOTS
            invariant
                k <= TASK_SLOTS,
                slots@.len() == TASK_SLOTS,
                texts_view(slots@) == slot_view,
                r.task_statuses.len() == TASK_SLOTS,
                self.task_statuses@.len() == TASK_SLOTS,
                self@ == (PersistentView { task_statuses: self@.task_statuses, ..r }),
                forall|j: int|
                    0 <= j < k ==> #[trigger] self@.task_statuses[j] == statuses_for_slots(
                        r.task_statuses,
                        slot_view,
                    )[j],
                forall|j: int| k <= j < TASK_SLOTS ==> #[trigger] self@.task_statuses[j] == r.task_statuses[j],
            decreases TASK_SLOTS - k,
        {
            let ghost before = self@.task_statuses;
            assert(slot_view[k as int] == slots@[k as int]@);
            if slots[k].as_str().is_empty() {
                self.task_statuses.set(k, String::from_str(STATUS_NONE));
                assert(self@.task_statuses =~= before.update(k as int, STATUS_NONE@));
            } else {
                assert(self@.task_statuses == before);
            }
            k = k + 1;
        }
        assert(self@.task_statuses =~= statuses_for_slots(r.task_statuses, slot_view));
        self.today_tasks = clone_texts(&slots);
        assert(self@ == with_task_slots(r, slot_view));
        Ok(slots)
    }

    /// Sets the status of task slot `index` to `status`, when the index is
    /// below three and the status is one of `none`, `doing`, `done`: the state
    /// is then brought to today and the status is written if that slot holds
    /// a task. Returns whether a status was written.
    pub fn set_task_status(&mut self, index: usize, status: String) -> (written: bool)
        ensures
            !(index < TASK_SLOTS && is_task_status(status@)) ==> !written && final(self)@ == old(self)@,
            index < TASK_SLOTS && is_task_status(status@) ==> {
                let r = refreshed(old(self)@, final(self)@.today_date);
                &&& written == (r.today_tasks[index as int].len() > 0)
                &&& final(self)@ == if written {
                    with_status(r, index as int, status@)
                } else {
                    r
                }
            },
    {
        if index < TASK_SLOTS && is_valid_status(status.as_str()) {
            ensure_today_fresh(self);
            let ghost r = self@;
            proof {
                lemma_refresh_shape(old(self)@, r.today_date);
            }
            if !self.today_tasks[index].as_str().is_empty() {
                self.task_statuses.set(index, status);
                assert(self@.task_statuses =~= r.task_statuses.update(index as int, status@));
                return true;
            }
        }
        false
    }

    /// Moves task slot `index` to its next status (see [`next_status_spec`]):
    /// the state is brought to today, and the status changes when the index
    /// is below three and that slot holds a task. Returns whether it changed.
    pub fn cycle_task_status(&mut self, index: usize) -> (written: bool)
        ensures
            ({
                let r = refreshed(old(self)@, final(self)@.today_date);
                &&& written == (index < TASK_SLOTS && r.today_tasks[index as int].len() > 0)
                &&& final(self)@ == if written {
                    with_status(r, index as int, next_status_spec(r.task_statuses[index as int]))
                } else {
                    r
                }
            }),
    {
        ensure_today_fresh(self);
        let ghost r = self@;
        proof {
            lemma_refresh_shape(old(self)@, r.today_date);
        }
        if index < TASK_SLOTS && !self.today_tasks[index].as_str().is_empty() {
            let next = next_task_status(self.task_statuses[index].as_str());
            self.task_statuses.set(index, String::from_str(next));
            assert(self@.task_statuses =~= r.task_statuses.update(
                index as int,
                next_status_spec(r.task_statuses[index as int]),
            ));
            return true;
        }
        false
    }

    /// Counts one more finished round, stopping at `u32::MAX`.
    pub fn record_completed_cycle(&mut self)
        ensures
            final(self)@ == (PersistentView {
                completed_cycles: if old(self).completed_cycles == u32::MAX {
                    u32::MAX as nat
                } else {
                    old(self).completed_cycles as nat + 1
                },
                ..old(self)@
            }),
    {
        self.completed_cycles = self.completed_cycles.saturating_add(1);
    }

    /// Replaces the settings with `settings`, its durations brought into
    /// range, and returns the settings now held.
    pub fn save_settings(&mut self, settings: &Settings) -> (r: Settings)
        ensures
            final(self)@ == (PersistentView { settings: sanitized_settings(settings@), ..old(self)@ }),
            r@ == sanitized_settings(settings@),
    {
        self.settings = settings.sanitized();
        self.settings.clone()
    }
}

/// Bringing the state to a day twice changes nothing the second time.
pub proof fn lemma_refresh_idempotent(p: PersistentView, today: Seq<char>)
    ensures
        refreshed(refreshed(p, today), today) == refreshed(p, today),
{
    let once = refreshed(p, today);
    assert(fit_slots(once.today_tasks, Seq::empty()) =~= once.today_tasks);
    assert(fit_slots(once.task_statuses, STATUS_NONE@) =~= once.task_statuses);
}

/// A state brought to a day has exactly three task slots and three statuses,
/// and belongs to that day.
pub proof fn lemma_refresh_shape(p: PersistentView, today: Seq<char>)
    ensures
        refreshed(p, today).today_date == today,
        refreshed(p, today).today_tasks.len() == TASK_SLOTS,
        refreshed(p, today).task_statuses.len() == TASK_SLOTS,
        p.today_date != today ==> refreshed(p, today).completed_cycles == 0,
        p.today_date != today ==> refreshed(p, today).today_tasks == blank_tasks(),
{
}

/// Three clicks on a task bring a valid status back to where it started.
pub proof fn lemma_status_cycle(s: Seq<char>)
    requires
        is_task_status(s),
    ensures
        next_status_spec(next_status_spec(next_status_spec(s))) == s,
{
    reveal_strlit("none");
    reveal_strlit("doing");
    reveal_strlit("done");
    assert(STATUS_NONE@ == "none"@);
    assert(STATUS_NONE@.len() == 4);
    assert(STATUS_DOING@.len() == 5);
    assert(STATUS_DONE@.len() == 4);
    assert(STATUS_NONE@[0] != STATUS_DONE@[0]);
}

} // verus!
