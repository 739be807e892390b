//! The tray menu: which entries it shows for a state of the timer, when it
//! needs rebuilding, and what a click on an entry asks for.

use crate::runtime::Phase;
use crate::text::{
    decimal_chars, decimal_string, has_prefix, lemma_decimal_round_trip, parse_usize,
    parse_usize_spec, shorten, shortened, starts_with, text_after, text_equals,
};
use vstd::prelude::*;

verus! {

/// How many characters of a task the tray shows before it cuts.
pub const TASK_LABEL_CHARS: usize = 16;

/// The prefix of the ids of task entries; the slot number follows it.
pub const TASK_ID_PREFIX: &'static str = "task_";

/// One entry of the tray menu.
#[derive(Debug)]
pub enum MenuEntry {
    Item { id: String, label: String, enabled: bool },
    Separator,
}

/// The mathematical content of [`MenuEntry`].
pub enum MenuEntryView {
    Item { id: Seq<char>, label: Seq<char>, enabled: bool },
    Separator,
}

impl View for MenuEntry {
    type V = MenuEntryView;

    open spec fn view(&self) -> MenuEntryView {
        match self {
            MenuEntry::Item { id, label, enabled } => MenuEntryView::Item {
                id: id@,
                label: label@,
                enabled: *enabled,
            },
            MenuEntry::Separator => MenuEntryView::Separator,
        }
    }
}

/// The views of a list of entries.
pub open spec fn entries_view(v: Seq<MenuEntry>) -> Seq<MenuEntryView> {
    v.map_values(|e: MenuEntry| e@)
}

/// The views of a list of text pairs.
pub open spec fn text_pairs_view(v: Seq<(String, String)>) -> Seq<(Seq<char>, Seq<char>)> {
    v.map_values(|p: (String, String)| (p.0@, p.1@))
}

/// English when the language is `en`, Chinese otherwise.
pub open spec fn pick(en: bool, english: Seq<char>, chinese: Seq<char>) -> Seq<char> {
    if en {
        english
    } else {
        chinese
    }
}

/// An enabled entry.
pub open spec fn action(id: Seq<char>, label: Seq<char>) -> MenuEntryView {
    MenuEntryView::Item { id, label, enabled: true }
}

/// The count of the day's rounds that follows the status, if any were
/// finished.
pub open spec fn cycle_suffix(cycles: nat, en: bool) -> Seq<char> {
    if cycles == 0 {
        Seq::empty()
    } else if en {
        " · Today: "@ + decimal_chars(cycles) + " "@ + if cycles == 1 {
            "round"@
        } else {
            "rounds"@
        }
    } else {
        " · 今日 "@ + decimal_chars(cycles) + " 轮"@
    }
}

/// The status line at the top of the menu.
pub open spec fn status_text(phase: Phase, paused: bool, cycles: nat, en: bool) -> Seq<char> {
    let suffix = cycle_suffix(cycles, en);
    match phase {
        Phase::Idle => "Focus Lock · "@ + pick(en, "Idle"@, "待机"@) + suffix,
        Phase::Focus => if paused {
            pick(en, "Paused"@, "专注暂停"@) + suffix
        } else {
            pick(en, "Focusing"@, "专注中"@) + suffix
        },
        Phase::Break => pick(en, "Break"@, "休息中"@) + suffix,
    }
}

/// The mark before a task: half a circle in progress, a tick when done, an
/// empty circle otherwise.
pub open spec fn status_icon(status: Seq<char>) -> Seq<char> {
    if status == "doing"@ {
        "◑"@
    } else if status == "done"@ {
        "✓"@
    } else {
        "○"@
    }
}

/// The entry of the task in slot `slot`.
pub open spec fn task_item(slot: nat, text: Seq<char>, status: Seq<char>) -> MenuEntryView {
    action(
        TASK_ID_PREFIX@ + decimal_chars(slot),
        status_icon(status) + " "@ + shortened(text, TASK_LABEL_CHARS as nat),
    )
}

/// The entries of the tasks, in slot order, skipping empty slots.
pub open spec fn task_items(tasks: Seq<(Seq<char>, Seq<char>)>) -> Seq<MenuEntryView>
    decreases tasks.len(),
{
    if tasks.len() == 0 {
        Seq::empty()
    } else {
        let before = task_items(tasks.drop_last());
        let last = tasks.last();
        if last.0.len() == 0 {
            before
        } else {
            before.push(task_item((tasks.len() - 1) as nat, last.0, last.1))
        }
    }
}

/// The entries that act on the timer in each phase.
pub open spec fn phase_actions(phase: Phase, paused: bool, force_break: bool, en: bool) -> Seq<
    MenuEntryView,
> {
    match phase {
        Phase::Idle => seq![action("start"@, pick(en, "Start"@, "开始番茄"@))],
        Phase::Focus => if paused {
            seq![
                action("resume"@, pick(en, "Resume"@, "继续专注"@)),
                action("cancel"@, pick(en, "Cancel Round"@, "取消本轮"@)),
            ]
        } else {
            seq![
                action("pause"@, pick(en, "Pause"@, "暂停专注"@)),
                action("cancel"@, pick(en, "Cancel Round"@, "取消本轮"@)),
            ]
        },
        Phase::Break => if !force_break {
            seq![action("end_break"@, pick(en, "End Break Early"@, "提前结束休息"@))]
        } else {
            Seq::empty()
        },
    }
}

/// The entries that end every menu.
pub open spec fn closing_items(en: bool) -> Seq<MenuEntryView> {
    seq![
        MenuEntryView::Separator,
        action("show"@, pick(en, "Show Window"@, "显示主窗口"@)),
        action("about"@, pick(en, "About Focus Lock"@, "关于 Focus Lock"@)),
        MenuEntryView::Separator,
        action("quit"@, pick(en, "Quit"@, "退出"@)),
    ]
}

/// The whole menu: the status line (not clickable) and a separator; the
/// tasks followed by a separator, when any slot holds one; the actions of
/// the phase; then the window, about and quit entries.
pub open spec fn tray_menu_spec(
    phase: Phase,
    paused: bool,
    cycles: nat,
    force_break: bool,
    tasks: Seq<(Seq<char>, Seq<char>)>,
    lang: Seq<char>,
) -> Seq<MenuEntryView> {
    let en = lang == "en"@;
    let items = task_items(tasks);
    seq![
        MenuEntryView::Item { id: "status"@, label: status_text(phase, paused, cycles, en), enabled: false },
        MenuEntryView::Separator,
    ] + if items.len() > 0 {
        items.push(MenuEntryView::Separator)
    } else {
        Seq::empty()
    } + phase_actions(phase, paused, force_break, en) + closing_items(en)
}

/// Appends an entry.
fn push_item(menu: &mut Vec<MenuEntry>, id: &str, label: String, enabled: bool)
    ensures
        entries_view(final(menu)@) == entries_view(old(menu)@).push(
            MenuEntryView::Item { id: id@, label: label@, enabled },
        ),
{
    menu.push(MenuEntry::Item { id: String::from_str(id), label, enabled });
    assert(entries_view(menu@) =~= entries_view(old(menu)@).push(
        MenuEntryView::Item { id: id@, label: label@, enabled },
    ));
}

/// Appends a separator.
fn push_separator(menu: &mut Vec<MenuEntry>)
    ensures
        entries_view(final(menu)@) == entries_view(old(menu)@).push(MenuEntryView::Separator),
{
    menu.push(MenuEntry::Separator);
    assert(entries_view(menu@) =~= entries_view(old(menu)@).push(MenuEntryView::Separator));
}

/// The text `english` or `chinese`.
fn choose_text(en: bool, english: &'static str, chinese: &'static str) -> (r: &'static str)
    ensures
        r@ == pick(en, english@, chinese@),
{
    if en {
        english
    } else {
        chinese
    }
}

/// The count of the day's rounds that follows the status.
pub fn cycle_suffix_text(cycles: u32, en: bool) -> (r: String)
    ensures
        r@ == cycle_suffix(cycles as nat, en),
{
    if cycles == 0 {
        String::new()
    } else if en {
        let mut s = String::from_str(" · Today: ");
        s.append(decimal_string(cycles as u64).as_str());
        s.append(" ");
        s.append(if cycles == 1 { "round" } else { "rounds" });
        s
    } else {
        let mut s = String::from_str(" · 今日 ");
        s.append(decimal_string(cycles as u64).as_str());
        s.append(" 轮");
        s
    }
}

/// The status line at the top of the menu.
pub fn status_line(phase: Phase, paused: bool, cycles: u32, en: bool) -> (r: String)
    ensures
        r@ == status_text(phase, paused, cycles as nat, en),
{
    let suffix = cycle_suffix_text(cycles, en);
    let mut s = match phase {
        Phase::Idle => {
            let mut s = String::from_str("Focus Lock · ");
            s.append(choose_text(en, "Idle", "待机"));
            s
        },
        Phase::Focus => if paused {
            String::from_str(choose_text(en, "Paused", "专注暂停"))
        } else {
            String::from_str(choose_text(en, "Focusing", "专注中"))
        },
        Phase::Break => String::from_str(choose_text(en, "Break", "休息中")),
    };
    s.append(suffix.as_str());
    s
}

/// The mark before a task.
pub fn task_icon(status: &str) -> (r: &'static str)
    ensures
        r@ == status_icon(status@),
{
    if text_equals(status, "doing") {
        "◑"
    } else if text_equals(status, "done") {
        "✓"
    } else {
        "○"
    }
}

/// The label of a task entry: its mark, a space, and the task cut to
/// sixteen characters.
pub fn task_label(text: &str, status: &str) -> (r: String)
    ensures
        r@ == status_icon(status@) + " "@ + shortened(text@, TASK_LABEL_CHARS as nat),
{
    let mut s = String::from_str(task_icon(status));
    s.append(" ");
    s.append(shorten(text, TASK_LABEL_CHARS).as_str());
    s
}

/// The id of the task entry of slot `slot`.
pub fn task_item_id(slot: usize) -> (r: String)
    ensures
        r@ == TASK_ID_PREFIX@ + decimal_chars(slot as nat),
{
    let mut s = String::from_str(TASK_ID_PREFIX);
    s.append(decimal_string(slot as u64).as_str());
    s
}

/// The entries of the tasks (see [`task_items`]).
pub fn task_entries(tasks: &[(String, String)]) -> (r: Vec<MenuEntry>)
    ensures
        entries_view(r@) == task_items(text_pairs_view(tasks@)),
{
    let mut menu: Vec<MenuEntry> = Vec::new();
    let ghost all = text_pairs_view(tasks@);
    let mut i: usize = 0;
    assert(entries_view(menu@) =~= task_items(all.take(0)));
    while i < tasks.len()
        invariant
            i <= tasks@.len(),
            all == text_pairs_view(tasks@),
            entries_view(menu@) == task_items(all.take(i as int)),
        decreases tasks@.len() - i,
    {
        let (text, status) = &tasks[i];
        assert(all.take(i as int + 1).drop_last() =~= all.take(i as int));
        assert(all.take(i as int + 1).last() == (text@, status@));
        if !text.as_str().is_empty() {
            let id = task_item_id(i);
            let label = task_label(text.as_str(), status.as_str());
            push_item(&mut menu, id.as_str(), label, true);
        }
        i = i + 1;
    }
    assert(all.take(i as int) =~= all);
    menu
}

/// Appends the entries that act on the timer in `phase`.
fn push_phase_actions(menu: &mut Vec<MenuEntry>, phase: Phase, paused: bool, force_break: bool, en: bool)
    ensures
        entries_view(final(menu)@) == entries_view(old(menu)@) + phase_actions(
            phase,
            paused,
            force_break,
            en,
        ),
{
    match phase {
        Phase::Idle => {
            push_item(menu, "start", String::from_str(choose_text(en, "Start", "开始番茄")), true);
        },
        Phase::Focus => {
            if paused {
                push_item(menu, "resume", String::from_str(choose_text(en, "Resume", "继续专注")), true);
            } else {
                push_item(menu, "pause", String::from_str(choose_text(en, "Pause", "暂停专注")), true);
            }
            push_item(menu, "cancel", String::from_str(choose_text(en, "Cancel Round", "取消本轮")), true);
        },
        Phase::Break => {
            if !force_break {
                push_item(
                    menu,
                    "end_break",
                    String::from_str(choose_text(en, "End Break Early", "提前结束休息")),
                    true,
                );
            }
        },
    }
    assert(entries_view(menu@) =~= entries_view(old(menu)@) + phase_actions(
        phase,
        paused,
        force_break,
        en,
    ));
}

/// Appends the entries that end every menu.
fn push_closing_items(menu: &mut Vec<MenuEntry>, en: bool)
    ensures
        entries_view(final(menu)@) == entries_view(old(menu)@) + closing_items(en),
{
    push_separator(menu);
    push_item(menu, "show", String::from_str(choose_text(en, "Show Window", "显示主窗口")), true);
    push_item(menu, "about", String::from_str(choose_text(en, "About Focus Lock", "关于 Focus Lock")), true);
    push_separator(menu);
    push_item(menu, "quit", String::from_str(choose_text(en, "Quit", "退出")), true);
    assert(entries_view(menu@) =~= entries_view(old(menu)@) + closing_items(en));
}

/// Appends the task entries, then a separator when there is any.
fn push_task_section(menu: &mut Vec<MenuEntry>, tasks: &[(String, String)])
    ensures
        entries_view(final(menu)@) == entries_view(old(menu)@) + ({
            let items = task_items(text_pairs_view(tasks@));
            if items.len() > 0 {
                items.push(MenuEntryView::Separator)
            } else {
                Seq::empty()
            }
        }),
{
    let mut items = task_entries(tasks);
    let ghost part = entries_view(items@);
    let has_tasks = items.len() > 0;
    menu.append(&mut items);
    assert(entries_view(menu@) =~= entries_view(old(menu)@) + part);
    if has_tasks {
        push_separator(menu);
        assert(entries_view(menu@) =~= entries_view(old(menu)@) + part.push(MenuEntryView::Separator));
    } else {
        assert(entries_view(menu@) =~= entries_view(old(menu)@) + Seq::<MenuEntryView>::empty());
    }
}

/// The tray menu for a state of the timer (see [`tray_menu_spec`]). `tasks`
/// pairs each task with its status; `lang` is the language setting.
pub fn build_tray_menu(
    phase: Phase,
    paused: bool,
    cycles: u32,
    force_break: bool,
    tasks: &[(String, String)],
    lang: &str,
) -> (r: Vec<MenuEntry>)
    ensures
        entries_view(r@) == tray_menu_spec(
            phase,
            paused,
            cycles as nat,
            force_break,
            text_pairs_view(tasks@),
            lang@,
        ),
{
    let en = text_equals(lang, "en");
    let mut menu: Vec<MenuEntry> = Vec::new();
    push_item(&mut menu, "status", status_line(phase, paused, cycles, en), false);
    push_separator(&mut menu);
    push_task_section(&mut menu, tasks);
    push_phase_actions(&mut menu, phase, paused, force_break, en);
    push_closing_items(&mut menu, en);
    assert(entries_view(menu@) =~= tray_menu_spec(
        phase,
        paused,
        cycles as nat,
        force_break,
        text_pairs_view(tasks@),
        lang@,
    ));
    menu
}


/// The name of a phase as `{:?}` writes it.
pub open spec fn phase_name(phase: Phase) -> Seq<char> {
    match phase {
        Phase::Idle => "Idle"@,
        Phase::Focus => "Focus"@,
        Phase::Break => "Break"@,
    }
}

/// A boolean as `{}` writes it.
pub open spec fn bool_text(b: bool) -> Seq<char> {
    if b {
        "true"@
    } else {
        "false"@
    }
}

/// Each task and its status, each pair written `task:status|`.
pub open spec fn tasks_key(tasks: Seq<(Seq<char>, Seq<char>)>) -> Seq<char>
    decreases tasks.len(),
{
    if tasks.len() == 0 {
        Seq::empty()
    } else {
        tasks_key(tasks.drop_last()) + tasks.last().0 + ":"@ + tasks.last().1 + "|"@
    }
}

/// The text that sums up what the tray menu shows; the menu is rebuilt only
/// when it changes.
pub open spec fn tray_key_spec(
    phase: Phase,
    paused: bool,
    cycles: nat,
    force_break: bool,
    language: Seq<char>,
    tasks: Seq<(Seq<char>, Seq<char>)>,
) -> Seq<char> {
    phase_name(phase) + "|"@ + bool_text(paused) + "|"@ + decimal_chars(cycles) + "|"@
        + bool_text(force_break) + "|"@ + language + "|"@ + tasks_key(tasks)
}

/// The name of a phase.
pub fn phase_name_text(phase: Phase) -> (r: &'static str)
    ensures
        r@ == phase_name(phase),
{
    match phase {
        Phase::Idle => "Idle",
        Phase::Focus => "Focus",
        Phase::Break => "Break",
    }
}

/// A boolean written out.
pub fn bool_string(b: bool) -> (r: &'static str)
    ensures
        r@ == bool_text(b),
{
    if b {
        "true"
    } else {
        "false"
    }
}

/// The text that sums up what the tray menu shows (see [`tray_key_spec`]).
pub fn tray_key(
    phase: Phase,
    paused: bool,
    cycles: u32,
    force_break: bool,
    language: &str,
    tasks: &[(String, String)],
) -> (r: String)
    ensures
        r@ == tray_key_spec(phase, paused, cycles as nat, force_break, language@, text_pairs_view(tasks@)),
{
    let mut key = String::from_str(phase_name_text(phase));
    key.append("|");
    key.append(bool_string(paused));
    key.append("|");
    key.append(decimal_string(cycles as u64).as_str());
    key.append("|");
    key.append(bool_string(force_break));
    key.append("|");
    key.append(language);
    key.append("|");
    let ghost head = key@;
    let ghost all = text_pairs_view(tasks@);
    let mut i: usize = 0;
    assert(all.take(0) =~= Seq::<(Seq<char>, Seq<char>)>::empty());
    while i < tasks.len()
        invariant
            i <= tasks@.len(),
            all == text_pairs_view(tasks@),
            key@ == head + tasks_key(all.take(i as int)),
        decreases tasks@.len() - i,
    {
        let (text, status) = &tasks[i];
        assert(all.take(i as int + 1).drop_last() =~= all.take(i as int));
        assert(all.take(i as int + 1).last() == (text@, status@));
        key.append(text.as_str());
        key.append(":");
        key.append(status.as_str());
        key.append("|");
        i = i + 1;
    }
    assert(all.take(i as int) =~= all);
    key
}

/// What a click on a tray entry asks for.
#[derive(Debug, Clone, Copy, PartialEq, Eq, Structural)]
pub enum TrayCommand {
    Start,
    Pause,
    Resume,
    Cancel,
    EndBreak,
    /// Move the task in this slot to its next status.
    CycleTask(usize),
    ShowWindow,
    About,
    Quit,
    /// An entry that asks for nothing.
    Ignore,
}

/// The request of the entry with id `id`. A task entry's id is `task_`
/// followed by a number as `str::parse::<usize>` reads it; an id that starts
/// with `task_` and is not followed by such a number asks for nothing.
pub open spec fn tray_command_spec(id: Seq<char>) -> TrayCommand {
    if id == "start"@ {
        TrayCommand::Start
    } else if id == "pause"@ {
        TrayCommand::Pause
    } else if id == "resume"@ {
        TrayCommand::Resume
    } else if id == "cancel"@ {
        TrayCommand::Cancel
    } else if id == "end_break"@ {
        TrayCommand::EndBreak
    } else if has_prefix(id, TASK_ID_PREFIX@) {
        match parse_usize_spec(id.skip(TASK_ID_PREFIX@.len() as int)) {
            Some(slot) => TrayCommand::CycleTask(slot),
            None => TrayCommand::Ignore,
        }
    } else if id == "show"@ {
        TrayCommand::ShowWindow
    } else if id == "about"@ {
        TrayCommand::About
    } else if id == "quit"@ {
        TrayCommand::Quit
    } else {
        TrayCommand::Ignore
    }
}

/// The request of the entry with id `id` (see [`tray_command_spec`]).
pub fn tray_command(id: &str) -> (r: TrayCommand)
    ensures
        r == tray_command_spec(id@),
{
    if text_equals(id, "start") {
        TrayCommand::Start
    } else if text_equals(id, "pause") {
        TrayCommand::Pause
    } else if text_equals(id, "resume") {
        TrayCommand::Resume
    } else if text_equals(id, "cancel") {
        TrayCommand::Cancel
    } else if text_equals(id, "end_break") {
        TrayCommand::EndBreak
    } else if starts_with(id, TASK_ID_PREFIX) {
        let rest = text_after(id, TASK_ID_PREFIX.unicode_len());
        match parse_usize(rest) {
            Some(slot) => TrayCommand::CycleTask(slot),
            None => TrayCommand::Ignore,
        }
    } else if text_equals(id, "show") {
        TrayCommand::ShowWindow
    } else if text_equals(id, "about") {
        TrayCommand::About
    } else if text_equals(id, "quit") {
        TrayCommand::Quit
    } else {
        TrayCommand::Ignore
    }
}

/// Whether an entry can be clicked: a separator never, an item when enabled.
pub open spec fn clickable(e: MenuEntryView) -> bool {
    e matches MenuEntryView::Item { enabled, .. } && enabled
}

/// Every task entry can be clicked, and each carries the slot of its task in
/// its id.
pub proof fn lemma_task_items_clickable(tasks: Seq<(Seq<char>, Seq<char>)>)
    ensures
        forall|i: int| 0 <= i < task_items(tasks).len() ==> clickable(#[trigger] task_items(tasks)[i]),
        task_items(tasks).len() <= tasks.len(),
    decreases tasks.len(),
{
    if tasks.len() > 0 {
        lemma_task_items_clickable(tasks.drop_last());
        let before = task_items(tasks.drop_last());
        assert forall|i: int| 0 <= i < task_items(tasks).len() implies clickable(
            #[trigger] task_items(tasks)[i],
        ) by {
            if i < before.len() {
                assert(task_items(tasks)[i] == before[i]);
            }
        }
    }
}

/// In every tray menu the first entry is the status line, which cannot be
/// clicked, and every other entry is a separator or can be clicked.
pub proof fn lemma_only_status_line_disabled(
    phase: Phase,
    paused: bool,
    cycles: nat,
    force_break: bool,
    tasks: Seq<(Seq<char>, Seq<char>)>,
    lang: Seq<char>,
)
    ensures
        ({
            let menu = tray_menu_spec(phase, paused, cycles, force_break, tasks, lang);
            &&& menu.len() > 0
            &&& menu[0] matches MenuEntryView::Item { id, enabled, .. } && id == "status"@ && !enabled
            &&& forall|i: int|
                1 <= i < menu.len() ==> (#[trigger] menu[i] is Separator || clickable(menu[i]))
        }),
{
    lemma_task_items_clickable(tasks);
    let en = lang == "en"@;
    let items = task_items(tasks);
    let head = seq![
        MenuEntryView::Item { id: "status"@, label: status_text(phase, paused, cycles, en), enabled: false },
        MenuEntryView::Separator,
    ];
    let section = if items.len() > 0 {
        items.push(MenuEntryView::Separator)
    } else {
        Seq::empty()
    };
    let acts = phase_actions(phase, paused, force_break, en);
    let tail = closing_items(en);
    let menu = tray_menu_spec(phase, paused, cycles, force_break, tasks, lang);
    assert(menu == head + section + acts + tail);
    assert forall|i: int| 1 <= i < menu.len() implies (#[trigger] menu[i] is Separator || clickable(
        menu[i],
    )) by {
        let a = head.len() as int;
        let b = a + section.len();
        let c = b + acts.len();
        if i < a {
            assert(menu[i] == head[i]);
        } else if i < b {
            assert(menu[i] == section[i - a]);
            if i - a < items.len() {
                assert(section[i - a] == items[i - a]);
            }
        } else if i < c {
            assert(menu[i] == acts[i - b]);
        } else {
            assert(menu[i] == tail[i - c]);
        }
    }
}

/// A forced break offers no way out in the tray: the menu of such a break
/// has no entry that acts on the timer, whereas an unforced one offers to end
/// it.
pub proof fn lemma_forced_break_menu(paused: bool, en: bool)
    ensures
        phase_actions(Phase::Break, paused, true, en).len() == 0,
        phase_actions(Phase::Break, paused, false, en) == seq![
            action("end_break"@, pick(en, "End Break Early"@, "提前结束休息"@)),
        ],
{
}

/// A click on the entry of the task in slot `slot` asks to move that task
/// to its next status.
pub proof fn lemma_task_item_command(slot: usize, text: Seq<char>, status: Seq<char>)
    ensures
        task_item(slot as nat, text, status) matches MenuEntryView::Item { id, .. }
            && tray_command_spec(id) == TrayCommand::CycleTask(slot),
{
    let id = TASK_ID_PREFIX@ + decimal_chars(slot as nat);
    lemma_decimal_round_trip(slot);
    reveal_strlit("task_");
    reveal_strlit("start");
    reveal_strlit("pause");
    reveal_strlit("resume");
    reveal_strlit("cancel");
    reveal_strlit("end_break");
    assert(id.take(TASK_ID_PREFIX@.len() as int) =~= TASK_ID_PREFIX@);
    assert(id.skip(TASK_ID_PREFIX@.len() as int) =~= decimal_chars(slot as nat));
    assert(id[0] == 't');
    assert(id != "start"@);
    assert(id != "pause"@);
    assert(id != "resume"@);
    assert(id != "cancel"@);
    assert(id != "end_break"@);
}

} // verus!
