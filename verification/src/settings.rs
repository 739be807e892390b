//! User settings and the limits applied to them.

use vstd::prelude::*;

verus! {

/// Smallest focus length, in minutes, that a round may have.
pub const MIN_FOCUS_MINUTES: u64 = 1;

/// Largest focus length, in minutes, that a round may have.
pub const MAX_FOCUS_MINUTES: u64 = 180;

/// Smallest break length, in minutes.
pub const MIN_BREAK_MINUTES: u64 = 1;

/// Largest break length, in minutes.
pub const MAX_BREAK_MINUTES: u64 = 60;

/// `v` limited to the closed range `lo..=hi`.
pub open spec fn clamp_spec(v: int, lo: int, hi: int) -> int {
    if v < lo {
        lo
    } else if v > hi {
        hi
    } else {
        v
    }
}

/// Limits `v` to `lo..=hi`, as `u64::clamp` does.
pub fn clamp_u64(v: u64, lo: u64, hi: u64) -> (r: u64)
    requires
        lo <= hi,
    ensures
        r == clamp_spec(v as int, lo as int, hi as int),
{
    if v < lo {
        lo
    } else if v > hi {
        hi
    } else {
        v
    }
}

/// The value that a missing `forceBreak` field of a saved settings record takes.
pub fn default_true() -> (r: bool)
    ensures
        r,
{
    true
}

/// The preferences a user can change.
#[derive(Debug)]
pub struct Settings {
    pub focus_minutes: u64,
    pub break_minutes: u64,
    pub enable_online_quote: bool,
    pub auto_restart: bool,
    pub launch_on_login: bool,
    pub force_break: bool,
    pub language: String,
}

/// The mathematical content of [`Settings`].
pub struct SettingsView {
    pub focus_minutes: nat,
    pub break_minutes: nat,
    pub enable_online_quote: bool,
    pub auto_restart: bool,
    pub launch_on_login: bool,
    pub force_break: bool,
    pub language: Seq<char>,
}

impl View for Settings {
    type V = SettingsView;

    open spec fn view(&self) -> SettingsView {
        SettingsView {
            focus_minutes: self.focus_minutes as nat,
            break_minutes: self.break_minutes as nat,
            enable_online_quote: self.enable_online_quote,
            auto_restart: self.auto_restart,
            launch_on_login: self.launch_on_login,
            force_break: self.force_break,
            language: self.language@,
        }
    }
}

/// Settings of a first start: 25 minutes of focus, 5 of break, online quotes
/// on, no automatic restart, not launched at login, forced breaks, no language.
pub open spec fn default_settings() -> SettingsView {
    SettingsView {
        focus_minutes: 25,
        break_minutes: 5,
        enable_online_quote: true,
        auto_restart: false,
        launch_on_login: false,
        force_break: true,
        language: Seq::empty(),
    }
}

/// What a saved record becomes once its durations are brought into range.
pub open spec fn sanitized_settings(s: SettingsView) -> SettingsView {
    SettingsView {
        focus_minutes: clamp_spec(
            s.focus_minutes as int,
            MIN_FOCUS_MINUTES as int,
            MAX_FOCUS_MINUTES as int,
        ) as nat,
        break_minutes: clamp_spec(
            s.break_minutes as int,
            MIN_BREAK_MINUTES as int,
            MAX_BREAK_MINUTES as int,
        ) as nat,
        ..s
    }
}

impl Default for Settings {
    fn default() -> (r: Settings)
        ensures
            r@ == default_settings(),
    {
        Settings {
            focus_minutes: 25,
            break_minutes: 5,
            enable_online_quote: true,
            auto_restart: false,
            launch_on_login: false,
            force_break: true,
            language: String::new(),
        }
    }
}

impl Clone for Settings {
    fn clone(&self) -> (r: Settings)
        ensures
            r@ == self@,
    {
        Settings {
            focus_minutes: self.focus_minutes,
            break_minutes: self.break_minutes,
            enable_online_quote: self.enable_online_quote,
            auto_restart: self.auto_restart,
            launch_on_login: self.launch_on_login,
            force_break: self.force_break,
            language: self.language.clone(),
        }
    }
}

impl Settings {
    /// The copy of these settings that is saved: every field kept, the focus
    /// length limited to 1..=180 minutes and the break length to 1..=60.
    pub fn sanitized(&self) -> (r: Settings)
        ensures
            r@ == sanitized_settings(self@),
            MIN_FOCUS_MINUTES <= r.focus_minutes <= MAX_FOCUS_MINUTES,
            MIN_BREAK_MINUTES <= r.break_minutes <= MAX_BREAK_MINUTES,
    {
        Settings {
            focus_minutes: clamp_u64(self.focus_minutes, MIN_FOCUS_MINUTES, MAX_FOCUS_MINUTES),
            break_minutes: clamp_u64(self.break_minutes, MIN_BREAK_MINUTES, MAX_BREAK_MINUTES),
            enable_online_quote: self.enable_online_quote,
            auto_restart: self.auto_restart,
            launch_on_login: self.launch_on_login,
            force_break: self.force_break,
            language: self.language.clone(),
        }
    }
}

/// Durations that a start request may carry in place of the saved ones.
#[derive(Debug, Clone, Copy, PartialEq, Eq)]
pub struct StartConfig {
    pub focus_minutes: u64,
    pub break_minutes: u64,
}

/// The durations a round starts with: those of the request, or else the
/// saved ones.
pub fn start_durations(config: Option<StartConfig>, settings: &Settings) -> (r: (u64, u64))
    ensures
        match config {
            Some(c) => r == (c.focus_minutes, c.break_minutes),
            None => r == (settings.focus_minutes, settings.break_minutes),
        },
{
    match config {
        Some(c) => (c.focus_minutes, c.break_minutes),
        None => (settings.focus_minutes, settings.break_minutes),
    }
}

} // verus!
