# Focus Lock

A Pomodoro timer whose breaks lock every display. The library in `src/` holds
the timer's rules with their contracts, checked by Verus:

- `settings`: user settings, the limits on focus and break lengths.
- `persistent`: the saved state, brought to the current day; the day's three
  task slots and their statuses.
- `runtime`: the countdown state machine (idle, focus, break), pausing, ticks.
- `app_state`: the steps that touch both the saved and the running state,
  snapshots for the window, and when the tray menu needs rebuilding.
- `tray`: the tray menu for a state, and what a click on an entry asks for.
- `quotes`: the built-in quotes chosen by the date, and online quotes kept for
  a day.
- `lock_screen`: names of the lock windows.
- `login`: what each system needs so that the program starts at login.
- `text`: decimal numbers, parsing, trimming and shortening of text.
- `clock`: the clock readings (date, timestamps, monotonic time).

`app/` is the desktop shell built on Tauri: windows, tray icon, files and the
network; it performs the effects that the library describes.
