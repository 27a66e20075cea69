//! The decisions of the commands that the window and the tray send: turning
//! listening on and off, and storing the interface preferences.

use vstd::prelude::*;

use crate::config::{sanitized, valid_config, Config, ConfigView};
use crate::hotkeys::{spec_hotkey_response, HotkeyAction, HotkeyResponse};
use crate::text::same_text;

verus! {

/// The outcome of toggling listening.
#[derive(Debug, Clone, Copy, PartialEq, Eq, Structural)]
pub struct ListeningToggle {
    /// Whether listening is on afterwards.
    pub listening: bool,
    /// Whether the running click session, if any, must be stopped.
    pub stop_engine: bool,
}

/// Toggling listening: it flips, and turning it off also stops an
/// in-progress click session.
pub open spec fn spec_next_listening(listening: bool) -> ListeningToggle {
    ListeningToggle { listening: !listening, stop_engine: listening }
}

/// The outcome of toggling listening from the state `listening`.
pub fn next_listening(listening: bool) -> (t: ListeningToggle)
    ensures
        t == spec_next_listening(listening),
{
    let now = !listening;
    ListeningToggle { listening: now, stop_engine: !now }
}

/// Toggling twice restores the listening state, and a session is stopped
/// exactly when listening is turned off.
pub proof fn lemma_toggle_listening_twice(listening: bool)
    ensures
        spec_next_listening(spec_next_listening(listening).listening).listening == listening,
        spec_next_listening(listening).stop_engine <==> !spec_next_listening(listening).listening,
{
}

/// The application's state as far as listening and clicking go: whether
/// listening is on, and whether a click session runs.
pub struct AppModel {
    pub listening: bool,
    pub session_running: bool,
}

/// What can happen to the application.
pub enum AppEvent {
    /// Listening is toggled, from the window or the tray.
    ToggleListening,
    /// A hotkey event: the action's key was pressed (`true`) or released.
    Hotkey(HotkeyAction, bool),
    /// The settings or the preferences are saved (hotkeys are registered
    /// again; no session is started or stopped).
    SaveSettings,
    /// The tray's show item is chosen.
    TrayShow,
    /// The tray's quit item is chosen: the session is stopped.
    TrayQuit,
    /// The click worker ends its session (its count reached, or stopped).
    WorkerExit,
}

/// The state at start-up: listening off, no session.
pub open spec fn initial_app_model() -> AppModel {
    AppModel { listening: false, session_running: false }
}

/// The state after `event`, following `next_listening` and `hotkey_response`:
/// a toggle that turns listening off stops the session; a start response
/// starts one (or leaves the running one); stop responses, quitting and the
/// worker's end leave none running.
pub open spec fn app_step(s: AppModel, event: AppEvent) -> AppModel {
    match event {
        AppEvent::ToggleListening => {
            let t = spec_next_listening(s.listening);
            AppModel {
                listening: t.listening,
                session_running: if t.stop_engine {
                    false
                } else {
                    s.session_running
                },
            }
        },
        AppEvent::Hotkey(action, pressed) => match spec_hotkey_response(
            action,
            pressed,
            s.listening,
        ) {
            HotkeyResponse::Ignore => s,
            HotkeyResponse::StartClicking => AppModel { session_running: true, ..s },
            HotkeyResponse::StopClicking => AppModel { session_running: false, ..s },
            HotkeyResponse::StopAndExit => AppModel { session_running: false, ..s },
        },
        AppEvent::SaveSettings => s,
        AppEvent::TrayShow => s,
        AppEvent::TrayQuit => AppModel { session_running: false, ..s },
        AppEvent::WorkerExit => AppModel { session_running: false, ..s },
    }
}

/// The state after the events `events`, in order, from `s`.
pub open spec fn app_run(s: AppModel, events: Seq<AppEvent>) -> AppModel
    decreases events.len(),
{
    if events.len() == 0 {
        s
    } else {
        app_step(app_run(s, events.drop_last()), events.last())
    }
}

/// A click session runs only while listening is on.
pub open spec fn listening_gate(s: AppModel) -> bool {
    s.session_running ==> s.listening
}

/// Each event keeps the listening gate.
pub proof fn lemma_step_keeps_listening_gate(s: AppModel, event: AppEvent)
    requires
        listening_gate(s),
    ensures
        listening_gate(app_step(s, event)),
{
}

/// From start-up, whatever events come, a click session runs only while
/// listening is on; in particular none runs right after listening was
/// turned off.
pub proof fn lemma_session_runs_only_while_listening(events: Seq<AppEvent>)
    ensures
        listening_gate(app_run(initial_app_model(), events)),
        events.len() > 0 && events.last() is ToggleListening && !app_run(
            initial_app_model(),
            events,
        ).listening ==> !app_run(initial_app_model(), events).session_running,
    decreases events.len(),
{
    if events.len() > 0 {
        lemma_session_runs_only_while_listening(events.drop_last());
        lemma_step_keeps_listening_gate(app_run(initial_app_model(), events.drop_last()), events.last());
    }
}

/// The settings after storing the preferences `theme`, `lang` and
/// `always_on_top` into `c`, repaired.
pub open spec fn with_preferences(c: ConfigView, theme: Seq<char>, lang: Seq<char>, always_on_top: u32) -> ConfigView {
    sanitized(ConfigView { theme, lang, always_on_top, ..c })
}

/// The settings after storing the interface preferences (theme, language,
/// always-on-top) into `config`, repaired, and whether the language
/// changed.
pub fn apply_preferences(config: Config, theme: String, lang: String, always_on_top: u32) -> (r: (
    Config,
    bool,
))
    ensures
        r.0@ == with_preferences(config@, theme@, lang@, always_on_top),
        r.1 == (config@.lang != lang@),
{
    let mut config = config;
    let lang_changed = !same_text(config.lang.as_str(), lang.as_str());
    config.theme = theme;
    config.lang = lang;
    config.always_on_top = always_on_top;
    config.sanitize();
    (config, lang_changed)
}

/// Storing preferences into valid settings leaves every click setting
/// (mode, interval, count, the hotkeys and the unused legacy fields) as it
/// was, and the result is valid.
pub proof fn lemma_preferences_keep_click_settings(
    c: ConfigView,
    theme: Seq<char>,
    lang: Seq<char>,
    always_on_top: u32,
)
    requires
        valid_config(c),
    ensures
        with_preferences(c, theme, lang, always_on_top).mode == c.mode,
        with_preferences(c, theme, lang, always_on_top).freq == c.freq,
        with_preferences(c, theme, lang, always_on_top).clicktimes == c.clicktimes,
        with_preferences(c, theme, lang, always_on_top).clickstate == c.clickstate,
        with_preferences(c, theme, lang, always_on_top).showstate == c.showstate,
        with_preferences(c, theme, lang, always_on_top).left == c.left,
        with_preferences(c, theme, lang, always_on_top).right == c.right,
        with_preferences(c, theme, lang, always_on_top).stop == c.stop,
        valid_config(with_preferences(c, theme, lang, always_on_top)),
{
    crate::config::lemma_sanitized_valid(ConfigView { theme, lang, always_on_top, ..c });
}

/// Valid preferences are stored as given (theme `light` or `dark`,
/// language `en` or `zh`, always-on-top 0 or 1), whatever they were before;
/// out-of-range ones become their defaults (`dark`, `en`, on). The click
/// settings come out as the repair leaves them.
pub proof fn lemma_preferences_stored_as_given(
    c: ConfigView,
    theme: Seq<char>,
    lang: Seq<char>,
    always_on_top: u32,
)
    ensures
        (theme == "light"@ || theme == "dark"@) ==> with_preferences(c, theme, lang, always_on_top).theme
            == theme,
        !(theme == "light"@ || theme == "dark"@) ==> with_preferences(c, theme, lang, always_on_top).theme
            == "dark"@,
        (lang == "en"@ || lang == "zh"@) ==> with_preferences(c, theme, lang, always_on_top).lang
            == lang,
        !(lang == "en"@ || lang == "zh"@) ==> with_preferences(c, theme, lang, always_on_top).lang
            == "en"@,
        always_on_top <= 1 ==> with_preferences(c, theme, lang, always_on_top).always_on_top
            == always_on_top,
        always_on_top > 1 ==> with_preferences(c, theme, lang, always_on_top).always_on_top == 1,
        with_preferences(c, theme, lang, always_on_top).mode == sanitized(c).mode,
        with_preferences(c, theme, lang, always_on_top).freq == sanitized(c).freq,
        with_preferences(c, theme, lang, always_on_top).clicktimes == sanitized(c).clicktimes,
        with_preferences(c, theme, lang, always_on_top).clickstate == sanitized(c).clickstate,
        with_preferences(c, theme, lang, always_on_top).showstate == sanitized(c).showstate,
        with_preferences(c, theme, lang, always_on_top).left == sanitized(c).left,
        with_preferences(c, theme, lang, always_on_top).right == sanitized(c).right,
        with_preferences(c, theme, lang, always_on_top).stop == sanitized(c).stop,
{
}

} // verus!
