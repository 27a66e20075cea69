use akiclick::hotkeys::{hotkey_response, HotkeyAction, HotkeyResponse};
use akiclick::commands::{apply_preferences, next_listening, ListeningToggle};
use akiclick::config::Config;
use akiclick::i18n::Lang;
use akiclick::tray::{listening_label, menu_command, menu_labels, MenuCommand};

#[test]
fn listening_labels() {
    assert_eq!(listening_label(Lang::En, false), "Enable Listening");
    assert_eq!(listening_label(Lang::En, true), "Disable Listening");
    assert_eq!(listening_label(Lang::Zh, false), "启用监听");
    assert_eq!(listening_label(Lang::Zh, true), "禁用监听");
}

#[test]
fn menu_labels_by_language() {
    let en = menu_labels("en", false);
    assert_eq!((en.show, en.toggle_listening, en.quit), ("Show", "Enable Listening", "Quit"));
    let zh = menu_labels("zh", true);
    assert_eq!((zh.show, zh.toggle_listening, zh.quit), ("显示", "禁用监听", "退出"));
    let other = menu_labels("de", true);
    assert_eq!(other.toggle_listening, "Disable Listening");
}

#[test]
fn menu_commands() {
    assert_eq!(menu_command("show"), Some(MenuCommand::Show));
    assert_eq!(menu_command("toggle_listening"), Some(MenuCommand::ToggleListening));
    assert_eq!(menu_command("quit"), Some(MenuCommand::Quit));
    assert_eq!(menu_command("Quit"), None);
    assert_eq!(menu_command(""), None);
    for cmd in [MenuCommand::Show, MenuCommand::ToggleListening, MenuCommand::Quit] {
        assert_eq!(menu_command(cmd.id()), Some(cmd));
    }
}

#[test]
fn toggling_listening() {
    assert_eq!(next_listening(false), ListeningToggle { listening: true, stop_engine: false });
    assert_eq!(next_listening(true), ListeningToggle { listening: false, stop_engine: true });
    assert!(next_listening(next_listening(true).listening).listening);
}

#[test]
fn preferences_keep_click_settings() {
    let mut c = Config::default();
    c.mode = 2;
    c.freq = 33;
    c.clicktimes = 0;
    c.left = 65;
    let (new, lang_changed) =
        apply_preferences(c.clone(), "light".to_string(), "zh".to_string(), 0);
    assert!(lang_changed);
    assert_eq!(new.theme, "light");
    assert_eq!(new.lang, "zh");
    assert_eq!(new.always_on_top, 0);
    assert_eq!((new.mode, new.freq, new.clicktimes, new.left), (2, 33, 0, 65));
    assert_eq!((new.right, new.stop, new.clickstate, new.showstate), (121, 122, 1, 0));
}

#[test]
fn preferences_are_repaired() {
    let (new, lang_changed) =
        apply_preferences(Config::default(), "purple".to_string(), "en".to_string(), 5);
    assert!(!lang_changed);
    assert_eq!(new.theme, "dark");
    assert_eq!(new.lang, "en");
    assert_eq!(new.always_on_top, 1);
    let (new, lang_changed) =
        apply_preferences(Config::default(), "dark".to_string(), "xx".to_string(), 1);
    assert!(lang_changed);
    assert_eq!(new.lang, "en");
}

#[test]
fn session_runs_only_while_listening() {
    let mut listening = false;
    let mut running = false;
    let events: Vec<Option<(HotkeyAction, bool)>> = vec![
        Some((HotkeyAction::Start, true)),
        None,
        Some((HotkeyAction::Start, false)),
        Some((HotkeyAction::Start, true)),
        None,
        Some((HotkeyAction::Start, true)),
        Some((HotkeyAction::Exit, true)),
        None,
        Some((HotkeyAction::Start, true)),
        Some((HotkeyAction::Stop, true)),
    ];
    for event in events {
        match event {
            None => {
                let t = next_listening(listening);
                listening = t.listening;
                if t.stop_engine {
                    running = false;
                }
                if !listening {
                    assert!(!running);
                }
            }
            Some((action, pressed)) => match hotkey_response(action, pressed, listening) {
                HotkeyResponse::Ignore => {}
                HotkeyResponse::StartClicking => running = true,
                HotkeyResponse::StopClicking | HotkeyResponse::StopAndExit => running = false,
            },
        }
        assert!(!running || listening);
    }
}
