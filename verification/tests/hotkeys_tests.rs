use akiclick::config::Config;
use akiclick::hotkeys::{
    hotkey_response, is_known_vk, plan_hotkeys, vk_to_code, HotkeyAction, HotkeyPlan,
    HotkeyResponse, KeyCode,
};

#[test]
fn function_keys() {
    assert_eq!(vk_to_code(112), Some(KeyCode::Function(1)));
    assert_eq!(vk_to_code(120), Some(KeyCode::Function(9)));
    assert_eq!(vk_to_code(123), Some(KeyCode::Function(12)));
    assert_eq!(vk_to_code(111), None);
    assert_eq!(vk_to_code(124), None);
}

#[test]
fn digit_letter_numpad_keys() {
    assert_eq!(vk_to_code(48), Some(KeyCode::Digit(0)));
    assert_eq!(vk_to_code(57), Some(KeyCode::Digit(9)));
    assert_eq!(vk_to_code(65), Some(KeyCode::Letter(0)));
    assert_eq!(vk_to_code(90), Some(KeyCode::Letter(25)));
    assert_eq!(vk_to_code(96), Some(KeyCode::Numpad(0)));
    assert_eq!(vk_to_code(105), Some(KeyCode::Numpad(9)));
}

#[test]
fn unknown_codes() {
    for vk in [0u32, 47, 58, 64, 91, 95, 106, 111, 124, 255, u32::MAX] {
        assert_eq!(vk_to_code(vk), None, "vk {}", vk);
        assert!(!is_known_vk(vk));
    }
}

#[test]
fn known_code_count() {
    let known = (0u32..=300).filter(|vk| is_known_vk(*vk)).count();
    assert_eq!(known, 12 + 10 + 26 + 10);
}

#[test]
fn roundtrip_of_table() {
    for vk in 0u32..=300 {
        if let Some(code) = vk_to_code(vk) {
            let back = match code {
                KeyCode::Function(n) => 111 + n as u32,
                KeyCode::Digit(n) => 48 + n as u32,
                KeyCode::Letter(n) => 65 + n as u32,
                KeyCode::Numpad(n) => 96 + n as u32,
            };
            assert_eq!(back, vk);
        }
    }
}

#[test]
fn plan_for_defaults() {
    let plans = plan_hotkeys(&Config::default());
    assert_eq!(
        plans,
        vec![
            HotkeyPlan::Register(HotkeyAction::Start, KeyCode::Function(9)),
            HotkeyPlan::Register(HotkeyAction::Stop, KeyCode::Function(10)),
            HotkeyPlan::Register(HotkeyAction::Exit, KeyCode::Function(11)),
        ]
    );
}

#[test]
fn plan_reports_invalid_codes() {
    let mut c = Config::default();
    c.left = 7;
    c.stop = 200;
    let plans = plan_hotkeys(&c);
    assert_eq!(
        plans,
        vec![
            HotkeyPlan::Invalid(HotkeyAction::Start, 7),
            HotkeyPlan::Register(HotkeyAction::Stop, KeyCode::Function(10)),
            HotkeyPlan::Invalid(HotkeyAction::Exit, 200),
        ]
    );
}

#[test]
fn plan_after_sanitize_registers_all() {
    let mut c = Config::default();
    c.left = 7;
    c.right = 1;
    c.stop = 200;
    c.sanitize();
    assert!(plan_hotkeys(&c).iter().all(|p| matches!(p, HotkeyPlan::Register(_, _))));
}

#[test]
fn hotkey_action_names() {
    assert_eq!(HotkeyAction::Start.name(), "start");
    assert_eq!(HotkeyAction::Stop.name(), "stop");
    assert_eq!(HotkeyAction::Exit.name(), "exit");
}

#[test]
fn responses_while_listening() {
    assert_eq!(hotkey_response(HotkeyAction::Start, true, true), HotkeyResponse::StartClicking);
    assert_eq!(hotkey_response(HotkeyAction::Stop, true, true), HotkeyResponse::StopClicking);
    assert_eq!(hotkey_response(HotkeyAction::Exit, true, true), HotkeyResponse::StopAndExit);
}

#[test]
fn responses_while_not_listening() {
    assert_eq!(hotkey_response(HotkeyAction::Start, true, false), HotkeyResponse::Ignore);
    assert_eq!(hotkey_response(HotkeyAction::Stop, true, false), HotkeyResponse::StopClicking);
    assert_eq!(hotkey_response(HotkeyAction::Exit, true, false), HotkeyResponse::Ignore);
}

#[test]
fn releases_are_ignored() {
    for action in [HotkeyAction::Start, HotkeyAction::Stop, HotkeyAction::Exit] {
        for listening in [false, true] {
            assert_eq!(hotkey_response(action, false, listening), HotkeyResponse::Ignore);
        }
    }
}
