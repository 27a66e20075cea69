//! The table of keys that may serve as hotkeys, and the decisions taken when
//! the hotkeys are registered and when one of them fires.

use vstd::prelude::*;

use crate::config::Config;

verus! {

/// A key that can be bound as a global hotkey: a function key `F1`..`F12`
/// (`Function(1)`..`Function(12)`), a digit key (`Digit(0)`..`Digit(9)`), a
/// letter key (`Letter(0)` for A .. `Letter(25)` for Z), or a numeric keypad
/// key (`Numpad(0)`..`Numpad(9)`).
#[derive(Debug, Clone, Copy, PartialEq, Eq, Structural)]
pub enum KeyCode {
    Function(u8),
    Digit(u8),
    Letter(u8),
    Numpad(u8),
}

impl KeyCode {
    /// The payload names an existing key of its group.
    pub open spec fn wf(self) -> bool {
        match self {
            KeyCode::Function(n) => 1 <= n <= 12,
            KeyCode::Digit(n) => n <= 9,
            KeyCode::Letter(n) => n <= 25,
            KeyCode::Numpad(n) => n <= 9,
        }
    }

    /// The Windows virtual-key code of the key.
    pub open spec fn spec_vk(self) -> int {
        match self {
            KeyCode::Function(n) => 111 + n,
            KeyCode::Digit(n) => 48 + n,
            KeyCode::Letter(n) => 65 + n,
            KeyCode::Numpad(n) => 96 + n,
        }
    }
}

/// The key that a Windows virtual-key code names, among the keys that may
/// serve as hotkeys: `VK_F1`..`VK_F12` (112..123), `0`..`9` (48..57),
/// `A`..`Z` (65..90) and `VK_NUMPAD0`..`VK_NUMPAD9` (96..105).
pub open spec fn spec_vk_to_code(vk: u32) -> Option<KeyCode> {
    if 112 <= vk <= 123 {
        Some(KeyCode::Function((vk - 111) as u8))
    } else if 48 <= vk <= 57 {
        Some(KeyCode::Digit((vk - 48) as u8))
    } else if 65 <= vk <= 90 {
        Some(KeyCode::Letter((vk - 65) as u8))
    } else if 96 <= vk <= 105 {
        Some(KeyCode::Numpad((vk - 96) as u8))
    } else {
        None
    }
}

/// Whether a virtual-key code names a key that may serve as a hotkey.
pub open spec fn spec_is_known_vk(vk: u32) -> bool {
    spec_vk_to_code(vk) is Some
}

/// The key that a Windows virtual-key code names, if it is one that may
/// serve as a hotkey.
pub fn vk_to_code(vk: u32) -> (code: Option<KeyCode>)
    ensures
        code == spec_vk_to_code(vk),
        code matches Some(c) ==> c.wf() && c.spec_vk() == vk,
{
    if 112 <= vk && vk <= 123 {
        Some(KeyCode::Function((vk - 111) as u8))
    } else if 48 <= vk && vk <= 57 {
        Some(KeyCode::Digit((vk - 48) as u8))
    } else if 65 <= vk && vk <= 90 {
        Some(KeyCode::Letter((vk - 65) as u8))
    } else if 96 <= vk && vk <= 105 {
        Some(KeyCode::Numpad((vk - 96) as u8))
    } else {
        None
    }
}

pub fn is_known_vk(vk: u32) -> (known: bool)
    ensures
        known == spec_is_known_vk(vk),
{
    vk_to_code(vk).is_some()
}

/// Every key of the table is found again from its own virtual-key code.
pub proof fn lemma_code_vk_roundtrip(code: KeyCode)
    requires
        code.wf(),
    ensures
        0 <= code.spec_vk() <= u32::MAX,
        spec_vk_to_code(code.spec_vk() as u32) == Some(code),
{
}

/// The known virtual-key codes are exactly the four ranges of the table, and
/// each maps to a key whose own code it is.
pub proof fn lemma_known_vk_ranges(vk: u32)
    ensures
        spec_is_known_vk(vk) <==> (112 <= vk <= 123 || 48 <= vk <= 57 || 65 <= vk <= 90 || 96
            <= vk <= 105),
        spec_vk_to_code(vk) matches Some(c) ==> c.wf() && c.spec_vk() == vk,
{
}

/// One of the three global hotkeys.
#[derive(Debug, Clone, Copy, PartialEq, Eq, Structural)]
pub enum HotkeyAction {
    Start,
    Stop,
    Exit,
}

impl HotkeyAction {
    /// The action's name in messages and logs.
    pub open spec fn name_text(self) -> Seq<char> {
        match self {
            HotkeyAction::Start => "start"@,
            HotkeyAction::Stop => "stop"@,
            HotkeyAction::Exit => "exit"@,
        }
    }

    pub fn name(self) -> (s: &'static str)
        ensures
            s@ == self.name_text(),
    {
        match self {
            HotkeyAction::Start => "start",
            HotkeyAction::Stop => "stop",
            HotkeyAction::Exit => "exit",
        }
    }
}

/// What registering the hotkeys does for one action.
#[derive(Debug, Clone, Copy, PartialEq, Eq, Structural)]
pub enum HotkeyPlan {
    /// Register this key, without modifiers, for the action.
    Register(HotkeyAction, KeyCode),
    /// The configured code names no known key: report it.
    Invalid(HotkeyAction, u32),
}

/// The plan for `action` bound to the virtual-key code `vk`.
pub open spec fn plan_for(action: HotkeyAction, vk: u32) -> HotkeyPlan {
    match spec_vk_to_code(vk) {
        Some(code) => HotkeyPlan::Register(action, code),
        None => HotkeyPlan::Invalid(action, vk),
    }
}

fn plan_one(action: HotkeyAction, vk: u32) -> (plan: HotkeyPlan)
    ensures
        plan == plan_for(action, vk),
{
    match vk_to_code(vk) {
        Some(code) => HotkeyPlan::Register(action, code),
        None => HotkeyPlan::Invalid(action, vk),
    }
}

/// What registering the hotkeys of `config` does, in order: the start key
/// (stored as `left`), the stop key (`right`) and the exit key (`stop`).
pub fn plan_hotkeys(config: &Config) -> (plans: Vec<HotkeyPlan>)
    ensures
        plans@ == seq![
            plan_for(HotkeyAction::Start, config.left),
            plan_for(HotkeyAction::Stop, config.right),
            plan_for(HotkeyAction::Exit, config.stop),
        ],
{
    let mut plans: Vec<HotkeyPlan> = Vec::new();
    plans.push(plan_one(HotkeyAction::Start, config.start_vk()));
    plans.push(plan_one(HotkeyAction::Stop, config.stop_vk()));
    plans.push(plan_one(HotkeyAction::Exit, config.exit_vk()));
    assert(plans@ =~= seq![
        plan_for(HotkeyAction::Start, config.left),
        plan_for(HotkeyAction::Stop, config.right),
        plan_for(HotkeyAction::Exit, config.stop),
    ]);
    plans
}

/// What the application does when a hotkey event arrives.
#[derive(Debug, Clone, Copy, PartialEq, Eq, Structural)]
pub enum HotkeyResponse {
    Ignore,
    /// Start a click session with the current settings.
    StartClicking,
    /// Stop the running click session, if any.
    StopClicking,
    /// Stop the running click session, if any, and quit.
    StopAndExit,
}

/// The response to an event of the hotkey for `action`: only presses count
/// (the release is ignored); start and exit act only while listening is on;
/// stop acts always.
pub open spec fn spec_hotkey_response(action: HotkeyAction, pressed: bool, listening: bool) -> HotkeyResponse {
    if !pressed {
        HotkeyResponse::Ignore
    } else {
        match action {
            HotkeyAction::Start => if listening {
                HotkeyResponse::StartClicking
            } else {
                HotkeyResponse::Ignore
            },
            HotkeyAction::Stop => HotkeyResponse::StopClicking,
            HotkeyAction::Exit => if listening {
                HotkeyResponse::StopAndExit
            } else {
                HotkeyResponse::Ignore
            },
        }
    }
}

/// The response to an event of the hotkey for `action`, given whether the
/// key was pressed (rather than released) and whether listening is on.
pub fn hotkey_response(action: HotkeyAction, pressed: bool, listening: bool) -> (r: HotkeyResponse)
    ensures
        r == spec_hotkey_response(action, pressed, listening),
{
    if !pressed {
        return HotkeyResponse::Ignore;
    }
    match action {
        HotkeyAction::Start => if listening {
            HotkeyResponse::StartClicking
        } else {
            HotkeyResponse::Ignore
        },
        HotkeyAction::Stop => HotkeyResponse::StopClicking,
        HotkeyAction::Exit => if listening {
            HotkeyResponse::StopAndExit
        } else {
            HotkeyResponse::Ignore
        },
    }
}

/// Hotkeys act on presses only; while listening is off, neither start nor
/// exit does anything, and a click session can only be started while
/// listening is on.
pub proof fn lemma_hotkeys_gated_by_listening(action: HotkeyAction, pressed: bool, listening: bool)
    ensures
        !pressed ==> spec_hotkey_response(action, pressed, listening) == HotkeyResponse::Ignore,
        (!listening && action != HotkeyAction::Stop) ==> spec_hotkey_response(
            action,
            pressed,
            listening,
        ) == HotkeyResponse::Ignore,
        spec_hotkey_response(action, pressed, listening) == HotkeyResponse::StartClicking
            ==> action == HotkeyAction::Start && listening && pressed,
        spec_hotkey_response(action, pressed, listening) == HotkeyResponse::StopAndExit
            ==> action == HotkeyAction::Exit && listening && pressed,
{
}

/// For valid settings every action gets its key registered: none is
/// reported invalid.
pub proof fn lemma_valid_config_registers_all(c: crate::config::ConfigView)
    requires
        crate::config::valid_config(c),
    ensures
        plan_for(HotkeyAction::Start, c.left) is Register,
        plan_for(HotkeyAction::Stop, c.right) is Register,
        plan_for(HotkeyAction::Exit, c.stop) is Register,
{
}

/// The plan for an action registers exactly the key that the configured
/// code names, for that same action; a code that names no key is reported
/// as it is, for that action.
pub proof fn lemma_plan_registers_named_key(action: HotkeyAction, vk: u32)
    ensures
        spec_is_known_vk(vk) <==> plan_for(action, vk) is Register,
        plan_for(action, vk) matches HotkeyPlan::Register(a, code) ==> a == action && code.wf()
            && code.spec_vk() == vk,
        plan_for(action, vk) matches HotkeyPlan::Invalid(a, v) ==> a == action && v == vk,
{
}

/// Distinct keys of the table have distinct codes, so a code names one key
/// only.
pub proof fn lemma_key_codes_distinct(c1: KeyCode, c2: KeyCode)
    requires
        c1.wf(),
        c2.wf(),
        c1.spec_vk() == c2.spec_vk(),
    ensures
        c1 == c2,
{
}

/// A pressed hotkey acts while listening is on: start starts a session,
/// stop stops it, exit stops it and quits; stop acts even while listening
/// is off.
pub proof fn lemma_pressed_hotkeys_act(action: HotkeyAction, listening: bool)
    ensures
        listening && action == HotkeyAction::Start ==> spec_hotkey_response(action, true, listening)
            == HotkeyResponse::StartClicking,
        action == HotkeyAction::Stop ==> spec_hotkey_response(action, true, listening)
            == HotkeyResponse::StopClicking,
        listening && action == HotkeyAction::Exit ==> spec_hotkey_response(action, true, listening)
            == HotkeyResponse::StopAndExit,
{
}

} // verus!
