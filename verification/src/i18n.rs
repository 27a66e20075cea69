//! Interface texts of the tray menu and of the hotkey error messages, in
//! English and Chinese.

use vstd::prelude::*;
use vstd::string::StringExecFns;

use crate::text::{decimal_digits, push_decimal, same_text};

verus! {

/// An interface language.
#[derive(Debug, Clone, Copy, PartialEq, Eq, Structural)]
pub enum Lang {
    En,
    Zh,
}

/// The language that a configured language code selects: Chinese for `zh`,
/// English for anything else.
pub open spec fn spec_lang_of(code: Seq<char>) -> Lang {
    if code == "zh"@ {
        Lang::Zh
    } else {
        Lang::En
    }
}

/// The language that a configured language code selects.
pub fn lang_of(code: &str) -> (lang: Lang)
    ensures
        lang == spec_lang_of(code@),
{
    if same_text(code, "zh") {
        Lang::Zh
    } else {
        Lang::En
    }
}

impl Lang {
    /// Label of the tray item that shows the main window.
    pub open spec fn show_text(self) -> Seq<char> {
        match self {
            Lang::En => "Show"@,
            Lang::Zh => "显示"@,
        }
    }

    /// Label of the tray item that quits the application.
    pub open spec fn quit_text(self) -> Seq<char> {
        match self {
            Lang::En => "Quit"@,
            Lang::Zh => "退出"@,
        }
    }

    /// Label of the tray item that turns listening on.
    pub open spec fn enable_listening_text(self) -> Seq<char> {
        match self {
            Lang::En => "Enable Listening"@,
            Lang::Zh => "启用监听"@,
        }
    }

    /// Label of the tray item that turns listening off.
    pub open spec fn disable_listening_text(self) -> Seq<char> {
        match self {
            Lang::En => "Disable Listening"@,
            Lang::Zh => "禁用监听"@,
        }
    }

    /// The name of a hotkey action (`start`, `stop`, anything else meaning
    /// exit) as it stands in messages.
    pub open spec fn action_text(self, action: Seq<char>) -> Seq<char> {
        match self {
            Lang::Zh => if action == "start"@ {
                "开始"@
            } else if action == "stop"@ {
                "停止"@
            } else {
                "退出"@
            },
            Lang::En => if action == "start"@ {
                "Start"@
            } else if action == "stop"@ {
                "Stop"@
            } else {
                "Exit"@
            },
        }
    }

    /// The message shown when the hotkey `key` for `action` could not be
    /// registered.
    pub open spec fn hotkey_error_text(self, action: Seq<char>, key: Seq<char>) -> Seq<char> {
        match self {
            Lang::En => "Failed to register "@ + self.action_text(action) + " hotkey "@ + key
                + ". It may already be in use by another application."@,
            Lang::Zh => "「"@ + self.action_text(action) + "」热键 "@ + key
                + " 注册失败，可能已被其他程序占用。"@,
        }
    }

    /// The message shown when the configured code `vk` for `action` names no
    /// known key.
    pub open spec fn hotkey_invalid_text(self, action: Seq<char>, vk: nat) -> Seq<char> {
        match self {
            Lang::En => "Invalid "@ + self.action_text(action) + " hotkey value (VK "@
                + decimal_digits(vk) + "). The default hotkey was restored."@,
            Lang::Zh => "「"@ + self.action_text(action) + "」热键值无效（VK "@ + decimal_digits(vk)
                + "），已恢复为默认热键。"@,
        }
    }

    pub fn show(self) -> (s: &'static str)
        ensures
            s@ == self.show_text(),
    {
        match self {
            Lang::En => "Show",
            Lang::Zh => "显示",
        }
    }

    pub fn quit(self) -> (s: &'static str)
        ensures
            s@ == self.quit_text(),
    {
        match self {
            Lang::En => "Quit",
            Lang::Zh => "退出",
        }
    }

    pub fn enable_listening(self) -> (s: &'static str)
        ensures
            s@ == self.enable_listening_text(),
    {
        match self {
            Lang::En => "Enable Listening",
            Lang::Zh => "启用监听",
        }
    }

    pub fn disable_listening(self) -> (s: &'static str)
        ensures
            s@ == self.disable_listening_text(),
    {
        match self {
            Lang::En => "Disable Listening",
            Lang::Zh => "禁用监听",
        }
    }

    pub fn action_name(self, action: &str) -> (s: &'static str)
        ensures
            s@ == self.action_text(action@),
    {
        let is_start = same_text(action, "start");
        let is_stop = same_text(action, "stop");
        match self {
            Lang::Zh => if is_start {
                "开始"
            } else if is_stop {
                "停止"
            } else {
                "退出"
            },
            Lang::En => if is_start {
                "Start"
            } else if is_stop {
                "Stop"
            } else {
                "Exit"
            },
        }
    }

    pub fn hotkey_error(self, action: &str, key: &str) -> (msg: String)
        ensures
            msg@ == self.hotkey_error_text(action@, key@),
    {
        let name = self.action_name(action);
        match self {
            Lang::En => {
                let mut msg = String::from_str("Failed to register ");
                msg.append(name);
                msg.append(" hotkey ");
                msg.append(key);
                msg.append(". It may already be in use by another application.");
                msg
            },
            Lang::Zh => {
                let mut msg = String::from_str("「");
                msg.append(name);
                msg.append("」热键 ");
                msg.append(key);
                msg.append(" 注册失败，可能已被其他程序占用。");
                msg
            },
        }
    }

    pub fn hotkey_invalid(self, action: &str, vk: u32) -> (msg: String)
        ensures
            msg@ == self.hotkey_invalid_text(action@, vk as nat),
    {
        let name = self.action_name(action);
        match self {
            Lang::En => {
                let mut msg = String::from_str("Invalid ");
                msg.append(name);
                msg.append(" hotkey value (VK ");
                push_decimal(&mut msg, vk);
                msg.append("). The default hotkey was restored.");
                msg
            },
            Lang::Zh => {
                let mut msg = String::from_str("「");
                msg.append(name);
                msg.append("」热键值无效（VK ");
                push_decimal(&mut msg, vk);
                msg.append("），已恢复为默认热键。");
                msg
            },
        }
    }
}

/// Chinese is selected by the code `zh` and by no other code; every other
/// code selects English.
pub proof fn lemma_lang_of_codes(code: Seq<char>)
    ensures
        spec_lang_of(code) == Lang::Zh <==> code == "zh"@,
        spec_lang_of(code) == Lang::En <==> code != "zh"@,
{
}

} // verus!
