//! The persisted settings (`shubiao.ini`), their defaults, their repair, and
//! where the file lives.

use vstd::prelude::*;
use vstd::string::StringExecFns;

use crate::clicker::click_mode_of;
use crate::hotkeys::{is_known_vk, spec_is_known_vk};
use crate::text::same_text;

verus! {

/// Smallest click interval, in milliseconds.
pub const MIN_INTERVAL_MS: u32 = 1;

/// Largest click interval, in milliseconds.
pub const MAX_INTERVAL_MS: u32 = 60_000;

/// Largest number of clicks in one session (`0` means no limit).
pub const MAX_CLICK_COUNT: u32 = 999_999;

/// Default click interval, in milliseconds.
pub const DEFAULT_INTERVAL_MS: u32 = 700;

/// Default number of clicks in one session.
pub const DEFAULT_CLICK_COUNT: u32 = 100;

/// Virtual-key code of the default start hotkey, F9.
pub const DEFAULT_START_VK: u32 = 120;

/// Virtual-key code of the default stop hotkey, F10.
pub const DEFAULT_STOP_VK: u32 = 121;

/// Virtual-key code of the default exit hotkey, F11.
pub const DEFAULT_EXIT_VK: u32 = 122;

/// Settings persisted as `shubiao.ini`.
///
/// Field names follow the legacy 鼠标连点器 ("REF") format for compatibility;
/// they are misleading but must not be renamed while that format is kept:
/// - `left`  holds the START hotkey VK code
/// - `right` holds the STOP hotkey VK code
/// - `stop`  holds the EXIT hotkey VK code
/// - `clickstate` / `showstate` are unused; kept only so existing files and
///   files written by the other program keep parsing
#[derive(Debug, Clone)]
pub struct Config {
    pub mode: u32,
    pub freq: u32,
    pub clicktimes: u32,
    pub clickstate: u32,
    pub showstate: u32,
    pub left: u32,
    pub right: u32,
    pub stop: u32,
    pub theme: String,
    pub lang: String,
    pub always_on_top: u32,
}

/// Name of the settings file.
pub const CONFIG_FILE_NAME: &'static str = "shubiao.ini";

/// Name of the application's folder under the user's data folder.
pub const APP_DIR_NAME: &'static str = "AkiClick";

/// Where the settings file lives.
#[derive(Debug, PartialEq, Eq)]
pub enum ConfigLocation {
    /// `shubiao.ini` next to the executable (portable mode).
    Portable,
    /// `<base>/AkiClick/shubiao.ini`, with `base` the user's data folder.
    UserData(String),
}

/// The settings as plain values, the texts as character sequences.
pub struct ConfigView {
    pub mode: u32,
    pub freq: u32,
    pub clicktimes: u32,
    pub clickstate: u32,
    pub showstate: u32,
    pub left: u32,
    pub right: u32,
    pub stop: u32,
    pub theme: Seq<char>,
    pub lang: Seq<char>,
    pub always_on_top: u32,
}

impl View for Config {
    type V = ConfigView;

    open spec fn view(&self) -> ConfigView {
        ConfigView {
            mode: self.mode,
            freq: self.freq,
            clicktimes: self.clicktimes,
            clickstate: self.clickstate,
            showstate: self.showstate,
            left: self.left,
            right: self.right,
            stop: self.stop,
            theme: self.theme@,
            lang: self.lang@,
            always_on_top: self.always_on_top,
        }
    }
}

/// The settings of a first run.
pub open spec fn default_config() -> ConfigView {
    ConfigView {
        mode: 0,
        freq: DEFAULT_INTERVAL_MS,
        clicktimes: DEFAULT_CLICK_COUNT,
        clickstate: 1,
        showstate: 0,
        left: DEFAULT_START_VK,
        right: DEFAULT_STOP_VK,
        stop: DEFAULT_EXIT_VK,
        theme: "dark"@,
        lang: "en"@,
        always_on_top: 1,
    }
}

/// Every field lies in its valid range.
pub open spec fn valid_config(c: ConfigView) -> bool {
    &&& c.mode <= 2
    &&& MIN_INTERVAL_MS <= c.freq <= MAX_INTERVAL_MS
    &&& c.clicktimes <= MAX_CLICK_COUNT
    &&& c.clickstate <= 1
    &&& c.showstate <= 1
    &&& spec_is_known_vk(c.left)
    &&& spec_is_known_vk(c.right)
    &&& spec_is_known_vk(c.stop)
    &&& (c.theme == "light"@ || c.theme == "dark"@)
    &&& (c.lang == "en"@ || c.lang == "zh"@)
    &&& c.always_on_top <= 1
}

/// The settings with every out-of-range field repaired to its default
/// (see `default_config`): a mode above 2, an interval outside
/// `MIN_INTERVAL_MS..=MAX_INTERVAL_MS`, a click count above
/// `MAX_CLICK_COUNT`, a flag (`clickstate`, `showstate`, `always_on_top`)
/// other than 0 or 1, an unknown hotkey code, a theme other than `light` or
/// `dark`, a language other than `en` or `zh`. Values in range are kept.
pub open spec fn sanitized(c: ConfigView) -> ConfigView {
    ConfigView {
        mode: if c.mode <= 2 {
            c.mode
        } else {
            0
        },
        freq: if MIN_INTERVAL_MS <= c.freq <= MAX_INTERVAL_MS {
            c.freq
        } else {
            DEFAULT_INTERVAL_MS
        },
        clicktimes: if c.clicktimes <= MAX_CLICK_COUNT {
            c.clicktimes
        } else {
            DEFAULT_CLICK_COUNT
        },
        clickstate: if c.clickstate <= 1 {
            c.clickstate
        } else {
            1
        },
        showstate: if c.showstate <= 1 {
            c.showstate
        } else {
            0
        },
        left: if spec_is_known_vk(c.left) {
            c.left
        } else {
            DEFAULT_START_VK
        },
        right: if spec_is_known_vk(c.right) {
            c.right
        } else {
            DEFAULT_STOP_VK
        },
        stop: if spec_is_known_vk(c.stop) {
            c.stop
        } else {
            DEFAULT_EXIT_VK
        },
        theme: if c.theme == "light"@ || c.theme == "dark"@ {
            c.theme
        } else {
            "dark"@
        },
        lang: if c.lang == "en"@ || c.lang == "zh"@ {
            c.lang
        } else {
            "en"@
        },
        always_on_top: if c.always_on_top <= 1 {
            c.always_on_top
        } else {
            1
        },
    }
}

impl Default for Config {
    fn default() -> (c: Self)
        ensures
            c@ == default_config(),
    {
        Config {
            mode: 0,
            freq: DEFAULT_INTERVAL_MS,
            clicktimes: DEFAULT_CLICK_COUNT,
            clickstate: 1,
            showstate: 0,
            left: DEFAULT_START_VK,
            right: DEFAULT_STOP_VK,
            stop: DEFAULT_EXIT_VK,
            theme: String::from_str("dark"),
            lang: String::from_str("en"),
            always_on_top: 1,
        }
    }
}

impl Config {
    /// The settings that start-up uses: those read from the settings file,
    /// repaired, where a file was read (`stored` is `Some`), else the
    /// defaults.
    pub fn load(stored: Option<Config>) -> (c: Config)
        ensures
            match stored {
                Some(s) => c@ == sanitized(s@),
                None => c@ == default_config(),
            },
    {
        match stored {
            Some(mut c) => {
                c.sanitize();
                c
            },
            None => Config::default(),
        }
    }

    /// Repair every out-of-range field to its default; repairs hand-edited
    /// or partially corrupted files instead of rejecting the whole file.
    pub fn sanitize(&mut self)
        ensures
            final(self)@ == sanitized(old(self)@),
    {
        if self.mode > 2 {
            self.mode = 0;
        }
        if self.freq < MIN_INTERVAL_MS || self.freq > MAX_INTERVAL_MS {
            self.freq = DEFAULT_INTERVAL_MS;
        }
        if self.clicktimes > MAX_CLICK_COUNT {
            self.clicktimes = DEFAULT_CLICK_COUNT;
        }
        if self.clickstate > 1 {
            self.clickstate = 1;
        }
        if self.showstate > 1 {
            self.showstate = 0;
        }
        if !is_known_vk(self.left) {
            self.left = DEFAULT_START_VK;
        }
        if !is_known_vk(self.right) {
            self.right = DEFAULT_STOP_VK;
        }
        if !is_known_vk(self.stop) {
            self.stop = DEFAULT_EXIT_VK;
        }
        if !same_text(self.theme.as_str(), "light") && !same_text(self.theme.as_str(), "dark") {
            self.theme = String::from_str("dark");
        }
        if !same_text(self.lang.as_str(), "en") && !same_text(self.lang.as_str(), "zh") {
            self.lang = String::from_str("en");
        }
        if self.always_on_top > 1 {
            self.always_on_top = 1;
        }
    }

    /// Where the settings file lives: next to the executable where a
    /// `shubiao.ini` already stands there (`portable_exists`); else under the
    /// folder that `APPDATA` names, or failing that `LOCALAPPDATA`, or failing
    /// both the current folder `.`.
    pub fn config_path(
        portable_exists: bool,
        appdata: Option<String>,
        local_appdata: Option<String>,
    ) -> (loc: ConfigLocation)
        ensures
            portable_exists ==> loc == ConfigLocation::Portable,
            !portable_exists ==> (loc matches ConfigLocation::UserData(base) && base@ == (
            match (appdata, local_appdata) {
                (Some(a), _) => a@,
                (None, Some(l)) => l@,
                (None, None) => "."@,
            })),
    {
        if portable_exists {
            return ConfigLocation::Portable;
        }
        match appdata {
            Some(a) => ConfigLocation::UserData(a),
            None => match local_appdata {
                Some(l) => ConfigLocation::UserData(l),
                None => ConfigLocation::UserData(String::from_str(".")),
            },
        }
    }

    // Legacy INI keys have misleading names (see struct docs); these accessors
    // give the real meaning so call sites don't have to remember the mapping.
    pub fn start_vk(&self) -> (vk: u32)
        ensures
            vk == self.left,
    {
        self.left
    }

    pub fn stop_vk(&self) -> (vk: u32)
        ensures
            vk == self.right,
    {
        self.right
    }

    pub fn exit_vk(&self) -> (vk: u32)
        ensures
            vk == self.stop,
    {
        self.stop
    }

    pub fn interval_ms(&self) -> (ms: u32)
        ensures
            ms == self.freq,
    {
        self.freq
    }

    pub fn click_count(&self) -> (n: u32)
        ensures
            n == self.clicktimes,
    {
        self.clicktimes
    }

    pub fn always_on_top_enabled(&self) -> (on: bool)
        ensures
            on == (self.always_on_top == 1),
    {
        self.always_on_top == 1
    }
}

/// The defaults are valid settings.
pub proof fn lemma_default_valid()
    ensures
        valid_config(default_config()),
{
    assert(spec_is_known_vk(DEFAULT_START_VK));
    assert(spec_is_known_vk(DEFAULT_STOP_VK));
    assert(spec_is_known_vk(DEFAULT_EXIT_VK));
}

/// Repaired settings are valid, whatever they were before.
pub proof fn lemma_sanitized_valid(c: ConfigView)
    ensures
        valid_config(sanitized(c)),
{
    assert(spec_is_known_vk(DEFAULT_START_VK));
    assert(spec_is_known_vk(DEFAULT_STOP_VK));
    assert(spec_is_known_vk(DEFAULT_EXIT_VK));
}

/// Valid settings are left as they are by the repair.
pub proof fn lemma_sanitize_keeps_valid(c: ConfigView)
    requires
        valid_config(c),
    ensures
        sanitized(c) == c,
{
}

/// Repairing twice gives what repairing once gives.
pub proof fn lemma_sanitize_idempotent(c: ConfigView)
    ensures
        sanitized(sanitized(c)) == sanitized(c),
{
    lemma_sanitized_valid(c);
    lemma_sanitize_keeps_valid(sanitized(c));
}

/// The repair never changes the click mode that a stored mode number
/// selects: an unknown number selects left click before and after.
pub proof fn lemma_sanitize_keeps_click_mode(c: ConfigView)
    ensures
        click_mode_of(sanitized(c).mode) == click_mode_of(c.mode),
{
}

/// The repair works field by field: a field whose own value lies in its
/// range is kept, whatever the other fields hold, and a field out of its
/// range becomes its default.
pub proof fn lemma_sanitize_per_field(c: ConfigView)
    ensures
        c.mode <= 2 ==> sanitized(c).mode == c.mode,
        c.mode > 2 ==> sanitized(c).mode == 0,
        1 <= c.freq <= 60_000 ==> sanitized(c).freq == c.freq,
        !(1 <= c.freq <= 60_000) ==> sanitized(c).freq == 700,
        c.clicktimes <= 999_999 ==> sanitized(c).clicktimes == c.clicktimes,
        c.clicktimes > 999_999 ==> sanitized(c).clicktimes == 100,
        c.clickstate <= 1 ==> sanitized(c).clickstate == c.clickstate,
        c.clickstate > 1 ==> sanitized(c).clickstate == 1,
        c.showstate <= 1 ==> sanitized(c).showstate == c.showstate,
        c.showstate > 1 ==> sanitized(c).showstate == 0,
        spec_is_known_vk(c.left) ==> sanitized(c).left == c.left,
        !spec_is_known_vk(c.left) ==> sanitized(c).left == 120,
        spec_is_known_vk(c.right) ==> sanitized(c).right == c.right,
        !spec_is_known_vk(c.right) ==> sanitized(c).right == 121,
        spec_is_known_vk(c.stop) ==> sanitized(c).stop == c.stop,
        !spec_is_known_vk(c.stop) ==> sanitized(c).stop == 122,
        (c.theme == "light"@ || c.theme == "dark"@) ==> sanitized(c).theme == c.theme,
        !(c.theme == "light"@ || c.theme == "dark"@) ==> sanitized(c).theme == "dark"@,
        (c.lang == "en"@ || c.lang == "zh"@) ==> sanitized(c).lang == c.lang,
        !(c.lang == "en"@ || c.lang == "zh"@) ==> sanitized(c).lang == "en"@,
        c.always_on_top <= 1 ==> sanitized(c).always_on_top == c.always_on_top,
        c.always_on_top > 1 ==> sanitized(c).always_on_top == 1,
{
}

/// Two settings that agree on a field are repaired alike on that field: no
/// field's repair looks at another field.
pub proof fn lemma_sanitize_fields_independent(c1: ConfigView, c2: ConfigView)
    ensures
        c1.mode == c2.mode ==> sanitized(c1).mode == sanitized(c2).mode,
        c1.freq == c2.freq ==> sanitized(c1).freq == sanitized(c2).freq,
        c1.clicktimes == c2.clicktimes ==> sanitized(c1).clicktimes == sanitized(c2).clicktimes,
        c1.clickstate == c2.clickstate ==> sanitized(c1).clickstate == sanitized(c2).clickstate,
        c1.showstate == c2.showstate ==> sanitized(c1).showstate == sanitized(c2).showstate,
        c1.left == c2.left ==> sanitized(c1).left == sanitized(c2).left,
        c1.right == c2.right ==> sanitized(c1).right == sanitized(c2).right,
        c1.stop == c2.stop ==> sanitized(c1).stop == sanitized(c2).stop,
        c1.theme == c2.theme ==> sanitized(c1).theme == sanitized(c2).theme,
        c1.lang == c2.lang ==> sanitized(c1).lang == sanitized(c2).lang,
        c1.always_on_top == c2.always_on_top ==> sanitized(c1).always_on_top == sanitized(
            c2,
        ).always_on_top,
{
}

} // verus!
