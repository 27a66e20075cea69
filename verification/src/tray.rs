//! The tray menu's labels and the commands of its items.

use vstd::prelude::*;

use crate::i18n::{lang_of, spec_lang_of, Lang};
use crate::text::same_text;

verus! {

/// The label of the tray item that toggles listening: it offers to turn
/// listening off while it is on, and on while it is off.
pub open spec fn listening_text(lang: Lang, listening: bool) -> Seq<char> {
    if listening {
        lang.disable_listening_text()
    } else {
        lang.enable_listening_text()
    }
}

pub fn listening_label(lang: Lang, listening: bool) -> (s: &'static str)
    ensures
        s@ == listening_text(lang, listening),
{
    if listening {
        lang.disable_listening()
    } else {
        lang.enable_listening()
    }
}

/// The labels of the three tray items.
pub struct MenuLabels {
    pub show: &'static str,
    pub toggle_listening: &'static str,
    pub quit: &'static str,
}

/// The labels of the tray items for the configured language code and the
/// listening state.
pub fn menu_labels(lang_code: &str, listening: bool) -> (labels: MenuLabels)
    ensures
        labels.show@ == spec_lang_of(lang_code@).show_text(),
        labels.toggle_listening@ == listening_text(spec_lang_of(lang_code@), listening),
        labels.quit@ == spec_lang_of(lang_code@).quit_text(),
{
    let lang = lang_of(lang_code);
    MenuLabels {
        show: lang.show(),
        toggle_listening: listening_label(lang, listening),
        quit: lang.quit(),
    }
}

/// The command of a tray menu item.
#[derive(Debug, Clone, Copy, PartialEq, Eq, Structural)]
pub enum MenuCommand {
    /// Show and focus the main window.
    Show,
    /// Turn listening on or off.
    ToggleListening,
    /// Stop any click session and quit.
    Quit,
}

impl MenuCommand {
    /// The id of the menu item that carries the command.
    pub open spec fn id_text(self) -> Seq<char> {
        match self {
            MenuCommand::Show => "show"@,
            MenuCommand::ToggleListening => "toggle_listening"@,
            MenuCommand::Quit => "quit"@,
        }
    }

    pub fn id(self) -> (s: &'static str)
        ensures
            s@ == self.id_text(),
    {
        match self {
            MenuCommand::Show => "show",
            MenuCommand::ToggleListening => "toggle_listening",
            MenuCommand::Quit => "quit",
        }
    }
}

/// The command of the menu item with this id; none for an unknown id.
pub open spec fn spec_menu_command(id: Seq<char>) -> Option<MenuCommand> {
    if id == "show"@ {
        Some(MenuCommand::Show)
    } else if id == "toggle_listening"@ {
        Some(MenuCommand::ToggleListening)
    } else if id == "quit"@ {
        Some(MenuCommand::Quit)
    } else {
        None
    }
}

pub fn menu_command(id: &str) -> (cmd: Option<MenuCommand>)
    ensures
        cmd == spec_menu_command(id@),
{
    if same_text(id, "show") {
        Some(MenuCommand::Show)
    } else if same_text(id, "toggle_listening") {
        Some(MenuCommand::ToggleListening)
    } else if same_text(id, "quit") {
        Some(MenuCommand::Quit)
    } else {
        None
    }
}

/// What decoding the PNG image `encoded` gives: its pixels as 8-bit RGBA,
/// row by row, with its width and height; none where the bytes are no PNG
/// image that can be decoded.
pub uninterp spec fn spec_decoded_rgba(encoded: Seq<u8>) -> Option<(Seq<u8>, u32, u32)>;

/// Decodes a PNG image with the `image` crate:
/// `image::load_from_memory_with_format` with the built-in PNG format (no
/// format guessing, no registered decoding hooks, the default limits), then
/// `DynamicImage::to_rgba8`, `ImageBuffer::dimensions` and
/// `ImageBuffer::into_raw`.
///
/// The contract claims that the outcome depends on the bytes alone (it is
/// named `spec_decoded_rgba`), that a decoding error gives `None`, and that
/// the pixel buffer holds four bytes per pixel. It says nothing of what the
/// pixels hold.
#[verifier::external_body]
fn decode_rgba(encoded: &[u8]) -> (r: Option<(Vec<u8>, u32, u32)>)
    ensures
        match r {
            Some((pixels, w, h)) => spec_decoded_rgba(encoded@) == Some((pixels@, w, h))
                && pixels@.len() == 4 * w * h,
            None => spec_decoded_rgba(encoded@) is None,
        },
{
    match image::load_from_memory_with_format(encoded, image::ImageFormat::Png) {
        Ok(img) => {
            let rgba = img.to_rgba8();
            let (width, height) = rgba.dimensions();
            Some((rgba.into_raw(), width, height))
        },
        Err(_) => None,
    }
}

/// The tray icon as RGBA pixels.
pub struct IconImage {
    /// 8-bit RGBA pixels, row by row.
    pub rgba: Vec<u8>,
    pub width: u32,
    pub height: u32,
}

/// The tray icon decoded from the PNG image `encoded`; none where the bytes
/// cannot be decoded.
pub fn load_icon(encoded: &[u8]) -> (icon: Option<IconImage>)
    ensures
        match icon {
            Some(i) => spec_decoded_rgba(encoded@) == Some((i.rgba@, i.width, i.height))
                && i.rgba@.len() == 4 * i.width * i.height,
            None => spec_decoded_rgba(encoded@) is None,
        },
{
    match decode_rgba(encoded) {
        Some((rgba, width, height)) => Some(IconImage { rgba, width, height }),
        None => None,
    }
}

/// Each menu item's id leads back to its own command.
pub proof fn lemma_menu_command_roundtrip(cmd: MenuCommand)
    ensures
        spec_menu_command(cmd.id_text()) == Some(cmd),
{
    reveal_strlit("show");
    reveal_strlit("toggle_listening");
    reveal_strlit("quit");
    assert("show"@[0] != "toggle_listening"@[0]);
    assert("show"@[0] != "quit"@[0]);
    assert("toggle_listening"@[0] != "quit"@[0]);
}

} // verus!
