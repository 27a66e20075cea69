# akiclick

The verified core of AkiClick, a Windows auto-clicker.

- `src/` is the library, with machine-checked contracts and proofs: the settings file's model and
  repair (`config`), the hotkey table and hotkey decisions (`hotkeys`), the
  click session and interruptible wait (`clicker`), the tray labels, menu
  commands and icon decoding (`tray`), the listening toggle, the preference
  update and a model of the listening gate (`commands`), the interface texts
  (`i18n`) and small text helpers (`text`).
- `app/` is the Tauri program around it: windows, tray, global shortcuts,
  the click thread, file I/O and the INI (de)serialisation. It needs Tauri
  v2 with the global-shortcut and shell plugins, which are not listed in
  `Cargo.toml` here; it also embeds `icons/icon.png`.
- `tests/` exercises the library on concrete values.
