use akiclick::i18n::{lang_of, Lang};

#[test]
fn lang_of_codes() {
    assert_eq!(lang_of("zh"), Lang::Zh);
    assert_eq!(lang_of("en"), Lang::En);
    assert_eq!(lang_of(""), Lang::En);
    assert_eq!(lang_of("zh-CN"), Lang::En);
    assert_eq!(lang_of("z"), Lang::En);
}

#[test]
fn tray_labels_english() {
    assert_eq!(Lang::En.show(), "Show");
    assert_eq!(Lang::En.quit(), "Quit");
    assert_eq!(Lang::En.enable_listening(), "Enable Listening");
    assert_eq!(Lang::En.disable_listening(), "Disable Listening");
}

#[test]
fn tray_labels_chinese() {
    assert_eq!(Lang::Zh.show(), "显示");
    assert_eq!(Lang::Zh.quit(), "退出");
    assert_eq!(Lang::Zh.enable_listening(), "启用监听");
    assert_eq!(Lang::Zh.disable_listening(), "禁用监听");
}

#[test]
fn action_names() {
    assert_eq!(Lang::En.action_name("start"), "Start");
    assert_eq!(Lang::En.action_name("stop"), "Stop");
    assert_eq!(Lang::En.action_name("exit"), "Exit");
    assert_eq!(Lang::En.action_name("anything"), "Exit");
    assert_eq!(Lang::Zh.action_name("start"), "开始");
    assert_eq!(Lang::Zh.action_name("stop"), "停止");
    assert_eq!(Lang::Zh.action_name("exit"), "退出");
}

#[test]
fn hotkey_error_english() {
    assert_eq!(
        Lang::En.hotkey_error("start", "F9"),
        "Failed to register Start hotkey F9. It may already be in use by another application."
    );
}

#[test]
fn hotkey_error_chinese() {
    assert_eq!(
        Lang::Zh.hotkey_error("stop", "F10"),
        "「停止」热键 F10 注册失败，可能已被其他程序占用。"
    );
}

#[test]
fn hotkey_invalid_english() {
    assert_eq!(
        Lang::En.hotkey_invalid("exit", 999),
        "Invalid Exit hotkey value (VK 999). The default hotkey was restored."
    );
    assert_eq!(
        Lang::En.hotkey_invalid("start", 0),
        "Invalid Start hotkey value (VK 0). The default hotkey was restored."
    );
}

#[test]
fn hotkey_invalid_chinese() {
    assert_eq!(
        Lang::Zh.hotkey_invalid("start", 4294967295),
        "「开始」热键值无效（VK 4294967295），已恢复为默认热键。"
    );
}

#[test]
fn hotkey_invalid_matches_decimal_formatting() {
    for vk in [1u32, 9, 10, 99, 100, 1000, 65535, 123456789] {
        let msg = Lang::En.hotkey_invalid("stop", vk);
        assert_eq!(
            msg,
            format!("Invalid Stop hotkey value (VK {}). The default hotkey was restored.", vk)
        );
    }
}
