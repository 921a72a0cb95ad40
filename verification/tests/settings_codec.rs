use hammer_overlay::codec::{decode_settings, encode_settings, load_settings};
use hammer_overlay::settings::{AppSettings, Theme};

fn sample() -> AppSettings {
    AppSettings {
        auto_start: true,
        global_hotkey: String::from("ctrl+alt+x"),
        auto_close_on_focus_loss: true,
        auto_load_clipboard: false,
        use_llm_parsing: false,
        theme: Theme::Light,
    }
}

#[test]
fn default_settings_values() {
    let d = AppSettings::default();
    assert_eq!(d.auto_start, false);
    assert_eq!(d.global_hotkey, "ctrl+shift+h");
    assert_eq!(d.auto_close_on_focus_loss, false);
    assert_eq!(d.auto_load_clipboard, true);
    assert_eq!(d.use_llm_parsing, true);
    assert_eq!(d.theme, Theme::Dark);
}

#[test]
fn encode_default_is_exact() {
    let text = encode_settings(&AppSettings::default());
    assert_eq!(
        text,
        "{\"auto_start\":false,\"global_hotkey\":\"ctrl+shift+h\",\
         \"auto_close_on_focus_loss\":false,\"auto_load_clipboard\":true,\
         \"use_llm_parsing\":true,\"theme\":\"dark\"}"
    );
}

#[test]
fn save_then_load_returns_saved_value() {
    let s = sample();
    let text = encode_settings(&s);
    let loaded = decode_settings(&text);
    assert_eq!(loaded, s);
}

#[test]
fn save_then_load_default() {
    let s = AppSettings::default();
    assert_eq!(decode_settings(&encode_settings(&s)), s);
}

#[test]
fn save_then_load_with_escapes_in_hotkey() {
    let mut s = sample();
    s.global_hotkey = String::from("a\"b\\c");
    let text = encode_settings(&s);
    assert_eq!(decode_settings(&text), s);
}

#[test]
fn save_then_load_every_theme() {
    for theme in [Theme::Dark, Theme::Light, Theme::System] {
        let mut s = sample();
        s.theme = theme;
        assert_eq!(decode_settings(&encode_settings(&s)), s);
    }
}

#[test]
fn missing_file_loads_defaults() {
    assert_eq!(load_settings(None), AppSettings::default());
}

#[test]
fn stored_text_loads_back() {
    let s = sample();
    let text = encode_settings(&s);
    assert_eq!(load_settings(Some(&text)), s);
}

#[test]
fn corrupt_stored_text_loads_defaults() {
    assert_eq!(load_settings(Some("{}")), AppSettings::default());
}

#[test]
fn empty_text_is_corrupt() {
    assert_eq!(decode_settings(""), AppSettings::default());
}

#[test]
fn garbage_text_is_corrupt() {
    assert_eq!(decode_settings("not json at all"), AppSettings::default());
}

#[test]
fn truncated_text_is_corrupt() {
    let text = encode_settings(&sample());
    let cut = &text[..text.len() - 1];
    assert_eq!(decode_settings(cut), AppSettings::default());
}

#[test]
fn trailing_garbage_is_corrupt() {
    let mut text = encode_settings(&sample());
    text.push(' ');
    assert_eq!(decode_settings(&text), AppSettings::default());
}

#[test]
fn wrong_field_name_is_corrupt_not_merged() {
    // One bad field discards the whole record: the answer is the full
    // default value, not the readable fields of this text.
    let text = "{\"auto_start\":true,\"global_hotkey\":\"ctrl+alt+x\",\
                \"auto_close_on_focus_loss\":false,\"auto_load_clipboard\":true,\
                \"use_llm_parsing\":true,\"colour\":\"dark\"}";
    assert_eq!(decode_settings(text), AppSettings::default());
}

#[test]
fn unknown_theme_word_is_corrupt() {
    let text = "{\"auto_start\":false,\"global_hotkey\":\"ctrl+shift+h\",\
                \"auto_close_on_focus_loss\":false,\"auto_load_clipboard\":true,\
                \"use_llm_parsing\":true,\"theme\":\"blue\"}";
    assert_eq!(decode_settings(text), AppSettings::default());
}

#[test]
fn non_boolean_field_is_corrupt() {
    let text = "{\"auto_start\":1,\"global_hotkey\":\"ctrl+shift+h\",\
                \"auto_close_on_focus_loss\":false,\"auto_load_clipboard\":true,\
                \"use_llm_parsing\":true,\"theme\":\"dark\"}";
    assert_eq!(decode_settings(text), AppSettings::default());
}
