use ule4jis::i18n::{get_lang, lang_from_env, set_lang, to_wide, tr, Lang};

#[test]
fn texts_in_both_languages() {
    assert_eq!(tr("tray.start", Lang::Ja), "開始");
    assert_eq!(tr("tray.start", Lang::En), "Start");
    assert_eq!(tr("tray.tooltip", Lang::En), "Ule4Jis — US→JIS Emulator");
    assert_eq!(tr("tray.input_backend.keybd_event", Lang::Ja), "入力方式: keybd_event");
    assert_eq!(tr("error.hook_failed", Lang::En), "Failed to start keyboard hook");
    assert_eq!(tr("error.start_failed", Lang::Ja), "開始に失敗しました");
    assert_eq!(tr("tray.exit", Lang::En), "Exit");
}

#[test]
fn unknown_key_gives_question_marks() {
    assert_eq!(tr("tray.nothing", Lang::Ja), "???");
    assert_eq!(tr("", Lang::En), "???");
    assert_eq!(tr("tray.start ", Lang::En), "???");
}

#[test]
fn stored_language_reads_back() {
    assert_eq!(get_lang(set_lang(Lang::Ja)), Lang::Ja);
    assert_eq!(get_lang(set_lang(Lang::En)), Lang::En);
    assert_eq!(get_lang(0), Lang::Ja);
    assert_eq!(get_lang(200), Lang::En);
}

#[test]
fn language_from_environment() {
    assert_eq!(lang_from_env(Some("en")), Lang::En);
    assert_eq!(lang_from_env(Some("EN")), Lang::En);
    assert_eq!(lang_from_env(Some("eN")), Lang::En);
    assert_eq!(lang_from_env(Some("ja")), Lang::Ja);
    assert_eq!(lang_from_env(Some("english")), Lang::Ja);
    assert_eq!(lang_from_env(None), Lang::Ja);
}

#[test]
fn wide_strings_end_in_zero() {
    assert_eq!(to_wide("Ab"), vec![0x41, 0x62, 0]);
    assert_eq!(to_wide(""), vec![0]);
    assert_eq!(to_wide("開始"), vec![0x958B, 0x59CB, 0]);
    assert_eq!(to_wide("a😀"), vec![0x61, 0xD83D, 0xDE00, 0]);
    let s = "Ule4Jis — US→JIS エミュレータ";
    let mut expected: Vec<u16> = s.encode_utf16().collect();
    expected.push(0);
    assert_eq!(to_wide(s), expected);
}
