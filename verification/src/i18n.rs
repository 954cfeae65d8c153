//! User-facing texts in Japanese and English, and their UTF-16 form.

use vstd::prelude::*;
use vstd::string::StringSliceAdditionalSpecFns;
use vstd::utf8::{encode_utf8_decode_utf8, char_is_scalar};

verus! {

#[derive(Debug, Clone, Copy, PartialEq, Eq, Structural)]
pub enum Lang {
    Ja,
    En,
}

/// The value under which `lang` is stored in the current-language cell.
pub open spec fn lang_code(lang: Lang) -> u8 {
    match lang {
        Lang::Ja => 0,
        Lang::En => 1,
    }
}

/// The value to store in the current-language cell to select `lang`.
pub fn set_lang(lang: Lang) -> (code: u8)
    ensures
        code == lang_code(lang),
{
    match lang {
        Lang::Ja => 0,
        Lang::En => 1,
    }
}

/// The language that the stored value `code` selects: 0 is Japanese, any
/// other value English.
pub fn get_lang(code: u8) -> (lang: Lang)
    ensures
        lang == (if code == 0 { Lang::Ja } else { Lang::En }),
{
    match code {
        0 => Lang::Ja,
        _ => Lang::En,
    }
}

/// Reading the language back after it was set gives the language that was set.
pub proof fn lemma_get_after_set(lang: Lang)
    ensures
        (if lang_code(lang) == 0 { Lang::Ja } else { Lang::En }) == lang,
{
}

/// The language selected by the value of the language environment
/// variable: English for "en" in any letter case, Japanese otherwise and
/// when the variable is not set.
pub open spec fn spec_lang_from_env(value: Option<Seq<u8>>) -> Lang {
    match value {
        Some(v) => if v.len() == 2 && (v[0] == 0x65u8 || v[0] == 0x45u8) && (v[1] == 0x6eu8
            || v[1] == 0x4eu8) {
            Lang::En
        } else {
            Lang::Ja
        },
        None => Lang::Ja,
    }
}

pub fn lang_from_env(value: Option<&str>) -> (lang: Lang)
    ensures
        lang == spec_lang_from_env(
            match value {
                Some(v) => Some(v.spec_bytes()),
                None => None,
            },
        ),
{
    match value {
        Some(v) => {
            let b = v.as_bytes();
            if b.len() == 2 && (b[0] == 0x65u8 || b[0] == 0x45u8) && (b[1] == 0x6eu8 || b[1]
                == 0x4eu8) {
                Lang::En
            } else {
                Lang::Ja
            }
        },
        None => Lang::Ja,
    }
}

fn bytes_eq(a: &[u8], b: &[u8]) -> (r: bool)
    ensures
        r == (a@ == b@),
{
    if a.len() != b.len() {
        return false;
    }
    let mut i: usize = 0;
    while i < a.len()
        invariant
            a@.len() == b@.len(),
            i <= a@.len(),
            forall|j: int| 0 <= j < i ==> a@[j] == b@[j],
        decreases a@.len() - i,
    {
        if a[i] != b[i] {
            return false;
        }
        i = i + 1;
    }
    assert(a@ =~= b@);
    true
}

/// Whether two strings hold the same characters.
fn str_eq(a: &str, b: &str) -> (r: bool)
    ensures
        r == (a@ == b@),
{
    let r = bytes_eq(a.as_bytes(), b.as_bytes());
    proof {
        encode_utf8_decode_utf8(a@);
        encode_utf8_decode_utf8(b@);
    }
    r
}

pub open spec fn pick(lang: Lang, ja: Seq<char>, en: Seq<char>) -> Seq<char> {
    match lang {
        Lang::Ja => ja,
        Lang::En => en,
    }
}

/// The text for `key` in `lang`, "???" for an unknown key.
pub open spec fn spec_tr(key: Seq<char>, lang: Lang) -> Seq<char> {
    if key == "tray.tooltip"@ {
        pick(lang, "Ule4Jis — US→JIS エミュレータ"@, "Ule4Jis — US→JIS Emulator"@)
    } else if key == "tray.start"@ {
        pick(lang, "開始"@, "Start"@)
    } else if key == "tray.stop"@ {
        pick(lang, "停止"@, "Stop"@)
    } else if key == "tray.input_backend.sendinput"@ {
        pick(lang, "入力方式: SendInput"@, "Input: SendInput"@)
    } else if key == "tray.input_backend.keybd_event"@ {
        pick(lang, "入力方式: keybd_event"@, "Input: keybd_event"@)
    } else if key == "tray.exit"@ {
        pick(lang, "終了"@, "Exit"@)
    } else if key == "error.hook_failed"@ {
        pick(lang, "キーボードフックの開始に失敗しました"@, "Failed to start keyboard hook"@)
    } else if key == "error.start_failed"@ {
        pick(lang, "開始に失敗しました"@, "Failed to start"@)
    } else {
        "???"@
    }
}

/// The text for `key` in `lang`.
pub fn tr(key: &str, lang: Lang) -> (text: &'static str)
    ensures
        text@ == spec_tr(key@, lang),
{
    let (ja, en): (&'static str, &'static str) = if str_eq(key, "tray.tooltip") {
        ("Ule4Jis — US→JIS エミュレータ", "Ule4Jis — US→JIS Emulator")
    } else if str_eq(key, "tray.start") {
        ("開始", "Start")
    } else if str_eq(key, "tray.stop") {
        ("停止", "Stop")
    } else if str_eq(key, "tray.input_backend.sendinput") {
        ("入力方式: SendInput", "Input: SendInput")
    } else if str_eq(key, "tray.input_backend.keybd_event") {
        ("入力方式: keybd_event", "Input: keybd_event")
    } else if str_eq(key, "tray.exit") {
        ("終了", "Exit")
    } else if str_eq(key, "error.hook_failed") {
        ("キーボードフックの開始に失敗しました", "Failed to start keyboard hook")
    } else if str_eq(key, "error.start_failed") {
        ("開始に失敗しました", "Failed to start")
    } else {
        return "???";
    };
    match lang {
        Lang::Ja => ja,
        Lang::En => en,
    }
}

/// The UTF-16 code units of one character.
pub open spec fn utf16_units(c: char) -> Seq<u16> {
    let v = (c as u32) as int;
    if v < 0x10000 {
        seq![v as u16]
    } else {
        let u = v - 0x10000;
        seq![(0xD800 + u / 0x400) as u16, (0xDC00 + u % 0x400) as u16]
    }
}

/// The UTF-16 encoding of a character sequence.
pub open spec fn spec_utf16(s: Seq<char>) -> Seq<u16>
    decreases s.len(),
{
    if s.len() == 0 {
        Seq::empty()
    } else {
        spec_utf16(s.drop_last()) + utf16_units(s.last())
    }
}

/// `s` in UTF-16 with a terminating zero.
pub fn to_wide(s: &str) -> (w: Vec<u16>)
    ensures
        w@ == spec_utf16(s@).push(0u16),
{
    broadcast use vstd::string::group_string_axioms;

    let mut w: Vec<u16> = Vec::new();
    for c in it: s.chars()
        invariant
            it.seq() == s@,
            w@ == spec_utf16(it.seq().take(it.index() as int)),
    {
        let v: u32 = c as u32;
        let ghost k = it.index();
        proof {
            char_is_scalar(c);
            assert(c == it.seq()[k as int]);
            assert(it.seq().take(k + 1).drop_last() =~= it.seq().take(k as int));
            assert(it.seq().take(k + 1).last() == c);
        }
        if v < 0x10000 {
            w.push(v as u16);
        } else {
            let u: u32 = v - 0x10000;
            w.push((0xD800 + u / 0x400) as u16);
            w.push((0xDC00 + u % 0x400) as u16);
        }
        assert(w@ == spec_utf16(it.seq().take(k + 1)));
    }
    assert(s@.take(s@.len() as int) =~= s@);
    w.push(0);
    w
}

/// Text made of characters of the basic multilingual plane is encoded one
/// code unit per character, each unit the character's code point.
pub proof fn lemma_utf16_bmp(s: Seq<char>)
    requires
        forall|i: int| 0 <= i < s.len() ==> (#[trigger] s[i] as u32) < 0x10000,
    ensures
        spec_utf16(s).len() == s.len(),
        forall|i: int| 0 <= i < s.len() ==> #[trigger] spec_utf16(s)[i] as int == s[i] as u32 as int,
    decreases s.len(),
{
    if s.len() > 0 {
        let p = s.drop_last();
        assert forall|i: int| 0 <= i < p.len() implies (#[trigger] p[i] as u32) < 0x10000 by {
            assert(p[i] == s[i]);
        }
        lemma_utf16_bmp(p);
        assert((s[s.len() - 1] as u32) < 0x10000);
    }
}

/// A character beyond the basic multilingual plane becomes a surrogate
/// pair: a high surrogate then a low one, which together give back the
/// code point.
pub proof fn lemma_utf16_surrogate_pair(c: char)
    requires
        (c as u32) >= 0x10000,
        (c as u32) <= 0x10FFFF,
    ensures
        utf16_units(c).len() == 2,
        0xD800 <= utf16_units(c)[0] < 0xDC00,
        0xDC00 <= utf16_units(c)[1] < 0xE000,
        ((utf16_units(c)[0] - 0xD800) * 0x400 + (utf16_units(c)[1] - 0xDC00) + 0x10000) == c as u32 as int,
{
}

/// The texts, key by key, in Japanese and English; any other key gives "???".
pub proof fn lemma_texts(key: Seq<char>)
    ensures
        key == "tray.start"@ ==> spec_tr(key, Lang::Ja) == "開始"@ && spec_tr(key, Lang::En)
            == "Start"@,
        key == "tray.stop"@ ==> spec_tr(key, Lang::Ja) == "停止"@ && spec_tr(key, Lang::En)
            == "Stop"@,
        key == "tray.exit"@ ==> spec_tr(key, Lang::Ja) == "終了"@ && spec_tr(key, Lang::En)
            == "Exit"@,
        key == "tray.tooltip"@ ==> spec_tr(key, Lang::Ja) == "Ule4Jis — US→JIS エミュレータ"@
            && spec_tr(key, Lang::En) == "Ule4Jis — US→JIS Emulator"@,
        key == "tray.input_backend.sendinput"@ ==> spec_tr(key, Lang::Ja)
            == "入力方式: SendInput"@ && spec_tr(key, Lang::En) == "Input: SendInput"@,
        key == "tray.input_backend.keybd_event"@ ==> spec_tr(key, Lang::Ja)
            == "入力方式: keybd_event"@ && spec_tr(key, Lang::En) == "Input: keybd_event"@,
        key == "error.hook_failed"@ ==> spec_tr(key, Lang::Ja)
            == "キーボードフックの開始に失敗しました"@ && spec_tr(key, Lang::En)
            == "Failed to start keyboard hook"@,
        key == "error.start_failed"@ ==> spec_tr(key, Lang::Ja) == "開始に失敗しました"@
            && spec_tr(key, Lang::En) == "Failed to start"@,
        key != "tray.start"@ && key != "tray.stop"@ && key != "tray.exit"@ && key
            != "tray.tooltip"@ && key != "tray.input_backend.sendinput"@ && key
            != "tray.input_backend.keybd_event"@ && key != "error.hook_failed"@ && key
            != "error.start_failed"@ ==> spec_tr(key, Lang::Ja) == "???"@ && spec_tr(key, Lang::En)
            == "???"@,
{
    reveal_strlit("tray.start");
    reveal_strlit("tray.stop");
    reveal_strlit("tray.exit");
    reveal_strlit("tray.tooltip");
    reveal_strlit("tray.input_backend.sendinput");
    reveal_strlit("tray.input_backend.keybd_event");
    reveal_strlit("error.hook_failed");
    reveal_strlit("error.start_failed");
    assert("tray.tooltip"@.len() == 12);
    assert("tray.start"@.len() == 10);
    assert("tray.stop"@.len() == 9);
    assert("tray.exit"@.len() == 9);
    assert("tray.stop"@[5] != "tray.exit"@[5]);
    assert("tray.input_backend.sendinput"@.len() == 28);
    assert("tray.input_backend.keybd_event"@.len() == 30);
    assert("error.hook_failed"@.len() == 17);
    assert("error.start_failed"@.len() == 18);
}

} // verus!
