use azookey::candidates::{count_surface, Candidates, ComposingText, Suggestion};
use azookey::input_mode::InputMode;
use azookey::kana::{to_fullwidth, to_half_katakana, to_halfwidth, to_katakana};
use azookey::paths::{file_name, join_path, parent_directory, same_path, with_extension};
use azookey::text::{
    bool_text, byte_len, char_width, characters, decimal, decimal_signed, hex_word, joined,
    same_text, utf16_units,
};

#[test]
fn modes_have_their_indicators() {
    assert_eq!(InputMode::default(), InputMode::Latin);
    assert_eq!(InputMode::Latin.indicator(), "A");
    assert_eq!(InputMode::Kana.indicator(), "あ");
    assert_eq!(InputMode::Kana.toggled().toggled(), InputMode::Kana);
}

#[test]
fn kana_is_converted() {
    assert_eq!(to_katakana("ひらがなカaー"), "ヒラガナカaー");
    assert_eq!(to_katakana(&to_katakana("きょう")), "キョウ");
    assert_eq!(to_half_katakana("がっこう、ぱーてぃ"), "ｶﾞｯｺｳ､ﾊﾟｰﾃｨ");
}

#[test]
fn ascii_is_widened_and_narrowed() {
    assert_eq!(to_fullwidth("abc-1!", true), "ａｂｃ－１！");
    assert_eq!(to_halfwidth("ａＢ１！"), "aB1!");
    assert_eq!(to_halfwidth(&to_fullwidth("Az09", true)), "Az09");
}

#[test]
fn letters_stay_narrow_while_typing() {
    assert_eq!(to_fullwidth("kyou1", false), "kyou１");
}

#[test]
fn a_reply_gives_its_candidates() {
    let candidates = Candidates::from_composing_text(Some(ComposingText {
        hiragana: "へんかん".to_owned(),
        suggestions: vec![
            Suggestion {
                text: "変換".to_owned(),
                subtext: "中".to_owned(),
                corresponding_count: 4,
            },
            Suggestion {
                text: "返還".to_owned(),
                subtext: String::new(),
                corresponding_count: 5,
            },
        ],
        raw_input: "henkann".to_owned(),
    }))
    .unwrap();
    assert_eq!(candidates.texts, ["変換", "返還"]);
    assert_eq!(candidates.sub_texts, ["中", ""]);
    assert_eq!(candidates.corresponding_count, [4, 5]);
    assert_eq!(candidates.hiragana.as_str(), "へんかん");
}

#[test]
fn an_empty_reply_is_an_error() {
    let error = Candidates::from_composing_text(None).unwrap_err();
    assert_eq!(error.message(), "composing_text is None");
    assert_eq!(count_surface("へん😀"), 3);
}

#[test]
fn texts_are_measured_as_std_measures_them() {
    for text in ["", "ascii", "é", "変換", "😀x", "\u{7f}\u{80}\u{7ff}\u{800}\u{ffff}\u{10000}"] {
        assert_eq!(byte_len(text), text.len());
        let chars: Vec<char> = text.chars().collect();
        assert_eq!(characters(text), chars);
        for c in chars {
            assert_eq!(char_width(c), c.len_utf8());
        }
        let units: Vec<u16> = text.encode_utf16().collect();
        assert_eq!(utf16_units(text), units);
    }
}

#[test]
fn numbers_are_written_as_std_writes_them() {
    for value in [0, 1, 9, 10, 99, 12345, u64::MAX] {
        assert_eq!(decimal(value), value.to_string());
    }
    for value in [0, -1, 10, i64::MIN, i64::MAX] {
        assert_eq!(decimal_signed(value), value.to_string());
    }
    assert_eq!(hex_word(0x80070057), "80070057");
    assert_eq!(hex_word(0xAB), "000000AB");
    assert_eq!(bool_text(true), "true");
    assert_eq!(bool_text(false), "false");
}

#[test]
fn texts_are_joined_and_compared() {
    assert_eq!(joined("変", "換"), "変換");
    assert!(same_text("変換", "変換"));
    assert!(!same_text("変換", "変"));
}

#[test]
fn paths_have_parents() {
    let parent = |path: &str| parent_directory(path);
    assert_eq!(parent(r"C:\a\b.exe").as_deref(), Some(r"C:\a"));
    assert_eq!(parent(r"C:\a").as_deref(), Some(r"C:\"));
    assert_eq!(parent(r"C:\a\").as_deref(), Some(r"C:\"));
    assert_eq!(parent(r"C:\").as_deref(), None);
    assert_eq!(parent(r"a\b").as_deref(), Some("a"));
    assert_eq!(parent("a").as_deref(), Some(""));
    assert_eq!(parent("").as_deref(), None);
    assert_eq!(parent("C:/a/b").as_deref(), Some("C:/a"));
    assert_eq!(
        parent(r"\\server\share\a").as_deref(),
        Some(r"\\server\share\")
    );
}

#[test]
fn verbatim_paths_are_taken_literally() {
    let parent = |path: &str| parent_directory(path);
    assert_eq!(parent(r"\\?\C:\a\b").as_deref(), Some(r"\\?\C:\a"));
    assert_eq!(parent(r"\\?\C:\a").as_deref(), Some(r"\\?\C:\"));
    assert_eq!(parent(r"\\?\C:\").as_deref(), None);
    assert_eq!(parent(r"\\?\C:\a\b/c").as_deref(), Some(r"\\?\C:\a"));
    assert_eq!(parent(r"\\?\C:\a\.").as_deref(), Some(r"\\?\C:\a"));
    assert_eq!(
        parent(r"\\?\UNC\server\share\a").as_deref(),
        Some(r"\\?\UNC\server\share\")
    );
    assert_eq!(parent(r"\\?\UNC\server\share\").as_deref(), None);
    assert_eq!(parent(r"\\?\name\a").as_deref(), Some(r"\\?\name\"));
    assert_eq!(parent(r"\\?\name").as_deref(), None);
    assert_eq!(parent(r"\\.\COM1\a").as_deref(), Some(r"\\.\COM1\"));
    assert_eq!(parent(r"\\.\COM1").as_deref(), None);
    // With another slash in front the question mark is the name of a server.
    assert_eq!(parent(r"\\?/C:\a").as_deref(), Some(r"\\?/C:\"));
    assert_eq!(parent(r"\\?/C:\a/b").as_deref(), Some(r"\\?/C:\a"));
    assert_eq!(join_path(r"\\?\C:\a\\b\", "c"), r"\\?\C:\a\b\c");
    assert_eq!(join_path(r"\\?\C:/a", "c"), r"\\?\C:\a\c");
    assert_eq!(join_path(r"\\?\C:\", "c"), r"\\?\C:\c");
    assert_eq!(join_path(r"\\?\name", "c"), r"\\?\name\c");
    assert_eq!(join_path(r"\\?\C:\a\b/c", "d"), r"\\?\C:\a\b/c\d");
}

#[test]
fn paths_are_compared_by_component() {
    for (left, right) in [
        (r"C:\a\b", "c:/a//b/"),
        (r"C:\a\.\b", r"C:\a\b"),
        (r"\\server\share", "//server/share/"),
        (r"\\.\COM1", "//./COM1"),
        (r"\\?\C:\a", r"\\?\c:\\a\"),
        (r"\\?\UNC\server\share\a", r"\\?\UNC\server\share\a\"),
        ("a/b", r"a\b"),
        ("", ""),
    ] {
        assert!(same_path(left, right), "{left} {right}");
        assert!(same_path(right, left), "{left} {right}");
    }
    for (left, right) in [
        (r"C:\a", r"C:a"),
        (r"C:\a", r"D:\a"),
        (r"C:\a", r"C:\A"),
        (r"C:\a", r"\\?\C:\a"),
        (r".\a", "a"),
        (r"\\?\C:\a/b", r"\\?\C:\a\b"),
        (r"\\?\C:\a\.", r"\\?\C:\a"),
        (r"\\?\C:", r"\\?\C:\"),
        (r"\\server\share\a", r"\\server\other\a"),
        (r"a\b", r"a\b\c"),
    ] {
        assert!(!same_path(left, right), "{left} {right}");
        assert!(!same_path(right, left), "{left} {right}");
    }
}

#[test]
fn paths_are_joined() {
    assert_eq!(join_path(r"C:\a", "b"), r"C:\a\b");
    assert_eq!(join_path(r"C:\a\", "b"), r"C:\a\b");
    assert_eq!(join_path("", "b"), "b");
}

#[test]
fn file_names_have_stems_and_extensions() {
    let name = file_name(r"C:\logs\client-1.x.log").unwrap();
    assert_eq!(name.stem, "client-1.x");
    assert_eq!(name.extension.as_deref(), Some("log"));
    let name = file_name(r"C:\logs\.log").unwrap();
    assert_eq!(name.stem, ".log");
    assert_eq!(name.extension, None);
    assert!(file_name(r"C:\").is_none());
    assert!(file_name(r"C:\a\..").is_none());
    assert_eq!(with_extension(r"C:\a\b.log", "log.1"), r"C:\a\b.log.1");
    assert_eq!(with_extension(r"C:\a\b", "txt"), r"C:\a\b.txt");
    assert_eq!(with_extension(r"C:\a\b.txt", ""), r"C:\a\b");
}
