//! Conversions between the scripts that a composition can be shown in.

use vstd::prelude::*;

use crate::actions::SetTextType;

verus! {

/// For each katakana from U+30A1 on, its half-width letter and the sound mark
/// behind it: none, voiced or semi-voiced. A letter without a half-width form
/// stands for itself.
pub const HALF_KATAKANA: [(char, u8); 86] = [
    ('ｧ', 0), ('ｱ', 0), ('ｨ', 0), ('ｲ', 0), ('ｩ', 0), ('ｳ', 0),
    ('ｪ', 0), ('ｴ', 0), ('ｫ', 0), ('ｵ', 0), ('ｶ', 0), ('ｶ', 1),
    ('ｷ', 0), ('ｷ', 1), ('ｸ', 0), ('ｸ', 1), ('ｹ', 0), ('ｹ', 1),
    ('ｺ', 0), ('ｺ', 1), ('ｻ', 0), ('ｻ', 1), ('ｼ', 0), ('ｼ', 1),
    ('ｽ', 0), ('ｽ', 1), ('ｾ', 0), ('ｾ', 1), ('ｿ', 0), ('ｿ', 1),
    ('ﾀ', 0), ('ﾀ', 1), ('ﾁ', 0), ('ﾁ', 1), ('ｯ', 0), ('ﾂ', 0),
    ('ﾂ', 1), ('ﾃ', 0), ('ﾃ', 1), ('ﾄ', 0), ('ﾄ', 1), ('ﾅ', 0),
    ('ﾆ', 0), ('ﾇ', 0), ('ﾈ', 0), ('ﾉ', 0), ('ﾊ', 0), ('ﾊ', 1),
    ('ﾊ', 2), ('ﾋ', 0), ('ﾋ', 1), ('ﾋ', 2), ('ﾌ', 0), ('ﾌ', 1),
    ('ﾌ', 2), ('ﾍ', 0), ('ﾍ', 1), ('ﾍ', 2), ('ﾎ', 0), ('ﾎ', 1),
    ('ﾎ', 2), ('ﾏ', 0), ('ﾐ', 0), ('ﾑ', 0), ('ﾒ', 0), ('ﾓ', 0),
    ('ｬ', 0), ('ﾔ', 0), ('ｭ', 0), ('ﾕ', 0), ('ｮ', 0), ('ﾖ', 0),
    ('ﾗ', 0), ('ﾘ', 0), ('ﾙ', 0), ('ﾚ', 0), ('ﾛ', 0), ('ヮ', 0),
    ('ﾜ', 0), ('ヰ', 0), ('ヱ', 0), ('ｦ', 0), ('ﾝ', 0), ('ｳ', 1),
    ('ヵ', 0), ('ヶ', 0),
];

/// The katakana letter of a hiragana letter or iteration mark. Any other
/// character stands for itself.
pub open spec fn katakana_of(c: char) -> char {
    if 'ぁ' <= c <= 'ゖ' || c == 'ゝ' || c == 'ゞ' {
        (c as u32 + 0x60) as char
    } else {
        c
    }
}

/// The half-width form of a katakana letter or of Japanese punctuation.
pub open spec fn half_width_kana(c: char) -> Seq<char> {
    if 'ァ' <= c <= 'ヶ' {
        let (letter, mark) = HALF_KATAKANA[c as int - 'ァ' as int];
        if mark == 0 {
            seq![letter]
        } else if mark == 1 {
            seq![letter, 'ﾞ']
        } else {
            seq![letter, 'ﾟ']
        }
    } else if c == '。' {
        seq!['｡']
    } else if c == '「' {
        seq!['｢']
    } else if c == '」' {
        seq!['｣']
    } else if c == '、' {
        seq!['､']
    } else if c == '・' {
        seq!['･']
    } else if c == 'ー' {
        seq!['ｰ']
    } else {
        seq![c]
    }
}

/// `chars` with each kana in half-width katakana.
pub open spec fn half_katakana_text(chars: Seq<char>) -> Seq<char>
    decreases chars.len(),
{
    if chars.len() == 0 {
        Seq::empty()
    } else {
        half_katakana_text(chars.drop_last()) + half_width_kana(katakana_of(chars.last()))
    }
}

/// Tells whether `c` is a Latin letter.
pub open spec fn is_latin_letter(c: char) -> bool {
    'a' <= c <= 'z' || 'A' <= c <= 'Z'
}

/// The full-width form of a printable ASCII character. Letters keep their form
/// unless `letters` is set.
pub open spec fn full_width_of(c: char, letters: bool) -> char {
    if is_latin_letter(c) && !letters {
        c
    } else if c == ' ' {
        '\u{3000}'
    } else if '!' <= c <= '~' {
        (c as u32 + 0xfee0) as char
    } else {
        c
    }
}

/// The ASCII character of a full-width form.
pub open spec fn half_width_of(c: char) -> char {
    if c == '\u{3000}' {
        ' '
    } else if '\u{ff01}' <= c <= '\u{ff5e}' {
        (c as u32 - 0xfee0) as char
    } else {
        c
    }
}

/// `chars` with each character replaced by its full-width form.
pub open spec fn full_width_text(chars: Seq<char>, letters: bool) -> Seq<char> {
    chars.map_values(|c: char| full_width_of(c, letters))
}

/// Shifts a character by `offset` code points.
fn shifted(c: char, offset: u32) -> (shifted: char)
    requires
        c as u32 + offset < 0xd800 || (0xe000 <= c as u32 + offset <= 0x10ffff),
    ensures
        shifted == (c as u32 + offset) as char,
{
    match char::from_u32(c as u32 + offset) {
        Some(shifted) => {
            proof {
                vstd::utf8::char_u32_cast(shifted, (c as u32 + offset) as u32);
            }
            shifted
        },
        None => c,
    }
}

fn katakana_char(c: char) -> (katakana: char)
    ensures
        katakana == katakana_of(c),
{
    if ('ぁ' <= c && c <= 'ゖ') || c == 'ゝ' || c == 'ゞ' {
        shifted(c, 0x60)
    } else {
        c
    }
}

/// Writes hiragana in katakana.
pub fn to_katakana(text: &str) -> (katakana: String)
    ensures
        katakana@ == text@.map_values(|c: char| katakana_of(c)),
{
    let mut katakana = String::new();
    for c in it: text.chars()
        invariant
            it.seq() == text@,
            katakana@ == text@.take(it.index() as int).map_values(|c: char| katakana_of(c)),
    {
        katakana.push(katakana_char(c));
        assert(katakana@ =~= text@.take(it.index() + 1).map_values(|c: char| katakana_of(c)));
    }
    assert(text@.take(text@.len() as int) =~= text@);
    katakana
}

fn push_half_width_kana(text: &mut String, c: char)
    ensures
        final(text)@ == old(text)@ + half_width_kana(c),
{
    if 'ァ' <= c && c <= 'ヶ' {
        let index: usize = (c as u32 - 'ァ' as u32) as usize;
        let (letter, mark) = HALF_KATAKANA[index];
        text.push(letter);
        if mark == 1 {
            text.push('ﾞ');
        } else if mark != 0 {
            text.push('ﾟ');
        }
    } else if c == '。' {
        text.push('｡');
    } else if c == '「' {
        text.push('｢');
    } else if c == '」' {
        text.push('｣');
    } else if c == '、' {
        text.push('､');
    } else if c == '・' {
        text.push('･');
    } else if c == 'ー' {
        text.push('ｰ');
    } else {
        text.push(c);
    }
    assert(text@ =~= old(text)@ + half_width_kana(c));
}

/// Writes kana in half-width katakana.
pub fn to_half_katakana(text: &str) -> (half: String)
    ensures
        half@ == half_katakana_text(text@),
{
    let mut half = String::new();
    for c in it: text.chars()
        invariant
            it.seq() == text@,
            half@ == half_katakana_text(text@.take(it.index() as int)),
    {
        push_half_width_kana(&mut half, katakana_char(c));
        assert(text@.take(it.index() + 1).drop_last() =~= text@.take(it.index() as int));
    }
    assert(text@.take(text@.len() as int) =~= text@);
    half
}

fn full_width_char(c: char, letters: bool) -> (full: char)
    ensures
        full == full_width_of(c, letters),
{
    let is_letter = ('a' <= c && c <= 'z') || ('A' <= c && c <= 'Z');
    if is_letter && !letters {
        c
    } else if c == ' ' {
        '\u{3000}'
    } else if '!' <= c && c <= '~' {
        shifted(c, 0xfee0)
    } else {
        c
    }
}

/// Writes printable ASCII in full-width forms, letters only where `letters`
/// is set.
pub fn to_fullwidth(text: &str, letters: bool) -> (full: String)
    ensures
        full@ == full_width_text(text@, letters),
{
    let mut full = String::new();
    for c in it: text.chars()
        invariant
            it.seq() == text@,
            full@ == full_width_text(text@.take(it.index() as int), letters),
    {
        full.push(full_width_char(c, letters));
        assert(full@ =~= full_width_text(text@.take(it.index() + 1), letters));
    }
    assert(text@.take(text@.len() as int) =~= text@);
    full
}

fn half_width_char(c: char) -> (half: char)
    ensures
        half == half_width_of(c),
{
    if c == '\u{3000}' {
        ' '
    } else if '\u{ff01}' <= c && c <= '\u{ff5e}' {
        match char::from_u32(c as u32 - 0xfee0) {
            Some(half) => {
                proof {
                    vstd::utf8::char_u32_cast(half, (c as u32 - 0xfee0) as u32);
                }
                half
            },
            None => c,
        }
    } else {
        c
    }
}

/// Writes full-width forms in ASCII.
pub fn to_halfwidth(text: &str) -> (half: String)
    ensures
        half@ == text@.map_values(|c: char| half_width_of(c)),
{
    let mut half = String::new();
    for c in it: text.chars()
        invariant
            it.seq() == text@,
            half@ == text@.take(it.index() as int).map_values(|c: char| half_width_of(c)),
    {
        half.push(half_width_char(c));
        assert(half@ =~= text@.take(it.index() + 1).map_values(|c: char| half_width_of(c)));
    }
    assert(text@.take(text@.len() as int) =~= text@);
    half
}

/// The text of a composition in the requested script.
pub open spec fn typed_text(
    set_type: SetTextType,
    raw_input: Seq<char>,
    raw_hiragana: Seq<char>,
) -> Seq<char> {
    match set_type {
        SetTextType::Hiragana => raw_hiragana,
        SetTextType::Katakana => raw_hiragana.map_values(|c: char| katakana_of(c)),
        SetTextType::HalfKatakana => half_katakana_text(raw_hiragana),
        SetTextType::FullLatin => full_width_text(raw_input, true),
        SetTextType::HalfLatin => raw_input.map_values(|c: char| half_width_of(c)),
    }
}

/// Converts a whole composition: kana scripts come from its hiragana, Latin
/// scripts from the keys that were typed.
pub fn text_with_type(set_type: &SetTextType, raw_input: &str, raw_hiragana: &str) -> (text: String)
    ensures
        text@ == typed_text(*set_type, raw_input@, raw_hiragana@),
{
    match set_type {
        SetTextType::Hiragana => raw_hiragana.to_owned(),
        SetTextType::Katakana => to_katakana(raw_hiragana),
        SetTextType::HalfKatakana => to_half_katakana(raw_hiragana),
        SetTextType::FullLatin => to_fullwidth(raw_input, true),
        SetTextType::HalfLatin => to_halfwidth(raw_input),
    }
}

/// Widening a text and narrowing it again is the same as narrowing it.
pub proof fn narrowing_undoes_widening(chars: Seq<char>, letters: bool)
    ensures
        full_width_text(chars, letters).map_values(|c: char| half_width_of(c))
            == chars.map_values(|c: char| half_width_of(c)),
{
    assert(full_width_text(chars, letters).map_values(|c: char| half_width_of(c))
        =~= chars.map_values(|c: char| half_width_of(c)));
}

/// Widening without letters leaves every Latin letter of the text in place, so
/// that romanised input can still be converted to kana.
pub proof fn widening_keeps_letters(chars: Seq<char>, i: int)
    requires
        0 <= i < chars.len(),
        is_latin_letter(chars[i]),
    ensures
        full_width_text(chars, false)[i] == chars[i],
{
}

/// Katakana is a letter for letter conversion, and converting twice changes
/// nothing more.
pub proof fn katakana_is_stable(chars: Seq<char>)
    ensures
        chars.map_values(|c: char| katakana_of(c)).len() == chars.len(),
        chars.map_values(|c: char| katakana_of(c)).map_values(|c: char| katakana_of(c))
            == chars.map_values(|c: char| katakana_of(c)),
{
    assert(chars.map_values(|c: char| katakana_of(c)).map_values(|c: char| katakana_of(c))
        =~= chars.map_values(|c: char| katakana_of(c)));
}

/// Each hiragana letter has its katakana letter at a fixed distance, and so have the
/// iteration marks; every other character stays.
pub proof fn katakana_lie_at_a_distance(c: char)
    ensures
        ('ぁ' <= c <= 'ゖ' || c == 'ゝ' || c == 'ゞ') ==> katakana_of(c) as u32 == c as u32 + 0x60,
        !('ぁ' <= c <= 'ゖ' || c == 'ゝ' || c == 'ゞ') ==> katakana_of(c) == c,
{
}

/// Each printable ASCII character has its full-width form at a fixed distance, but
/// for the space, which becomes the wide one; letters stay where they are to stay,
/// and so does every other character.
pub proof fn full_width_forms_lie_at_a_distance(c: char, letters: bool)
    ensures
        c == ' ' ==> full_width_of(c, letters) == '\u{3000}',
        '!' <= c <= '~' && (letters || !('a' <= c <= 'z' || 'A' <= c <= 'Z')) ==> full_width_of(
            c,
            letters,
        ) as u32 == c as u32 + 0xfee0,
        !letters && ('a' <= c <= 'z' || 'A' <= c <= 'Z') ==> full_width_of(c, letters) == c,
        c < ' ' || c > '~' ==> full_width_of(c, letters) == c,
{
}

/// Narrowing gives every printable ASCII character back from its full-width form,
/// and leaves every other character alone.
pub proof fn narrowing_gives_ascii_back(c: char)
    ensures
        ' ' <= c <= '~' ==> half_width_of(full_width_of(c, true)) == c && half_width_of(c) == c,
        c == '\u{3000}' ==> half_width_of(c) == ' ',
        '\u{ff01}' <= c <= '\u{ff5e}' ==> half_width_of(c) as u32 + 0xfee0 == c as u32,
        c != '\u{3000}' && !('\u{ff01}' <= c <= '\u{ff5e}') ==> half_width_of(c) == c,
{
}

/// The half-width letters stand in the order of the kana: the plain letters one
/// after the other, and the small ones before them.
pub proof fn half_width_letters_stand_in_order(i: int)
    ensures
        0 <= i < 45 ==> half_width_kana(
            "アイウエオカキクケコサシスセソタチツテトナニヌネノハヒフヘホマミムメモヤユヨラリルレロワン"@[i],
        ) == seq![(0xff71 + i) as char],
        0 <= i < 9 ==> half_width_kana("ァィゥェォャュョッ"@[i]) == seq![(0xff67 + i) as char],
        half_width_kana('ヲ') == seq!['\u{ff66}'],
{
    reveal_strlit("アイウエオカキクケコサシスセソタチツテトナニヌネノハヒフヘホマミムメモヤユヨラリルレロワン");
    reveal_strlit("ァィゥェォャュョッ");
}

/// A voiced letter is its plain letter and the voiced mark, a semi-voiced one its
/// plain letter and the semi-voiced mark. The plain letter stands right before the
/// voiced one, and the voiced one right before the semi-voiced one.
pub proof fn sound_marks_stand_behind_the_letter(i: int, plain: char)
    ensures
        0 <= i < 20 && plain as u32 + 1 == "ガギグゲゴザジズゼゾダヂヅデドバビブベボ"@[i] as u32
            ==> half_width_kana("ガギグゲゴザジズゼゾダヂヅデドバビブベボ"@[i]) == half_width_kana(
            plain,
        ).push('ﾞ'),
        0 <= i < 5 && plain as u32 + 2 == "パピプペポ"@[i] as u32 ==> half_width_kana(
            "パピプペポ"@[i],
        ) == half_width_kana(plain).push('ﾟ'),
        half_width_kana('ヴ') == half_width_kana('ウ').push('ﾞ'),
{
    reveal_strlit("ガギグゲゴザジズゼゾダヂヅデドバビブベボ");
    reveal_strlit("パピプペポ");
}

/// Letters without a half-width form, and characters that are no kana, stay as they
/// are; Japanese punctuation has its own half-width forms.
pub proof fn what_has_no_half_width_form_stays(c: char)
    ensures
        c == 'ヮ' || c == 'ヰ' || c == 'ヱ' || c == 'ヵ' || c == 'ヶ' ==> half_width_kana(c)
            == seq![c],
        c < '、' || c > 'ー' ==> half_width_kana(c) == seq![c],
        half_width_kana('。') == seq!['\u{ff61}'],
        half_width_kana('「') == seq!['\u{ff62}'],
        half_width_kana('」') == seq!['\u{ff63}'],
        half_width_kana('、') == seq!['\u{ff64}'],
        half_width_kana('・') == seq!['\u{ff65}'],
        half_width_kana('ー') == seq!['\u{ff70}'],
{
}

/// Half-width katakana is a conversion of each character by itself: nothing is lost
/// or moved, hiragana reads as its katakana does, and texts in a row convert in a
/// row.
pub proof fn half_katakana_goes_by_characters(left: Seq<char>, right: Seq<char>, c: char)
    ensures
        half_katakana_text(left + right) == half_katakana_text(left) + half_katakana_text(right),
        half_katakana_text(seq![c]) == half_width_kana(katakana_of(c)),
        half_katakana_text(seq![c]) == half_katakana_text(seq![katakana_of(c)]),
        half_katakana_text(Seq::empty()).len() == 0,
    decreases right.len(),
{
    reveal_with_fuel(half_katakana_text, 2);
    assert(seq![c].drop_last() =~= Seq::empty());
    assert(seq![katakana_of(c)].drop_last() =~= Seq::empty());
    assert(half_katakana_text(seq![c]) =~= half_width_kana(katakana_of(c)));
    assert(half_katakana_text(seq![katakana_of(c)]) =~= half_width_kana(katakana_of(c)));
    if right.len() == 0 {
        assert(left + right =~= left);
        assert(half_katakana_text(left) + half_katakana_text(right) =~= half_katakana_text(left));
    } else {
        assert((left + right).drop_last() =~= left + right.drop_last());
        half_katakana_goes_by_characters(left, right.drop_last(), c);
        assert(half_katakana_text(left + right) =~= half_katakana_text(left) + half_katakana_text(
            right,
        ));
    }
}

/// Kana scripts are made from the hiragana, Latin scripts from the typed keys, each
/// character by itself and in its place.
pub proof fn a_script_is_made_from_its_source(
    raw_input: Seq<char>,
    raw_hiragana: Seq<char>,
    i: int,
)
    ensures
        typed_text(SetTextType::Hiragana, raw_input, raw_hiragana) == raw_hiragana,
        typed_text(SetTextType::Katakana, raw_input, raw_hiragana).len() == raw_hiragana.len(),
        0 <= i < raw_hiragana.len() ==> typed_text(
            SetTextType::Katakana,
            raw_input,
            raw_hiragana,
        )[i] == katakana_of(raw_hiragana[i]),
        typed_text(SetTextType::HalfKatakana, raw_input, raw_hiragana) == half_katakana_text(
            raw_hiragana,
        ),
        typed_text(SetTextType::FullLatin, raw_input, raw_hiragana).len() == raw_input.len(),
        0 <= i < raw_input.len() ==> typed_text(
            SetTextType::FullLatin,
            raw_input,
            raw_hiragana,
        )[i] == full_width_of(raw_input[i], true),
        typed_text(SetTextType::HalfLatin, raw_input, raw_hiragana).len() == raw_input.len(),
        0 <= i < raw_input.len() ==> typed_text(
            SetTextType::HalfLatin,
            raw_input,
            raw_hiragana,
        )[i] == half_width_of(raw_input[i]),
{
}

} // verus!
