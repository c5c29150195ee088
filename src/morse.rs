use vstd::prelude::*;

use crate::text::{
    chars_of, halve_double_spaces, join, join_parts, long_gaps_replaced, pairs_halved,
    replace_long_gaps, same_chars, split_words, string_of, words,
};

verus! {

/// Converts words per minute into the length of a dot in milliseconds, using
/// the standard word "PARIS" of fifty dot units.
pub fn wpm_to_dot_length(wpm: u32) -> (r: u32)
    requires
        wpm > 0,
    ensures
        r == 1200int / (wpm as int),
{
    1200 / wpm
}

/// The Morse code of a character, as dots and dashes; `None` for a character
/// that the code has no sign for. Letters are matched without regard to case.
pub open spec fn code_of(c: char) -> Option<Seq<char>> {
    match c {
        'A' | 'a' => Some(seq!['.', '-']),
        'B' | 'b' => Some(seq!['-', '.', '.', '.']),
        'C' | 'c' => Some(seq!['-', '.', '-', '.']),
        'D' | 'd' => Some(seq!['-', '.', '.']),
        'E' | 'e' => Some(seq!['.']),
        'F' | 'f' => Some(seq!['.', '.', '-', '.']),
        'G' | 'g' => Some(seq!['-', '-', '.']),
        'H' | 'h' => Some(seq!['.', '.', '.', '.']),
        'I' | 'i' => Some(seq!['.', '.']),
        'J' | 'j' => Some(seq!['.', '-', '-', '-']),
        'K' | 'k' => Some(seq!['-', '.', '-']),
        'L' | 'l' => Some(seq!['.', '-', '.', '.']),
        'M' | 'm' => Some(seq!['-', '-']),
        'N' | 'n' => Some(seq!['-', '.']),
        'O' | 'o' => Some(seq!['-', '-', '-']),
        'P' | 'p' => Some(seq!['.', '-', '-', '.']),
        'Q' | 'q' => Some(seq!['-', '-', '.', '-']),
        'R' | 'r' => Some(seq!['.', '-', '.']),
        'S' | 's' => Some(seq!['.', '.', '.']),
        'T' | 't' => Some(seq!['-']),
        'U' | 'u' => Some(seq!['.', '.', '-']),
        'V' | 'v' => Some(seq!['.', '.', '.', '-']),
        'W' | 'w' => Some(seq!['.', '-', '-']),
        'X' | 'x' => Some(seq!['-', '.', '.', '-']),
        'Y' | 'y' => Some(seq!['-', '.', '-', '-']),
        'Z' | 'z' => Some(seq!['-', '-', '.', '.']),
        '1' => Some(seq!['.', '-', '-', '-', '-']),
        '2' => Some(seq!['.', '.', '-', '-', '-']),
        '3' => Some(seq!['.', '.', '.', '-', '-']),
        '4' => Some(seq!['.', '.', '.', '.', '-']),
        '5' => Some(seq!['.', '.', '.', '.', '.']),
        '6' => Some(seq!['-', '.', '.', '.', '.']),
        '7' => Some(seq!['-', '-', '.', '.', '.']),
        '8' => Some(seq!['-', '-', '-', '.', '.']),
        '9' => Some(seq!['-', '-', '-', '-', '.']),
        '0' => Some(seq!['-', '-', '-', '-', '-']),
        '.' => Some(seq!['.', '-', '.', '-', '.', '-']),
        ',' => Some(seq!['-', '-', '.', '.', '-', '-']),
        '?' => Some(seq!['.', '.', '-', '-', '.', '.']),
        '!' => Some(seq!['-', '.', '-', '.', '-', '-']),
        '-' => Some(seq!['-', '.', '.', '.', '.', '-']),
        '/' => Some(seq!['-', '.', '.', '-', '.']),
        '@' => Some(seq!['.', '-', '-', '.', '-', '.']),
        '(' => Some(seq!['-', '.', '-', '-', '.']),
        ')' => Some(seq!['-', '.', '-', '-', '.', '-']),
        _ => None,
    }
}

/// Looks up the Morse code of one character.
pub fn morse_code_of(c: char) -> (r: Option<Vec<char>>)
    ensures
        r is None <==> code_of(c) is None,
        r is Some ==> code_of(c) == Some(r->0@),
{
    match c {
        'A' | 'a' => Some(vec!['.', '-']),
        'B' | 'b' => Some(vec!['-', '.', '.', '.']),
        'C' | 'c' => Some(vec!['-', '.', '-', '.']),
        'D' | 'd' => Some(vec!['-', '.', '.']),
        'E' | 'e' => Some(vec!['.']),
        'F' | 'f' => Some(vec!['.', '.', '-', '.']),
        'G' | 'g' => Some(vec!['-', '-', '.']),
        'H' | 'h' => Some(vec!['.', '.', '.', '.']),
        'I' | 'i' => Some(vec!['.', '.']),
        'J' | 'j' => Some(vec!['.', '-', '-', '-']),
        'K' | 'k' => Some(vec!['-', '.', '-']),
        'L' | 'l' => Some(vec!['.', '-', '.', '.']),
        'M' | 'm' => Some(vec!['-', '-']),
        'N' | 'n' => Some(vec!['-', '.']),
        'O' | 'o' => Some(vec!['-', '-', '-']),
        'P' | 'p' => Some(vec!['.', '-', '-', '.']),
        'Q' | 'q' => Some(vec!['-', '-', '.', '-']),
        'R' | 'r' => Some(vec!['.', '-', '.']),
        'S' | 's' => Some(vec!['.', '.', '.']),
        'T' | 't' => Some(vec!['-']),
        'U' | 'u' => Some(vec!['.', '.', '-']),
        'V' | 'v' => Some(vec!['.', '.', '.', '-']),
        'W' | 'w' => Some(vec!['.', '-', '-']),
        'X' | 'x' => Some(vec!['-', '.', '.', '-']),
        'Y' | 'y' => Some(vec!['-', '.', '-', '-']),
        'Z' | 'z' => Some(vec!['-', '-', '.', '.']),
        '1' => Some(vec!['.', '-', '-', '-', '-']),
        '2' => Some(vec!['.', '.', '-', '-', '-']),
        '3' => Some(vec!['.', '.', '.', '-', '-']),
        '4' => Some(vec!['.', '.', '.', '.', '-']),
        '5' => Some(vec!['.', '.', '.', '.', '.']),
        '6' => Some(vec!['-', '.', '.', '.', '.']),
        '7' => Some(vec!['-', '-', '.', '.', '.']),
        '8' => Some(vec!['-', '-', '-', '.', '.']),
        '9' => Some(vec!['-', '-', '-', '-', '.']),
        '0' => Some(vec!['-', '-', '-', '-', '-']),
        '.' => Some(vec!['.', '-', '.', '-', '.', '-']),
        ',' => Some(vec!['-', '-', '.', '.', '-', '-']),
        '?' => Some(vec!['.', '.', '-', '-', '.', '.']),
        '!' => Some(vec!['-', '.', '-', '.', '-', '-']),
        '-' => Some(vec!['-', '.', '.', '.', '.', '-']),
        '/' => Some(vec!['-', '.', '.', '-', '.']),
        '@' => Some(vec!['.', '-', '-', '.', '-', '.']),
        '(' => Some(vec!['-', '.', '-', '-', '.']),
        ')' => Some(vec!['-', '.', '-', '-', '.', '-']),
        _ => None,
    }
}

/// The codes of the characters of `w` that have one, in order.
pub open spec fn known_codes(w: Seq<char>) -> Seq<Seq<char>>
    decreases w.len(),
{
    if w.len() == 0 {
        seq![]
    } else {
        let rest = known_codes(w.drop_last());
        match code_of(w.last()) {
            Some(c) => rest.push(c),
            None => rest,
        }
    }
}

/// One word in Morse code: the codes of its characters, one space apart.
pub open spec fn word_to_morse(w: Seq<char>) -> Seq<char> {
    join(known_codes(w), seq![' '])
}

/// A text in Morse code: its words encoded, with ` / ` between words.
pub open spec fn morse_of_text(s: Seq<char>) -> Seq<char> {
    join(words(s).map_values(|w: Seq<char>| word_to_morse(w)), seq![' ', '/', ' '])
}

/// Encodes one word.
fn encode_word(w: &Vec<char>) -> (r: Vec<char>)
    ensures
        r@ == word_to_morse(w@),
{
    let mut codes: Vec<Vec<char>> = Vec::new();
    let mut i: usize = 0;
    while i < w.len()
        invariant
            i <= w.len(),
            codes@.map_values(|v: Vec<char>| v@) == known_codes(w@.take(i as int)),
        decreases w.len() - i,
    {
        assert(w@.take(i + 1).drop_last() == w@.take(i as int));
        let ghost before = codes@;
        match morse_code_of(w[i]) {
            Some(code) => {
                let ghost cv = code@;
                codes.push(code);
                assert(codes@.map_values(|v: Vec<char>| v@) == before.map_values(|v: Vec<char>| v@).push(cv));
            },
            None => {},
        }
        i = i + 1;
    }
    assert(w@.take(w.len() as int) == w@);
    let sep = vec![' '];
    assert(sep@ == seq![' ']);
    join_parts(&codes, &sep)
}

/// Encodes a text in Morse code: words are split at white space, each
/// character becomes its code (characters without one are left out), codes
/// within a word are one space apart and words are separated by ` / `.
pub fn text_to_morse(text: &str) -> (r: String)
    ensures
        r@ == morse_of_text(text@),
{
    let chars = chars_of(text);
    let ws = split_words(&chars);
    let ghost wv = ws@.map_values(|w: Vec<char>| w@);
    let mut encoded: Vec<Vec<char>> = Vec::new();
    let mut i: usize = 0;
    while i < ws.len()
        invariant
            i <= ws.len(),
            wv == ws@.map_values(|w: Vec<char>| w@),
            encoded@.map_values(|v: Vec<char>| v@) == wv.take(i as int).map_values(
                |w: Seq<char>| word_to_morse(w),
            ),
        decreases ws.len() - i,
    {
        let e = encode_word(&ws[i]);
        let ghost before = encoded@;
        let ghost ev = e@;
        encoded.push(e);
        assert(encoded@.map_values(|v: Vec<char>| v@) == before.map_values(|v: Vec<char>| v@).push(ev));
        assert(wv.take(i + 1) == wv.take(i as int).push(wv[i as int]));
        i = i + 1;
    }
    assert(wv.take(ws.len() as int) == wv);
    let sep = vec![' ', '/', ' '];
    assert(sep@ == seq![' ', '/', ' ']);
    let out = join_parts(&encoded, &sep);
    string_of(&out)
}

/// One step of a keyed signal: a tone or a pause, and how long it lasts.
#[derive(Clone, Copy, Debug, PartialEq, Eq, Structural)]
pub struct Tone {
    pub on: bool,
    pub duration_ms: u32,
}

/// The steps for one symbol of written Morse code: a dot is a tone of one
/// dot, a dash a tone of three, a space a pause of three and `/` a pause of
/// seven; any other character gives none.
pub open spec fn symbol_tones(c: char, dot: u32) -> Seq<Tone> {
    if c == '.' {
        seq![Tone { on: true, duration_ms: dot }]
    } else if c == '-' {
        seq![Tone { on: true, duration_ms: (3 * dot) as u32 }]
    } else if c == ' ' {
        seq![Tone { on: false, duration_ms: (3 * dot) as u32 }]
    } else if c == '/' {
        seq![Tone { on: false, duration_ms: (7 * dot) as u32 }]
    } else {
        seq![]
    }
}

/// The steps for written Morse code: each character's steps followed by a
/// pause of one dot.
pub open spec fn tones_of(code: Seq<char>, dot: u32) -> Seq<Tone>
    decreases code.len(),
{
    if code.len() == 0 {
        seq![]
    } else {
        tones_of(code.drop_last(), dot) + symbol_tones(code.last(), dot) + seq![
            Tone { on: false, duration_ms: dot },
        ]
    }
}

/// The longest dot whose word gap of seven dots still fits in `u32`.
pub const MAX_TONE_DOT_MS: u32 = 613566756;

/// Turns written Morse code (dots, dashes, spaces and `/`) into the steps
/// that key it, with dots of `dot_duration` milliseconds.
pub fn morse_to_tones(morse_code: &str, dot_duration: u32) -> (r: Vec<Tone>)
    requires
        dot_duration <= MAX_TONE_DOT_MS,
    ensures
        r@ == tones_of(morse_code@, dot_duration),
{
    let chars = chars_of(morse_code);
    let mut tones: Vec<Tone> = Vec::new();
    let mut i: usize = 0;
    assert(chars@.take(0) == Seq::<char>::empty());
    while i < chars.len()
        invariant
            i <= chars.len(),
            chars@ == morse_code@,
            dot_duration <= MAX_TONE_DOT_MS,
            tones@ == tones_of(chars@.take(i as int), dot_duration),
        decreases chars.len() - i,
    {
        let c = chars[i];
        assert(chars@.take(i + 1).drop_last() == chars@.take(i as int));
        assert(chars@.take(i + 1).last() == c);
        let ghost before = tones@;
        if c == '.' {
            tones.push(Tone { on: true, duration_ms: dot_duration });
        } else if c == '-' {
            tones.push(Tone { on: true, duration_ms: 3 * dot_duration });
        } else if c == ' ' {
            tones.push(Tone { on: false, duration_ms: 3 * dot_duration });
        } else if c == '/' {
            tones.push(Tone { on: false, duration_ms: 7 * dot_duration });
        }
        assert(tones@ == before + symbol_tones(c, dot_duration));
        tones.push(Tone { on: false, duration_ms: dot_duration });
        i = i + 1;
    }
    assert(chars@.take(chars.len() as int) == chars@);
    tones
}

/// What a text is keyed as: its Morse code with long gaps written `/` and
/// double spaces halved.
pub open spec fn keyed_morse(text: Seq<char>) -> Seq<char> {
    pairs_halved(long_gaps_replaced(morse_of_text(text), seq!['/']))
}

/// Turns a text into the steps that key it in Morse code, with dots of
/// `dot_duration` milliseconds.
pub fn encode_morse(text: &str, dot_duration: u32) -> (r: Vec<Tone>)
    requires
        dot_duration <= MAX_TONE_DOT_MS,
    ensures
        r@ == tones_of(keyed_morse(text@), dot_duration),
{
    let code = text_to_morse(text);
    let slash_chars = vec!['/'];
    assert(slash_chars@ == seq!['/']);
    let slash = string_of(&slash_chars);
    let gaps = replace_long_gaps(code.as_str(), slash.as_str());
    let halved = halve_double_spaces(gaps.as_str());
    morse_to_tones(halved.as_str(), dot_duration)
}

/// The character whose Morse code is `code`, if any (letters in upper
/// case).
pub open spec fn char_of_code(code: Seq<char>) -> Option<char> {
    if code == seq!['.', '-'] {
        Some('A')
    } else if code == seq!['-', '.', '.', '.'] {
        Some('B')
    } else if code == seq!['-', '.', '-', '.'] {
        Some('C')
    } else if code == seq!['-', '.', '.'] {
        Some('D')
    } else if code == seq!['.'] {
        Some('E')
    } else if code == seq!['.', '.', '-', '.'] {
        Some('F')
    } else if code == seq!['-', '-', '.'] {
        Some('G')
    } else if code == seq!['.', '.', '.', '.'] {
        Some('H')
    } else if code == seq!['.', '.'] {
        Some('I')
    } else if code == seq!['.', '-', '-', '-'] {
        Some('J')
    } else if code == seq!['-', '.', '-'] {
        Some('K')
    } else if code == seq!['.', '-', '.', '.'] {
        Some('L')
    } else if code == seq!['-', '-'] {
        Some('M')
    } else if code == seq!['-', '.'] {
        Some('N')
    } else if code == seq!['-', '-', '-'] {
        Some('O')
    } else if code == seq!['.', '-', '-', '.'] {
        Some('P')
    } else if code == seq!['-', '-', '.', '-'] {
        Some('Q')
    } else if code == seq!['.', '-', '.'] {
        Some('R')
    } else if code == seq!['.', '.', '.'] {
        Some('S')
    } else if code == seq!['-'] {
        Some('T')
    } else if code == seq!['.', '.', '-'] {
        Some('U')
    } else if code == seq!['.', '.', '.', '-'] {
        Some('V')
    } else if code == seq!['.', '-', '-'] {
        Some('W')
    } else if code == seq!['-', '.', '.', '-'] {
        Some('X')
    } else if code == seq!['-', '.', '-', '-'] {
        Some('Y')
    } else if code == seq!['-', '-', '.', '.'] {
        Some('Z')
    } else if code == seq!['.', '-', '-', '-', '-'] {
        Some('1')
    } else if code == seq!['.', '.', '-', '-', '-'] {
        Some('2')
    } else if code == seq!['.', '.', '.', '-', '-'] {
        Some('3')
    } else if code == seq!['.', '.', '.', '.', '-'] {
        Some('4')
    } else if code == seq!['.', '.', '.', '.', '.'] {
        Some('5')
    } else if code == seq!['-', '.', '.', '.', '.'] {
        Some('6')
    } else if code == seq!['-', '-', '.', '.', '.'] {
        Some('7')
    } else if code == seq!['-', '-', '-', '.', '.'] {
        Some('8')
    } else if code == seq!['-', '-', '-', '-', '.'] {
        Some('9')
    } else if code == seq!['-', '-', '-', '-', '-'] {
        Some('0')
    } else if code == seq!['.', '-', '.', '-', '.', '-'] {
        Some('.')
    } else if code == seq!['-', '-', '.', '.', '-', '-'] {
        Some(',')
    } else if code == seq!['.', '.', '-', '-', '.', '.'] {
        Some('?')
    } else if code == seq!['-', '.', '-', '.', '-', '-'] {
        Some('!')
    } else if code == seq!['-', '.', '.', '.', '.', '-'] {
        Some('-')
    } else if code == seq!['-', '.', '.', '-', '.'] {
        Some('/')
    } else if code == seq!['.', '-', '-', '.', '-', '.'] {
        Some('@')
    } else if code == seq!['-', '.', '-', '-', '.'] {
        Some('(')
    } else if code == seq!['-', '.', '-', '-', '.', '-'] {
        Some(')')
    } else {
        None
    }
}

/// Looks up the character that a Morse code stands for.
pub fn char_for_code(code: &Vec<char>) -> (r: Option<char>)
    ensures
        r == char_of_code(code@),
{
    let v = vec!['.', '-'];
    assert(v@ == seq!['.', '-']);
    if same_chars(code, &v) {
        return Some('A');
    }
    let v = vec!['-', '.', '.', '.'];
    assert(v@ == seq!['-', '.', '.', '.']);
    if same_chars(code, &v) {
        return Some('B');
    }
    let v = vec!['-', '.', '-', '.'];
    assert(v@ == seq!['-', '.', '-', '.']);
    if same_chars(code, &v) {
        return Some('C');
    }
    let v = vec!['-', '.', '.'];
    assert(v@ == seq!['-', '.', '.']);
    if same_chars(code, &v) {
        return Some('D');
    }
    let v = vec!['.'];
    assert(v@ == seq!['.']);
    if same_chars(code, &v) {
        return Some('E');
    }
    let v = vec!['.', '.', '-', '.'];
    assert(v@ == seq!['.', '.', '-', '.']);
    if same_chars(code, &v) {
        return Some('F');
    }
    let v = vec!['-', '-', '.'];
    assert(v@ == seq!['-', '-', '.']);
    if same_chars(code, &v) {
        return Some('G');
    }
    let v = vec!['.', '.', '.', '.'];
    assert(v@ == seq!['.', '.', '.', '.']);
    if same_chars(code, &v) {
        return Some('H');
    }
    let v = vec!['.', '.'];
    assert(v@ == seq!['.', '.']);
    if same_chars(code, &v) {
        return Some('I');
    }
    let v = vec!['.', '-', '-', '-'];
    assert(v@ == seq!['.', '-', '-', '-']);
    if same_chars(code, &v) {
        return Some('J');
    }
    let v = vec!['-', '.', '-'];
    assert(v@ == seq!['-', '.', '-']);
    if same_chars(code, &v) {
        return Some('K');
    }
    let v = vec!['.', '-', '.', '.'];
    assert(v@ == seq!['.', '-', '.', '.']);
    if same_chars(code, &v) {
        return Some('L');
    }
    let v = vec!['-', '-'];
    assert(v@ == seq!['-', '-']);
    if same_chars(code, &v) {
        return Some('M');
    }
    let v = vec!['-', '.'];
    assert(v@ == seq!['-', '.']);
    if same_chars(code, &v) {
        return Some('N');
    }
    let v = vec!['-', '-', '-'];
    assert(v@ == seq!['-', '-', '-']);
    if same_chars(code, &v) {
        return Some('O');
    }
    let v = vec!['.', '-', '-', '.'];
    assert(v@ == seq!['.', '-', '-', '.']);
    if same_chars(code, &v) {
        return Some('P');
    }
    let v = vec!['-', '-', '.', '-'];
    assert(v@ == seq!['-', '-', '.', '-']);
    if same_chars(code, &v) {
        return Some('Q');
    }
    let v = vec!['.', '-', '.'];
    assert(v@ == seq!['.', '-', '.']);
    if same_chars(code, &v) {
        return Some('R');
    }
    let v = vec!['.', '.', '.'];
    assert(v@ == seq!['.', '.', '.']);
    if same_chars(code, &v) {
        return Some('S');
    }
    let v = vec!['-'];
    assert(v@ == seq!['-']);
    if same_chars(code, &v) {
        return Some('T');
    }
    let v = vec!['.', '.', '-'];
    assert(v@ == seq!['.', '.', '-']);
    if same_chars(code, &v) {
        return Some('U');
    }
    let v = vec!['.', '.', '.', '-'];
    assert(v@ == seq!['.', '.', '.', '-']);
    if same_chars(code, &v) {
        return Some('V');
    }
    let v = vec!['.', '-', '-'];
    assert(v@ == seq!['.', '-', '-']);
    if same_chars(code, &v) {
        return Some('W');
    }
    let v = vec!['-', '.', '.', '-'];
    assert(v@ == seq!['-', '.', '.', '-']);
    if same_chars(code, &v) {
        return Some('X');
    }
    let v = vec!['-', '.', '-', '-'];
    assert(v@ == seq!['-', '.', '-', '-']);
    if same_chars(code, &v) {
        return Some('Y');
    }
    let v = vec!['-', '-', '.', '.'];
    assert(v@ == seq!['-', '-', '.', '.']);
    if same_chars(code, &v) {
        return Some('Z');
    }
    let v = vec!['.', '-', '-', '-', '-'];
    assert(v@ == seq!['.', '-', '-', '-', '-']);
    if same_chars(code, &v) {
        return Some('1');
    }
    let v = vec!['.', '.', '-', '-', '-'];
    assert(v@ == seq!['.', '.', '-', '-', '-']);
    if same_chars(code, &v) {
        return Some('2');
    }
    let v = vec!['.', '.', '.', '-', '-'];
    assert(v@ == seq!['.', '.', '.', '-', '-']);
    if same_chars(code, &v) {
        return Some('3');
    }
    let v = vec!['.', '.', '.', '.', '-'];
    assert(v@ == seq!['.', '.', '.', '.', '-']);
    if same_chars(code, &v) {
        return Some('4');
    }
    let v = vec!['.', '.', '.', '.', '.'];
    assert(v@ == seq!['.', '.', '.', '.', '.']);
    if same_chars(code, &v) {
        return Some('5');
    }
    let v = vec!['-', '.', '.', '.', '.'];
    assert(v@ == seq!['-', '.', '.', '.', '.']);
    if same_chars(code, &v) {
        return Some('6');
    }
    let v = vec!['-', '-', '.', '.', '.'];
    assert(v@ == seq!['-', '-', '.', '.', '.']);
    if same_chars(code, &v) {
        return Some('7');
    }
    let v = vec!['-', '-', '-', '.', '.'];
    assert(v@ == seq!['-', '-', '-', '.', '.']);
    if same_chars(code, &v) {
        return Some('8');
    }
    let v = vec!['-', '-', '-', '-', '.'];
    assert(v@ == seq!['-', '-', '-', '-', '.']);
    if same_chars(code, &v) {
        return Some('9');
    }
    let v = vec!['-', '-', '-', '-', '-'];
    assert(v@ == seq!['-', '-', '-', '-', '-']);
    if same_chars(code, &v) {
        return Some('0');
    }
    let v = vec!['.', '-', '.', '-', '.', '-'];
    assert(v@ == seq!['.', '-', '.', '-', '.', '-']);
    if same_chars(code, &v) {
        return Some('.');
    }
    let v = vec!['-', '-', '.', '.', '-', '-'];
    assert(v@ == seq!['-', '-', '.', '.', '-', '-']);
    if same_chars(code, &v) {
        return Some(',');
    }
    let v = vec!['.', '.', '-', '-', '.', '.'];
    assert(v@ == seq!['.', '.', '-', '-', '.', '.']);
    if same_chars(code, &v) {
        return Some('?');
    }
    let v = vec!['-', '.', '-', '.', '-', '-'];
    assert(v@ == seq!['-', '.', '-', '.', '-', '-']);
    if same_chars(code, &v) {
        return Some('!');
    }
    let v = vec!['-', '.', '.', '.', '.', '-'];
    assert(v@ == seq!['-', '.', '.', '.', '.', '-']);
    if same_chars(code, &v) {
        return Some('-');
    }
    let v = vec!['-', '.', '.', '-', '.'];
    assert(v@ == seq!['-', '.', '.', '-', '.']);
    if same_chars(code, &v) {
        return Some('/');
    }
    let v = vec!['.', '-', '-', '.', '-', '.'];
    assert(v@ == seq!['.', '-', '-', '.', '-', '.']);
    if same_chars(code, &v) {
        return Some('@');
    }
    let v = vec!['-', '.', '-', '-', '.'];
    assert(v@ == seq!['-', '.', '-', '-', '.']);
    if same_chars(code, &v) {
        return Some('(');
    }
    let v = vec!['-', '.', '-', '-', '.', '-'];
    assert(v@ == seq!['-', '.', '-', '-', '.', '-']);
    if same_chars(code, &v) {
        return Some(')');
    }
    None
}

/// The pieces of `s` between the separators ` / `, after the piece `cur`
/// begun so far and the pieces `done`.
pub open spec fn split_gaps_from(s: Seq<char>, cur: Seq<char>, done: Seq<Seq<char>>) -> Seq<Seq<char>>
    decreases s.len(),
{
    if s.len() == 0 {
        done.push(cur)
    } else if s.len() >= 3 && s[0] == ' ' && s[1] == '/' && s[2] == ' ' {
        split_gaps_from(s.skip(3), seq![], done.push(cur))
    } else {
        split_gaps_from(s.drop_first(), cur.push(s[0]), done)
    }
}

/// The pieces of `s` between the separators ` / `, taken from the left
/// without overlap, as `str::split(" / ")` gives them.
pub open spec fn split_gaps(s: Seq<char>) -> Seq<Seq<char>> {
    split_gaps_from(s, seq![], seq![])
}

/// The characters of the codes among `codes` that stand for one.
pub open spec fn known_chars(codes: Seq<Seq<char>>) -> Seq<char>
    decreases codes.len(),
{
    if codes.len() == 0 {
        seq![]
    } else {
        let rest = known_chars(codes.drop_last());
        match char_of_code(codes.last()) {
            Some(c) => rest.push(c),
            None => rest,
        }
    }
}

/// A text read from written Morse code: three or more white space
/// characters, and ` / `, separate words; codes within a word are separated
/// by white space; codes that stand for no character are left out; words are
/// joined with one space.
pub open spec fn text_of_code(code: Seq<char>) -> Seq<char> {
    let pieces = split_gaps(long_gaps_replaced(code, seq![' ', '/', ' ']));
    join(pieces.map_values(|p: Seq<char>| known_chars(words(p))), seq![' '])
}

fn split_on_gaps(s: &Vec<char>) -> (r: Vec<Vec<char>>)
    ensures
        r@.map_values(|w: Vec<char>| w@) == split_gaps(s@),
{
    let mut done: Vec<Vec<char>> = Vec::new();
    let mut cur: Vec<char> = Vec::new();
    let mut i: usize = 0;
    assert(s@.skip(0) == s@);
    assert(done@.map_values(|w: Vec<char>| w@) == Seq::<Seq<char>>::empty());
    assert(cur@ == Seq::<char>::empty());
    while i < s.len()
        invariant
            i <= s.len(),
            split_gaps_from(s@.skip(i as int), cur@, done@.map_values(|w: Vec<char>| w@))
                == split_gaps(s@),
        decreases s.len() - i,
    {
        let ghost rest = s@.skip(i as int);
        let ghost d0 = done@.map_values(|w: Vec<char>| w@);
        let ghost c0 = cur@;
        if s.len() - i >= 3 && s[i] == ' ' && s[i + 1] == '/' && s[i + 2] == ' ' {
            assert(rest.skip(3) == s@.skip(i + 3));
            let ghost d = done@;
            done.push(cur);
            assert(done@.map_values(|w: Vec<char>| w@) == d.map_values(|w: Vec<char>| w@).push(c0));
            cur = Vec::new();
            i = i + 3;
        } else {
            assert(rest.drop_first() == s@.skip(i + 1));
            cur.push(s[i]);
            i = i + 1;
        }
        assert(split_gaps_from(rest, c0, d0) == split_gaps_from(
            s@.skip(i as int),
            cur@,
            done@.map_values(|w: Vec<char>| w@),
        ));
    }
    assert(s@.skip(s.len() as int).len() == 0);
    let ghost d = done@;
    let ghost c = cur@;
    done.push(cur);
    assert(done@.map_values(|w: Vec<char>| w@) == d.map_values(|w: Vec<char>| w@).push(c));
    done
}

fn decode_piece(piece: &Vec<char>) -> (r: Vec<char>)
    ensures
        r@ == known_chars(words(piece@)),
{
    let codes = split_words(piece);
    let ghost cv = codes@.map_values(|w: Vec<char>| w@);
    let mut out: Vec<char> = Vec::new();
    let mut i: usize = 0;
    while i < codes.len()
        invariant
            i <= codes.len(),
            cv == codes@.map_values(|w: Vec<char>| w@),
            out@ == known_chars(cv.take(i as int)),
        decreases codes.len() - i,
    {
        assert(cv.take(i + 1).drop_last() == cv.take(i as int));
        match char_for_code(&codes[i]) {
            Some(c) => out.push(c),
            None => {},
        }
        i = i + 1;
    }
    assert(cv.take(codes.len() as int) == cv);
    out
}

/// Reads a text from written Morse code: three or more white space
/// characters, and ` / `, separate words; codes within a word are separated
/// by white space; codes that stand for no character are left out; the
/// words are joined with one space.
pub fn code_to_text(code: &str) -> (r: String)
    ensures
        r@ == text_of_code(code@),
{
    let sep_chars = vec![' ', '/', ' '];
    assert(sep_chars@ == seq![' ', '/', ' ']);
    let sep = string_of(&sep_chars);
    let marked = replace_long_gaps(code, sep.as_str());
    let chars = chars_of(marked.as_str());
    let pieces = split_on_gaps(&chars);
    let ghost pv = pieces@.map_values(|w: Vec<char>| w@);
    let mut decoded: Vec<Vec<char>> = Vec::new();
    let mut i: usize = 0;
    while i < pieces.len()
        invariant
            i <= pieces.len(),
            pv == pieces@.map_values(|w: Vec<char>| w@),
            decoded@.map_values(|v: Vec<char>| v@) == pv.take(i as int).map_values(
                |p: Seq<char>| known_chars(words(p)),
            ),
        decreases pieces.len() - i,
    {
        let d = decode_piece(&pieces[i]);
        let ghost before = decoded@;
        let ghost dv = d@;
        decoded.push(d);
        assert(decoded@.map_values(|v: Vec<char>| v@) == before.map_values(|v: Vec<char>| v@).push(dv));
        assert(pv.take(i + 1) == pv.take(i as int).push(pv[i as int]));
        i = i + 1;
    }
    assert(pv.take(pieces.len() as int) == pv);
    let space = vec![' '];
    assert(space@ == seq![' ']);
    string_of(&join_parts(&decoded, &space))
}

} // verus!
