//! Finalized messages and the text that a message is shown with.
use vstd::prelude::*;

use crate::detector::ms_of;
use crate::morse::{morse_of_text, text_to_morse};
use crate::text::{append, chars_of, normalize, normalized, split_words, string_of, words};

verus! {

/// A finalized message: when it ended and what it said.
#[derive(Clone, Debug)]
pub struct Message {
    pub timestamp: String,
    pub content: String,
}

impl Message {
    pub fn new(timestamp: String, content: String) -> (r: Message)
        ensures
            r.timestamp@ == timestamp@,
            r.content@ == content@,
    {
        Message { timestamp, content }
    }
}

/// What a message decoded as `raw` is shown as: nothing when its normalized
/// text is empty; otherwise that text, or its Morse code when `as_morse`.
pub open spec fn content_of(raw: Seq<char>, as_morse: bool) -> Option<Seq<char>> {
    let n = normalized(raw);
    if n.len() == 0 {
        None
    } else if as_morse {
        Some(morse_of_text(n))
    } else {
        Some(n)
    }
}

/// The text shown for decoded text `raw`: normalized, and rendered as Morse
/// code when `as_morse`; `None` when nothing but white space was decoded.
pub fn message_content(raw: &str, as_morse: bool) -> (r: Option<String>)
    ensures
        r is None <==> content_of(raw@, as_morse) is None,
        r is Some ==> content_of(raw@, as_morse) == Some(r->0@),
{
    let n = normalize(raw);
    if n.len() == 0 {
        None
    } else {
        let s = string_of(&n);
        if as_morse {
            Some(text_to_morse(s.as_str()))
        } else {
            Some(s)
        }
    }
}

/// The in-progress text shown for a message decoded so far as `raw`: its
/// normalized text, or nothing when that is empty.
pub open spec fn preview_of(raw: Seq<char>) -> Option<Seq<char>> {
    if normalized(raw).len() == 0 {
        None
    } else {
        Some(normalized(raw))
    }
}

/// The in-progress text of a message decoded so far as `raw`: its normalized
/// text, or `None` when that is empty.
pub fn preview_content(raw: &str) -> (r: Option<String>)
    ensures
        r is None <==> preview_of(raw@) is None,
        r is Some ==> preview_of(raw@) == Some(r->0@),
{
    let n = normalize(raw);
    if n.len() == 0 {
        None
    } else {
        Some(string_of(&n))
    }
}

/// The decimal digit for `d`, below ten.
pub open spec fn digit(d: nat) -> char {
    if d == 0 {
        '0'
    } else if d == 1 {
        '1'
    } else if d == 2 {
        '2'
    } else if d == 3 {
        '3'
    } else if d == 4 {
        '4'
    } else if d == 5 {
        '5'
    } else if d == 6 {
        '6'
    } else if d == 7 {
        '7'
    } else if d == 8 {
        '8'
    } else {
        '9'
    }
}

/// `n` in decimal, without leading zeros.
pub open spec fn decimal(n: nat) -> Seq<char>
    decreases n,
{
    if n < 10 {
        seq![digit(n)]
    } else {
        decimal(n / 10).push(digit(n % 10))
    }
}

/// A time given in milliseconds as seconds with three decimals, as in
/// `12.345 sec`.
pub open spec fn seconds_text(ms: nat) -> Seq<char> {
    decimal(ms / 1000) + seq!['.', digit((ms % 1000) / 100), digit((ms % 100) / 10), digit(ms % 10)]
        + seq![' ', 's', 'e', 'c']
}

fn digit_char(d: u64) -> (r: char)
    requires
        d < 10,
    ensures
        r == digit(d as nat),
{
    match d {
        0 => '0',
        1 => '1',
        2 => '2',
        3 => '3',
        4 => '4',
        5 => '5',
        6 => '6',
        7 => '7',
        8 => '8',
        9 => '9',
        _ => '9',
    }
}

/// Appends `n` in decimal.
fn push_decimal(out: &mut Vec<char>, n: u64)
    ensures
        final(out)@ == old(out)@ + decimal(n as nat),
    decreases n,
{
    if n >= 10 {
        push_decimal(out, n / 10);
    }
    out.push(digit_char(n % 10));
}

/// The time stamp of a message from a source with a sample clock: the time
/// that `sample_clock` samples at `sample_rate` per second take, in seconds
/// with three decimals (milliseconds rounded to the nearest).
pub fn elapsed_timestamp(sample_clock: u64, sample_rate: u32) -> (r: String)
    requires
        sample_rate > 0,
    ensures
        r@ == seconds_text(ms_of(sample_clock as int, sample_rate as int) as nat),
{
    let d = sample_clock as u128;
    let rate = sample_rate as u128;
    let q = (2000 * d + rate) / (2 * rate);
    let ms: u64 = if q > u32::MAX as u128 {
        u32::MAX as u64
    } else {
        q as u64
    };
    let mut out: Vec<char> = Vec::new();
    push_decimal(&mut out, ms / 1000);
    out.push('.');
    out.push(digit_char((ms % 1000) / 100));
    out.push(digit_char((ms % 100) / 10));
    out.push(digit_char(ms % 10));
    out.push(' ');
    out.push('s');
    out.push('e');
    out.push('c');
    assert(out@ == seconds_text(ms as nat));
    string_of(&out)
}

/// Greedy wrapping of `ws` after the line `cur` and the finished lines
/// `done`: a word that would make the line longer than `width` (with one
/// space before it) first ends the line.
pub open spec fn wrap_from(ws: Seq<Seq<char>>, width: nat, cur: Seq<char>, done: Seq<Seq<char>>) -> Seq<
    Seq<char>,
>
    decreases ws.len(),
{
    if ws.len() == 0 {
        if cur.len() > 0 {
            done.push(cur)
        } else {
            done
        }
    } else {
        let w = ws[0];
        let (cur1, done1) = if cur.len() + w.len() + 1 > width {
            (seq![], done.push(cur))
        } else {
            (cur, done)
        };
        let cur2 = if cur1.len() > 0 {
            cur1 + seq![' '] + w
        } else {
            w
        };
        wrap_from(ws.drop_first(), width, cur2, done1)
    }
}

/// The lines of a text wrapped greedily at `width` characters.
pub open spec fn wrapped(text: Seq<char>, width: nat) -> Seq<Seq<char>> {
    wrap_from(words(text), width, seq![], seq![])
}

/// `n` spaces.
pub open spec fn spaces(n: nat) -> Seq<char>
    decreases n,
{
    if n == 0 {
        seq![]
    } else {
        spaces((n - 1) as nat).push(' ')
    }
}

/// The lines that show a message on a terminal `terminal_width` characters
/// wide: its content wrapped at two thirds of the width, the time stamp at
/// the right end of the first line, and an empty line after.
pub open spec fn log_lines_of(content: Seq<char>, timestamp: Seq<char>, terminal_width: nat) -> Seq<
    Seq<char>,
> {
    let lines = wrapped(content, terminal_width * 2 / 3);
    if lines.len() == 0 {
        seq![seq![]]
    } else {
        let pad = if terminal_width > lines[0].len() + timestamp.len() {
            (terminal_width - lines[0].len() - timestamp.len()) as nat
        } else {
            0
        };
        seq![lines[0] + spaces(pad) + timestamp] + lines.drop_first() + seq![seq![]]
    }
}

fn wrap_words(ws: &Vec<Vec<char>>, width: usize) -> (r: Vec<Vec<char>>)
    ensures
        r@.map_values(|l: Vec<char>| l@) == wrap_from(
            ws@.map_values(|w: Vec<char>| w@),
            width as nat,
            seq![],
            seq![],
        ),
{
    let ghost wv = ws@.map_values(|w: Vec<char>| w@);
    let mut done: Vec<Vec<char>> = Vec::new();
    let mut cur: Vec<char> = Vec::new();
    let mut i: usize = 0;
    assert(wv.skip(0) == wv);
    assert(done@.map_values(|l: Vec<char>| l@) == Seq::<Seq<char>>::empty());
    while i < ws.len()
        invariant
            i <= ws.len(),
            wv == ws@.map_values(|w: Vec<char>| w@),
            wrap_from(wv.skip(i as int), width as nat, cur@, done@.map_values(|l: Vec<char>| l@))
                == wrap_from(wv, width as nat, seq![], seq![]),
        decreases ws.len() - i,
    {
        let ghost c0 = cur@;
        let ghost d0 = done@.map_values(|l: Vec<char>| l@);
        assert(wv.skip(i as int).drop_first() == wv.skip(i + 1));
        assert(wv.skip(i as int)[0] == ws[i as int]@);
        let w = &ws[i];
        if cur.len() as u128 + w.len() as u128 + 1 > width as u128 {
            let ghost d = done@;
            done.push(cur);
            assert(done@.map_values(|l: Vec<char>| l@) == d.map_values(|l: Vec<char>| l@).push(c0));
            cur = Vec::new();
        }
        let ghost c1 = cur@;
        let ghost d1 = done@.map_values(|l: Vec<char>| l@);
        if cur.len() > 0 {
            cur.push(' ');
        }
        append(&mut cur, w);
        proof {
            if c1.len() > 0 {
                assert(cur@ =~= c1 + seq![' '] + w@);
            } else {
                assert(cur@ =~= w@);
            }
        }
        assert(wrap_from(wv.skip(i as int), width as nat, c0, d0) == wrap_from(
            wv.skip(i + 1),
            width as nat,
            cur@,
            d1,
        ));
        i = i + 1;
        assert(wrap_from(wv.skip(i - 1), width as nat, c0, d0) == wrap_from(
            wv.skip(i as int),
            width as nat,
            cur@,
            done@.map_values(|l: Vec<char>| l@),
        ));
    }
    if cur.len() > 0 {
        let ghost d = done@;
        let ghost c = cur@;
        done.push(cur);
        assert(done@.map_values(|l: Vec<char>| l@) == d.map_values(|l: Vec<char>| l@).push(c));
    }
    done
}

fn push_spaces(out: &mut Vec<char>, n: usize)
    ensures
        final(out)@ == old(out)@ + spaces(n as nat),
{
    let mut i: usize = 0;
    while i < n
        invariant
            i <= n,
            out@ == old(out)@ + spaces(i as nat),
        decreases n - i,
    {
        out.push(' ');
        i = i + 1;
    }
}

/// The lines that show a message on a terminal `terminal_width` characters
/// wide: the content wrapped greedily at two thirds of the width, the time
/// stamp placed at the right end of the first line, then an empty line.
/// The content must hold at least one word.
pub fn log_lines(message: &Message, terminal_width: usize) -> (r: Vec<String>)
    requires
        words(message.content@).len() > 0,
    ensures
        r@.map_values(|l: String| l@) == log_lines_of(
            message.content@,
            message.timestamp@,
            terminal_width as nat,
        ),
{
    let width = (terminal_width as u128 * 2 / 3) as usize;
    let ws = split_words(&chars_of(message.content.as_str()));
    let lines = wrap_words(&ws, width);
    let ghost lv = lines@.map_values(|l: Vec<char>| l@);
    let mut out: Vec<String> = Vec::new();
    if lines.len() == 0 {
        out.push(string_of(&Vec::new()));
        assert(out@.map_values(|l: String| l@) =~= seq![Seq::<char>::empty()]);
        return out;
    }
    let ts = chars_of(message.timestamp.as_str());
    let mut first: Vec<char> = Vec::new();
    append(&mut first, &lines[0]);
    let used = lines[0].len() as u128 + ts.len() as u128;
    let pad: usize = if terminal_width as u128 > used {
        (terminal_width as u128 - used) as usize
    } else {
        0
    };
    push_spaces(&mut first, pad);
    append(&mut first, &ts);
    out.push(string_of(&first));
    let mut k: usize = 1;
    while k < lines.len()
        invariant
            1 <= k <= lines.len(),
            lv == lines@.map_values(|l: Vec<char>| l@),
            out@.map_values(|l: String| l@) == seq![first@] + lv.subrange(1, k as int),
        decreases lines.len() - k,
    {
        let ghost before = out@;
        out.push(string_of(&lines[k]));
        assert(out@.map_values(|l: String| l@) == before.map_values(|l: String| l@).push(lv[k as int]));
        assert(lv.subrange(1, k + 1) == lv.subrange(1, k as int).push(lv[k as int]));
        k = k + 1;
    }
    let ghost before = out@;
    out.push(string_of(&Vec::new()));
    assert(out@.map_values(|l: String| l@) == before.map_values(|l: String| l@).push(seq![]));
    assert(lv.subrange(1, lines.len() as int) == lv.drop_first());
    assert(out@.map_values(|l: String| l@) =~= log_lines_of(
        message.content@,
        message.timestamp@,
        terminal_width as nat,
    ));
    out
}

} // verus!
