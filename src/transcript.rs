//! The transcript of a half-duplex session: finished messages received and
//! sent, and the preview of the message being received. Previews travel
//! from the receiver to the display marked with a prefix.
use vstd::prelude::*;

use crate::text::{append, chars_of, string_of, trim, trim_ws};

verus! {

/// The prefix that marks a preview of a message still being received.
pub open spec fn typing_marker() -> Seq<char> {
    seq![':', 't', 'y', 'p', 'i', 'n', 'g', ':']
}

fn typing_marker_chars() -> (r: Vec<char>)
    ensures
        r@ == typing_marker(),
{
    vec![':', 't', 'y', 'p', 'i', 'n', 'g', ':']
}

/// A preview as it travels to the display: the marker, then the text.
pub fn preview_event(text: &str) -> (r: String)
    ensures
        r@ == typing_marker() + text@,
{
    let mut out = typing_marker_chars();
    append(&mut out, &chars_of(text));
    string_of(&out)
}

/// A log line: the time stamp in brackets, a direction mark, then the text.
pub open spec fn log_line(timestamp: Seq<char>, direction: char, text: Seq<char>) -> Seq<char> {
    seq!['['] + timestamp + seq![']', ' ', direction, ' '] + text
}

fn make_log_line(timestamp: &str, direction: char, text: &Vec<char>) -> (r: String)
    ensures
        r@ == log_line(timestamp@, direction, text@),
{
    let mut out: Vec<char> = Vec::new();
    out.push('[');
    append(&mut out, &chars_of(timestamp));
    out.push(']');
    out.push(' ');
    out.push(direction);
    out.push(' ');
    append(&mut out, text);
    string_of(&out)
}

/// The finished messages and the preview in progress.
pub struct Transcript {
    pub log: Vec<String>,
    pub preview: Option<String>,
}

impl Transcript {
    /// An empty transcript.
    pub fn new() -> (r: Transcript)
        ensures
            r.log@.len() == 0,
            r.preview is None,
    {
        Transcript { log: Vec::new(), preview: None }
    }

    /// Takes a string from the receiver: a marked preview replaces the
    /// preview; anything else is a finished message, logged as received at
    /// `timestamp`, and ends the preview.
    pub fn receive(&mut self, raw: &str, timestamp: &str)
        ensures
            ({
                let m = typing_marker();
                if raw@.len() >= m.len() && raw@.take(m.len() as int) == m {
                    &&& final(self).log@ == old(self).log@
                    &&& final(self).preview is Some
                    &&& final(self).preview->0@ == raw@.skip(m.len() as int)
                } else {
                    &&& final(self).log@.len() == old(self).log@.len() + 1
                    &&& final(self).log@.take(old(self).log@.len() as int) == old(self).log@
                    &&& final(self).log@.last()@ == log_line(timestamp@, '>', raw@)
                    &&& final(self).preview is None
                }
            }),
    {
        let chars = chars_of(raw);
        let marker = typing_marker_chars();
        let mut marked = chars.len() >= marker.len();
        let mut i: usize = 0;
        while marked && i < marker.len()
            invariant
                i <= marker.len(),
                marker@ == typing_marker(),
                marked ==> chars.len() >= marker.len(),
                marked ==> chars@.take(i as int) == marker@.take(i as int),
                !marked ==> !(chars@.len() >= marker@.len() && chars@.take(marker.len() as int)
                    == marker@),
            decreases marker.len() - i + (if marked { 1int } else { 0int }),
        {
            if chars[i] != marker[i] {
                assert(chars@.take(marker.len() as int)[i as int] != marker@[i as int]);
                marked = false;
            } else {
                assert(chars@.take(i + 1) == chars@.take(i as int).push(chars@[i as int]));
                assert(marker@.take(i + 1) == marker@.take(i as int).push(marker@[i as int]));
                i = i + 1;
            }
        }
        if marked {
            assert(marker@.take(marker.len() as int) == marker@);
            let mut rest: Vec<char> = Vec::new();
            let mut k: usize = marker.len();
            while k < chars.len()
                invariant
                    marker.len() <= k <= chars.len(),
                    rest@ == chars@.subrange(marker.len() as int, k as int),
                decreases chars.len() - k,
            {
                rest.push(chars[k]);
                k = k + 1;
                assert(rest@ == chars@.subrange(marker.len() as int, k as int));
            }
            assert(rest@ == chars@.skip(marker.len() as int));
            self.preview = Some(string_of(&rest));
        } else {
            let line = make_log_line(timestamp, '>', &chars);
            let ghost before = self.log@;
            self.log.push(line);
            assert(self.log@.take(before.len() as int) == before);
            self.preview = None;
        }
    }

    /// Logs a message typed by the user as sent at `timestamp`, trimmed;
    /// gives the trimmed text to send, or `None` (logging nothing) when it is
    /// empty.
    pub fn send(&mut self, input: &str, timestamp: &str) -> (r: Option<String>)
        ensures
            final(self).preview == old(self).preview,
            trim_ws(input@).len() == 0 ==> r is None && final(self).log@ == old(self).log@,
            trim_ws(input@).len() > 0 ==> {
                &&& r is Some
                &&& r->0@ == trim_ws(input@)
                &&& final(self).log@.len() == old(self).log@.len() + 1
                &&& final(self).log@.take(old(self).log@.len() as int) == old(self).log@
                &&& final(self).log@.last()@ == log_line(timestamp@, '<', trim_ws(input@))
            },
    {
        let t = trim(&chars_of(input));
        if t.len() == 0 {
            return None;
        }
        let line = make_log_line(timestamp, '<', &t);
        let ghost before = self.log@;
        self.log.push(line);
        assert(self.log@.take(before.len() as int) == before);
        Some(string_of(&t))
    }
}

/// The first log line that fits on `rows` rows: the last `rows` lines are
/// shown.
pub fn first_visible_line(log_len: usize, rows: usize) -> (r: usize)
    ensures
        r == (if log_len > rows { log_len - rows } else { 0 }),
{
    if log_len > rows {
        log_len - rows
    } else {
        0
    }
}

} // verus!
