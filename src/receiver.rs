//! The receiving pipeline: tone decisions in, edges to the Morse decoder,
//! previews and finished messages out.
use vstd::prelude::*;

use morse_codec::decoder::{Decoder, MorseDecoder};

use crate::detector::{DetectorEvent, EdgeDetector, SignalEdge};
use crate::message::{content_of, message_content, preview_content, preview_of};

verus! {

/// The largest message, in characters, that the decoder holds.
pub const MESSAGE_CAPACITY: usize = 9999;

/// `morse_codec`'s decoder, opaque here: the library hands it signals and
/// reads its message.
#[verifier::external_type_specification]
#[verifier::external_body]
pub struct ExMorseDecoder<const MSG_MAX: usize>(MorseDecoder<MSG_MAX>);

/// The longest dot, in milliseconds, that the decoder takes: it works in
/// `u16` milliseconds and multiplies the dot length by eight for the gap
/// between words.
pub const MAX_DOT_MS: u32 = 8191;

/// One thing handed to the decoder.
#[derive(Clone, Copy, Debug, PartialEq, Eq, Structural)]
pub enum AssemblerInput {
    /// A signal of `duration_ms` that was high (a tone) or low.
    Signal { duration_ms: u16, is_high: bool },
    /// The end of a symbol, and of a word too when `end_word`.
    End { end_word: bool },
}

/// The text that `morse_codec`'s decoder holds when, made with the reference
/// dot `reference_ms`, it has been handed `inputs` since it was made or last
/// emptied after an end of symbol. The decoder is deterministic, and the
/// end of a symbol resets its character buffer, so nothing else matters.
pub uninterp spec fn decoded_of(reference_ms: u16, inputs: Seq<AssemblerInput>) -> Seq<char>;

/// `morse_codec`'s decoder, with the history of what it has been handed.
pub struct Assembler {
    decoder: MorseDecoder<MESSAGE_CAPACITY>,
    reference_ms: u16,
    inputs: Ghost<Seq<AssemblerInput>>,
}

/// Relies on `morse_codec::decoder::Decoder::new`, `with_reference_short_ms`
/// and `build`: a decoder with an empty message whose reference dot length is
/// fixed to `reference_ms`. With a reference of at least 1 the decoder counts
/// as calibrated and never changes it, and up to `MAX_DOT_MS` none of its
/// multiples of it overflows.
#[verifier::external_body]
fn new_decoder(reference_ms: u16) -> (r: MorseDecoder<MESSAGE_CAPACITY>)
    requires
        1 <= reference_ms <= MAX_DOT_MS,
{
    Decoder::<MESSAGE_CAPACITY>::new().with_reference_short_ms(reference_ms).build()
}

impl Assembler {
    /// The reference dot length, in milliseconds.
    pub closed spec fn reference(&self) -> u16 {
        self.reference_ms
    }

    /// What the decoder has been handed since it was made or last emptied.
    pub closed spec fn fed(&self) -> Seq<AssemblerInput> {
        self.inputs@
    }

    /// A fresh decoder with the reference dot `reference_ms`.
    pub fn new(reference_ms: u16) -> (r: Assembler)
        requires
            1 <= reference_ms <= MAX_DOT_MS,
        ensures
            r.reference() == reference_ms,
            r.fed() == Seq::<AssemblerInput>::empty(),
    {
        Assembler { decoder: new_decoder(reference_ms), reference_ms, inputs: Ghost(Seq::empty()) }
    }

    /// Relies on `morse_codec::decoder::MorseDecoder::signal_event`: hands the
    /// decoder a signal of `duration_ms` that was high (a tone) or low. For a
    /// decoder made by `new_decoder` its arithmetic stays within `u16` for any
    /// duration, so it does not panic.
    #[verifier::external_body]
    fn signal(&mut self, duration_ms: u16, is_high: bool)
        ensures
            final(self).reference() == old(self).reference(),
            final(self).fed() == old(self).fed().push(AssemblerInput::Signal { duration_ms, is_high }),
    {
        self.decoder.signal_event(duration_ms, is_high)
    }

    /// Relies on `morse_codec::decoder::MorseDecoder::signal_event_end`:
    /// closes the pending symbol, and the word too when `end_word`.
    #[verifier::external_body]
    fn end(&mut self, end_word: bool)
        ensures
            final(self).reference() == old(self).reference(),
            final(self).fed() == old(self).fed().push(AssemblerInput::End { end_word }),
    {
        self.decoder.signal_event_end(end_word)
    }

    /// Relies on `morse_codec::message::Message::as_str`: the text decoded so
    /// far. The default build keeps the message as ASCII bytes, so the
    /// conversion to `str` inside it does not fail.
    #[verifier::external_body]
    fn text(&self) -> (r: String)
        ensures
            r@ == decoded_of(self.reference(), self.fed()),
    {
        self.decoder.message.as_str().to_string()
    }

    /// Relies on `morse_codec::message::Message::clear`: empties the message.
    /// Right after an end of symbol the decoder's character buffer is empty
    /// too, so it is then as a fresh decoder.
    #[verifier::external_body]
    fn clear(&mut self)
        requires
            old(self).fed().len() > 0,
            old(self).fed().last() is End,
        ensures
            final(self).reference() == old(self).reference(),
            final(self).fed() == Seq::<AssemblerInput>::empty(),
    {
        self.decoder.message.clear()
    }
}

/// The input that hands an edge to the decoder: its duration, capped to the
/// decoder's `u16` milliseconds, and the state that lasted that long.
pub open spec fn edge_input(e: SignalEdge) -> AssemblerInput {
    AssemblerInput::Signal {
        duration_ms: if e.duration_ms > u16::MAX { u16::MAX } else { e.duration_ms as u16 },
        is_high: e.prior_state,
    }
}

/// The inputs once an event's edge, if any, is handed over.
pub open spec fn inputs_after(inputs: Seq<AssemblerInput>, ev: DetectorEvent) -> Seq<AssemblerInput> {
    match ev.edge {
        Some(e) => inputs.push(edge_input(e)),
        None => inputs,
    }
}

/// The inputs once the pending symbol and word are closed.
pub open spec fn flushed(inputs: Seq<AssemblerInput>) -> Seq<AssemblerInput> {
    inputs + seq![AssemblerInput::End { end_word: false }, AssemblerInput::End { end_word: true }]
}

/// The characters of an optional string.
pub open spec fn shown(s: Option<String>) -> Option<Seq<char>> {
    match s {
        Some(t) => Some(t@),
        None => None,
    }
}

/// What one detection window produced for the output.
pub struct WindowOutput {
    /// The message decoded so far, after an edge.
    pub preview: Option<String>,
    /// The content of a message that has just been finalized.
    pub finished: Option<String>,
}

/// The receiving pipeline of one signal source: the edge detector, and the
/// Morse decoder that its edges feed.
pub struct Receiver {
    detector: EdgeDetector,
    assembler: Assembler,
    output_morse: bool,
}

impl Receiver {
    /// The state of the edge detector.
    pub closed spec fn detector_state(&self) -> EdgeDetector {
        self.detector
    }

    /// The decoder's reference dot length.
    pub closed spec fn reference(&self) -> u16 {
        self.assembler.reference()
    }

    /// What the decoder has been handed since the last finalized message.
    pub closed spec fn fed(&self) -> Seq<AssemblerInput> {
        self.assembler.fed()
    }

    /// Whether finished messages are rendered as Morse code.
    pub closed spec fn renders_morse(&self) -> bool {
        self.output_morse
    }

    /// The message that finishing now would give.
    pub open spec fn pending_content(&self) -> Option<Seq<char>> {
        content_of(decoded_of(self.reference(), flushed(self.fed())), self.renders_morse())
    }

    pub open spec fn wf(&self) -> bool {
        &&& self.detector_state().wf()
        &&& 1 <= self.detector_state().dot_duration_ms <= MAX_DOT_MS
        &&& self.reference() == self.detector_state().dot_duration_ms
    }

    /// Creates a receiver for samples at `sample_rate` per second and dots of
    /// `dot_duration_ms`; finished messages are rendered as Morse code when
    /// `output_morse`.
    pub fn new(sample_rate: u32, dot_duration_ms: u32, debounce_ms: u32, output_morse: bool) -> (r:
        Receiver)
        requires
            sample_rate > 0,
            1 <= dot_duration_ms <= MAX_DOT_MS,
        ensures
            r.wf(),
            r.detector_state() == EdgeDetector::initial(sample_rate, dot_duration_ms, debounce_ms),
            r.fed() == Seq::<AssemblerInput>::empty(),
            r.renders_morse() == output_morse,
    {
        Receiver {
            detector: EdgeDetector::new(sample_rate, dot_duration_ms, debounce_ms),
            assembler: Assembler::new(dot_duration_ms as u16),
            output_morse,
        }
    }

    /// Samples consumed so far.
    pub fn sample_clock(&self) -> (r: u64)
        ensures
            r == self.detector_state().sample_clock,
    {
        self.detector.sample_clock
    }

    /// Closes the decoder's pending symbol and word and takes the message it
    /// holds.
    fn flush(&mut self) -> (r: Option<String>)
        ensures
            final(self).detector == old(self).detector,
            final(self).output_morse == old(self).output_morse,
            final(self).assembler.reference() == old(self).assembler.reference(),
            final(self).assembler.fed() == flushed(old(self).assembler.fed()),
            shown(r) == content_of(
                decoded_of(old(self).assembler.reference(), flushed(old(self).assembler.fed())),
                old(self).output_morse,
            ),
    {
        self.assembler.end(false);
        self.assembler.end(true);
        assert(self.assembler.fed() =~= flushed(old(self).assembler.fed()));
        let raw = self.assembler.text();
        let content = message_content(raw.as_str(), self.output_morse);
        assert(content_of(raw@, self.output_morse) == shown(content));
        content
    }

    /// Takes the decision of the detection window that ends after `advanced`
    /// more samples. An edge goes to the decoder (its duration capped to the
    /// decoder's `u16` milliseconds, with the state that lasted that long)
    /// and brings a preview of the message so far; a finalization closes the
    /// pending symbol and word, brings the message's content, and empties the
    /// decoder for the next message.
    pub fn on_window(&mut self, advanced: u64, tone_detected: bool) -> (out: WindowOutput)
        requires
            old(self).wf(),
            old(self).detector_state().sample_clock + advanced <= u64::MAX,
        ensures
            final(self).wf(),
            final(self).renders_morse() == old(self).renders_morse(),
            final(self).reference() == old(self).reference(),
            final(self).detector_state() == old(self).detector_state().advanced(advanced).next(
                tone_detected,
            ),
            ({
                let ev = old(self).detector_state().advanced(advanced).event(tone_detected);
                let inputs = inputs_after(old(self).fed(), ev);
                &&& ev.edge is None ==> out.preview is None
                &&& ev.edge is Some ==> shown(out.preview) == preview_of(
                    decoded_of(old(self).reference(), inputs),
                )
                &&& !ev.finalize ==> out.finished is None && final(self).fed() == inputs
                &&& ev.finalize ==> shown(out.finished) == content_of(
                    decoded_of(old(self).reference(), flushed(inputs)),
                    old(self).renders_morse(),
                ) && final(self).fed() == Seq::<AssemblerInput>::empty()
            }),
    {
        let ev: DetectorEvent = self.detector.process_window(advanced, tone_detected);
        let mut preview: Option<String> = None;
        match ev.edge {
            Some(edge) => {
                let ms: u16 = if edge.duration_ms > u16::MAX as u32 {
                    u16::MAX
                } else {
                    edge.duration_ms as u16
                };
                self.assembler.signal(ms, edge.prior_state);
                let raw = self.assembler.text();
                preview = preview_content(raw.as_str());
                assert(preview_of(raw@) == shown(preview));
            },
            None => {},
        }
        let mut finished: Option<String> = None;
        if ev.finalize {
            finished = self.flush();
            self.assembler.clear();
        }
        WindowOutput { preview, finished }
    }

    /// Ends the input: closes the decoder's pending symbol and word whatever
    /// the time since the last change, and gives the content of the message
    /// it held. The receiver is consumed, so this happens once.
    pub fn finish(self) -> (r: Option<String>)
        ensures
            shown(r) == self.pending_content(),
    {
        let mut me = self;
        me.flush()
    }
}

} // verus!
