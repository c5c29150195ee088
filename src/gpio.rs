//! Receiving Morse code keyed on a digital input pin, read once per
//! millisecond. It runs the same pipeline as audio, with one sample per
//! millisecond and the key state as the tone decision.
use vstd::prelude::*;

use crate::detector::{EdgeDetector, DEBOUNCE_MS};
use crate::message::content_of;
use crate::receiver::{
    decoded_of, flushed, inputs_after, shown, AssemblerInput, Receiver, MAX_DOT_MS,
};

verus! {

/// The pin is read once per millisecond.
pub const PIN_SAMPLE_RATE: u32 = 1000;

/// An optional message as a sequence of none or one.
pub open spec fn listed(m: Option<Seq<char>>) -> Seq<Seq<char>> {
    match m {
        Some(s) => seq![s],
        None => seq![],
    }
}

/// The messages that the key readings from `keyed[t]` on give, with the
/// detector in state `d` and the decoder handed `fed` since the last
/// message: one at each finalization whose content is not empty, and one at
/// the end of the readings for what is still pending.
pub open spec fn pin_messages(
    d: EdgeDetector,
    fed: Seq<AssemblerInput>,
    keyed: Seq<bool>,
    t: nat,
    reference: u16,
    as_morse: bool,
) -> Seq<Seq<char>>
    decreases keyed.len() - t,
{
    if t >= keyed.len() {
        listed(content_of(decoded_of(reference, flushed(fed)), as_morse))
    } else {
        let now = d.advanced(if t == 0 { 0u64 } else { 1u64 });
        let ev = now.event(keyed[t as int]);
        let inputs = inputs_after(fed, ev);
        if ev.finalize {
            listed(content_of(decoded_of(reference, flushed(inputs)), as_morse)) + pin_messages(
                now.next(keyed[t as int]),
                seq![],
                keyed,
                t + 1,
                reference,
                as_morse,
            )
        } else {
            pin_messages(now.next(keyed[t as int]), inputs, keyed, t + 1, reference, as_morse)
        }
    }
}

/// Decodes Morse code keyed on a digital pin from its readings, one per
/// millisecond: `keyed[t]` says whether the key was down (a tone) at
/// millisecond `t`. The readings go through the receiving pipeline at
/// `PIN_SAMPLE_RATE` with `DEBOUNCE_MS`; the messages are those finalized
/// after `TIMEOUT_DOTS` dots without a change, then what is pending when
/// the readings end, each as Morse code when `output_morse`.
pub fn gpio_receive(dot_duration_ms: u32, keyed: &Vec<bool>, output_morse: bool) -> (r: Vec<String>)
    requires
        1 <= dot_duration_ms <= MAX_DOT_MS,
    ensures
        r@.map_values(|s: String| s@) == pin_messages(
            EdgeDetector::initial(PIN_SAMPLE_RATE, dot_duration_ms, DEBOUNCE_MS),
            seq![],
            keyed@,
            0,
            dot_duration_ms as u16,
            output_morse,
        ),
{
    let ghost total = pin_messages(
        EdgeDetector::initial(PIN_SAMPLE_RATE, dot_duration_ms, DEBOUNCE_MS),
        seq![],
        keyed@,
        0,
        dot_duration_ms as u16,
        output_morse,
    );
    let mut out: Vec<String> = Vec::new();
    let mut rx = Receiver::new(PIN_SAMPLE_RATE, dot_duration_ms, DEBOUNCE_MS, output_morse);
    assert(out@.map_values(|s: String| s@) + pin_messages(
        rx.detector_state(),
        rx.fed(),
        keyed@,
        0,
        dot_duration_ms as u16,
        output_morse,
    ) =~= total);
    let mut t: usize = 0;
    while t < keyed.len()
        invariant
            t <= keyed.len(),
            rx.wf(),
            rx.renders_morse() == output_morse,
            rx.reference() == dot_duration_ms as u16,
            rx.detector_state().sample_clock <= t,
            out@.map_values(|s: String| s@) + pin_messages(
                rx.detector_state(),
                rx.fed(),
                keyed@,
                t as nat,
                dot_duration_ms as u16,
                output_morse,
            ) == total,
        decreases keyed.len() - t,
    {
        let advanced: u64 = if t == 0 {
            0
        } else {
            1
        };
        let ghost before = out@.map_values(|s: String| s@);
        let o = rx.on_window(advanced, keyed[t]);
        match o.finished {
            Some(m) => {
                let ghost mv = m@;
                out.push(m);
                assert(out@.map_values(|s: String| s@) == before.push(mv));
                assert(before.push(mv) + pin_messages(
                    rx.detector_state(),
                    rx.fed(),
                    keyed@,
                    (t + 1) as nat,
                    dot_duration_ms as u16,
                    output_morse,
                ) =~= before + (seq![mv] + pin_messages(
                    rx.detector_state(),
                    rx.fed(),
                    keyed@,
                    (t + 1) as nat,
                    dot_duration_ms as u16,
                    output_morse,
                )));
            },
            None => {
                assert(before + (seq![] + pin_messages(
                    rx.detector_state(),
                    rx.fed(),
                    keyed@,
                    (t + 1) as nat,
                    dot_duration_ms as u16,
                    output_morse,
                )) =~= before + pin_messages(
                    rx.detector_state(),
                    rx.fed(),
                    keyed@,
                    (t + 1) as nat,
                    dot_duration_ms as u16,
                    output_morse,
                ));
            },
        }
        t = t + 1;
    }
    let ghost before = out@.map_values(|s: String| s@);
    match rx.finish() {
        Some(m) => {
            let ghost mv = m@;
            out.push(m);
            assert(out@.map_values(|s: String| s@) =~= before + seq![mv]);
        },
        None => {
            assert(before + seq![] =~= before);
        },
    }
    out
}

} // verus!
