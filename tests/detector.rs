use code_smore::detector::{EdgeDetector, SignalEdge, DEBOUNCE_MS};
use code_smore::gpio::{gpio_receive, PIN_SAMPLE_RATE};
use code_smore::receiver::Receiver;
use code_smore::window::DetectionWindow;

const RATE: u32 = 44100;
const WINDOW: u64 = 1024;
const HOP: u64 = 512;

/// Tone decisions for windows that end at `WINDOW + k * HOP` samples: a tone
/// while the window's end is within `tone_end + HOP`.
fn windows(tone_end: u64, total: u64) -> Vec<(u64, bool)> {
    let mut out = Vec::new();
    let mut end = WINDOW;
    let mut advanced = WINDOW;
    while end <= total {
        out.push((advanced, end <= tone_end + HOP));
        advanced = HOP;
        end += HOP;
    }
    out
}

#[test]
fn one_dot_then_silence_gives_one_message() {
    // 60 ms of tone at 44100 Hz, then 1300 ms of silence.
    let tone_end = 2646;
    let total = tone_end + 57330;
    let mut rx = Receiver::new(RATE, 60, DEBOUNCE_MS, false);
    let mut previews = Vec::new();
    let mut finished = Vec::new();
    for (advanced, tone) in windows(tone_end, total) {
        let out = rx.on_window(advanced, tone);
        if let Some(p) = out.preview {
            previews.push(p);
        }
        if let Some(f) = out.finished {
            finished.push((rx.sample_clock(), f));
        }
    }
    assert_eq!(finished, vec![(56832, "E".to_string())]);
    assert!(previews.is_empty());
    assert_eq!(rx.finish(), None);
}

#[test]
fn one_dot_gives_edges_on_and_off() {
    let mut d = EdgeDetector::new(RATE, 60, DEBOUNCE_MS);
    let mut edges = Vec::new();
    let mut finalized_at = Vec::new();
    for (advanced, tone) in windows(2646, 2646 + 57330) {
        let ev = d.process_window(advanced, tone);
        if let Some(e) = ev.edge {
            edges.push((d.sample_clock, e));
        }
        if ev.finalize {
            finalized_at.push(d.sample_clock);
        }
    }
    assert_eq!(
        edges,
        vec![
            (1024, SignalEdge { duration_ms: 23, duration_samples: 1024, prior_state: false }),
            (3584, SignalEdge { duration_ms: 58, duration_samples: 2560, prior_state: true }),
        ]
    );
    assert_eq!(finalized_at, vec![56832]);
}

#[test]
fn edge_durations_add_up_to_the_time_of_the_last_edge() {
    let mut d = EdgeDetector::new(8000, 100, DEBOUNCE_MS);
    let pattern = [true, true, false, true, false, false, true, true, true, false];
    let mut sum = 0u64;
    for &tone in pattern.iter() {
        let ev = d.process_window(400, tone);
        assert!(!ev.timed_out);
        if let Some(e) = ev.edge {
            sum += e.duration_samples;
        }
    }
    assert_eq!(sum, d.last_change_sample);
    assert_eq!(d.last_change_sample, 4000);
    assert_eq!(d.sample_clock, 4000);
}

#[test]
fn a_click_right_after_a_change_is_swallowed() {
    let mut d = EdgeDetector::new(8000, 60, DEBOUNCE_MS);
    let on = d.process_window(800, true);
    assert!(on.edge.is_some());
    let off = d.process_window(800, false);
    assert!(off.edge.is_some());
    // 5 ms of tone, 5 ms after the last change: no edge.
    assert_eq!(d.process_window(40, true).edge, None);
    assert_eq!(d.process_window(40, false).edge, None);
    assert!(!d.tone_on);
}

#[test]
fn silence_after_a_message_does_not_finalize_again() {
    let mut d = EdgeDetector::new(1000, 10, DEBOUNCE_MS);
    assert!(d.process_window(100, true).edge.is_some());
    assert!(d.process_window(50, false).edge.is_some());
    let mut finalizations = 0;
    for _ in 0..100 {
        if d.process_window(50, false).finalize {
            finalizations += 1;
        }
    }
    assert_eq!(finalizations, 1);
    assert!(!d.pending);
}

#[test]
fn end_of_input_finalizes_a_pending_message() {
    let mut rx = Receiver::new(RATE, 60, DEBOUNCE_MS, false);
    for (advanced, tone) in windows(2646, 2646 + 10000) {
        let out = rx.on_window(advanced, tone);
        assert_eq!(out.finished, None);
    }
    assert_eq!(rx.finish(), Some("E".to_string()));
}

#[test]
fn finished_messages_can_be_rendered_as_morse() {
    let mut rx = Receiver::new(RATE, 60, DEBOUNCE_MS, true);
    // A dash: 180 ms of tone.
    for (advanced, tone) in windows(7938, 7938 + 10000) {
        rx.on_window(advanced, tone);
    }
    assert_eq!(rx.finish(), Some("-".to_string()));
}

#[test]
fn detection_window_advances_by_half() {
    let mut w: DetectionWindow<i32> = DetectionWindow::new(4);
    assert!(!w.push(1));
    assert!(!w.push(2));
    assert!(!w.push(3));
    assert!(w.push(4));
    assert!(w.is_ready());
    assert_eq!(w.samples(), &[1, 2, 3, 4]);
    assert_eq!(w.advance(), 4);
    assert_eq!(w.samples(), &[3, 4]);
    assert!(!w.push(5));
    assert!(w.push(6));
    assert_eq!(w.advance(), 2);
    assert_eq!(w.samples(), &[5, 6]);
}

#[test]
fn gpio_trace_of_one_dot() {
    // Key up for 100 ms, down for 60 ms, then up for 2600 ms.
    let mut keyed = vec![false; 100];
    keyed.extend(vec![true; 60]);
    keyed.extend(vec![false; 2600]);
    assert_eq!(gpio_receive(60, &keyed, false), vec!["E".to_string()]);
    assert_eq!(gpio_receive(60, &keyed, true), vec![".".to_string()]);
    assert_eq!(gpio_receive(60, &Vec::new(), false), Vec::<String>::new());
}

#[test]
fn gpio_trace_without_timeout_ends_with_the_pending_message() {
    let mut keyed = vec![false; 100];
    keyed.extend(vec![true; 180]);
    keyed.extend(vec![false; 300]);
    assert_eq!(gpio_receive(60, &keyed, false), vec!["T".to_string()]);
}

#[test]
fn a_pin_message_ends_after_twenty_dots() {
    // One reading per millisecond: a 60 ms dot, then 1300 ms of steady level.
    let mut rx = Receiver::new(PIN_SAMPLE_RATE, 60, DEBOUNCE_MS, false);
    let mut finished = Vec::new();
    for t in 0..1460u64 {
        let keyed = (100..160).contains(&t);
        let out = rx.on_window(if t == 0 { 0 } else { 1 }, keyed);
        if let Some(m) = out.finished {
            finished.push((t, m));
        }
    }
    assert_eq!(finished, vec![(1361, "E".to_string())]);
}
