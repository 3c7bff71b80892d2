use edge_worker::results::SpanMetric;
use edge_worker::span_timing::{add_metrics, format_span_timings, sort_by_name, SpanTimingLayer};
use edge_worker::text::{
    is_before, join, push_decimal, starts_with, strip_prefix, trim, trim_end_matches,
};

fn metric(name: &str, ms: f64) -> SpanMetric {
    SpanMetric { name: name.to_string(), ms_bits: ms.to_bits() }
}

fn plus(a: u64, b: u64) -> u64 {
    (f64::from_bits(a) + f64::from_bits(b)).to_bits()
}

fn render(bits: u64) -> String {
    format!("{:.0}", f64::from_bits(bits))
}

#[test]
fn timings_are_shown_in_name_order() {
    assert_eq!(format_span_timings(&vec![], render), "{}");
    let timings = vec![metric("b_time_ms", 2.4), metric("a_time_ms", 10.0)];
    assert_eq!(format_span_timings(&timings, render), "{a_time_ms=10,b_time_ms=2}");
    let sorted = sort_by_name(&timings);
    assert_eq!(sorted[0].name, "a_time_ms");
    assert_eq!(sorted[1].name, "b_time_ms");
}

#[test]
fn spans_add_up_under_their_name() {
    let mut layer: SpanTimingLayer<u64> = SpanTimingLayer::new();
    layer.on_new_span(1, true, "prove".to_string(), 100);
    layer.on_new_span(2, true, "prove".to_string(), 200);
    layer.on_new_span(3, false, "debug".to_string(), 300);
    let until = |end: u64| move |start: u64| ((end - start) as f64).to_bits();
    layer.on_close(1, until(150), plus);
    layer.on_close(2, until(225), plus);
    layer.on_close(3, until(400), plus);
    layer.on_close(9, until(400), plus);
    let drained = layer.drain_span_timings();
    assert_eq!(drained.len(), 1);
    assert_eq!(drained[0].name, "prove_time_ms");
    assert_eq!(f64::from_bits(drained[0].ms_bits), 75.0);
    assert!(layer.drain_span_timings().is_empty());
}

#[test]
fn metrics_keep_distinct_names() {
    let merged = add_metrics(
        vec![metric("x", 1.0)],
        &vec![metric("y", 2.0), metric("x", 3.0)],
        plus,
    );
    assert_eq!(merged.len(), 2);
    assert_eq!((merged[0].name.as_str(), f64::from_bits(merged[0].ms_bits)), ("x", 4.0));
    assert_eq!((merged[1].name.as_str(), f64::from_bits(merged[1].ms_bits)), ("y", 2.0));
}

#[test]
fn text_helpers_follow_std() {
    for s in ["", " ", " a b ", "\u{3000}x\n", "tab\t", "\u{a0}\u{85}z", "\u{200b}q"] {
        assert_eq!(trim(s), s.trim());
    }
    for s in ["", "/", "a//", "//a", "a/b/"] {
        assert_eq!(trim_end_matches(s, '/'), s.trim_end_matches('/'));
    }
    assert_eq!(strip_prefix("edge_x", "edge_"), Some("x"));
    assert_eq!(strip_prefix("edg", "edge_"), None);
    assert!(starts_with("abc", ""));
    let parts = vec!["a".to_string(), "".to_string(), "c".to_string()];
    assert_eq!(join(&parts, "; "), parts.join("; "));
    assert_eq!(join(&vec![], "; "), "");
    for (a, b) in [("a", "b"), ("a", "ab"), ("b", "a"), ("x", "x"), ("Z", "a"), ("é", "z")] {
        assert_eq!(is_before(a, b), a < b);
    }
    for n in [0, 9, 10, 12345, u64::MAX] {
        let mut out = "n=".to_string();
        push_decimal(&mut out, n);
        assert_eq!(out, format!("n={n}"));
    }
}
