//! Span timings captured for sub-step breakdowns.

use std::collections::HashMap;

use vstd::prelude::*;
use vstd::string::*;

use crate::results::{distinct_names, SpanMetric};
use crate::text::{is_before, join, joined, precedes, precedes_is_total, precedes_is_transitive, same_text, views};

verus! {

/// Whether `name` occurs among `metrics`.
pub open spec fn has_metric(metrics: Seq<SpanMetric>, name: Seq<char>) -> bool {
    exists|i: int| 0 <= i < metrics.len() && (#[trigger] metrics[i]).name@ == name
}

/// The place of the first metric called `name`.
pub open spec fn metric_place(metrics: Seq<SpanMetric>, name: Seq<char>) -> int
    decreases metrics.len(),
{
    if metrics.len() == 0 {
        0
    } else if metrics[0].name@ == name {
        0
    } else {
        1 + metric_place(metrics.drop_first(), name)
    }
}

/// Whether `after` is `before` with `extra` summed into it: a name already there has
/// its duration added to, a new one starts from zero and goes to the end.
pub open spec fn metric_added<F: Fn(u64, u64) -> u64>(
    before: Seq<SpanMetric>,
    extra: SpanMetric,
    plus: F,
    after: Seq<SpanMetric>,
) -> bool {
    if has_metric(before, extra.name@) {
        let k = metric_place(before, extra.name@);
        exists|sum: u64| #[trigger]
            call_ensures(plus, (before[k].ms_bits, extra.ms_bits), sum) && after == before.update(
                k,
                SpanMetric { name: before[k].name, ms_bits: sum },
            )
    } else {
        exists|sum: u64| #[trigger]
            call_ensures(plus, (0u64, extra.ms_bits), sum) && after == before.push(
                SpanMetric { name: extra.name, ms_bits: sum },
            )
    }
}

/// Whether `steps` leads from `before` to `after`, summing in one of `extra` at a
/// time.
pub open spec fn is_summing<F: Fn(u64, u64) -> u64>(
    steps: Seq<Seq<SpanMetric>>,
    before: Seq<SpanMetric>,
    extra: Seq<SpanMetric>,
    plus: F,
    after: Seq<SpanMetric>,
) -> bool {
    &&& steps.len() == extra.len() + 1
    &&& steps[0] == before
    &&& steps[extra.len() as int] == after
    &&& forall|k: int|
        0 <= k < extra.len() ==> metric_added(
            #[trigger] steps[k],
            extra[k],
            plus,
            steps[k + 1],
        )
}

/// Whether `after` is `before` with all of `extra` summed into it, in order.
pub open spec fn metrics_added<F: Fn(u64, u64) -> u64>(
    before: Seq<SpanMetric>,
    extra: Seq<SpanMetric>,
    plus: F,
    after: Seq<SpanMetric>,
) -> bool {
    exists|steps: Seq<Seq<SpanMetric>>| is_summing(steps, before, extra, plus, after)
}

proof fn metric_place_found(metrics: Seq<SpanMetric>, name: Seq<char>, i: int)
    requires
        0 <= i < metrics.len(),
        metrics[i].name@ == name,
        forall|j: int| 0 <= j < i ==> (#[trigger] metrics[j]).name@ != name,
    ensures
        metric_place(metrics, name) == i,
    decreases metrics.len(),
{
    if i > 0 {
        assert forall|j: int| 0 <= j < i - 1 implies (
        #[trigger] metrics.drop_first()[j]).name@ != name by {
            assert(metrics.drop_first()[j] == metrics[j + 1]);
        }
        metric_place_found(metrics.drop_first(), name, i - 1);
    }
}

/// Sum `extra` into `metrics`, with `plus` summing two durations. A duration of zero
/// has all bits clear.
pub fn add_metrics<F: Fn(u64, u64) -> u64>(
    metrics: Vec<SpanMetric>,
    extra: &Vec<SpanMetric>,
    plus: F,
) -> (r: Vec<SpanMetric>)
    requires
        forall|x: u64, y: u64| #[trigger] call_requires(plus, (x, y)),
    ensures
        metrics_added(metrics@, extra@, plus, r@),
{
    let ghost start = metrics@;
    let mut out = metrics;
    let mut e: usize = 0;
    let ghost mut steps: Seq<Seq<SpanMetric>> = seq![start];
    while e < extra.len()
        invariant
            e <= extra@.len(),
            is_summing(steps, start, extra@.take(e as int), plus, out@),
            forall|x: u64, y: u64| #[trigger] call_requires(plus, (x, y)),
        decreases extra@.len() - e,
    {
        let ghost before = out@;
        let item = &extra[e];
        let mut i: usize = 0;
        while i < out.len() && !same_text(out[i].name.as_str(), item.name.as_str())
            invariant
                i <= out@.len(),
                out@ == before,
                forall|j: int| 0 <= j < i ==> (#[trigger] out@[j]).name@ != item.name@,
            decreases out@.len() - i,
        {
            i = i + 1;
        }
        if i < out.len() {
            proof {
                metric_place_found(before, item.name@, i as int);
                assert(has_metric(before, item.name@));
            }
            let sum = plus(out[i].ms_bits, item.ms_bits);
            let name = out[i].name.clone();
            out.set(i, SpanMetric { name, ms_bits: sum });
            assert(metric_added(before, *item, plus, out@));
        } else {
            assert(!has_metric(before, item.name@));
            let sum = plus(0u64, item.ms_bits);
            out.push(SpanMetric { name: item.name.clone(), ms_bits: sum });
            assert(metric_added(before, *item, plus, out@));
        }
        proof {
            let longer = steps.push(out@);
            assert forall|k: int| 0 <= k < e + 1 implies metric_added(
                #[trigger] longer[k],
                extra@.take(e + 1)[k],
                plus,
                longer[k + 1],
            ) by {
                if k < e {
                    assert(longer[k] == steps[k] && longer[k + 1] == steps[k + 1]);
                    assert(extra@.take(e as int)[k] == extra@.take(e + 1)[k]);
                }
            }
            steps = longer;
        }
        e = e + 1;
    }
    assert(extra@.take(extra@.len() as int) =~= extra@);
    out
}

/// Summing into metrics whose names are distinct leaves them distinct, and keeps
/// every name that was there.
pub proof fn added_metrics_stay_distinct<F: Fn(u64, u64) -> u64>(
    before: Seq<SpanMetric>,
    extra: Seq<SpanMetric>,
    plus: F,
    after: Seq<SpanMetric>,
)
    requires
        distinct_names(before),
        metrics_added(before, extra, plus, after),
    ensures
        distinct_names(after),
        before.len() <= after.len(),
        forall|i: int| 0 <= i < before.len() ==> (#[trigger] after[i]).name == before[i].name,
{
    let steps = choose|steps: Seq<Seq<SpanMetric>>|
        is_summing(steps, before, extra, plus, after);
    added_steps_stay_distinct(steps, before, extra, plus, after, extra.len() as int);
}

proof fn added_steps_stay_distinct<F: Fn(u64, u64) -> u64>(
    steps: Seq<Seq<SpanMetric>>,
    before: Seq<SpanMetric>,
    extra: Seq<SpanMetric>,
    plus: F,
    after: Seq<SpanMetric>,
    k: int,
)
    requires
        distinct_names(before),
        is_summing(steps, before, extra, plus, after),
        0 <= k <= extra.len(),
    ensures
        distinct_names(steps[k]),
        before.len() <= steps[k].len(),
        forall|i: int| 0 <= i < before.len() ==> (#[trigger] steps[k][i]).name == before[i].name,
    decreases k,
{
    if k > 0 {
        added_steps_stay_distinct(steps, before, extra, plus, after, k - 1);
        let mid = steps[k - 1];
        let name = extra[k - 1].name@;
        assert(metric_added(mid, extra[k - 1], plus, steps[k]));
        if has_metric(mid, name) {
            metric_place_is_first(mid, name);
        }
    }
}

proof fn metric_place_is_first(metrics: Seq<SpanMetric>, name: Seq<char>)
    requires
        has_metric(metrics, name),
    ensures
        0 <= metric_place(metrics, name) < metrics.len(),
        metrics[metric_place(metrics, name)].name@ == name,
    decreases metrics.len(),
{
    let i = choose|i: int| 0 <= i < metrics.len() && (#[trigger] metrics[i]).name@ == name;
    if metrics[0].name@ != name {
        assert(metrics.drop_first()[i - 1] == metrics[i]);
        metric_place_is_first(metrics.drop_first(), name);
    }
}

/// Whether the metrics are in order of their names.
pub open spec fn sorted_by_name(metrics: Seq<SpanMetric>) -> bool {
    forall|i: int, j: int|
        0 <= i < j < metrics.len() ==> !precedes(
            (#[trigger] metrics[j]).name@,
            (#[trigger] metrics[i]).name@,
        )
}

/// Put `metrics` in lexicographic order of their names.
pub fn sort_by_name(metrics: &Vec<SpanMetric>) -> (r: Vec<SpanMetric>)
    ensures
        sorted_by_name(r@),
        r@.to_multiset() == metrics@.to_multiset(),
{
    let mut out: Vec<SpanMetric> = Vec::new();
    let mut k: usize = 0;
    proof {
        assert(metrics@.take(0) =~= Seq::<SpanMetric>::empty());
    }
    while k < metrics.len()
        invariant
            k <= metrics@.len(),
            sorted_by_name(out@),
            out@.to_multiset() == metrics@.take(k as int).to_multiset(),
            out@.len() == k,
        decreases metrics@.len() - k,
    {
        let item = metrics[k].clone();
        let ghost before = out@;
        let mut i: usize = out.len();
        while i > 0 && is_before(item.name.as_str(), out[i - 1].name.as_str())
            invariant
                out@ == before,
                i <= out@.len(),
                forall|j: int|
                    i <= j < out@.len() ==> precedes(item.name@, (#[trigger] out@[j]).name@),
            decreases i,
        {
            i = i - 1;
        }
        proof {
            if i > 0 {
                assert(!precedes(item.name@, before[i - 1].name@));
                assert forall|j: int| 0 <= j < i implies !precedes(
                    item.name@,
                    (#[trigger] before[j]).name@,
                ) by {
                    if j < i - 1 && precedes(item.name@, before[j].name@) {
                        let x = item.name@;
                        let y = before[j].name@;
                        let z = before[i - 1].name@;
                        assert(!precedes(z, y));
                        precedes_is_total(y, z);
                        if precedes(y, z) {
                            precedes_is_transitive(x, y, z);
                        }
                    }
                }
            }
        }
        let ghost placed = item;
        out.insert(i, item);
        proof {
            assert(out@ =~= before.insert(i as int, placed));
            before.insert_ensures(i as int, placed);
            assert forall|a: int, b: int| 0 <= a < b < out@.len() implies !precedes(
                (#[trigger] out@[b]).name@,
                (#[trigger] out@[a]).name@,
            ) by {
                let x = placed.name@;
                if a < i && b == i {
                    assert(out@[a] == before[a]);
                } else if a == i {
                    assert(out@[b] == before[b - 1]);
                    precedes_is_total(x, before[b - 1].name@);
                } else {
                    let a0 = if a < i {
                        a
                    } else {
                        a - 1
                    };
                    let b0 = if b < i {
                        b
                    } else {
                        b - 1
                    };
                    assert(out@[a] == before[a0] && out@[b] == before[b0]);
                    assert(a0 < b0);
                }
            }
            vstd::seq_lib::to_multiset_insert(before, i as int, placed);
            assert(metrics@.take(k + 1) =~= metrics@.take(k as int).push(placed));
            vstd::seq_lib::to_multiset_build(metrics@.take(k as int), placed);
        }
        k = k + 1;
    }
    assert(metrics@.take(metrics@.len() as int) =~= metrics@);
    out
}

/// Whether `shown` is `metric` as `name=ms`.
pub open spec fn shows_metric<R: Fn(u64) -> String>(
    shown: Seq<char>,
    metric: SpanMetric,
    render: R,
) -> bool {
    exists|ms: String| #[trigger]
        call_ensures(render, (metric.ms_bits,), ms) && shown == metric.name@ + "="@ + ms@
}

/// Whether `shown` are the metrics `sorted`, each as `name=ms`.
pub open spec fn shows_metrics<R: Fn(u64) -> String>(
    shown: Seq<Seq<char>>,
    sorted: Seq<SpanMetric>,
    render: R,
) -> bool {
    shown.len() == sorted.len() && forall|i: int|
        0 <= i < sorted.len() ==> shows_metric(#[trigger] shown[i], sorted[i], render)
}

/// Render drained timings as a compact `{name=ms,...}` string for a single log line.
/// Names come in lexicographic order, and `render` rounds a duration to whole
/// milliseconds. No timings render as `{}`.
pub fn format_span_timings<R: Fn(u64) -> String>(timings: &Vec<SpanMetric>, render: R) -> (out:
    String)
    requires
        forall|x: u64| #[trigger] call_requires(render, (x,)),
    ensures
        exists|sorted: Seq<SpanMetric>, shown: Seq<Seq<char>>|
            sorted_by_name(sorted) && sorted.to_multiset() == timings@.to_multiset()
                && #[trigger] shows_metrics(shown, sorted, render) && out@ == "{"@ + joined(
                shown,
                ","@,
            ) + "}"@,
{
    let sorted = sort_by_name(timings);
    let mut entries: Vec<String> = Vec::new();
    let mut i: usize = 0;
    while i < sorted.len()
        invariant
            i <= sorted@.len(),
            entries@.len() == i,
            forall|x: u64| #[trigger] call_requires(render, (x,)),
            forall|j: int|
                0 <= j < i ==> shows_metric((#[trigger] entries@[j])@, sorted@[j], render),
        decreases sorted@.len() - i,
    {
        let ms = render(sorted[i].ms_bits);
        let mut entry = sorted[i].name.clone();
        entry.append("=");
        entry.append(ms.as_str());
        assert(shows_metric(entry@, sorted@[i as int], render));
        entries.push(entry);
        i = i + 1;
    }
    let inner = join(&entries, ",");
    let mut out = "{".to_owned();
    out.append(inner.as_str());
    out.append("}");
    assert(shows_metrics(views(entries@), sorted@, render)) by {
        assert forall|j: int| 0 <= j < sorted@.len() implies shows_metric(
            #[trigger] views(entries@)[j],
            sorted@[j],
            render,
        ) by {
            assert(views(entries@)[j] == entries@[j]@);
        }
    }
    out
}

/// A span that is open: its name and when it began.
pub struct ActiveSpan<T> {
    pub name: String,
    pub start: T,
}

/// The span timings of one thread.
///
/// Durations of closed spans accumulate under `{span_name}_time_ms`, summed over
/// spans of the same name, until they are drained.
pub struct SpanTimingLayer<T> {
    active: HashMap<u64, ActiveSpan<T>>,
    captured: Vec<SpanMetric>,
}

impl<T> SpanTimingLayer<T> {
    /// The open spans, by id.
    pub closed spec fn active(self) -> Map<u64, ActiveSpan<T>> {
        self.active@
    }

    /// The timings captured since the last drain.
    pub closed spec fn captured(self) -> Seq<SpanMetric> {
        self.captured@
    }

    pub fn new() -> (r: Self)
        ensures
            r.active() == Map::<u64, ActiveSpan<T>>::empty(),
            r.captured() == Seq::<SpanMetric>::empty(),
    {
        SpanTimingLayer { active: HashMap::new(), captured: Vec::new() }
    }

    /// A span opened. Only spans at the INFO level or a more severe one are tracked.
    pub fn on_new_span(&mut self, id: u64, at_least_info: bool, name: String, start: T)
        ensures
            final(self).captured() == old(self).captured(),
            !at_least_info ==> final(self).active() == old(self).active(),
            at_least_info ==> final(self).active() == old(self).active().insert(
                id,
                ActiveSpan { name, start },
            ),
    {
        broadcast use vstd::std_specs::hash::group_hash_axioms;

        if at_least_info {
            let _ = self.active.insert(id, ActiveSpan { name, start });
        }
    }

    /// A span closed. If it was tracked, `elapsed` of its start is added to what is
    /// captured under its name.
    pub fn on_close<E: FnOnce(T) -> u64, F: Fn(u64, u64) -> u64>(
        &mut self,
        id: u64,
        elapsed: E,
        plus: F,
    )
        requires
            forall|t: T| #[trigger] call_requires(elapsed, (t,)),
            forall|x: u64, y: u64| #[trigger] call_requires(plus, (x, y)),
        ensures
            final(self).active() == old(self).active().remove(id),
            !old(self).active().contains_key(id) ==> final(self).captured()
                == old(self).captured(),
            old(self).active().contains_key(id) ==> exists|d: u64, name: String|
                #[trigger] call_ensures(elapsed, (old(self).active()[id].start,), d)
                    && #[trigger] name@ == old(self).active()[id].name@ + "_time_ms"@
                    && metrics_added(
                    old(self).captured(),
                    seq![SpanMetric { name, ms_bits: d }],
                    plus,
                    final(self).captured(),
                ),
    {
        broadcast use vstd::std_specs::hash::group_hash_axioms;

        match self.active.remove(&id) {
            None => {
                assert(self.active() =~= old(self).active().remove(id));
            },
            Some(span) => {
                let ms_bits = elapsed(span.start);
                let mut name = span.name.clone();
                name.append("_time_ms");
                let ghost closed = SpanMetric { name, ms_bits };
                let mut extra: Vec<SpanMetric> = Vec::new();
                extra.push(SpanMetric { name, ms_bits });
                assert(extra@ =~= seq![closed]);
                let mut captured: Vec<SpanMetric> = Vec::new();
                std::mem::swap(&mut captured, &mut self.captured);
                self.captured = add_metrics(captured, &extra, plus);
            },
        }
    }

    /// Take everything captured since the last drain.
    pub fn drain_span_timings(&mut self) -> (r: Vec<SpanMetric>)
        ensures
            r@ == old(self).captured(),
            final(self).captured() == Seq::<SpanMetric>::empty(),
            final(self).active() == old(self).active(),
    {
        let mut drained: Vec<SpanMetric> = Vec::new();
        std::mem::swap(&mut drained, &mut self.captured);
        drained
    }
}

/// One timing goes to the first metric of its name, whose duration it is summed to,
/// and every other metric stays as it is. Where no metric has the name, it goes to
/// the end, with its duration summed to zero.
pub proof fn a_timing_goes_to_its_name<F: Fn(u64, u64) -> u64>(
    metrics: Vec<SpanMetric>,
    extra: &Vec<SpanMetric>,
    plus: F,
    r: Vec<SpanMetric>,
    k: int,
)
    requires
        call_ensures(add_metrics::<F>, (metrics, extra, plus), r),
        extra@.len() == 1,
        0 <= k <= metrics@.len(),
        forall|j: int| 0 <= j < k ==> (#[trigger] metrics@[j]).name@ != extra@[0].name@,
        k < metrics@.len() ==> metrics@[k].name@ == extra@[0].name@,
    ensures
        r@.len() == (if k < metrics@.len() {
            metrics@.len()
        } else {
            metrics@.len() + 1
        }),
        r@[k].name@ == extra@[0].name@,
        forall|j: int| 0 <= j < metrics@.len() && j != k ==> #[trigger] r@[j] == metrics@[j],
        k < metrics@.len() ==> call_ensures(
            plus,
            (metrics@[k].ms_bits, extra@[0].ms_bits),
            r@[k].ms_bits,
        ),
        k == metrics@.len() ==> call_ensures(plus, (0u64, extra@[0].ms_bits), r@[k].ms_bits),
{
    let steps = choose|steps: Seq<Seq<SpanMetric>>|
        is_summing(steps, metrics@, extra@, plus, r@);
    assert(metric_added(steps[0], extra@[0], plus, steps[1]));
    if k < metrics@.len() {
        metric_place_found(metrics@, extra@[0].name@, k);
        assert(has_metric(metrics@, extra@[0].name@));
    }
}

/// No timings leave the metrics as they are.
pub proof fn no_timings_change_nothing<F: Fn(u64, u64) -> u64>(
    metrics: Vec<SpanMetric>,
    extra: &Vec<SpanMetric>,
    plus: F,
    r: Vec<SpanMetric>,
)
    requires
        call_ensures(add_metrics::<F>, (metrics, extra, plus), r),
        extra@.len() == 0,
    ensures
        r@ == metrics@,
{
}

/// Timings are summed in the order in which they come: first those in front, then
/// the last.
pub proof fn timings_are_summed_in_order<F: Fn(u64, u64) -> u64>(
    metrics: Vec<SpanMetric>,
    extra: &Vec<SpanMetric>,
    plus: F,
    r: Vec<SpanMetric>,
)
    requires
        call_ensures(add_metrics::<F>, (metrics, extra, plus), r),
        extra@.len() > 0,
    ensures
        exists|mid: Seq<SpanMetric>|
            #[trigger] metrics_added(metrics@, extra@.drop_last(), plus, mid) && metrics_added(
                mid,
                seq![extra@.last()],
                plus,
                r@,
            ),
{
    let steps = choose|steps: Seq<Seq<SpanMetric>>|
        is_summing(steps, metrics@, extra@, plus, r@);
    let n = extra@.len() as int;
    let mid = steps[n - 1];
    let front = steps.drop_last();
    assert forall|k: int| 0 <= k < n - 1 implies metric_added(
        #[trigger] front[k],
        extra@.drop_last()[k],
        plus,
        front[k + 1],
    ) by {
        assert(front[k] == steps[k] && front[k + 1] == steps[k + 1]);
    }
    assert(is_summing(front, metrics@, extra@.drop_last(), plus, mid));
    let end = seq![mid, r@];
    assert(metric_added(steps[n - 1], extra@[n - 1], plus, steps[n - 1 + 1]));
    assert forall|k: int| 0 <= k < 1 implies metric_added(
        #[trigger] end[k],
        seq![extra@.last()][k],
        plus,
        end[k + 1],
    ) by {}
    assert(is_summing(end, mid, seq![extra@.last()], plus, r@));
    assert(metrics_added(metrics@, extra@.drop_last(), plus, mid));
    assert(metrics_added(mid, seq![extra@.last()], plus, r@));
}

/// Sorted metrics are the same metrics, and none comes after one whose name is
/// behind its own.
pub proof fn sorting_orders_the_names(metrics: &Vec<SpanMetric>, r: Vec<SpanMetric>, i: int, j: int)
    requires
        call_ensures(sort_by_name, (metrics,), r),
        0 <= i < j < r@.len(),
    ensures
        r@.to_multiset() == metrics@.to_multiset(),
        r@[i].name@ == r@[j].name@ || precedes(r@[i].name@, r@[j].name@),
{
    assert(!precedes(r@[j].name@, r@[i].name@));
    precedes_is_total(r@[i].name@, r@[j].name@);
}

/// One timing renders as its name and its duration in braces.
pub proof fn one_timing_is_rendered<R: Fn(u64) -> String>(
    timings: &Vec<SpanMetric>,
    render: R,
    out: String,
)
    requires
        call_ensures(format_span_timings::<R>, (timings, render), out),
        timings@.len() == 1,
    ensures
        exists|ms: String| #[trigger]
            call_ensures(render, (timings@[0].ms_bits,), ms) && out@ == "{"@ + timings@[0].name@
                + "="@ + ms@ + "}"@,
{
    broadcast use vstd::seq_lib::group_to_multiset_ensures;

    let (sorted, shown) = choose|sorted: Seq<SpanMetric>, shown: Seq<Seq<char>>|
        sorted_by_name(sorted) && sorted.to_multiset() == timings@.to_multiset()
            && #[trigger] shows_metrics(shown, sorted, render) && out@ == "{"@ + joined(
            shown,
            ","@,
        ) + "}"@;
    assert(sorted.to_multiset().len() == sorted.len());
    assert(timings@.to_multiset().len() == timings@.len());
    assert(sorted.contains(sorted[0]));
    assert(sorted.to_multiset().count(sorted[0]) > 0);
    assert(timings@.contains(sorted[0]));
    assert(shows_metric(shown[0], sorted[0], render));
    let ms = choose|ms: String| #[trigger]
        call_ensures(render, (sorted[0].ms_bits,), ms) && shown[0] == sorted[0].name@ + "="@ + ms@;
    assert(joined(shown, ","@) == shown[0]);
    assert(out@ =~= "{"@ + timings@[0].name@ + "="@ + ms@ + "}"@);
}

/// A span that was opened is timed from its own start when it closes, and the layer
/// then holds it no more.
pub proof fn opened_spans_are_timed<T, E: FnOnce(T) -> u64, F: Fn(u64, u64) -> u64>(
    opened: &mut SpanTimingLayer<T>,
    id: u64,
    name: String,
    start: T,
    closed: &mut SpanTimingLayer<T>,
    elapsed: E,
    plus: F,
)
    requires
        call_ensures(SpanTimingLayer::<T>::on_new_span, (opened, id, true, name, start), ()),
        call_ensures(SpanTimingLayer::<T>::on_close::<E, F>, (closed, id, elapsed, plus), ()),
        *final(opened) == *old(closed),
    ensures
        exists|d: u64, full: String|
            #[trigger] call_ensures(elapsed, (start,), d) && #[trigger] full@ == name@
                + "_time_ms"@ && metrics_added(
                old(opened).captured(),
                seq![SpanMetric { name: full, ms_bits: d }],
                plus,
                final(closed).captured(),
            ),
        !final(closed).active().contains_key(id),
        forall|other: u64|
            other != id ==> final(closed).active().contains_key(other) == #[trigger] old(
                opened,
            ).active().contains_key(other),
{
}

/// A drain hands out all that was captured, once: what is drained next was captured since.
pub proof fn timings_are_drained_once<T>(
    layer: &mut SpanTimingLayer<T>,
    r: Vec<SpanMetric>,
    again: &mut SpanTimingLayer<T>,
    rest: Vec<SpanMetric>,
)
    requires
        call_ensures(SpanTimingLayer::<T>::drain_span_timings, (layer,), r),
        call_ensures(SpanTimingLayer::<T>::drain_span_timings, (again,), rest),
        *final(layer) == *old(again),
    ensures
        r@ == old(layer).captured(),
        rest@.len() == 0,
        final(again).active() == old(layer).active(),
{
}

/// A new layer follows no span and has captured nothing.
pub proof fn new_layers_are_empty<T>(layer: SpanTimingLayer<T>, id: u64)
    requires
        call_ensures(SpanTimingLayer::<T>::new, (), layer),
    ensures
        !layer.active().contains_key(id),
        layer.captured().len() == 0,
{
}

} // verus!
