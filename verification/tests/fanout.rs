use nbody::fanout::{span_of, Span};

#[test]
fn ten_bodies_over_three_workers() {
    assert_eq!(span_of(10, 3, 0), Some(Span { start: 0, end: 4 }));
    assert_eq!(span_of(10, 3, 1), Some(Span { start: 4, end: 7 }));
    assert_eq!(span_of(10, 3, 2), Some(Span { start: 7, end: 10 }));
}

#[test]
fn one_worker_takes_every_body() {
    assert_eq!(span_of(3000, 1, 0), Some(Span { start: 0, end: 3000 }));
}

#[test]
fn one_worker_per_body() {
    for w in 0..7 {
        assert_eq!(span_of(7, 7, w), Some(Span { start: w, end: w + 1 }));
    }
}

#[test]
fn more_workers_than_bodies_leaves_the_last_ones_idle() {
    assert_eq!(span_of(2, 5, 0), Some(Span { start: 0, end: 1 }));
    assert_eq!(span_of(2, 5, 1), Some(Span { start: 1, end: 2 }));
    assert_eq!(span_of(2, 5, 2), Some(Span { start: 2, end: 2 }));
    assert_eq!(span_of(2, 5, 3), Some(Span { start: 2, end: 2 }));
    assert_eq!(span_of(2, 5, 4), Some(Span { start: 2, end: 2 }));
}

#[test]
fn no_bodies_gives_empty_spans() {
    for w in 0..4 {
        assert_eq!(span_of(0, 4, w), Some(Span { start: 0, end: 0 }));
    }
}

#[test]
fn there_is_no_span_without_such_a_worker() {
    assert_eq!(span_of(10, 0, 0), None);
    assert_eq!(span_of(10, 3, 3), None);
    assert_eq!(span_of(10, 3, usize::MAX), None);
    assert_eq!(span_of(0, 0, 0), None);
}

#[test]
fn spans_tile_the_bodies_in_worker_order() {
    for n in [0usize, 1, 2, 9, 10, 11, 3000] {
        for workers in 1usize..=17 {
            let mut next = 0;
            let mut smallest = usize::MAX;
            let mut largest = 0;
            for w in 0..workers {
                let span = span_of(n, workers, w).unwrap();
                assert_eq!(span.start, next);
                assert!(span.start <= span.end);
                smallest = smallest.min(span.end - span.start);
                largest = largest.max(span.end - span.start);
                next = span.end;
            }
            assert_eq!(next, n);
            assert!(largest - smallest <= 1);
        }
    }
}

#[test]
fn every_body_has_exactly_one_worker() {
    let n = 100;
    let workers = 8;
    for body in 0..n {
        let owners = (0..workers)
            .filter(|w| {
                let span = span_of(n, workers, *w).unwrap();
                span.start <= body && body < span.end
            })
            .count();
        assert_eq!(owners, 1);
    }
}

#[test]
fn the_largest_population_does_not_overflow() {
    let n = usize::MAX;
    let first = span_of(n, 3, 0).unwrap();
    let last = span_of(n, 3, 2).unwrap();
    assert_eq!(first.start, 0);
    assert_eq!(first.end, n / 3);
    assert_eq!(last.end, n);
    assert_eq!(span_of(n, n, n - 1), Some(Span { start: n - 1, end: n }));
}
