use ds4_metal::drain::{DrainCount, DrainTrace, Site};

#[test]
fn sites_are_counted_and_sorted() {
    let a = Site { file: 1, line: 10 };
    let b = Site { file: 1, line: 20 };
    let mut t = DrainTrace::new(true);
    t.record(a, 3);
    t.record(b, 1);
    t.record(b, 4);
    let r = t.dump_and_reset().expect("something was counted");
    assert_eq!(r.total, 3);
    assert_eq!(r.drained, 8);
    assert_eq!(
        r.rows,
        vec![
            DrainCount { site: b, count: 2, drained: 5 },
            DrainCount { site: a, count: 1, drained: 3 },
        ]
    );
    assert!(t.rows.is_empty());
    assert!(t.dump_and_reset().is_none());
}

#[test]
fn the_same_line_of_another_file_is_another_site() {
    let mut t = DrainTrace::new(true);
    t.record(Site { file: 1, line: 10 }, 0);
    t.record(Site { file: 2, line: 10 }, 0);
    assert_eq!(t.rows.len(), 2);
}

#[test]
fn switched_off_it_counts_nothing() {
    let mut t = DrainTrace::new(false);
    t.record(Site { file: 1, line: 1 }, 1);
    assert!(t.rows.is_empty());
    assert!(t.dump_and_reset().is_none());
}
