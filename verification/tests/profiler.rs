//! The profiler for sections of a frame.

use ap_client::section_profiler::{SampleSet, SectionProfiler, LONGEST_TIME};

#[test]
fn samples_add_up() {
    let mut set = SampleSet::empty(0);
    set.add(3);
    set.add(4);
    assert_eq!(set, SampleSet { sum: 7, length: 2, depth: 0 });
    assert_eq!(set.average(), 3);
    set.add(2);
    assert_eq!(set.average(), 3);
}

#[test]
fn times_end_where_those_of_the_standard_library_do() {
    assert_eq!(LONGEST_TIME, std::time::Duration::MAX.as_nanos());
}

#[test]
fn averages_are_those_of_the_standard_library() {
    for (sum, length) in [(7u64, 2u32), (1_000_000_001, 3), (59_999_999_999, 7), (u64::MAX, 1000)] {
        let set = SampleSet { sum: u128::from(sum), length, depth: 0 };
        let expected = std::time::Duration::from_nanos(sum) / length;
        assert_eq!(set.average(), expected.as_nanos());
    }
}

#[test]
fn sections_are_reported_in_the_order_of_their_first_samples() {
    let mut profiler = SectionProfiler::new(1_000);
    for frame in 0..3u64 {
        let start = 10_000 * frame;
        let outer = profiler.start_sample("zebra", start);
        let first = profiler.start_sample("yak", start + 100);
        assert_eq!(profiler.depth(), 2);
        assert!(profiler.can_record(&first, start + 1_100));
        profiler.record_sample(first, start + 1_100);
        let second = profiler.start_sample("ant", start + 1_200);
        let third = profiler.start_sample("bee", start + 1_300);
        profiler.record_sample(third, start + 1_300 + frame);
        profiler.record_sample(second, start + 4_200);
        profiler.record_sample(outer, start + 6_000);
        assert_eq!(profiler.depth(), 0);
    }
    assert!(profiler.can_report());
    let report = profiler.report(31_000);
    assert_eq!(report.elapsed, 30_000);
    assert_eq!(report.frames, 3);
    assert_eq!(report.micros_per_frame, 10);
    let sections: Vec<_> = report
        .sections
        .iter()
        .map(|s| (s.section, s.depth, s.time_per_frame, s.micros_per_frame))
        .collect();
    assert_eq!(
        sections,
        vec![
            ("zebra", 0, 6_000, 6),
            ("yak", 1, 1_000, 1),
            ("ant", 1, 3_000, 3),
            ("bee", 2, 1, 0),
        ]
    );
    profiler.report_written(32_000);
    assert!(!profiler.can_report());
    let sample = profiler.start_sample("bee", 32_000);
    assert!(!profiler.can_report());
    profiler.record_sample(sample, 42_000);
    let report = profiler.report(42_000);
    assert_eq!(report.elapsed, 10_000);
    assert_eq!(report.sections.len(), 1);
    assert_eq!(report.sections[0].depth, 0);
}

#[test]
fn a_sample_that_outlives_a_report_is_recorded() {
    let mut profiler = SectionProfiler::new(0);
    let outer = profiler.start_sample("outer", 0);
    let inner = profiler.start_sample("inner", 0);
    profiler.report_written(5);
    assert_eq!(profiler.depth(), 2);
    profiler.record_sample(inner, 8);
    profiler.record_sample(outer, 9);
    let report = profiler.report(10);
    assert_eq!(report.sections[0].section, "inner");
    assert_eq!(report.sections[0].depth, 1);
    assert_eq!(report.sections[0].time_per_frame, 8);
    assert_eq!(report.sections[1].section, "outer");
    assert_eq!(report.sections[1].depth, 0);
    assert_eq!(report.sections[1].time_per_frame, 9);
}

#[test]
fn a_sample_needs_one_that_is_active() {
    let mut profiler = SectionProfiler::new(0);
    let mut other = SectionProfiler::new(0);
    let sample = other.start_sample("a", 0);
    assert!(!profiler.can_record(&sample, 1));
    let own = profiler.start_sample("b", 0);
    assert!(profiler.can_record(&sample, 1));
    profiler.record_sample(own, 1);
    assert!(!profiler.can_record(&sample, 1));
}

#[test]
fn the_average_lies_between_the_samples() {
    let mut set = SampleSet::empty(0);
    for sample in [17, 3, 99, 42, 3] {
        set.add(sample);
        assert!(set.average() <= 99 && set.average() >= 3);
    }
    assert_eq!(set.average(), 32);
}
