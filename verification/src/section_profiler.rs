//! A profiler for the sections of the code that runs each frame.

use std::hash::RandomState;

use indexmap::IndexMap;
use vstd::arithmetic::div_mod::lemma_fundamental_div_mod;
use vstd::prelude::*;

use crate::clock::{elapsed, spec_elapsed};

verus! {

/// The longest time that samples can add up to, in nanoseconds.
pub const LONGEST_TIME: u128 = 18_446_744_073_709_551_615_999_999_999;

/// Information accumulated from multiple samples across a period of time.
#[derive(Clone, Copy, Debug, PartialEq, Eq, Structural)]
pub struct SampleSet {
    /// The total time of all samples, in nanoseconds.
    pub sum: u128,
    /// The number of samples taken.
    pub length: u32,
    /// The number of samples active when recording this one.
    pub depth: usize,
}

impl SampleSet {
    /// A set without samples.
    pub open spec fn spec_empty(depth: usize) -> SampleSet {
        SampleSet { sum: 0, length: 0, depth }
    }

    /// Whether `sample` can still be added.
    pub open spec fn has_room(self, sample: u64) -> bool {
        self.sum + sample <= LONGEST_TIME && self.length < u32::MAX
    }

    /// This set with `sample` added.
    pub open spec fn with(self, sample: u64) -> SampleSet {
        SampleSet {
            sum: (self.sum + sample) as u128,
            length: (self.length + 1) as u32,
            ..self
        }
    }

    /// A set without samples.
    pub fn empty(depth: usize) -> (set: SampleSet)
        ensures
            set == SampleSet::spec_empty(depth),
    {
        SampleSet { sum: 0, length: 0, depth }
    }

    /// Adds `sample` to the set.
    pub fn add(&mut self, sample: u64)
        requires
            old(self).has_room(sample),
        ensures
            *final(self) == old(self).with(sample),
    {
        self.sum = self.sum + sample as u128;
        self.length = self.length + 1;
    }

    /// The average time per sample.
    pub open spec fn spec_average(self) -> nat {
        self.sum as nat / self.length as nat
    }

    /// The average time per sample, in whole nanoseconds.
    pub fn average(&self) -> (average: u128)
        requires
            self.length > 0,
        ensures
            average == self.spec_average(),
    {
        self.sum / self.length as u128
    }
}

/// What is known of the sections, by their names, in the order in which they
/// were first entered.
pub type Sections = Seq<(Seq<char>, SampleSet)>;

/// Whether there is a section of that name.
pub open spec fn has_section(sections: Sections, name: Seq<char>) -> bool {
    exists|i: int| 0 <= i < sections.len() && (#[trigger] sections[i]).0 == name
}

/// Where the section of that name stands.
pub open spec fn section_position(sections: Sections, name: Seq<char>) -> int {
    choose|i: int| 0 <= i < sections.len() && (#[trigger] sections[i]).0 == name
}

/// The samples of the section of that name, which are none, at the given depth,
/// if there is no such section.
pub open spec fn section_samples(sections: Sections, name: Seq<char>, depth: usize) -> SampleSet {
    if has_section(sections, name) {
        sections[section_position(sections, name)].1
    } else {
        SampleSet::spec_empty(depth)
    }
}

/// The sections with `samples` for the section of that name, which is put last
/// if it is new.
pub open spec fn with_samples(sections: Sections, name: Seq<char>, samples: SampleSet) -> Sections {
    if has_section(sections, name) {
        sections.update(section_position(sections, name), (name, samples))
    } else {
        sections.push((name, samples))
    }
}

/// Whether no name stands for two sections.
pub open spec fn distinct_sections(sections: Sections) -> bool {
    forall|i: int, j: int|
        0 <= i < j < sections.len() ==> (#[trigger] sections[i]).0 != (#[trigger] sections[j]).0
}

/// `indexmap::IndexMap`, a hash map that keeps the order of insertion.
#[verifier::external_type_specification]
#[verifier::external_body]
#[verifier::reject_recursive_types(K)]
#[verifier::reject_recursive_types(V)]
#[verifier::reject_recursive_types(S)]
pub struct ExIndexMap<K, V, S>(IndexMap<K, V, S>);

/// The keys and values of an `IndexMap`, in the order in which it iterates.
pub uninterp spec fn section_entries(
    map: IndexMap<&'static str, SampleSet, RandomState>,
) -> Seq<(Seq<char>, SampleSet)>;

/// `IndexMap::default` makes a map without entries.
#[verifier::external_body]
fn empty_map() -> (map: IndexMap<&'static str, SampleSet, RandomState>)
    ensures
        section_entries(map) == Seq::<(Seq<char>, SampleSet)>::empty(),
{
    IndexMap::default()
}

/// `IndexMap::entry` with `Entry::or_insert` gives access to the value for a
/// key. If the key is new, it is put last, with the value `initial`. All other
/// entries, and the order of the entries, stay as they are.
#[verifier::external_body]
fn map_entry<'a>(
    map: &'a mut IndexMap<&'static str, SampleSet, RandomState>,
    section: &'static str,
    initial: SampleSet,
) -> (value: &'a mut SampleSet)
    ensures
        forall|i: int|
            0 <= i < section_entries(*old(map)).len() && (#[trigger] section_entries(
                *old(map),
            )[i]).0 == section@ ==> {
                &&& *value == section_entries(*old(map))[i].1
                &&& section_entries(*final(map)) == section_entries(*old(map)).update(
                    i,
                    (section@, *final(value)),
                )
            },
        !has_section(section_entries(*old(map)), section@) ==> {
            &&& *value == initial
            &&& section_entries(*final(map)) == section_entries(*old(map)).push(
                (section@, *final(value)),
            )
        },
{
    map.entry(section).or_insert(initial)
}

/// `IndexMap::get` looks up the value for a key.
#[verifier::external_body]
fn map_get(
    map: &IndexMap<&'static str, SampleSet, RandomState>,
    section: &'static str,
) -> (value: Option<SampleSet>)
    ensures
        value is Some <==> has_section(section_entries(*map), section@),
        forall|i: int|
            0 <= i < section_entries(*map).len() && (#[trigger] section_entries(*map)[i]).0
                == section@ ==> value == Some(section_entries(*map)[i].1),
{
    map.get(section).copied()
}

/// `IndexMap::iter` goes through all entries, in order.
#[verifier::external_body]
fn map_entries(
    map: &IndexMap<&'static str, SampleSet, RandomState>,
) -> (entries: Vec<(&'static str, SampleSet)>)
    ensures
        entries@.len() == section_entries(*map).len(),
        forall|i: int|
            0 <= i < entries@.len() ==> ((#[trigger] entries@[i]).0@, entries@[i].1)
                == section_entries(*map)[i],
{
    map.iter().map(|(section, samples)| (*section, *samples)).collect()
}

/// `IndexMap::clear` removes all entries.
#[verifier::external_body]
fn map_clear(map: &mut IndexMap<&'static str, SampleSet, RandomState>)
    ensures
        section_entries(*final(map)) == Seq::<(Seq<char>, SampleSet)>::empty(),
{
    map.clear()
}

/// An actively running sample for a given [SectionProfiler] section.
#[derive(Debug)]
pub struct Sample {
    section: &'static str,
    start: u64,
}

/// The mathematical form of [Sample].
pub struct SampleView {
    /// The name of the section being sampled.
    pub section: Seq<char>,
    /// The time the sample began being recorded.
    pub start: u64,
}

impl View for Sample {
    type V = SampleView;

    closed spec fn view(&self) -> SampleView {
        SampleView { section: self.section@, start: self.start }
    }
}

/// What is reported of one section.
#[derive(Clone, Copy, Debug)]
pub struct SectionReport {
    pub section: &'static str,
    /// The number of sections around this one.
    pub depth: usize,
    /// The average time of a sample, in nanoseconds.
    pub time_per_frame: u128,
    /// The average time of a sample, in whole microseconds.
    pub micros_per_frame: u128,
}

/// What is reported of all sections.
#[derive(Debug)]
pub struct Report {
    /// The time since the last report, in nanoseconds.
    pub elapsed: u64,
    /// The number of frames since then, which is how often the first section
    /// was entered.
    pub frames: u32,
    /// The time that each frame took, in whole microseconds.
    pub micros_per_frame: u64,
    /// The sections, in the order in which they were first entered.
    pub sections: Vec<SectionReport>,
}

/// A simple struct that tracks the average time taken by various operations
/// each frame.
#[derive(Debug)]
pub struct SectionProfiler {
    last_report: u64,
    averages: IndexMap<&'static str, SampleSet, RandomState>,
    depth: usize,
}

/// The mathematical form of [SectionProfiler].
pub struct SectionProfilerView {
    /// The time at which the last report was written, or else the time at
    /// which the profiler was created.
    pub last_report: u64,
    /// The samples of each section.
    pub sections: Sections,
    /// The number of samples currently being recorded.
    pub depth: usize,
}

impl View for SectionProfiler {
    type V = SectionProfilerView;

    closed spec fn view(&self) -> SectionProfilerView {
        SectionProfilerView {
            last_report: self.last_report,
            sections: section_entries(self.averages),
            depth: self.depth,
        }
    }
}

impl SectionProfilerView {
    /// The profiler once a sample for `section` has begun.
    pub open spec fn started(self, section: Seq<char>) -> SectionProfilerView {
        SectionProfilerView {
            sections: with_samples(
                self.sections,
                section,
                SampleSet {
                    depth: self.depth,
                    ..section_samples(self.sections, section, self.depth)
                },
            ),
            depth: (self.depth + 1) as usize,
            ..self
        }
    }

    /// Whether `sample` can be recorded.
    pub open spec fn can_record(self, sample: SampleView, now: u64) -> bool {
        self.depth > 0 && section_samples(self.sections, sample.section, 0).has_room(
            spec_elapsed(sample.start, now) as u64,
        )
    }

    /// The profiler once `sample` has been recorded.
    pub open spec fn recorded(self, sample: SampleView, now: u64) -> SectionProfilerView {
        SectionProfilerView {
            sections: with_samples(
                self.sections,
                sample.section,
                section_samples(
                    self.sections,
                    sample.section,
                    (self.depth - 1) as usize,
                ).with(
                    spec_elapsed(sample.start, now) as u64,
                ),
            ),
            depth: (self.depth - 1) as usize,
            ..self
        }
    }

    /// Whether `report` is what there is to report at `now`.
    pub open spec fn reports(self, report: Report, now: u64) -> bool {
        &&& report.elapsed == spec_elapsed(self.last_report, now)
        &&& report.frames == self.sections[0].1.length
        &&& report.micros_per_frame == report.elapsed / report.frames as u64 / 1000
        &&& report.sections@.len() == self.sections.len()
        &&& forall|i: int|
            0 <= i < report.sections@.len() ==> {
                let (name, samples) = self.sections[i];
                &&& (#[trigger] report.sections@[i]).section@ == name
                &&& report.sections@[i].depth == samples.depth
                &&& report.sections@[i].time_per_frame == samples.spec_average()
                &&& report.sections@[i].micros_per_frame == samples.spec_average() / 1000
            }
    }

    /// The profiler once a report was written at `now`.
    pub open spec fn restarted(self, now: u64) -> SectionProfilerView {
        SectionProfilerView { last_report: now, sections: Seq::empty(), ..self }
    }

    /// Whether there is something to report: a section, and a finished sample
    /// for every section.
    pub open spec fn can_report(self) -> bool {
        &&& self.sections.len() > 0
        &&& forall|i: int|
            0 <= i < self.sections.len() ==> (#[trigger] self.sections[i]).1.length > 0
    }
}

impl SectionProfiler {
    /// A profiler is well-formed if its sections have distinct names.
    pub open spec fn wf(self) -> bool {
        distinct_sections(self@.sections)
    }

    /// Creates a new profiler.
    pub fn new(now: u64) -> (profiler: SectionProfiler)
        ensures
            profiler.wf(),
            profiler@ == (SectionProfilerView {
                last_report: now,
                sections: Seq::empty(),
                depth: 0,
            }),
    {
        SectionProfiler { last_report: now, averages: empty_map(), depth: 0 }
    }

    /// The number of samples currently being recorded.
    pub fn depth(&self) -> (depth: usize)
        ensures
            depth == self@.depth,
    {
        self.depth
    }

    /// Begins a sample for a given `section`.
    pub fn start_sample(&mut self, section: &'static str, now: u64) -> (sample: Sample)
        requires
            old(self).wf(),
            old(self)@.depth < usize::MAX,
        ensures
            final(self).wf(),
            final(self)@ == old(self)@.started(section@),
            sample@ == (SampleView { section: section@, start: now }),
    {
        let depth: usize = self.depth;
        // Add an entry if one doesn't exist so that the profiler sections
        // appear in source order.
        let entry: &mut SampleSet = map_entry(&mut self.averages, section, SampleSet::empty(depth));
        entry.depth = depth;
        self.depth = depth + 1;
        Sample { section, start: now }
    }

    /// Whether a sample can be recorded.
    pub fn can_record(&self, sample: &Sample, now: u64) -> (can: bool)
        requires
            self.wf(),
        ensures
            can == self@.can_record(sample@, now),
    {
        let set: SampleSet = match map_get(&self.averages, sample.section) {
            Some(set) => set,
            None => SampleSet::empty(0),
        };
        self.depth > 0 && set.sum <= LONGEST_TIME - elapsed(sample.start, now) as u128 && set.length
            < u32::MAX
    }

    /// Ends and records a sample for a given section.
    pub fn record_sample(&mut self, sample: Sample, now: u64)
        requires
            old(self).wf(),
            old(self)@.can_record(sample@, now),
        ensures
            final(self).wf(),
            final(self)@ == old(self)@.recorded(sample@, now),
    {
        let depth: usize = self.depth - 1;
        self.depth = depth;
        let entry: &mut SampleSet = map_entry(
            &mut self.averages,
            sample.section,
            SampleSet::empty(depth),
        );
        entry.add(elapsed(sample.start, now));
    }

    /// Whether there is something to report.
    pub fn can_report(&self) -> (can: bool)
        ensures
            can == self@.can_report(),
    {
        let entries: Vec<(&'static str, SampleSet)> = map_entries(&self.averages);
        let ghost sections = self@.sections;
        let mut i: usize = 0;
        while i < entries.len()
            invariant
                i <= entries@.len(),
                entries@.len() == sections.len(),
                forall|j: int|
                    0 <= j < entries@.len() ==> ((#[trigger] entries@[j]).0@, entries@[j].1)
                        == sections[j],
                forall|j: int| 0 <= j < i ==> (#[trigger] sections[j]).1.length > 0,
                sections == self@.sections,
            decreases entries@.len() - i,
        {
            assert((entries@[i as int].0@, entries@[i as int].1) == sections[i as int]);
            if entries[i].1.length == 0 {
                return false;
            }
            i = i + 1;
        }
        entries.len() > 0
    }

    /// A report on the average of all sections since the last report.
    pub fn report(&self, now: u64) -> (report: Report)
        requires
            self@.can_report(),
        ensures
            report.elapsed == spec_elapsed(self@.last_report, now),
            report.frames == self@.sections[0].1.length,
            report.micros_per_frame == report.elapsed / report.frames as u64 / 1000,
            report.sections@.len() == self@.sections.len(),
            forall|i: int|
                0 <= i < report.sections@.len() ==> {
                    let (name, samples) = self@.sections[i];
                    &&& (#[trigger] report.sections@[i]).section@ == name
                    &&& report.sections@[i].depth == samples.depth
                    &&& report.sections@[i].time_per_frame == samples.spec_average()
                    &&& report.sections@[i].micros_per_frame == samples.spec_average() / 1000
                },
            self@.reports(report, now),
    {
        let entries: Vec<(&'static str, SampleSet)> = map_entries(&self.averages);
        let ghost sections = self@.sections;
        assert((entries@[0].0@, entries@[0].1) == sections[0]);
        let frames: u32 = entries[0].1.length;
        let elapsed_time: u64 = elapsed(self.last_report, now);
        let mut reports: Vec<SectionReport> = Vec::new();
        let mut i: usize = 0;
        while i < entries.len()
            invariant
                i <= entries@.len(),
                i == reports@.len(),
                entries@.len() == sections.len(),
                forall|j: int|
                    0 <= j < entries@.len() ==> ((#[trigger] entries@[j]).0@, entries@[j].1)
                        == sections[j],
                forall|j: int|
                    0 <= j < sections.len() ==> (#[trigger] sections[j]).1.length > 0,
                forall|j: int|
                    0 <= j < reports@.len() ==> {
                        let (name, samples) = sections[j];
                        &&& (#[trigger] reports@[j]).section@ == name
                        &&& reports@[j].depth == samples.depth
                        &&& reports@[j].time_per_frame == samples.spec_average()
                        &&& reports@[j].micros_per_frame == samples.spec_average() / 1000
                    },
            decreases entries@.len() - i,
        {
            let (section, samples): (&'static str, SampleSet) = entries[i];
            assert((entries@[i as int].0@, entries@[i as int].1) == sections[i as int]);
            let average: u128 = samples.average();
            reports.push(
                SectionReport {
                    section,
                    depth: samples.depth,
                    time_per_frame: average,
                    micros_per_frame: average / 1000,
                },
            );
            i = i + 1;
        }
        Report {
            elapsed: elapsed_time,
            frames,
            micros_per_frame: elapsed_time / frames as u64 / 1000,
            sections: reports,
        }
    }

    /// Takes note that a report was written, and starts over.
    pub fn report_written(&mut self, now: u64)
        ensures
            final(self).wf(),
            final(self)@ == (SectionProfilerView {
                last_report: now,
                sections: Seq::empty(),
                ..old(self)@
            }),
            final(self)@ == old(self)@.restarted(now),
    {
        self.last_report = now;
        map_clear(&mut self.averages);
    }
}

/// Samples that begin and end keep their balance: once a sample is recorded,
/// as many are active as before it began, whatever began and ended in between.
pub proof fn law_samples_are_balanced(
    before: SectionProfilerView,
    between: SectionProfilerView,
    sample: SampleView,
    now: u64,
)
    requires
        before.depth < usize::MAX,
        between.depth == before.started(sample.section).depth,
    ensures
        between.recorded(sample, now).depth == before.depth,
{
}

/// Sections stay in the order in which they were first entered.
pub proof fn law_sections_keep_their_order(
    profiler: SectionProfilerView,
    section: Seq<char>,
    sample: SampleView,
    now: u64,
)
    ensures
        forall|i: int|
            0 <= i < profiler.sections.len() ==> (#[trigger] profiler.started(
                section,
            ).sections[i]).0 == profiler.sections[i].0,
        forall|i: int|
            0 <= i < profiler.sections.len() ==> (#[trigger] profiler.recorded(
                sample,
                now,
            ).sections[i]).0 == profiler.sections[i].0,
{
}

/// A section is listed once a sample for it has begun, at the depth of the
/// samples around it.
pub proof fn law_started_section_is_listed(profiler: SectionProfilerView, section: Seq<char>)
    requires
        distinct_sections(profiler.sections),
    ensures
        has_section(profiler.started(section).sections, section),
        section_samples(profiler.started(section).sections, section, 0).depth == profiler.depth,
{
    let old_sections = profiler.sections;
    let sections = profiler.started(section).sections;
    let at = if has_section(old_sections, section) {
        section_position(old_sections, section)
    } else {
        old_sections.len() as int
    };
    assert(sections[at].0 == section);
    let found = section_position(sections, section);
    assert(found == at);
}

/// The set that holds exactly `samples`.
pub open spec fn set_of(samples: Seq<u64>) -> SampleSet
    decreases samples.len(),
{
    if samples.len() == 0 {
        SampleSet::spec_empty(0)
    } else {
        set_of(samples.drop_last()).with(samples.last())
    }
}

/// The average of samples lies between the least and the greatest of them.
pub proof fn law_average_lies_between_samples(samples: Seq<u64>, least: u64, greatest: u64)
    requires
        0 < samples.len() <= u32::MAX,
        forall|i: int| 0 <= i < samples.len() ==> least <= #[trigger] samples[i] <= greatest,
    ensures
        set_of(samples).length == samples.len(),
        least <= set_of(samples).spec_average() <= greatest,
{
    lemma_sum_bounds(samples, least, greatest);
    let set = set_of(samples);
    let (sum, n) = (set.sum as int, set.length as int);
    lemma_fundamental_div_mod(sum, n);
    let average = sum / n;
    assert(least <= average <= greatest) by (nonlinear_arith)
        requires
            sum == n * average + sum % n,
            0 <= sum % n < n,
            least * n <= sum <= greatest * n,
            n > 0,
    ;
}

proof fn lemma_sum_bounds(samples: Seq<u64>, least: u64, greatest: u64)
    requires
        samples.len() <= u32::MAX,
        forall|i: int| 0 <= i < samples.len() ==> least <= #[trigger] samples[i] <= greatest,
    ensures
        set_of(samples).length == samples.len(),
        least * samples.len() <= set_of(samples).sum <= greatest * samples.len(),
    decreases samples.len(),
{
    if samples.len() > 0 {
        let before = samples.drop_last();
        assert(forall|i: int| 0 <= i < before.len() ==> #[trigger] before[i] == samples[i]);
        lemma_sum_bounds(before, least, greatest);
        assert(samples.last() == samples[samples.len() - 1]);
        let n = samples.len() as int;
        assert(least * n == least * (n - 1) + least) by (nonlinear_arith);
        assert(greatest * n == greatest * (n - 1) + greatest) by (nonlinear_arith);
        assert(greatest * n <= 0xffff_ffff_ffff_ffff * 0xffff_ffff) by (nonlinear_arith)
            requires
                greatest <= 0xffff_ffff_ffff_ffff,
                0 <= n <= 0xffff_ffff,
        ;
    }
}

/// A sample that is added counts in full and as one.
pub proof fn law_samples_count(set: SampleSet, sample: u64)
    requires
        set.has_room(sample),
    ensures
        set.with(sample).sum == set.sum + sample,
        set.with(sample).length == set.length + 1,
        set.with(sample).depth == set.depth,
        SampleSet::spec_empty(set.depth).sum == 0,
        SampleSet::spec_empty(set.depth).length == 0,
        SampleSet::spec_empty(set.depth).depth == set.depth,
{
}

/// A set has room until its number of samples or their time cannot be told any
/// more, and no sooner.
pub proof fn law_room_for_samples(set: SampleSet, sample: u64)
    ensures
        set.length < 4_294_967_295 && set.sum + sample < 18_446_744_073_709_551_616_000_000_000
            ==> set.has_room(sample),
        set.length == 4_294_967_295 ==> !set.has_room(sample),
        set.sum + sample >= 18_446_744_073_709_551_616_000_000_000 ==> !set.has_room(sample),
{
}

/// The average is the sum divided by the number of samples, rounded down.
pub proof fn law_average(set: SampleSet)
    requires
        set.length > 0,
    ensures
        set.spec_average() * set.length <= set.sum,
        set.sum < (set.spec_average() + 1) * set.length,
{
    let (sum, n) = (set.sum as int, set.length as int);
    lemma_fundamental_div_mod(sum, n);
    let average = sum / n;
    assert(average * n <= sum < (average + 1) * n) by (nonlinear_arith)
        requires
            sum == n * average + sum % n,
            0 <= sum % n < n,
    ;
}

/// Putting down samples for a section puts down exactly those for it, and
/// leaves every other section as it is.
pub proof fn law_sections_are_kept_apart(
    sections: Sections,
    name: Seq<char>,
    samples: SampleSet,
    other: Seq<char>,
    depth: usize,
)
    requires
        distinct_sections(sections),
        other != name,
    ensures
        ({
            let after = with_samples(sections, name, samples);
            &&& distinct_sections(after)
            &&& has_section(after, name)
            &&& section_samples(after, name, depth) == samples
            &&& has_section(after, other) == has_section(sections, other)
            &&& section_samples(after, other, depth) == section_samples(sections, other, depth)
            &&& after.len() == sections.len() + (if has_section(sections, name) {
                0int
            } else {
                1int
            })
        }),
{
    let after = with_samples(sections, name, samples);
    let at = if has_section(sections, name) {
        section_position(sections, name)
    } else {
        sections.len() as int
    };
    assert(after[at] == (name, samples));
    assert(forall|i: int| 0 <= i < sections.len() && i != at ==> #[trigger] after[i] == sections[i]);
    assert(forall|i: int| 0 <= i < sections.len() && i != at ==> #[trigger] sections[i] == after[i]);
    assert(has_section(after, name));
    let found = section_position(after, name);
    assert(found == at);
    if has_section(sections, other) {
        let old_at = section_position(sections, other);
        assert(sections[old_at].0 == other);
        assert(after[old_at].0 == other);
        let new_at = section_position(after, other);
        assert(after[new_at].0 == other);
        assert(new_at != at);
        assert(sections[new_at].0 == other);
        assert(new_at == old_at);
    } else if has_section(after, other) {
        let new_at = section_position(after, other);
        assert(after[new_at].0 == other);
        assert(new_at != at);
        assert(sections[new_at].0 == other);
    }
}

/// Beginning a sample adds no time to any section. A section that is new has
/// none.
pub proof fn law_beginning_takes_no_time(
    profiler: SectionProfilerView,
    section: Seq<char>,
    other: Seq<char>,
)
    requires
        distinct_sections(profiler.sections),
        other != section,
        profiler.depth < usize::MAX,
    ensures
        ({
            let after = profiler.started(section);
            let before_set = section_samples(profiler.sections, section, 0);
            let after_set = section_samples(after.sections, section, 0);
            &&& after_set.sum == before_set.sum
            &&& after_set.length == before_set.length
            &&& after_set.depth == profiler.depth
            &&& section_samples(after.sections, other, 0) == section_samples(
                profiler.sections,
                other,
                0,
            )
            &&& after.depth == profiler.depth + 1
            &&& after.last_report == profiler.last_report
            &&& !has_section(profiler.sections, section) ==> after_set.sum == 0
                && after_set.length == 0
        }),
{
    let samples = SampleSet {
        depth: profiler.depth,
        ..section_samples(profiler.sections, section, profiler.depth)
    };
    law_sections_are_kept_apart(profiler.sections, section, samples, other, 0);
}

/// A sample that ends adds the time since it began to its own section, as one
/// sample, and leaves every other section as it is.
pub proof fn law_samples_go_to_their_section(
    profiler: SectionProfilerView,
    sample: SampleView,
    now: u64,
    other: Seq<char>,
)
    requires
        distinct_sections(profiler.sections),
        profiler.can_record(sample, now),
        now >= sample.start,
        other != sample.section,
    ensures
        ({
            let after = profiler.recorded(sample, now);
            let before_set = section_samples(profiler.sections, sample.section, 0);
            let after_set = section_samples(after.sections, sample.section, 0);
            &&& has_section(after.sections, sample.section)
            &&& after_set.sum == before_set.sum + (now - sample.start)
            &&& after_set.length == before_set.length + 1
            &&& has_section(profiler.sections, sample.section) ==> after_set.depth
                == before_set.depth
            &&& section_samples(after.sections, other, 0) == section_samples(
                profiler.sections,
                other,
                0,
            )
            &&& after.depth == profiler.depth - 1
            &&& after.last_report == profiler.last_report
        }),
{
    let samples = section_samples(
        profiler.sections,
        sample.section,
        (profiler.depth - 1) as usize,
    ).with(spec_elapsed(sample.start, now) as u64);
    law_sections_are_kept_apart(profiler.sections, sample.section, samples, other, 0);
}

/// There is nothing to report without sections, nor while a section has no
/// finished sample. Otherwise there is.
pub proof fn law_when_there_is_something_to_report(profiler: SectionProfilerView, i: int)
    ensures
        profiler.sections.len() == 0 ==> !profiler.can_report(),
        0 <= i < profiler.sections.len() && profiler.sections[i].1.length == 0
            ==> !profiler.can_report(),
        profiler.sections.len() > 0 && (forall|j: int|
            0 <= j < profiler.sections.len() ==> (#[trigger] profiler.sections[j]).1.length > 0)
            ==> profiler.can_report(),
{
}

/// A report tells of all sections in order, each with its name, its depth and
/// its average in nanoseconds and in whole microseconds.
pub proof fn law_report_tells_of_every_section(
    profiler: SectionProfilerView,
    report: Report,
    now: u64,
    i: int,
)
    requires
        profiler.can_report(),
        profiler.reports(report, now),
        0 <= i < profiler.sections.len(),
    ensures
        report.sections@.len() == profiler.sections.len(),
        ({
            let (name, samples) = profiler.sections[i];
            let told = report.sections@[i];
            &&& told.section@ == name
            &&& told.depth == samples.depth
            &&& told.time_per_frame * samples.length <= samples.sum
            &&& samples.sum < (told.time_per_frame + 1) * samples.length
            &&& told.micros_per_frame * 1000 <= told.time_per_frame
            &&& told.time_per_frame < (told.micros_per_frame + 1) * 1000
        }),
{
    assert(report.sections@[i].section@ == profiler.sections[i].0);
    law_average(profiler.sections[i].1);
}

/// A report spreads the time since the last one over the frames, which are as
/// many as the first section has samples.
pub proof fn law_report_spreads_time_over_frames(
    profiler: SectionProfilerView,
    report: Report,
    now: u64,
)
    requires
        profiler.can_report(),
        profiler.reports(report, now),
        now >= profiler.last_report,
    ensures
        report.elapsed == now - profiler.last_report,
        report.frames == profiler.sections[0].1.length,
        report.micros_per_frame * 1000 * report.frames <= report.elapsed,
        report.elapsed < (report.micros_per_frame + 1) * 1000 * report.frames,
{
    let (time, n) = (report.elapsed as int, report.frames as int);
    assert(n > 0);
    lemma_fundamental_div_mod(time, n);
    let each = time / n;
    let micros = each / 1000;
    assert(report.micros_per_frame == micros);
    assert(micros * 1000 * n <= time < (micros + 1) * 1000 * n) by (nonlinear_arith)
        requires
            time == n * each + time % n,
            0 <= time % n < n,
            micros * 1000 <= each < (micros + 1) * 1000,
            n > 0,
    ;
}

/// After a report everything starts over, but for the samples that are still
/// being recorded.
pub proof fn law_reports_start_over(profiler: SectionProfilerView, now: u64)
    ensures
        profiler.restarted(now).sections.len() == 0,
        profiler.restarted(now).last_report == now,
        profiler.restarted(now).depth == profiler.depth,
        !profiler.restarted(now).can_report(),
{
}

} // verus!
