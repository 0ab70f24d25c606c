//! The latest-value record of a device: for each metric the most recent
//! reading, and never more than one.

use vstd::prelude::*;

verus! {

/// A point in time as an RFC 3339 text gives it: seconds and nanoseconds
/// since the Unix epoch in UTC, and the offset of the zone it was written
/// in, in seconds east of UTC.
#[derive(Debug, Clone, Copy, PartialEq, Eq, Structural)]
pub struct Timestamp {
    pub secs: i64,
    pub nanos: u32,
    pub offset: i32,
}

/// Whether a stored message came in or went out.
#[derive(Debug, Clone, Copy, PartialEq, Eq, Structural)]
pub enum MessageDirection {
    Received,
    Sent,
}

/// One reading of a metric.
#[derive(Debug)]
pub struct DeviceMessageReceived {
    pub value: String,
    pub scale: String,
    pub timestamp: Timestamp,
}

/// The mathematical content of a [`DeviceMessageReceived`].
pub struct ReadingView {
    pub value: Seq<char>,
    pub scale: Seq<char>,
    pub timestamp: Timestamp,
}

impl View for DeviceMessageReceived {
    type V = ReadingView;

    open spec fn view(&self) -> ReadingView {
        ReadingView { value: self.value@, scale: self.scale@, timestamp: self.timestamp }
    }
}

/// The reading kept for one metric.
#[derive(Debug)]
pub struct MetricReading {
    pub metric: String,
    pub reading: DeviceMessageReceived,
}

/// The map from metric to reading that a list of kept readings stands for.
pub open spec fn readings_of(entries: Seq<MetricReading>) -> Map<Seq<char>, ReadingView>
    decreases entries.len(),
{
    if entries.len() == 0 {
        Map::<Seq<char>, ReadingView>::empty()
    } else {
        readings_of(entries.drop_last()).insert(entries.last().metric@, entries.last().reading@)
    }
}

/// No two kept readings are for the same metric.
pub open spec fn distinct_metrics(entries: Seq<MetricReading>) -> bool {
    forall|i: int, j: int|
        0 <= i < j < entries.len() ==> (#[trigger] entries[i]).metric@ != (#[trigger] entries[j]).metric@
}

/// How many kept readings are for `metric`.
pub open spec fn count_for(entries: Seq<MetricReading>, metric: Seq<char>) -> nat
    decreases entries.len(),
{
    if entries.len() == 0 {
        0
    } else {
        count_for(entries.drop_last(), metric) + (if entries.last().metric@ == metric {
            1nat
        } else {
            0nat
        })
    }
}

/// A metric has a reading in the map exactly when one is kept for it.
pub proof fn lemma_readings_dom(entries: Seq<MetricReading>, metric: Seq<char>)
    ensures
        readings_of(entries).contains_key(metric) <==> exists|i: int|
            0 <= i < entries.len() && (#[trigger] entries[i]).metric@ == metric,
    decreases entries.len(),
{
    if entries.len() > 0 {
        let front = entries.drop_last();
        lemma_readings_dom(front, metric);
        if readings_of(entries).contains_key(metric) {
            if entries.last().metric@ == metric {
                assert(entries[entries.len() - 1].metric@ == metric);
            } else {
                let i = choose|i: int| 0 <= i < front.len() && (#[trigger] front[i]).metric@ == metric;
                assert(entries[i].metric@ == metric);
            }
        }
        if exists|i: int| 0 <= i < entries.len() && (#[trigger] entries[i]).metric@ == metric {
            let i = choose|i: int| 0 <= i < entries.len() && (#[trigger] entries[i]).metric@ == metric;
            if i < front.len() {
                assert(front[i].metric@ == metric);
            }
        }
    }
}

/// Where no metric is kept twice, the map gives each kept reading back.
pub proof fn lemma_readings_at(entries: Seq<MetricReading>, i: int)
    requires
        distinct_metrics(entries),
        0 <= i < entries.len(),
    ensures
        readings_of(entries).contains_key(entries[i].metric@),
        readings_of(entries)[entries[i].metric@] == entries[i].reading@,
    decreases entries.len(),
{
    let front = entries.drop_last();
    if i < entries.len() - 1 {
        assert(distinct_metrics(front)) by {
            assert forall|a: int, b: int| 0 <= a < b < front.len() implies (#[trigger] front[a]).metric@
                != (#[trigger] front[b]).metric@ by {
                assert(front[a] == entries[a]);
                assert(front[b] == entries[b]);
            }
        }
        lemma_readings_at(front, i);
        assert(front[i] == entries[i]);
        assert(entries[i].metric@ != entries[entries.len() - 1].metric@);
    }
}

/// Where no metric is kept twice, a kept metric is kept exactly once and any
/// other metric not at all.
pub proof fn lemma_count_for(entries: Seq<MetricReading>, metric: Seq<char>)
    requires
        distinct_metrics(entries),
    ensures
        count_for(entries, metric) == (if readings_of(entries).contains_key(metric) {
            1nat
        } else {
            0nat
        }),
    decreases entries.len(),
{
    if entries.len() > 0 {
        let front = entries.drop_last();
        assert(distinct_metrics(front)) by {
            assert forall|a: int, b: int| 0 <= a < b < front.len() implies (#[trigger] front[a]).metric@
                != (#[trigger] front[b]).metric@ by {
                assert(front[a] == entries[a]);
                assert(front[b] == entries[b]);
            }
        }
        lemma_count_for(front, metric);
        lemma_readings_dom(front, metric);
        if entries.last().metric@ == metric {
            if readings_of(front).contains_key(metric) {
                let i = choose|i: int| 0 <= i < front.len() && (#[trigger] front[i]).metric@ == metric;
                assert(entries[i] == front[i]);
                assert(entries[i].metric@ != entries[entries.len() - 1].metric@);
            }
        }
    }
}

/// Replacing the kept reading of a metric replaces it in the map and keeps
/// every metric kept once.
pub proof fn lemma_readings_update(entries: Seq<MetricReading>, i: int, entry: MetricReading)
    requires
        distinct_metrics(entries),
        0 <= i < entries.len(),
        entry.metric@ == entries[i].metric@,
    ensures
        distinct_metrics(entries.update(i, entry)),
        readings_of(entries.update(i, entry)) == readings_of(entries).insert(
            entry.metric@,
            entry.reading@,
        ),
    decreases entries.len(),
{
    let updated = entries.update(i, entry);
    assert(distinct_metrics(updated)) by {
        assert forall|a: int, b: int| 0 <= a < b < updated.len() implies (#[trigger] updated[a]).metric@
            != (#[trigger] updated[b]).metric@ by {
            assert(updated[a].metric@ == entries[a].metric@);
            assert(updated[b].metric@ == entries[b].metric@);
        }
    }
    let front = entries.drop_last();
    if i == entries.len() - 1 {
        assert(updated.drop_last() =~= front);
        assert(readings_of(updated) =~= readings_of(entries).insert(entry.metric@, entry.reading@));
    } else {
        assert(distinct_metrics(front)) by {
            assert forall|a: int, b: int| 0 <= a < b < front.len() implies (#[trigger] front[a]).metric@
                != (#[trigger] front[b]).metric@ by {
                assert(front[a] == entries[a]);
                assert(front[b] == entries[b]);
            }
        }
        assert(front[i] == entries[i]);
        lemma_readings_update(front, i, entry);
        assert(updated.drop_last() =~= front.update(i, entry));
        assert(updated.last() == entries.last());
        assert(entries[i].metric@ != entries[entries.len() - 1].metric@);
        assert(readings_of(updated) =~= readings_of(entries).insert(entry.metric@, entry.reading@));
    }
}

/// The latest-value record: the kept readings, one for each metric that has
/// been read.
#[derive(Debug)]
pub struct LatestValues {
    entries: Vec<MetricReading>,
}

impl View for LatestValues {
    type V = Map<Seq<char>, ReadingView>;

    closed spec fn view(&self) -> Map<Seq<char>, ReadingView> {
        readings_of(self.entries@)
    }
}

impl LatestValues {
    /// No metric is kept twice.
    pub closed spec fn wf(&self) -> bool {
        distinct_metrics(self.entries@)
    }

    /// How many readings the record keeps for `metric`.
    pub closed spec fn records_for(&self, metric: Seq<char>) -> nat {
        count_for(self.entries@, metric)
    }

    /// A well-formed record keeps one reading for each metric it knows and
    /// none for any other.
    pub proof fn lemma_one_record_per_metric(&self, metric: Seq<char>)
        requires
            self.wf(),
        ensures
            self.records_for(metric) == (if self@.contains_key(metric) {
                1nat
            } else {
                0nat
            }),
    {
        lemma_count_for(self.entries@, metric);
    }

    /// A record without readings.
    pub fn new() -> (v: LatestValues)
        ensures
            v.wf(),
            v@ == Map::<Seq<char>, ReadingView>::empty(),
    {
        LatestValues { entries: Vec::new() }
    }

    /// How many metrics have a reading.
    pub fn len(&self) -> (n: usize)
        requires
            self.wf(),
        ensures
            n == self@.dom().len(),
            self@.dom().finite(),
    {
        proof {
            lemma_len(self.entries@);
        }
        self.entries.len()
    }

    /// The kept readings, one for each metric, in no particular order.
    pub fn readings(&self) -> (r: &Vec<MetricReading>)
        requires
            self.wf(),
        ensures
            distinct_metrics(r@),
            readings_of(r@) == self@,
    {
        &self.entries
    }

    /// The reading kept for `metric`, if there is one.
    pub fn get(&self, metric: &str) -> (r: Option<&DeviceMessageReceived>)
        requires
            self.wf(),
        ensures
            match r {
                Some(reading) => self@.contains_key(metric@) && self@[metric@] == reading@,
                None => !self@.contains_key(metric@),
            },
    {
        let wanted = metric.to_owned();
        let mut i: usize = 0;
        while i < self.entries.len()
            invariant
                i <= self.entries.len(),
                wanted@ == metric@,
                self.wf(),
                forall|j: int| 0 <= j < i ==> (#[trigger] self.entries@[j]).metric@ != metric@,
            decreases self.entries.len() - i,
        {
            if self.entries[i].metric == wanted {
                proof {
                    lemma_readings_at(self.entries@, i as int);
                }
                return Some(&self.entries[i].reading);
            }
            i = i + 1;
        }
        proof {
            lemma_readings_dom(self.entries@, metric@);
        }
        None
    }

    /// Makes `reading` the reading kept for `metric`. A reading kept for that
    /// metric before is replaced; the readings of all other metrics stay.
    pub fn set(&mut self, metric: String, reading: DeviceMessageReceived)
        requires
            old(self).wf(),
        ensures
            final(self).wf(),
            final(self)@ == old(self)@.insert(metric@, reading@),
            final(self).records_for(metric@) == 1,
    {
        let mut i: usize = 0;
        while i < self.entries.len()
            invariant
                i <= self.entries.len(),
                self.entries@ == old(self).entries@,
                self.wf(),
                forall|j: int| 0 <= j < i ==> (#[trigger] self.entries@[j]).metric@ != metric@,
            decreases self.entries.len() - i,
        {
            if self.entries[i].metric == metric {
                let entry = MetricReading { metric, reading };
                proof {
                    lemma_readings_update(self.entries@, i as int, entry);
                }
                self.entries.set(i, entry);
                proof {
                    lemma_count_for(self.entries@, metric@);
                }
                return ;
            }
            i = i + 1;
        }
        let entry = MetricReading { metric, reading };
        proof {
            let grown = self.entries@.push(entry);
            assert(grown.drop_last() =~= self.entries@);
            assert(distinct_metrics(grown)) by {
                assert forall|a: int, b: int| 0 <= a < b < grown.len() implies (#[trigger] grown[a]).metric@
                    != (#[trigger] grown[b]).metric@ by {
                    if b < self.entries@.len() {
                        assert(grown[a] == self.entries@[a]);
                        assert(grown[b] == self.entries@[b]);
                    } else {
                        assert(grown[a] == self.entries@[a]);
                    }
                }
            }
            lemma_count_for(grown, metric@);
        }
        self.entries.push(entry);
    }
}

/// Where no metric is kept twice, the map has as many metrics as there are
/// kept readings.
pub proof fn lemma_len(entries: Seq<MetricReading>)
    requires
        distinct_metrics(entries),
    ensures
        readings_of(entries).dom().finite(),
        readings_of(entries).dom().len() == entries.len(),
    decreases entries.len(),
{
    if entries.len() > 0 {
        let front = entries.drop_last();
        assert(distinct_metrics(front)) by {
            assert forall|a: int, b: int| 0 <= a < b < front.len() implies (#[trigger] front[a]).metric@
                != (#[trigger] front[b]).metric@ by {
                assert(front[a] == entries[a]);
                assert(front[b] == entries[b]);
            }
        }
        lemma_len(front);
        lemma_readings_dom(front, entries.last().metric@);
        if readings_of(front).contains_key(entries.last().metric@) {
            let i = choose|i: int|
                0 <= i < front.len() && (#[trigger] front[i]).metric@ == entries.last().metric@;
            assert(entries[i] == front[i]);
            assert(entries[i].metric@ != entries[entries.len() - 1].metric@);
        }
        assert(readings_of(entries).dom() =~= readings_of(front).dom().insert(
            entries.last().metric@,
        ));
    }
}

} // verus!
