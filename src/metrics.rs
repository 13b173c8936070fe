use vstd::prelude::*;
use crate::action::Action;
use crate::call_site::{CallSite, SiteView, location_of};
use vstd::pervasive::VecAdditionalExecFns;

verus! {

/// The labels a metric series is keyed by: action, context name and call site.
#[derive(Debug)]
pub struct MetricKey {
    pub action: Action,
    pub context: String,
    pub site: CallSite,
}

/// The mathematical value of a metric key.
pub type KeyView = (Action, Seq<char>, SiteView);

impl View for MetricKey {
    type V = KeyView;

    open spec fn view(&self) -> KeyView {
        (self.action, self.context@, self.site@)
    }
}

impl MetricKey {
    pub fn new(action: Action, context: &str, site: CallSite) -> (r: MetricKey)
        ensures
            r@ == (action, context@, site@),
    {
        MetricKey { action, context: String::from_str(context), site }
    }

    /// A copy of this key.
    pub fn duplicate(&self) -> (r: MetricKey)
        ensures
            r == *self,
    {
        MetricKey { action: self.action, context: self.context.clone(), site: self.site.duplicate() }
    }

    /// Whether two keys name the same series.
    pub fn same_series(&self, other: &MetricKey) -> (r: bool)
        ensures
            r == (self@ == other@),
    {
        self.action == other.action && self.context == other.context && self.site.file
            == other.site.file && self.site.line == other.site.line && self.site.column
            == other.site.column
    }
}

/// One structured log record of a finished query.
#[derive(Debug)]
pub struct LogRecord {
    pub location: String,
    pub action: Action,
    pub context: String,
    pub elapsed_nanos: u64,
}

/// The mathematical value of a log record.
pub type LogView = (Seq<char>, Action, Seq<char>, u64);

impl View for LogRecord {
    type V = LogView;

    open spec fn view(&self) -> LogView {
        (self.location@, self.action, self.context@, self.elapsed_nanos)
    }
}

/// The log record written when the query keyed by `k` finishes.
pub open spec fn log_of(k: KeyView, elapsed_nanos: u64) -> LogView {
    (location_of(k.2), k.0, k.1, elapsed_nanos)
}

/// What one series holds: the counter, and the histogram's number of
/// observations and their total in nanoseconds. Each saturates at `u64::MAX`.
pub struct SeriesView {
    pub started: u64,
    pub observed: u64,
    pub total_nanos: u64,
}

/// The series of every key that has been recorded.
pub struct RegistryView {
    pub series: Map<KeyView, SeriesView>,
}

impl RegistryView {
    /// The series of `k`; a key never recorded has an empty series.
    pub open spec fn series_of(self, k: KeyView) -> SeriesView {
        if self.series.contains_key(k) {
            self.series[k]
        } else {
            SeriesView { started: 0, observed: 0, total_nanos: 0 }
        }
    }

    /// The value of the counter series `k`.
    pub open spec fn counter(self, k: KeyView) -> u64 {
        self.series_of(k).started
    }

    /// The number of observations in the histogram series `k`.
    pub open spec fn observation_count(self, k: KeyView) -> u64 {
        self.series_of(k).observed
    }

    /// The registry after the query keyed by `k` started.
    pub open spec fn started(self, k: KeyView) -> RegistryView {
        let s = self.series_of(k);
        RegistryView {
            series: self.series.insert(k, SeriesView { started: s.started.saturating_add(1), ..s }),
        }
    }

    /// The registry after the query keyed by `k` finished in `elapsed_nanos`.
    pub open spec fn finished(self, k: KeyView, elapsed_nanos: u64) -> RegistryView {
        let s = self.series_of(k);
        RegistryView {
            series: self.series.insert(
                k,
                SeriesView {
                    observed: s.observed.saturating_add(1),
                    total_nanos: s.total_nanos.saturating_add(elapsed_nanos),
                    ..s
                },
            ),
        }
    }
}

/// One series of the registry.
struct Series {
    key: MetricKey,
    started: u64,
    observed: u64,
    total_nanos: u64,
}

impl Series {
    spec fn counts(&self) -> SeriesView {
        SeriesView { started: self.started, observed: self.observed, total_nanos: self.total_nanos }
    }
}

/// The process-wide counters and latency histograms, one series per key.
///
/// Counters only grow and observations are only added: nothing is taken out
/// for the lifetime of the registry. Its size grows with the number of distinct
/// keys, which call sites keep bounded, and not with the number of queries.
pub struct Registry {
    series: Vec<Series>,
    model: Ghost<Map<KeyView, SeriesView>>,
}

impl View for Registry {
    type V = RegistryView;

    closed spec fn view(&self) -> RegistryView {
        RegistryView { series: self.model@ }
    }
}

impl Registry {
    spec fn key_at(&self, i: int) -> KeyView {
        self.series@[i].key@
    }

    /// Each key has one series, and the model holds exactly the series' counts.
    pub closed spec fn wf(&self) -> bool {
        &&& forall|i: int, j: int|
            0 <= i < j < self.series@.len() ==> #[trigger] self.key_at(i) != #[trigger] self.key_at(j)
        &&& forall|i: int|
            0 <= i < self.series@.len() ==> self.model@.contains_key(#[trigger] self.key_at(i))
                && self.model@[self.key_at(i)] == self.series@[i].counts()
        &&& forall|k: KeyView|
            #[trigger] self.model@.contains_key(k) ==> exists|i: int|
                0 <= i < self.series@.len() && #[trigger] self.key_at(i) == k
    }

    pub fn new() -> (r: Registry)
        ensures
            r.wf(),
            r@.series == Map::<KeyView, SeriesView>::empty(),
    {
        Registry { series: Vec::new(), model: Ghost(Map::empty()) }
    }

    /// The index of the series of `key`, if it has one.
    fn find(&self, key: &MetricKey) -> (r: Option<usize>)
        requires
            self.wf(),
        ensures
            match r {
                Some(i) => i < self.series@.len() && self.key_at(i as int) == key@,
                None => !self@.series.contains_key(key@),
            },
    {
        let mut i: usize = 0;
        while i < self.series.len()
            invariant
                i <= self.series@.len(),
                forall|j: int| 0 <= j < i ==> #[trigger] self.key_at(j) != key@,
            decreases self.series@.len() - i,
        {
            if self.series[i].key.same_series(key) {
                return Some(i);
            }
            i = i + 1;
        }
        None
    }

    /// Puts `counts` as the series of `key`, updating the one at `found`.
    fn put(&mut self, key: &MetricKey, found: Option<usize>, counts: (u64, u64, u64))
        requires
            old(self).wf(),
            match found {
                Some(i) => i < old(self).series@.len() && old(self).key_at(i as int) == key@,
                None => !old(self)@.series.contains_key(key@),
            },
        ensures
            final(self).wf(),
            final(self)@.series == old(self)@.series.insert(
                key@,
                SeriesView { started: counts.0, observed: counts.1, total_nanos: counts.2 },
            ),
    {
        let entry = Series {
            key: key.duplicate(),
            started: counts.0,
            observed: counts.1,
            total_nanos: counts.2,
        };
        let ghost old_series = self.series@;
        let ghost new_model = self.model@.insert(key@, entry.counts());
        match found {
            Some(i) => {
                self.series.set(i, entry);
            },
            None => {
                self.series.push(entry);
            },
        }
        self.model = Ghost(new_model);
        proof {
            let n = self.series@.len();
            assert forall|j: int| 0 <= j < n implies self.model@.contains_key(#[trigger] self.key_at(j))
                && self.model@[self.key_at(j)] == self.series@[j].counts() by {
                match found {
                    Some(i) => {
                        if j != i {
                            assert(self.series@[j] == old_series[j]);
                            if j < i {
                                assert(old(self).key_at(j) != old(self).key_at(i as int));
                            } else {
                                assert(old(self).key_at(i as int) != old(self).key_at(j));
                            }
                        }
                    },
                    None => {
                        if j < n - 1 {
                            assert(self.series@[j] == old_series[j]);
                            assert(old(self).model@.contains_key(old(self).key_at(j)));
                        }
                    },
                }
            }
            assert forall|k: KeyView| #[trigger] self.model@.contains_key(k) implies exists|j: int|
                0 <= j < n && #[trigger] self.key_at(j) == k by {
                if k == key@ {
                    match found {
                        Some(i) => assert(self.key_at(i as int) == k),
                        None => assert(self.key_at(n - 1) == k),
                    }
                } else {
                    let j = choose|j: int| 0 <= j < old_series.len() && old(self).key_at(j) == k;
                    assert(self.series@[j] == old_series[j]);
                    assert(self.key_at(j) == k);
                }
            }
            assert forall|a: int, b: int| 0 <= a < b < n implies #[trigger] self.key_at(a)
                != #[trigger] self.key_at(b) by {
                match found {
                    Some(i) => {
                        assert(old(self).key_at(a) != old(self).key_at(b));
                    },
                    None => {
                        if b == n - 1 {
                            assert(old(self).model@.contains_key(old(self).key_at(a)));
                        } else {
                            assert(old(self).key_at(a) != old(self).key_at(b));
                        }
                    },
                }
            }
        }
    }

    /// Increments the counter of `key` by one.
    pub fn record_start(&mut self, key: &MetricKey)
        requires
            old(self).wf(),
        ensures
            final(self).wf(),
            final(self)@ == old(self)@.started(key@),
    {
        let found = self.find(key);
        let counts = match found {
            Some(i) => (
                self.series[i].started.saturating_add(1),
                self.series[i].observed,
                self.series[i].total_nanos,
            ),
            None => (1, 0, 0),
        };
        self.put(key, found, counts);
        assert(final(self)@.series =~= old(self)@.started(key@).series);
    }

    /// Observes `elapsed_nanos` into the histogram of `key`, and returns the
    /// log record of the finished query.
    pub fn record_finish(&mut self, key: &MetricKey, elapsed_nanos: u64) -> (r: LogRecord)
        requires
            old(self).wf(),
        ensures
            final(self).wf(),
            final(self)@ == old(self)@.finished(key@, elapsed_nanos),
            r@ == log_of(key@, elapsed_nanos),
    {
        let found = self.find(key);
        let counts = match found {
            Some(i) => (
                self.series[i].started,
                self.series[i].observed.saturating_add(1),
                self.series[i].total_nanos.saturating_add(elapsed_nanos),
            ),
            None => (0, 1, elapsed_nanos),
        };
        self.put(key, found, counts);
        assert(final(self)@.series =~= old(self)@.finished(key@, elapsed_nanos).series);
        LogRecord {
            location: key.site.location(),
            action: key.action,
            context: key.context.clone(),
            elapsed_nanos,
        }
    }

    /// The value of the counter series `key`.
    pub fn counter(&self, key: &MetricKey) -> (r: u64)
        requires
            self.wf(),
        ensures
            r == self@.counter(key@),
    {
        match self.find(key) {
            Some(i) => self.series[i].started,
            None => 0,
        }
    }

    /// The number of observations in the histogram series `key`.
    pub fn observation_count(&self, key: &MetricKey) -> (r: u64)
        requires
            self.wf(),
        ensures
            r == self@.observation_count(key@),
    {
        match self.find(key) {
            Some(i) => self.series[i].observed,
            None => 0,
        }
    }

    /// The total of the observations in the histogram series `key`.
    pub fn total_nanos(&self, key: &MetricKey) -> (r: u64)
        requires
            self.wf(),
        ensures
            r == self@.series_of(key@).total_nanos,
    {
        match self.find(key) {
            Some(i) => self.series[i].total_nanos,
            None => 0,
        }
    }
}

} // verus!
