//! The History Aggregator: a cumulative per-zone temperature time series,
//! keyed by zone name. Merging a new day report appends its data points to
//! the zone's series in arrival order — no sort, no deduplication — or
//! inserts the report as a new zone.

use vstd::prelude::*;

use crate::api::ZoneDayReportApiResponse;
use crate::client::Client;
use crate::model::{DataPoint, HistoryReport, Temperature, ZoneState};

verus! {

/// Where a zone name stands in a sequence of reports: the first index whose
/// report carries that name, or `-1` when none does.
pub open spec fn spec_index_of(s: Seq<HistoryReport>, name: Seq<char>) -> int
    decreases s.len(),
{
    if s.len() == 0 {
        -1
    } else if s[0].name@ == name {
        0
    } else {
        let rest = spec_index_of(s.drop_first(), name);
        if rest < 0 {
            -1
        } else {
            rest + 1
        }
    }
}

/// The found index is in range and carries the name; a negative answer means
/// no report carries it.
pub proof fn lemma_index_of(s: Seq<HistoryReport>, name: Seq<char>)
    ensures
        spec_index_of(s, name) >= 0 ==> spec_index_of(s, name) < s.len() && s[spec_index_of(
            s,
            name,
        )].name@ == name,
        spec_index_of(s, name) < 0 ==> forall|i: int|
            0 <= i < s.len() ==> (#[trigger] s[i]).name@ != name,
    decreases s.len(),
{
    if s.len() > 0 {
        lemma_index_of(s.drop_first(), name);
        if s[0].name@ != name {
            assert forall|i: int| 0 <= i < s.len() && spec_index_of(s, name) < 0 implies (
            #[trigger] s[i]).name@ != name by {
                if i > 0 {
                    assert(s.drop_first()[i - 1] == s[i]);
                }
            }
        }
    }
}

/// The accumulated history of all zones. Reports are kept in first-seen
/// order, one per zone name.
pub struct HistoryMap {
    pub reports: Vec<HistoryReport>,
}

impl HistoryMap {
    /// Well-formed: no two reports carry the same zone name.
    pub open spec fn wf(self) -> bool {
        forall|i: int, j: int|
            0 <= i < j < self.reports@.len() ==> (#[trigger] self.reports@[i]).name@ != (
            #[trigger] self.reports@[j]).name@
    }

    /// An empty history.
    pub fn new() -> (h: HistoryMap)
        ensures
            h.reports@.len() == 0,
            h.wf(),
    {
        HistoryMap { reports: Vec::new() }
    }

    /// How many zones the history holds.
    pub fn len(&self) -> (n: usize)
        ensures
            n == self.reports@.len(),
    {
        self.reports.len()
    }

    /// The report at one position.
    pub fn get(&self, i: usize) -> (r: &HistoryReport)
        requires
            i < self.reports@.len(),
        ensures
            *r == self.reports@[i as int],
    {
        &self.reports[i]
    }

    /// Folds one day report into the history. A zone not seen before is
    /// inserted as given; a known zone keeps its series and the report's data
    /// points are appended behind it, existing points first, new points after
    /// them, both in their own order. No other zone changes.
    pub fn merge(&mut self, report: HistoryReport)
        requires
            old(self).wf(),
        ensures
            final(self).wf(),
            spec_index_of(old(self).reports@, report.name@) < 0 ==> final(self).reports@ == old(
                self,
            ).reports@.push(report),
            spec_index_of(old(self).reports@, report.name@) >= 0 ==> {
                let i = spec_index_of(old(self).reports@, report.name@);
                &&& final(self).reports@.len() == old(self).reports@.len()
                &&& final(self).reports@[i].name@ == old(self).reports@[i].name@
                &&& final(self).reports@[i].inside_temperature@ == old(
                    self,
                ).reports@[i].inside_temperature@ + report.inside_temperature@
                &&& forall|j: int|
                    0 <= j < old(self).reports@.len() && j != i ==> final(self).reports@[j] == old(
                        self,
                    ).reports@[j]
            },
    {
        proof {
            lemma_index_of(self.reports@, report.name@);
        }
        let ghost orig = self.reports@;
        let mut idx: usize = 0;
        let n = self.reports.len();
        while idx < n
            invariant
                n == self.reports@.len(),
                idx <= n,
                self.reports@ == orig,
                orig == old(self).reports@,
                old(self).wf(),
                forall|k: int| 0 <= k < idx ==> (#[trigger] orig[k]).name@ != report.name@,
            decreases n - idx,
        {
            if self.reports[idx].name == report.name {
                proof {
                    lemma_index_of_prefix(orig, report.name@, idx as int);
                }
                let mut entry = self.reports.remove(idx);
                let ghost old_points = entry.inside_temperature@;
                let HistoryReport { name: _, inside_temperature: mut points } = report;
                entry.inside_temperature.append(&mut points);
                let ghost merged = entry;
                self.reports.insert(idx, entry);
                proof {
                    assert(merged.name@ == orig[idx as int].name@);
                    assert(merged.inside_temperature@ == old_points
                        + report.inside_temperature@);
                    assert(self.reports@ =~= orig.update(idx as int, merged));
                    assert(forall|j: int|
                        0 <= j < orig.len() && j != idx ==> self.reports@[j] == orig[j]);
                    assert forall|a: int, b: int|
                        0 <= a < b < self.reports@.len() implies (
                    #[trigger] self.reports@[a]).name@ != (#[trigger] self.reports@[b]).name@ by {
                        assert(orig[a].name@ != orig[b].name@);
                        assert(self.reports@[a] == orig.update(idx as int, merged)[a]);
                        assert(self.reports@[b] == orig.update(idx as int, merged)[b]);
                        assert(self.reports@[a].name@ == orig[a].name@);
                        assert(self.reports@[b].name@ == orig[b].name@);
                    }
                }
                return ;
            }
            idx = idx + 1;
        }
        self.reports.push(report);
        proof {
            assert forall|i: int, j: int| 0 <= i < j < self.reports@.len() implies (
            #[trigger] self.reports@[i]).name@ != (#[trigger] self.reports@[j]).name@ by {
                if j == orig.len() as int {
                    assert(orig[i].name@ != report.name@);
                }
            }
        }
    }
}

/// Whether some report of the sequence carries this zone name.
pub open spec fn spec_has_report(s: Seq<HistoryReport>, name: Seq<char>) -> bool {
    spec_index_of(s, name) >= 0
}

/// Every data point that the reports carry for the zone `name`, in arrival
/// order.
pub open spec fn spec_gathered(reports: Seq<HistoryReport>, name: Seq<char>) -> Seq<
    DataPoint<Temperature>,
>
    decreases reports.len(),
{
    if reports.len() == 0 {
        Seq::empty()
    } else {
        (if reports[0].name@ == name {
            reports[0].inside_temperature@
        } else {
            Seq::empty()
        }) + spec_gathered(reports.drop_first(), name)
    }
}

/// How appending a report moves the search: a name found before is found at
/// the same place; the new report's own name is found at the end; any other
/// name is still absent.
pub proof fn lemma_index_of_push(s: Seq<HistoryReport>, r: HistoryReport, name: Seq<char>)
    ensures
        spec_index_of(s.push(r), name) == (if spec_index_of(s, name) >= 0 {
            spec_index_of(s, name)
        } else if r.name@ == name {
            s.len() as int
        } else {
            -1
        }),
    decreases s.len(),
{
    if s.len() == 0 {
        assert(s.push(r)[0] == r);
        assert(s.push(r).drop_first() =~= Seq::<HistoryReport>::empty());
        assert(spec_index_of(Seq::<HistoryReport>::empty(), name) == -1);
        assert(spec_index_of(s, name) == -1);
    } else {
        assert(s.push(r)[0] == s[0]);
        assert(s.push(r).drop_first() =~= s.drop_first().push(r));
        lemma_index_of_push(s.drop_first(), r, name);
        if s[0].name@ == name {
            assert(spec_index_of(s, name) == 0);
            assert(spec_index_of(s.push(r), name) == 0);
        } else {
            let rest_pushed = spec_index_of(s.drop_first().push(r), name);
            let rest = spec_index_of(s.drop_first(), name);
            assert(spec_index_of(s.push(r), name) == (if rest_pushed < 0 {
                -1int
            } else {
                rest_pushed + 1
            }));
            assert(spec_index_of(s, name) == (if rest < 0 {
                -1int
            } else {
                rest + 1
            }));
        }
    }
}

/// How appending a report extends the gathered points: its own zone gains
/// the report's points at the end; every other zone keeps what it had.
pub proof fn lemma_gathered_push(s: Seq<HistoryReport>, r: HistoryReport, name: Seq<char>)
    ensures
        spec_gathered(s.push(r), name) == spec_gathered(s, name) + (if r.name@ == name {
            r.inside_temperature@
        } else {
            Seq::<DataPoint<Temperature>>::empty()
        }),
    decreases s.len(),
{
    let tail: Seq<DataPoint<Temperature>> = if r.name@ == name {
        r.inside_temperature@
    } else {
        Seq::empty()
    };
    if s.len() == 0 {
        assert(s.push(r)[0] == r);
        assert(s.push(r).drop_first() =~= Seq::<HistoryReport>::empty());
        assert(spec_gathered(Seq::<HistoryReport>::empty(), name) == Seq::<
            DataPoint<Temperature>,
        >::empty());
        assert(spec_gathered(s.push(r), name) == tail + Seq::<DataPoint<Temperature>>::empty());
        assert(tail + Seq::<DataPoint<Temperature>>::empty() =~= tail);
        assert(spec_gathered(s, name) + tail =~= tail);
    } else {
        assert(s.push(r)[0] == s[0]);
        assert(s.push(r).drop_first() =~= s.drop_first().push(r));
        lemma_gathered_push(s.drop_first(), r, name);
        let head: Seq<DataPoint<Temperature>> = if s[0].name@ == name {
            s[0].inside_temperature@
        } else {
            Seq::empty()
        };
        assert(spec_gathered(s.push(r), name) == head + spec_gathered(s.drop_first().push(r), name));
        assert(spec_gathered(s, name) == head + spec_gathered(s.drop_first(), name));
        assert(head + (spec_gathered(s.drop_first(), name) + tail) =~= (head + spec_gathered(
            s.drop_first(),
            name,
        )) + tail);
    }
}

/// A zone that no report carries gathers nothing.
pub proof fn lemma_gathered_absent(s: Seq<HistoryReport>, name: Seq<char>)
    requires
        !spec_has_report(s, name),
    ensures
        spec_gathered(s, name) == Seq::<DataPoint<Temperature>>::empty(),
    decreases s.len(),
{
    if s.len() > 0 {
        lemma_index_of(s, name);
        assert(s[0].name@ != name);
        lemma_index_of_prefix_absent(s, name);
        lemma_gathered_absent(s.drop_first(), name);
        assert(spec_gathered(s, name) =~= Seq::<DataPoint<Temperature>>::empty());
    }
}

/// A name absent from a sequence is absent from its tail.
proof fn lemma_index_of_prefix_absent(s: Seq<HistoryReport>, name: Seq<char>)
    requires
        s.len() > 0,
        !spec_has_report(s, name),
    ensures
        !spec_has_report(s.drop_first(), name),
{
}

/// The search goes by zone names alone: two sequences of reports carrying
/// the same names in the same places are searched alike.
pub proof fn lemma_index_of_same_names(
    s1: Seq<HistoryReport>,
    s2: Seq<HistoryReport>,
    name: Seq<char>,
)
    requires
        s1.len() == s2.len(),
        forall|j: int| 0 <= j < s1.len() ==> (#[trigger] s1[j]).name@ == s2[j].name@,
    ensures
        spec_index_of(s1, name) == spec_index_of(s2, name),
    decreases s1.len(),
{
    if s1.len() > 0 {
        assert forall|j: int| 0 <= j < s1.drop_first().len() implies (
        #[trigger] s1.drop_first()[j]).name@ == s2.drop_first()[j].name@ by {
            assert(s1.drop_first()[j] == s1[j + 1]);
            assert(s2.drop_first()[j] == s2[j + 1]);
        }
        lemma_index_of_same_names(s1.drop_first(), s2.drop_first(), name);
    }
}

/// Replacing one report in a sequence: the first report of the same zone is
/// replaced outright; a new zone is appended.
pub open spec fn spec_set_report(s: Seq<HistoryReport>, report: HistoryReport) -> Seq<
    HistoryReport,
> {
    let i = spec_index_of(s, report.name@);
    if i < 0 {
        s.push(report)
    } else {
        s.update(i, report)
    }
}

/// What a history holds after a pulled map is folded into it, report by
/// report.
pub open spec fn spec_set_history(dst: Seq<HistoryReport>, src: Seq<HistoryReport>) -> Seq<
    HistoryReport,
>
    decreases src.len(),
{
    if src.len() == 0 {
        dst
    } else {
        spec_set_history(spec_set_report(dst, src[0]), src.drop_first())
    }
}

impl HistoryMap {
    /// Replaces one zone's report outright, or inserts it when the zone is
    /// new. Unlike [`HistoryMap::merge`], nothing is concatenated: the new
    /// series stands in place of the old one.
    pub fn set_report(&mut self, report: HistoryReport)
        requires
            old(self).wf(),
        ensures
            final(self).wf(),
            final(self).reports@ == spec_set_report(old(self).reports@, report),
    {
        proof {
            lemma_index_of(self.reports@, report.name@);
        }
        let ghost orig = self.reports@;
        let mut idx: usize = 0;
        let n = self.reports.len();
        while idx < n
            invariant
                n == self.reports@.len(),
                idx <= n,
                self.reports@ == orig,
                orig == old(self).reports@,
                old(self).wf(),
                forall|k: int| 0 <= k < idx ==> (#[trigger] orig[k]).name@ != report.name@,
            decreases n - idx,
        {
            if self.reports[idx].name == report.name {
                proof {
                    lemma_index_of_prefix(orig, report.name@, idx as int);
                }
                let ghost replacement = report;
                let _ = self.reports.remove(idx);
                self.reports.insert(idx, report);
                proof {
                    assert(self.reports@ =~= orig.update(idx as int, replacement));
                    assert forall|a: int, b: int|
                        0 <= a < b < self.reports@.len() implies (
                    #[trigger] self.reports@[a]).name@ != (#[trigger] self.reports@[b]).name@ by {
                        assert(orig[a].name@ != orig[b].name@);
                        assert(self.reports@[a].name@ == orig[a].name@);
                        assert(self.reports@[b].name@ == orig[b].name@);
                    }
                }
                return ;
            }
            idx = idx + 1;
        }
        self.reports.push(report);
        proof {
            assert forall|i: int, j: int| 0 <= i < j < self.reports@.len() implies (
            #[trigger] self.reports@[i]).name@ != (#[trigger] self.reports@[j]).name@ by {
                if j == orig.len() as int {
                    assert(orig[i].name@ != report.name@);
                }
            }
        }
    }
}

/// Folds a freshly pulled history into the served one: each zone of the pull
/// replaces its previous series outright, and zones absent from the pull
/// keep what they had.
pub fn set_history(history_map: &mut HistoryMap, history: HistoryMap)
    requires
        old(history_map).wf(),
    ensures
        final(history_map).wf(),
        final(history_map).reports@ == spec_set_history(
            old(history_map).reports@,
            history.reports@,
        ),
{
    let ghost src0 = history.reports@;
    let mut incoming = history.reports;
    proof {
        assert(incoming@ =~= src0);
    }
    while incoming.len() > 0
        invariant
            history_map.wf(),
            spec_set_history(old(history_map).reports@, src0) == spec_set_history(
                history_map.reports@,
                incoming@,
            ),
        decreases incoming@.len(),
    {
        let ghost pre = incoming@;
        let report = incoming.remove(0);
        proof {
            assert(incoming@ =~= pre.drop_first());
            assert(pre[0] == report);
        }
        history_map.set_report(report);
    }
}

/// When a name is absent from the first `idx` reports and stands at `idx`,
/// that is exactly where the search finds it.
pub proof fn lemma_index_of_prefix(s: Seq<HistoryReport>, name: Seq<char>, idx: int)
    requires
        0 <= idx < s.len(),
        s[idx].name@ == name,
        forall|k: int| 0 <= k < idx ==> (#[trigger] s[k]).name@ != name,
    ensures
        spec_index_of(s, name) == idx,
    decreases idx,
{
    if idx == 0 {
    } else {
        assert(s.drop_first()[idx - 1] == s[idx]);
        assert forall|k: int| 0 <= k < idx - 1 implies (#[trigger] s.drop_first()[k]).name@
            != name by {
            assert(s.drop_first()[k] == s[k + 1]);
        }
        lemma_index_of_prefix(s.drop_first(), name, idx - 1);
    }
}

impl Client {
    /// Folds one day report into the shared history map; the client itself
    /// is untouched.
    pub fn merge_history(&mut self, history: &mut HistoryMap, report: HistoryReport)
        requires
            old(history).wf(),
        ensures
            *final(self) == *old(self),
            final(history).wf(),
            spec_index_of(old(history).reports@, report.name@) < 0 ==> final(history).reports@
                == old(history).reports@.push(report),
            spec_index_of(old(history).reports@, report.name@) >= 0 ==> {
                let i = spec_index_of(old(history).reports@, report.name@);
                &&& final(history).reports@.len() == old(history).reports@.len()
                &&& final(history).reports@[i].name@ == old(history).reports@[i].name@
                &&& final(history).reports@[i].inside_temperature@ == old(
                    history,
                ).reports@[i].inside_temperature@ + report.inside_temperature@
                &&& forall|j: int|
                    0 <= j < old(history).reports@.len() && j != i ==> final(history).reports@[j]
                        == old(history).reports@[j]
            },
    {
        history.merge(report);
    }

    /// One zone's day report turned into its history contribution: the
    /// zone's name joined with the report's converted temperature series.
    pub fn history_date(
        &self,
        zone: &ZoneState,
        day_report: &ZoneDayReportApiResponse,
    ) -> (r: HistoryReport)
        ensures
            r.name@ == zone.name@,
            r.inside_temperature@ == day_report.spec_convert_inside_temperature(),
    {
        HistoryReport {
            name: zone.name.clone(),
            inside_temperature: day_report.convert_inside_temperature(),
        }
    }

    /// Builds a fresh history from the day reports of one full pull, merging
    /// them in order into an empty map: the result holds exactly the zone
    /// names of the reports, and each zone's series is the concatenation of
    /// all that zone's reports' points, in arrival order.
    pub fn history(&mut self, day_reports: Vec<HistoryReport>) -> (h: HistoryMap)
        ensures
            *final(self) == *old(self),
            h.wf(),
            forall|name: Seq<char>| #[trigger]
                spec_has_report(h.reports@, name) == spec_has_report(day_reports@, name),
            forall|name: Seq<char>| #[trigger]
                spec_has_report(h.reports@, name) ==> h.reports@[spec_index_of(
                    h.reports@,
                    name,
                )].inside_temperature@ == spec_gathered(day_reports@, name),
    {
        let mut h = HistoryMap::new();
        let mut incoming = day_reports;
        let ghost all = incoming@;
        let ghost mut processed: Seq<HistoryReport> = Seq::empty();
        proof {
            assert(all =~= processed + incoming@);
        }
        while incoming.len() > 0
            invariant
                h.wf(),
                all == day_reports@,
                all == processed + incoming@,
                forall|name: Seq<char>| #[trigger]
                    spec_has_report(h.reports@, name) == spec_has_report(processed, name),
                forall|name: Seq<char>| #[trigger]
                    spec_has_report(h.reports@, name) ==> h.reports@[spec_index_of(
                        h.reports@,
                        name,
                    )].inside_temperature@ == spec_gathered(processed, name),
            decreases incoming@.len(),
        {
            let ghost pre_incoming = incoming@;
            let report = incoming.remove(0);
            let ghost r = report;
            let ghost pre_h = h.reports@;
            let ghost pre_processed = processed;
            proof {
                lemma_index_of(pre_h, r.name@);
            }
            h.merge(report);
            proof {
                processed = pre_processed.push(r);
                assert(pre_processed + pre_incoming =~= processed + incoming@);
                let found = spec_index_of(pre_h, r.name@);
                if found < 0 {
                    assert(h.reports@ == pre_h.push(r));
                    assert forall|name: Seq<char>| #[trigger]
                        spec_has_report(h.reports@, name) == spec_has_report(processed, name) by {
                        assert(spec_has_report(pre_h, name) == spec_has_report(
                            pre_processed,
                            name,
                        ));
                        lemma_index_of_push(pre_h, r, name);
                        lemma_index_of_push(pre_processed, r, name);
                    }
                    assert forall|name: Seq<char>|
                        spec_has_report(h.reports@, name) implies #[trigger] h.reports@[
                        spec_index_of(h.reports@, name)].inside_temperature@ == spec_gathered(
                        processed,
                        name,
                    ) by {
                        assert(spec_has_report(pre_h, name) == spec_has_report(
                            pre_processed,
                            name,
                        ));
                        lemma_index_of_push(pre_h, r, name);
                        lemma_index_of_push(pre_processed, r, name);
                        lemma_gathered_push(pre_processed, r, name);
                        if name == r.name@ {
                            assert(!spec_has_report(pre_processed, name));
                            assert(spec_index_of(h.reports@, name) == pre_h.len() as int);
                            assert(h.reports@[pre_h.len() as int] == r);
                            lemma_gathered_absent(pre_processed, name);
                            assert(spec_gathered(processed, name) =~= r.inside_temperature@);
                        } else {
                            assert(spec_gathered(processed, name) =~= spec_gathered(
                                pre_processed,
                                name,
                            ));
                            lemma_index_of(pre_h, name);
                            let i = spec_index_of(pre_h, name);
                            assert(spec_has_report(pre_h, name));
                            assert(pre_h[i].inside_temperature@ == spec_gathered(
                                pre_processed,
                                name,
                            ));
                            assert(h.reports@[i] == pre_h[i]);
                        }
                    }
                } else {
                    assert(h.reports@.len() == pre_h.len());
                    assert forall|j: int| 0 <= j < pre_h.len() implies (
                    #[trigger] h.reports@[j]).name@ == pre_h[j].name@ by {
                        if j != found {
                            assert(h.reports@[j] == pre_h[j]);
                        }
                    }
                    assert forall|name: Seq<char>| #[trigger]
                        spec_has_report(h.reports@, name) == spec_has_report(processed, name) by {
                        assert(spec_has_report(pre_h, name) == spec_has_report(
                            pre_processed,
                            name,
                        ));
                        lemma_index_of_same_names(h.reports@, pre_h, name);
                        lemma_index_of_push(pre_processed, r, name);
                    }
                    assert forall|name: Seq<char>|
                        spec_has_report(h.reports@, name) implies #[trigger] h.reports@[
                        spec_index_of(h.reports@, name)].inside_temperature@ == spec_gathered(
                        processed,
                        name,
                    ) by {
                        assert(spec_has_report(pre_h, name) == spec_has_report(
                            pre_processed,
                            name,
                        ));
                        lemma_index_of_same_names(h.reports@, pre_h, name);
                        lemma_index_of_push(pre_processed, r, name);
                        lemma_gathered_push(pre_processed, r, name);
                        lemma_index_of(pre_h, name);
                        let i = spec_index_of(pre_h, name);
                        assert(spec_has_report(pre_h, name));
                        assert(pre_h[i].inside_temperature@ == spec_gathered(
                            pre_processed,
                            name,
                        ));
                        if name == r.name@ {
                            assert(i == found);
                            assert(h.reports@[i].inside_temperature@ == pre_h[
                                i
                            ].inside_temperature@ + r.inside_temperature@);
                        } else {
                            assert(pre_h[found].name@ == r.name@);
                            assert(i != found);
                            assert(h.reports@[i] == pre_h[i]);
                            assert(spec_gathered(processed, name) =~= spec_gathered(
                                pre_processed,
                                name,
                            ));
                        }
                    }
                }
            }
        }
        proof {
            assert(processed =~= all);
        }
        h
    }
}

} // verus!
