//! Discovery and scan: from the entries of the service root to one report
//! per service, in the order of the names.
//!
//! Each report is made from what was observed of its own service and of
//! nothing else, so a service that cannot be read costs the others nothing:
//! its failure is kept in its report.

use vstd::prelude::*;
use vstd::string::StringExecFns;
use crate::config::{Config, ConfigView};
use crate::error::{error_view, ErrorView, ServiceError};
use crate::process::{correlate, correlated, process_view, ProcEntry, ProcessInfo, ProcessView};
use crate::service::{
    disable_of, follows, is_service, link_enables, probed_status, Probe, Service, ServiceView,
};
use crate::status::{snapshot_of, state_of, well_formed, RunState, StatusSnapshot};
use crate::text::{
    join_path, joined_path, lemma_lex_le_antisymmetric, lemma_lex_le_reflexive, lemma_lex_le_total,
    lemma_lex_le_transitive, lex_le,
    lossy_text, occurs_in, text_contains, text_le, text_of, utf8_lossy, SEPARATOR,
};

verus! {

/// What a report shows in place of a command that is not known.
pub const PLACEHOLDER: &'static str = "---";

/// The entry of a service directory that holds the service which keeps its
/// log.
pub const LOG_ENTRY: &'static str = "log";

/// One entry of the service root.
#[derive(Clone, Debug, PartialEq, Eq)]
pub struct DirEntry {
    pub name: String,
    /// Whether the entry is a directory.
    pub is_dir: bool,
}

/// What was observed of one service during a scan.
#[derive(Clone, Debug, PartialEq, Eq)]
pub struct Observation {
    pub service: Service,
    pub probe: Probe,
    /// What the process table showed for the process that the status record
    /// names; `None` where it showed nothing, or where nothing was looked up.
    pub process: Option<ProcEntry>,
}

/// What a scan says of one service.
#[derive(Debug, PartialEq, Eq)]
pub struct ServiceReport {
    pub name: String,
    /// Whether the directory is a supervised service.
    pub valid: bool,
    /// The decoded status record; `None` where there is none to show.
    pub snapshot: Option<StatusSnapshot>,
    pub enabled: bool,
    /// The supervised process; `None` where the service has none or it could
    /// not be found.
    pub process: Option<ProcessInfo>,
    /// What went wrong for this service, if anything did.
    pub error: Option<ServiceError>,
}

/// A `ServiceReport` with its texts as characters.
pub struct ReportView {
    pub name: Seq<char>,
    pub valid: bool,
    pub snapshot: Option<StatusSnapshot>,
    pub enabled: bool,
    pub process: Option<ProcessView>,
    pub error: Option<ErrorView>,
}

impl View for ServiceReport {
    type V = ReportView;

    open spec fn view(&self) -> ReportView {
        ReportView {
            name: self.name@,
            valid: self.valid,
            snapshot: self.snapshot,
            enabled: self.enabled,
            process: process_view(self.process),
            error: error_view(self.error),
        }
    }
}

/// The reports of a scan, with the sign that some service met a failure.
#[derive(Debug, PartialEq, Eq)]
pub struct ScanResult {
    /// One report for each service, in the order of the names.
    pub reports: Vec<ServiceReport>,
    /// Whether any report holds an error.
    pub had_errors: bool,
}

impl ReportView {
    /// The state that the report shows: that of its snapshot, and `Unknown`
    /// where it has none.
    pub open spec fn state(self) -> RunState {
        match self.snapshot {
            Some(s) => s.spec_state(),
            None => RunState::Unknown,
        }
    }

    /// The process id that the report shows.
    pub open spec fn pid(self) -> Option<u32> {
        match self.snapshot {
            Some(s) => s.spec_process(),
            None => None,
        }
    }

    /// The command that the report shows.
    pub open spec fn command_text(self) -> Seq<char> {
        match self.process {
            Some(p) => utf8_lossy(p.command),
            None => PLACEHOLDER@,
        }
    }

    /// How long the service has been in its state at the time `now`.
    pub open spec fn uptime(self, now: u64) -> Option<u64> {
        match self.snapshot {
            Some(s) => s.spec_elapsed(now),
            None => None,
        }
    }
}

/// The services among the entries of the root: one for each directory, in
/// the order of the entries.
pub open spec fn discovered(root: Seq<char>, entries: Seq<DirEntry>) -> Seq<ServiceView>
    decreases entries.len(),
{
    if entries.len() == 0 {
        Seq::empty()
    } else {
        let before = discovered(root, entries.drop_last());
        let entry = entries.last();
        if entry.is_dir {
            before.push(ServiceView { name: entry.name@, path: joined_path(root, entry.name@) })
        } else {
            before
        }
    }
}

/// Whether a service of this name is let through by the words of a filter:
/// there are no words, or one of them stands somewhere in the name.
pub open spec fn passes(name: Seq<char>, filter: Seq<Seq<char>>) -> bool {
    filter.len() == 0 || exists|k: int|
        0 <= k < filter.len() && occurs_in(name, #[trigger] filter[k])
}

/// The log service of a service: the service in its `log` entry, named
/// after it.
pub open spec fn log_service(of: ServiceView) -> ServiceView {
    ServiceView {
        name: of.name + seq![SEPARATOR] + LOG_ENTRY@,
        path: joined_path(of.path, LOG_ENTRY@),
    }
}

/// The services that a scan looks at: of the services among the entries
/// of the service root, those that the operands let through, each followed
/// by its log service where log services are asked for.
pub open spec fn targets_of(cfg: ConfigView, entries: Seq<DirEntry>) -> Seq<ServiceView>
    decreases entries.len(),
{
    if entries.len() == 0 {
        Seq::empty()
    } else {
        let before = targets_of(cfg, entries.drop_last());
        let entry = entries.last();
        let service = ServiceView {
            name: entry.name@,
            path: joined_path(cfg.svdir, entry.name@),
        };
        if !entry.is_dir || !passes(entry.name@, cfg.operands) {
            before
        } else if cfg.log {
            before.push(service).push(log_service(service))
        } else {
            before.push(service)
        }
    }
}

/// How many of the entries are directories.
pub open spec fn directories(entries: Seq<DirEntry>) -> nat
    decreases entries.len(),
{
    if entries.len() == 0 {
        0
    } else {
        directories(entries.drop_last()) + if entries.last().is_dir {
            1nat
        } else {
            0nat
        }
    }
}

/// The views of some services.
pub open spec fn service_views(services: Seq<Service>) -> Seq<ServiceView> {
    services.map_values(|s: Service| s@)
}

/// The views of some reports.
pub open spec fn report_views(reports: Seq<ServiceReport>) -> Seq<ReportView> {
    reports.map_values(|r: ServiceReport| r@)
}

/// The report of one service, as a function of what was observed of it.
///
/// The status is that of the probe. The process is looked at only where the
/// record names one. The error is the first failure met: that of the
/// status, else that of the process.
pub open spec fn report_of(seen: Observation) -> ReportView {
    let status = probed_status(seen.probe);
    let lookup = match status {
        Ok(s) => match s.spec_process() {
            Some(pid) => Some(correlated(pid, seen.process)),
            None => None,
        },
        Err(_) => None,
    };
    ReportView {
        name: seen.service.name@,
        valid: is_service(seen.probe),
        snapshot: match status {
            Ok(s) => Some(s),
            Err(_) => None,
        },
        enabled: link_enables(text_of(seen.probe.link_target)),
        process: match lookup {
            Some(Ok(p)) => Some(p),
            _ => None,
        },
        error: match status {
            Err(e) => Some(e@),
            Ok(_) => match lookup {
                Some(Err(e)) => Some(e@),
                _ => None,
            },
        },
    }
}

/// The reports of all observations, in their order.
pub open spec fn all_reports(seen: Seq<Observation>) -> Seq<ReportView> {
    Seq::new(seen.len(), |i: int| report_of(seen[i]))
}

/// How many reports at the head of `sorted` have a name that comes no
/// later than `name`: where a report of that name goes.
pub open spec fn slot(sorted: Seq<ReportView>, name: Seq<char>) -> nat
    decreases sorted.len(),
{
    if sorted.len() > 0 && lex_le(sorted[0].name, name) {
        1 + slot(sorted.drop_first(), name)
    } else {
        0
    }
}

/// `sorted` with `report` put in at its slot.
pub open spec fn inserted(sorted: Seq<ReportView>, report: ReportView) -> Seq<ReportView> {
    sorted.insert(slot(sorted, report.name) as int, report)
}

/// The reports in the order of their names; reports of one name keep the
/// order they came in.
pub open spec fn sorted_by_name(reports: Seq<ReportView>) -> Seq<ReportView>
    decreases reports.len(),
{
    if reports.len() == 0 {
        Seq::empty()
    } else {
        inserted(sorted_by_name(reports.drop_last()), reports.last())
    }
}

/// Whether the names never go back from one report to the next.
pub open spec fn ordered(reports: Seq<ReportView>) -> bool {
    forall|i: int, j: int|
        0 <= i < j < reports.len() ==> lex_le(
            (#[trigger] reports[i]).name,
            (#[trigger] reports[j]).name,
        )
}

/// Whether no two of the reports have one name.
pub open spec fn distinct_names(reports: Seq<ReportView>) -> bool {
    forall|i: int, j: int|
        0 <= i < j < reports.len() ==> (#[trigger] reports[i]).name != (#[trigger] reports[j]).name
}

/// Whether a report holds an error.
pub open spec fn failed(report: ReportView) -> bool {
    report.error is Some
}

/// Whether any of the reports holds an error.
pub open spec fn any_failed(reports: Seq<ReportView>) -> bool {
    exists|i: int| 0 <= i < reports.len() && failed(#[trigger] reports[i])
}

/// How many of the reports are flagged as no service.
pub open spec fn invalid_count(reports: Seq<ReportView>) -> nat
    decreases reports.len(),
{
    if reports.len() == 0 {
        0
    } else {
        invalid_count(reports.drop_last()) + if reports.last().valid {
            0nat
        } else {
            1nat
        }
    }
}

/// How many of the observations found no service.
pub open spec fn invalid_seen(seen: Seq<Observation>) -> nat
    decreases seen.len(),
{
    if seen.len() == 0 {
        0
    } else {
        invalid_seen(seen.drop_last()) + if is_service(seen.last().probe) {
            0nat
        } else {
            1nat
        }
    }
}

/// The slot lies within the sequence; every report before it has a name no
/// later than `name`, and the report at it, if there is one, a later name.
proof fn lemma_slot(sorted: Seq<ReportView>, name: Seq<char>)
    ensures
        slot(sorted, name) <= sorted.len(),
        forall|i: int| 0 <= i < slot(sorted, name) ==> lex_le((#[trigger] sorted[i]).name, name),
        slot(sorted, name) < sorted.len() ==> !lex_le(sorted[slot(sorted, name) as int].name, name),
    decreases sorted.len(),
{
    if sorted.len() > 0 && lex_le(sorted[0].name, name) {
        let rest = sorted.drop_first();
        lemma_slot(rest, name);
        assert forall|i: int| 0 <= i < slot(sorted, name) implies lex_le(
            (#[trigger] sorted[i]).name,
            name,
        ) by {
            if i > 0 {
                assert(sorted[i] == rest[i - 1]);
            }
        }
        if slot(sorted, name) < sorted.len() {
            assert(sorted[slot(sorted, name) as int] == rest[slot(rest, name) as int]);
        }
    }
}

/// A report put into reports that are in order leaves them in order.
proof fn lemma_inserted_is_ordered(sorted: Seq<ReportView>, report: ReportView)
    requires
        ordered(sorted),
    ensures
        ordered(inserted(sorted, report)),
{
    let at = slot(sorted, report.name) as int;
    let after = inserted(sorted, report);
    lemma_slot(sorted, report.name);
    assert forall|i: int, j: int| 0 <= i < j < after.len() implies lex_le(
        (#[trigger] after[i]).name,
        (#[trigger] after[j]).name,
    ) by {
        if j < at {
            assert(after[i] == sorted[i] && after[j] == sorted[j]);
        } else if j == at {
            assert(after[i] == sorted[i] && after[j] == report);
        } else if i == at {
            assert(after[j] == sorted[j - 1]);
            lemma_lex_le_total(sorted[at].name, report.name);
            if at < j - 1 {
                assert(lex_le(sorted[at].name, sorted[j - 1].name));
                lemma_lex_le_transitive(report.name, sorted[at].name, sorted[j - 1].name);
            }
        } else if i < at {
            assert(after[i] == sorted[i] && after[j] == sorted[j - 1]);
            if i == j - 1 {
                lemma_lex_le_reflexive(sorted[i].name);
            }
        } else {
            assert(after[i] == sorted[i - 1] && after[j] == sorted[j - 1]);
        }
    }
}

/// Sorting gives reports in the order of their names.
pub proof fn lemma_sorted_is_ordered(reports: Seq<ReportView>)
    ensures
        ordered(sorted_by_name(reports)),
    decreases reports.len(),
{
    if reports.len() > 0 {
        lemma_sorted_is_ordered(reports.drop_last());
        lemma_inserted_is_ordered(sorted_by_name(reports.drop_last()), reports.last());
    }
}

/// Sorting neither drops a report nor makes one up: the sorted reports are
/// the given ones, each as often as it was given.
pub proof fn lemma_sorted_is_permutation(reports: Seq<ReportView>)
    ensures
        sorted_by_name(reports).len() == reports.len(),
        sorted_by_name(reports).to_multiset() == reports.to_multiset(),
    decreases reports.len(),
{
    if reports.len() > 0 {
        let before = reports.drop_last();
        let sorted = sorted_by_name(before);
        lemma_sorted_is_permutation(before);
        lemma_slot(sorted, reports.last().name);
        vstd::seq_lib::to_multiset_insert(
            sorted,
            slot(sorted, reports.last().name) as int,
            reports.last(),
        );
        vstd::seq_lib::to_multiset_build(before, reports.last());
        assert(before.push(reports.last()) =~= reports);
    } else {
        assert(sorted_by_name(reports) =~= reports);
    }
}

/// A report that is among `from` is among `to`, where both hold the same
/// reports.
proof fn lemma_found_in_both(from: Seq<ReportView>, to: Seq<ReportView>, i: int) -> (k: int)
    requires
        from.to_multiset() == to.to_multiset(),
        0 <= i < from.len(),
    ensures
        0 <= k < to.len(),
        to[k] == from[i],
{
    assert(from.contains(from[i]));
    vstd::seq_lib::to_multiset_contains(from, from[i]);
    vstd::seq_lib::to_multiset_contains(to, from[i]);
    choose|k: int| 0 <= k < to.len() && to[k] == from[i]
}

/// The order of the names leaves no choice: reports of which no two have
/// one name can be arranged in that order in one way only.
pub proof fn lemma_order_is_unique(a: Seq<ReportView>, b: Seq<ReportView>)
    requires
        ordered(a),
        ordered(b),
        distinct_names(a),
        a.to_multiset() == b.to_multiset(),
    ensures
        a == b,
    decreases a.len(),
{
    broadcast use vstd::multiset::group_multiset_axioms;

    vstd::seq_lib::to_multiset_len(a);
    vstd::seq_lib::to_multiset_len(b);
    if a.len() == 0 {
        assert(a =~= b);
    } else {
        let last = a.len() - 1;
        let x = a[last];
        let y = b[last];
        let k = lemma_found_in_both(a, b, last);
        let m = lemma_found_in_both(b, a, last);
        if k < last && m < last {
            assert(lex_le(b[k].name, b[last].name));
            assert(lex_le(a[m].name, a[last].name));
            lemma_lex_le_antisymmetric(x.name, y.name);
            assert(a[m].name != a[last].name);
        }
        assert(x == y);
        let before_a = a.drop_last();
        let before_b = b.drop_last();
        assert(before_a.push(x) =~= a);
        assert(before_b.push(y) =~= b);
        vstd::seq_lib::to_multiset_build(before_a, x);
        vstd::seq_lib::to_multiset_build(before_b, y);
        assert(before_a.to_multiset() =~= before_b.to_multiset()) by {
            assert forall|v: ReportView|
                before_a.to_multiset().count(v) == before_b.to_multiset().count(v) by {
                assert(before_a.to_multiset().insert(x).count(v) == before_b.to_multiset().insert(
                    x,
                ).count(v));
            }
        }
        assert(ordered(before_a)) by {
            assert forall|i: int, j: int| 0 <= i < j < before_a.len() implies lex_le(
                (#[trigger] before_a[i]).name,
                (#[trigger] before_a[j]).name,
            ) by {
                assert(before_a[i] == a[i] && before_a[j] == a[j]);
            }
        }
        assert(ordered(before_b)) by {
            assert forall|i: int, j: int| 0 <= i < j < before_b.len() implies lex_le(
                (#[trigger] before_b[i]).name,
                (#[trigger] before_b[j]).name,
            ) by {
                assert(before_b[i] == b[i] && before_b[j] == b[j]);
            }
        }
        assert(distinct_names(before_a)) by {
            assert forall|i: int, j: int| 0 <= i < j < before_a.len() implies (
            #[trigger] before_a[i]).name != (#[trigger] before_a[j]).name by {
                assert(before_a[i] == a[i] && before_a[j] == a[j]);
            }
        }
        lemma_order_is_unique(before_a, before_b);
    }
}

/// A scan does not depend on the order in which the services were
/// observed: the same reports, in whatever order they come, are sorted into
/// the same sequence, as long as no two services have one name.
pub proof fn lemma_scan_order_is_settled(a: Seq<ReportView>, b: Seq<ReportView>)
    requires
        a.to_multiset() == b.to_multiset(),
        distinct_names(sorted_by_name(a)),
    ensures
        sorted_by_name(a) == sorted_by_name(b),
{
    lemma_sorted_is_ordered(a);
    lemma_sorted_is_ordered(b);
    lemma_sorted_is_permutation(a);
    lemma_sorted_is_permutation(b);
    lemma_order_is_unique(sorted_by_name(a), sorted_by_name(b));
}

/// Putting a report in adds one to the count of invalid ones exactly where
/// the report is flagged invalid.
proof fn lemma_insert_counts(reports: Seq<ReportView>, at: int, report: ReportView)
    requires
        0 <= at <= reports.len(),
    ensures
        invalid_count(reports.insert(at, report)) == invalid_count(reports) + if report.valid {
            0nat
        } else {
            1nat
        },
    decreases reports.len(),
{
    let after = reports.insert(at, report);
    if at == reports.len() {
        assert(after.drop_last() =~= reports);
    } else {
        lemma_insert_counts(reports.drop_last(), at, report);
        assert(after.drop_last() =~= reports.drop_last().insert(at, report));
        assert(after.last() == reports.last());
    }
}

/// A scan of N services of which M are no service gives N reports, of
/// which exactly M are flagged invalid.
pub proof fn lemma_scan_counts(seen: Seq<Observation>)
    ensures
        sorted_by_name(all_reports(seen)).len() == seen.len(),
        invalid_count(sorted_by_name(all_reports(seen))) == invalid_seen(seen),
    decreases seen.len(),
{
    lemma_sorted_is_permutation(all_reports(seen));
    if seen.len() > 0 {
        let before = all_reports(seen.drop_last());
        let last = report_of(seen.last());
        lemma_scan_counts(seen.drop_last());
        assert(all_reports(seen).drop_last() =~= before);
        lemma_slot(sorted_by_name(before), last.name);
        lemma_insert_counts(sorted_by_name(before), slot(sorted_by_name(before), last.name) as int, last);
    }
}

/// The report of a directory that is no service is flagged invalid, shows
/// no snapshot and no process, and holds `InvalidService`.
pub proof fn lemma_invalid_service_report(seen: Observation)
    requires
        !is_service(seen.probe),
    ensures
        !report_of(seen).valid,
        report_of(seen).snapshot is None,
        report_of(seen).process is None,
        report_of(seen).state() == RunState::Unknown,
        report_of(seen).error == Some(ErrorView::InvalidService),
{
}

/// The report of a service whose record decodes is flagged valid and shows
/// the state that the record's last byte stands for, whatever else was
/// observed.
pub proof fn lemma_valid_service_report(seen: Observation, record: Seq<u8>)
    requires
        is_service(seen.probe),
        seen.probe.status matches Some(bytes) && bytes@ == record,
        well_formed(record),
    ensures
        report_of(seen).valid,
        report_of(seen).snapshot == Some(snapshot_of(record)),
        report_of(seen).state() == state_of(record[19]),
        report_of(seen).pid() == snapshot_of(record).spec_process(),
{
}

/// A service whose record does not decode is still reported: its report
/// shows the state `Unknown` and holds `MalformedRecord`.
pub proof fn lemma_malformed_record_report(seen: Observation)
    requires
        is_service(seen.probe),
        seen.probe.status matches Some(bytes) ==> !well_formed(bytes@),
    ensures
        report_of(seen).valid,
        report_of(seen).state() == RunState::Unknown,
        report_of(seen).error == Some(ErrorView::MalformedRecord),
{
}

/// Every service that was observed is in the scan's result with the report
/// that its own observation gives, whatever was observed of the others.
pub proof fn lemma_every_service_is_reported(seen: Seq<Observation>, i: int)
    requires
        0 <= i < seen.len(),
    ensures
        sorted_by_name(all_reports(seen)).contains(report_of(seen[i])),
{
    let reports = all_reports(seen);
    lemma_sorted_is_permutation(reports);
    assert(reports[i] == report_of(seen[i]));
    assert(reports.contains(report_of(seen[i])));
    vstd::seq_lib::to_multiset_contains(reports, report_of(seen[i]));
    vstd::seq_lib::to_multiset_contains(sorted_by_name(reports), report_of(seen[i]));
}

/// A service that was disabled reports as not enabled, whatever its status
/// record says and whatever the process table shows: where `disable` was
/// answered with a change and the change was made, any report made from
/// what is found then shows the service disabled.
pub proof fn lemma_disabled_service_reports_disabled(before: Probe, seen: Observation)
    requires
        follows(before, disable_of(before), seen.probe),
    ensures
        !report_of(seen).enabled,
{
}

/// The enabled flag of a report follows the control link alone: two
/// observations with the same link give the same flag, whatever state their
/// records show.
pub proof fn lemma_enabled_is_independent_of_state(a: Observation, b: Observation)
    requires
        text_of(a.probe.link_target) == text_of(b.probe.link_target),
    ensures
        report_of(a).enabled == report_of(b).enabled,
{
}

impl ServiceReport {
    /// The state to show: that of the snapshot, and `Unknown` where the
    /// report has none.
    pub fn state(&self) -> (state: RunState)
        ensures
            state == self@.state(),
    {
        match &self.snapshot {
            Some(s) => s.state(),
            None => RunState::Unknown,
        }
    }

    /// The process id to show, if the record names one.
    pub fn pid(&self) -> (pid: Option<u32>)
        ensures
            pid == self@.pid(),
    {
        match &self.snapshot {
            Some(s) => s.process(),
            None => None,
        }
    }

    /// The command to show: that of the process, read as text, and the
    /// placeholder where the report has no process.
    pub fn command_text(&self) -> (text: String)
        ensures
            text@ == self@.command_text(),
            self.process is None ==> text@ == PLACEHOLDER@,
    {
        match &self.process {
            Some(p) => lossy_text(p.command.as_slice()),
            None => String::from_str(PLACEHOLDER),
        }
    }

    /// Whole seconds that the service has been in its state at the time
    /// `now`, counted in the epoch of the status record; `None` where the
    /// report has no snapshot or the last transition lies after `now`.
    pub fn uptime(&self, now: u64) -> (seconds: Option<u64>)
        ensures
            seconds == self@.uptime(now),
    {
        match &self.snapshot {
            Some(s) => s.elapsed(now),
            None => None,
        }
    }
}

/// The services under `root`: one for each entry that is a directory, in
/// the order of the entries. Entries of any other kind are passed over.
pub fn discover(root: &str, entries: &Vec<DirEntry>) -> (services: Vec<Service>)
    ensures
        service_views(services@) == discovered(root@, entries@),
        services@.len() == directories(entries@),
{
    let mut services: Vec<Service> = Vec::new();
    let mut i: usize = 0;
    while i < entries.len()
        invariant
            i <= entries@.len(),
            service_views(services@) == discovered(root@, entries@.take(i as int)),
            services@.len() == directories(entries@.take(i as int)),
        decreases entries@.len() - i,
    {
        proof {
            assert(entries@.take(i + 1).drop_last() =~= entries@.take(i as int));
        }
        if entries[i].is_dir {
            let service = Service::locate(root, entries[i].name.as_str());
            let ghost before = service_views(services@);
            services.push(service);
            assert(service_views(services@) =~= before.push(service@));
        }
        i += 1;
    }
    assert(entries@.take(entries@.len() as int) =~= entries@);
    services
}

/// Without words to filter by and without log services, the services that
/// a scan looks at are the directories of the service root, one service for
/// each.
pub proof fn lemma_targets_are_the_directories(cfg: ConfigView, entries: Seq<DirEntry>)
    requires
        cfg.operands.len() == 0,
        !cfg.log,
    ensures
        targets_of(cfg, entries) == discovered(cfg.svdir, entries),
    decreases entries.len(),
{
    if entries.len() > 0 {
        lemma_targets_are_the_directories(cfg, entries.drop_last());
    }
}

/// Whether the words of a filter let a service of this name through.
pub fn passes_filter(name: &str, filter: &Vec<String>) -> (through: bool)
    ensures
        through == passes(name@, filter.deep_view()),
{
    if filter.len() == 0 {
        return true;
    }
    let mut k: usize = 0;
    while k < filter.len()
        invariant
            k <= filter@.len(),
            forall|j: int| 0 <= j < k ==> !occurs_in(name@, #[trigger] filter.deep_view()[j]),
        decreases filter@.len() - k,
    {
        if text_contains(name, filter[k].as_str()) {
            assert(occurs_in(name@, filter.deep_view()[k as int]));
            return true;
        }
        k += 1;
    }
    false
}

/// The log service of `service`.
pub fn log_service_of(service: &Service) -> (log: Service)
    ensures
        log@ == log_service(service@),
{
    proof {
        reveal_strlit("/");
        assert("/"@ =~= seq![SEPARATOR]);
    }
    Service {
        name: service.name.clone().concat("/").concat(LOG_ENTRY),
        path: join_path(service.path.as_str(), LOG_ENTRY),
    }
}

/// The services to scan, given the entries of the service root of `cfg`.
///
/// Entries that are no directories are passed over. Where `cfg` has
/// operands, they are a filter: a service is kept where one of them stands
/// somewhere in its name. Where `cfg` asks for log services, each service
/// that is kept is followed by its log service.
pub fn targets(cfg: &Config, entries: &Vec<DirEntry>) -> (services: Vec<Service>)
    ensures
        service_views(services@) == targets_of(cfg@, entries@),
{
    let mut services: Vec<Service> = Vec::new();
    let mut i: usize = 0;
    while i < entries.len()
        invariant
            i <= entries@.len(),
            service_views(services@) == targets_of(cfg@, entries@.take(i as int)),
        decreases entries@.len() - i,
    {
        proof {
            assert(entries@.take(i + 1).drop_last() =~= entries@.take(i as int));
        }
        if entries[i].is_dir && passes_filter(entries[i].name.as_str(), &cfg.operands) {
            let service = Service::locate(cfg.svdir.as_str(), entries[i].name.as_str());
            let ghost before = service_views(services@);
            if cfg.log {
                let log = log_service_of(&service);
                services.push(service);
                services.push(log);
                assert(service_views(services@) =~= before.push(service@).push(log@));
            } else {
                services.push(service);
                assert(service_views(services@) =~= before.push(service@));
            }
        }
        i += 1;
    }
    assert(entries@.take(entries@.len() as int) =~= entries@);
    services
}

/// The report of one service, made from what was observed of it.
///
/// A directory that is no service is flagged and holds `InvalidService`. A
/// record that is missing or does not decode leaves the report without a
/// snapshot and holds `MalformedRecord`. A process that the record names
/// but the process table does not show leaves the report without a process
/// and holds `ProcessNotFound`; state and process id are shown all the
/// same. The enabled flag follows the control link alone.
pub fn report(seen: &Observation) -> (report: ServiceReport)
    ensures
        report@ == report_of(*seen),
{
    let name = seen.service.name.clone();
    let valid = seen.probe.valid();
    let enabled = seen.service.enabled(&seen.probe);
    match seen.probe.read_status() {
        Err(e) => ServiceReport {
            name,
            valid,
            snapshot: None,
            enabled,
            process: None,
            error: Some(e),
        },
        Ok(s) => match s.process() {
            None => ServiceReport {
                name,
                valid,
                snapshot: Some(s),
                enabled,
                process: None,
                error: None,
            },
            Some(pid) => match correlate(pid, seen.process.as_ref()) {
                Ok(info) => ServiceReport {
                    name,
                    valid,
                    snapshot: Some(s),
                    enabled,
                    process: Some(info),
                    error: None,
                },
                Err(e) => ServiceReport {
                    name,
                    valid,
                    snapshot: Some(s),
                    enabled,
                    process: None,
                    error: Some(e),
                },
            },
        },
    }
}

/// Puts `report` into `sorted` at its slot.
fn insert_report(sorted: &mut Vec<ServiceReport>, report: ServiceReport)
    ensures
        report_views(final(sorted)@) == inserted(report_views(old(sorted)@), report@),
{
    let ghost views = report_views(sorted@);
    let mut at: usize = 0;
    assert(views.skip(0) =~= views);
    while at < sorted.len() && text_le(sorted[at].name.as_str(), report.name.as_str())
        invariant
            at <= sorted@.len(),
            views == report_views(sorted@),
            slot(views, report@.name) == at + slot(views.skip(at as int), report@.name),
        decreases sorted@.len() - at,
    {
        proof {
            assert(views.skip(at as int).drop_first() =~= views.skip(at + 1));
            assert(views.skip(at as int)[0] == sorted@[at as int]@);
        }
        at += 1;
    }
    proof {
        if at < sorted@.len() {
            assert(views.skip(at as int)[0] == sorted@[at as int]@);
        }
    }
    sorted.insert(at, report);
    assert(report_views(sorted@) =~= views.insert(at as int, report@));
}

/// Scans the services that were observed: one report for each, in the
/// order of the names, and the sign that some report holds an error.
///
/// Reports of one name keep the order of their observations. No service is
/// left out and none is reported twice, whatever failed for the others.
pub fn scan(seen: &Vec<Observation>) -> (result: ScanResult)
    ensures
        report_views(result.reports@) == sorted_by_name(all_reports(seen@)),
        result.reports@.len() == seen@.len(),
        ordered(report_views(result.reports@)),
        result.had_errors == any_failed(all_reports(seen@)),
{
    let mut reports: Vec<ServiceReport> = Vec::new();
    let mut had_errors = false;
    let mut i: usize = 0;
    assert(all_reports(seen@).take(0) =~= Seq::<ReportView>::empty());
    while i < seen.len()
        invariant
            i <= seen@.len(),
            report_views(reports@) == sorted_by_name(all_reports(seen@).take(i as int)),
            had_errors == any_failed(all_reports(seen@).take(i as int)),
        decreases seen@.len() - i,
    {
        let next = report(&seen[i]);
        proof {
            let before = all_reports(seen@).take(i as int);
            let now = all_reports(seen@).take(i + 1);
            assert(now.drop_last() =~= before);
            assert(now.last() == next@);
            if any_failed(before) {
                let k = choose|k: int| 0 <= k < before.len() && failed(#[trigger] before[k]);
                assert(now[k] == before[k]);
            }
            if failed(next@) {
                assert(failed(now[i as int]));
            }
            if any_failed(now) {
                let k = choose|k: int| 0 <= k < now.len() && failed(#[trigger] now[k]);
                if k < i {
                    assert(before[k] == now[k]);
                }
            }
        }
        if next.error.is_some() {
            had_errors = true;
        }
        insert_report(&mut reports, next);
        i += 1;
    }
    proof {
        assert(all_reports(seen@).take(seen@.len() as int) =~= all_reports(seen@));
        lemma_sorted_is_ordered(all_reports(seen@));
        lemma_sorted_is_permutation(all_reports(seen@));
    }
    ScanResult { reports, had_errors }
}

} // verus!
