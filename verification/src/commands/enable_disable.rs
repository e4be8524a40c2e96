//! `enable` and `disable`: one service after the other.
//!
//! Changing a service takes two looks at the disk with a decision after
//! each, so the run is cut into steps. The caller does what a step asks for
//! and comes back with what it found:
//!
//! 1. `do_enable` or `do_disable` starts the run and names the first service
//!    to probe, or ends at once where there are no operands.
//! 2. `ControlRun::probed` takes the probe. It settles the service where it
//!    is no service or needs no change, and else asks for a change.
//! 3. `ControlRun::changed` takes what the filesystem said of the change and
//!    settles the service.
//!
//! Each settled service comes with its outcome and with the next step: the
//! next service to probe, or the end of the run, which is a failure as soon
//! as one service failed.
//!
//! Which way a run goes is fixed by the function that starts it: `do_enable`
//! enables and `do_disable` disables, whatever else the `Config` says. An
//! operand is a name under the service root; one that starts at the root
//! of the filesystem is taken as the path of its service.

use vstd::prelude::*;
use vstd::string::StringExecFns;
use crate::commands::LineColor;
use crate::config::{Config, ConfigView};
use crate::error::{ErrorView, ServiceError};
use crate::service::{
    disable_of, enable_of, is_service, link_enables, Mutation, MutationView, Probe, Service,
    ServiceView, ENABLED_TARGET,
};
use crate::text::{copy_texts, joined_path, text_of};

verus! {

/// Why a run as a whole failed.
#[derive(Clone, Copy, Debug, PartialEq, Eq, Structural)]
pub enum ControlError {
    /// No service was named.
    NoServices,
    /// At least one service could not be changed.
    Failed,
}

/// What is left of a run once the service at hand is settled.
#[derive(Debug, PartialEq, Eq)]
pub struct ControlRun {
    /// Whether the run enables; else it disables.
    pub enable: bool,
    /// The service root.
    pub svdir: String,
    /// The names of the services that are still to come.
    pub rest: Vec<String>,
    /// Whether a service has failed so far.
    pub had_error: bool,
}

/// The next step of a run.
#[derive(Debug, PartialEq, Eq)]
pub enum Next {
    /// Probe this service and call `probed` on the run.
    Probe { service: Service, run: ControlRun },
    /// The run is over, with this result.
    Finish(Result<(), ControlError>),
}

/// A service that is done with, one way or the other.
#[derive(Debug, PartialEq, Eq)]
pub struct Settled {
    /// What came of the service.
    pub outcome: Result<(), ServiceError>,
    pub next: Next,
}

/// What a probe leads to.
#[derive(Debug, PartialEq, Eq)]
pub enum Probed {
    /// Carry out this change on this service and call `changed` on the run.
    Change { service: Service, change: Mutation, run: ControlRun },
    /// The service is done with.
    Settled(Settled),
}

/// A `ControlRun` with its texts as characters.
pub struct ControlRunView {
    pub enable: bool,
    pub svdir: Seq<char>,
    pub rest: Seq<Seq<char>>,
    pub had_error: bool,
}

/// A `Next` with its texts as characters.
pub enum NextView {
    Probe { service: ServiceView, run: ControlRunView },
    Finish(Result<(), ControlError>),
}

/// A `Settled` with its texts as characters.
pub struct SettledView {
    pub outcome: Result<(), ErrorView>,
    pub next: NextView,
}

/// A `Probed` with its texts as characters.
pub enum ProbedView {
    Change { service: ServiceView, change: MutationView, run: ControlRunView },
    Settled(SettledView),
}

impl View for ControlRun {
    type V = ControlRunView;

    open spec fn view(&self) -> ControlRunView {
        ControlRunView {
            enable: self.enable,
            svdir: self.svdir@,
            rest: self.rest.deep_view(),
            had_error: self.had_error,
        }
    }
}

impl View for Next {
    type V = NextView;

    open spec fn view(&self) -> NextView {
        match self {
            Next::Probe { service, run } => NextView::Probe { service: service@, run: run@ },
            Next::Finish(result) => NextView::Finish(*result),
        }
    }
}

impl View for Settled {
    type V = SettledView;

    open spec fn view(&self) -> SettledView {
        SettledView {
            outcome: match self.outcome {
                Ok(_) => Ok(()),
                Err(e) => Err(e@),
            },
            next: self.next@,
        }
    }
}

impl View for Probed {
    type V = ProbedView;

    open spec fn view(&self) -> ProbedView {
        match self {
            Probed::Change { service, change, run } => ProbedView::Change {
                service: service@,
                change: change@,
                run: run@,
            },
            Probed::Settled(settled) => ProbedView::Settled(settled@),
        }
    }
}

impl ControlError {
    /// What `message` says of this error.
    pub open spec fn spec_message(self) -> Seq<char> {
        match self {
            ControlError::NoServices => "at least one (1) service required"@,
            ControlError::Failed => "failed to modify service(s)"@,
        }
    }

    /// A line of text that says what went wrong.
    pub fn message(&self) -> (text: String)
        ensures
            text@ == self.spec_message(),
    {
        match self {
            ControlError::NoServices => String::from_str("at least one (1) service required"),
            ControlError::Failed => String::from_str("failed to modify service(s)"),
        }
    }
}

/// The step after a service is settled: the first of the services still to
/// come, found under the service root, or the end of the run where none is
/// left. The run ends in `Failed` exactly where a service has failed.
pub open spec fn advance(run: ControlRunView) -> NextView {
    if run.rest.len() == 0 {
        NextView::Finish(
            if run.had_error {
                Err(ControlError::Failed)
            } else {
                Ok(())
            },
        )
    } else {
        NextView::Probe {
            service: ServiceView {
                name: run.rest[0],
                path: joined_path(run.svdir, run.rest[0]),
            },
            run: ControlRunView { rest: run.rest.drop_first(), ..run },
        }
    }
}

/// The first step of a run over the operands of `cfg`, which enables where
/// `enable` holds and disables where it does not. Without operands the run
/// ends at once in `NoServices`. The mode of `cfg` plays no part.
pub open spec fn begin_run(enable: bool, cfg: ConfigView) -> NextView {
    if cfg.operands.len() == 0 {
        NextView::Finish(Err(ControlError::NoServices))
    } else {
        advance(ControlRunView { enable, svdir: cfg.svdir, rest: cfg.operands, had_error: false })
    }
}

/// A service settled with `outcome`: the run goes on, and it has failed if
/// it had before or if this service did.
pub open spec fn settle(run: ControlRunView, outcome: Result<(), ErrorView>) -> SettledView {
    SettledView {
        outcome,
        next: advance(ControlRunView { had_error: run.had_error || outcome is Err, ..run }),
    }
}

/// What follows the probe of a service. A directory that is no service
/// settles as `InvalidService` and is left alone. A service that is as the
/// run wants it settles as done. Any other gets the change that the run is
/// for.
pub open spec fn after_probe(run: ControlRunView, service: ServiceView, probe: Probe) -> ProbedView {
    let answer = if run.enable {
        enable_of(probe)
    } else {
        disable_of(probe)
    };
    match answer {
        Err(e) => ProbedView::Settled(settle(run, Err(e@))),
        Ok(MutationView::Keep) => ProbedView::Settled(settle(run, Ok(()))),
        Ok(change) => ProbedView::Change { service, change, run },
    }
}

/// What follows a change: the service settles as done where the filesystem
/// reported no failure, and as `MutationFailed` with its words where it
/// did.
pub open spec fn after_change(run: ControlRunView, failure: Option<Seq<char>>) -> SettledView {
    match failure {
        None => settle(run, Ok(())),
        Some(reason) => settle(run, Err(ErrorView::MutationFailed(reason))),
    }
}

/// What a run meets at one service: what the probe finds, and what the
/// filesystem says of the change, should one be asked for.
pub struct Encounter {
    pub probe: Probe,
    pub failure: Option<Seq<char>>,
}

/// How a service settles that meets `met`: by its probe alone, or by the
/// change that the probe led to.
pub open spec fn settled_by(run: ControlRunView, service: ServiceView, met: Encounter) -> SettledView {
    match after_probe(run, service, met.probe) {
        ProbedView::Settled(settled) => settled,
        ProbedView::Change { run, .. } => after_change(run, met.failure),
    }
}

/// Whether a service fails that meets `met`: it is no service, or it needs
/// a change and the filesystem refuses it.
pub open spec fn fails(enable: bool, met: Encounter) -> bool {
    let answer = if enable {
        enable_of(met.probe)
    } else {
        disable_of(met.probe)
    };
    match answer {
        Err(_) => true,
        Ok(MutationView::Keep) => false,
        Ok(_) => met.failure is Some,
    }
}

/// How many services a run has before it from the step `next` on.
pub open spec fn services_left(next: NextView) -> nat {
    match next {
        NextView::Finish(_) => 0,
        NextView::Probe { run, .. } => 1 + run.rest.len(),
    }
}

/// How a run ends that stands at `next` and whose services meet, one after
/// the other, what `way` holds.
pub open spec fn ending(next: NextView, way: Seq<Encounter>) -> Result<(), ControlError>
    decreases services_left(next),
{
    match next {
        NextView::Finish(result) => result,
        NextView::Probe { service, run } => ending(
            settled_by(run, service, way[0]).next,
            way.drop_first(),
        ),
    }
}

/// Whether any service on the way fails.
pub open spec fn any_fails(enable: bool, way: Seq<Encounter>) -> bool {
    exists|i: int| 0 <= i < way.len() && fails(enable, #[trigger] way[i])
}

/// A run that goes on from `run` ends in `Failed` exactly where a service
/// had failed before or one of those to come fails.
proof fn lemma_ending(run: ControlRunView, way: Seq<Encounter>)
    requires
        way.len() == run.rest.len(),
    ensures
        ending(advance(run), way) == (if run.had_error || any_fails(run.enable, way) {
            Err::<(), ControlError>(ControlError::Failed)
        } else {
            Ok::<(), ControlError>(())
        }),
    decreases run.rest.len(),
{
    if run.rest.len() > 0 {
        let left = ControlRunView { rest: run.rest.drop_first(), ..run };
        let service = ServiceView { name: run.rest[0], path: joined_path(run.svdir, run.rest[0]) };
        let settled = settled_by(left, service, way[0]);
        let onward = ControlRunView { had_error: run.had_error || fails(run.enable, way[0]), ..left };
        assert(advance(run) == NextView::Probe { service, run: left });
        assert(settled.next == advance(onward));
        lemma_ending(onward, way.drop_first());
        if any_fails(run.enable, way) {
            let i = choose|i: int| 0 <= i < way.len() && fails(run.enable, #[trigger] way[i]);
            if i > 0 {
                assert(way.drop_first()[i - 1] == way[i]);
            }
        }
        if any_fails(run.enable, way.drop_first()) {
            let i = choose|i: int|
                0 <= i < way.drop_first().len() && fails(run.enable, #[trigger] way.drop_first()[i]);
            assert(way[i + 1] == way.drop_first()[i]);
        }
    }
}

/// A run over the operands of `cfg` fails as a whole exactly where one of
/// its services fails, however the others fare: it ends in `NoServices`
/// where there are no operands, in `Failed` where a service is no service
/// or its change is refused, and in `Ok` where every service is, or is
/// made, as the run wants it.
pub proof fn lemma_run_fails_where_a_service_fails(
    enable: bool,
    cfg: ConfigView,
    way: Seq<Encounter>,
)
    requires
        way.len() == cfg.operands.len(),
    ensures
        ending(begin_run(enable, cfg), way) == (if cfg.operands.len() == 0 {
            Err::<(), ControlError>(ControlError::NoServices)
        } else if any_fails(enable, way) {
            Err::<(), ControlError>(ControlError::Failed)
        } else {
            Ok::<(), ControlError>(())
        }),
{
    if cfg.operands.len() > 0 {
        lemma_ending(
            ControlRunView { enable, svdir: cfg.svdir, rest: cfg.operands, had_error: false },
            way,
        );
    }
}

/// An enabling run enables: a service that is found disabled gets a link to
/// the enabled target, one that is found enabled is left as it is, and
/// neither ever has its link removed. A disabling run never makes a link.
pub proof fn lemma_direction_is_kept(run: ControlRunView, service: ServiceView, probe: Probe)
    requires
        is_service(probe),
    ensures
        run.enable && !link_enables(text_of(probe.link_target)) ==> after_probe(
            run,
            service,
            probe,
        ) == (ProbedView::Change { service, change: MutationView::Link(ENABLED_TARGET@), run }),
        run.enable ==> !(after_probe(run, service, probe) matches ProbedView::Change {
            change: MutationView::Unlink,
            ..
        }),
        !run.enable && link_enables(text_of(probe.link_target)) ==> after_probe(
            run,
            service,
            probe,
        ) == (ProbedView::Change { service, change: MutationView::Unlink, run }),
        !run.enable ==> !(after_probe(run, service, probe) matches ProbedView::Change {
            change: MutationView::Link(_),
            ..
        }),
{
}

/// A directory that is no service is never changed: its probe settles it,
/// with `InvalidService`, whichever way the run goes.
pub proof fn lemma_invalid_service_is_left_alone(
    run: ControlRunView,
    service: ServiceView,
    probe: Probe,
)
    requires
        !is_service(probe),
    ensures
        after_probe(run, service, probe) == ProbedView::Settled(
            settle(run, Err(ErrorView::InvalidService)),
        ),
{
}

/// What is shown for a settled service, as a model.
pub open spec fn outcome_line(outcome: Result<(), ErrorView>) -> Seq<char> {
    match outcome {
        Ok(_) => "done"@,
        Err(e) => "failed! "@ + e.message(),
    }
}

/// The colour in which a settled service is shown: green where it is done,
/// red where it failed.
pub fn outcome_color(outcome: &Result<(), ServiceError>) -> (color: LineColor)
    ensures
        color == (if *outcome is Ok {
            LineColor::Green
        } else {
            LineColor::Red
        }),
{
    match outcome {
        Ok(_) => LineColor::Green,
        Err(_) => LineColor::Red,
    }
}

/// What is shown for a settled service: `done`, or `failed!` and the
/// reason.
pub fn outcome_text(outcome: &Result<(), ServiceError>) -> (text: String)
    ensures
        text@ == outcome_line(
            match *outcome {
                Ok(_) => Ok(()),
                Err(e) => Err(e@),
            },
        ),
{
    match outcome {
        Ok(_) => String::from_str("done"),
        Err(e) => {
            let reason = e.message();
            String::from_str("failed! ").concat(reason.as_str())
        },
    }
}

impl ControlRun {
    fn advance(self) -> (next: Next)
        ensures
            next@ == advance(self@),
    {
        let mut run = self;
        if run.rest.len() == 0 {
            return Next::Finish(
                if run.had_error {
                    Err(ControlError::Failed)
                } else {
                    Ok(())
                },
            );
        }
        let name = run.rest.remove(0);
        let service = Service::locate(run.svdir.as_str(), name.as_str());
        proof {
            assert(run.rest.deep_view() =~= self.rest.deep_view().drop_first());
            assert(self.rest.deep_view()[0] == name@);
        }
        Next::Probe { service, run }
    }

    fn settle(self, outcome: Result<(), ServiceError>) -> (settled: Settled)
        ensures
            settled@ == settle(
                self@,
                match outcome {
                    Ok(_) => Ok(()),
                    Err(e) => Err(e@),
                },
            ),
    {
        let mut run = self;
        if outcome.is_err() {
            run.had_error = true;
        }
        let next = run.advance();
        Settled { outcome, next }
    }

    /// Takes the probe of `service` and says what follows.
    ///
    /// A directory that is no service is never changed: it settles as
    /// `InvalidService`. A service that is already as the run wants it
    /// settles as done, with no change asked for.
    pub fn probed(self, service: Service, probe: &Probe) -> (probed: Probed)
        ensures
            probed@ == after_probe(self@, service@, *probe),
    {
        let plan = if self.enable {
            service.enable(probe)
        } else {
            service.disable(probe)
        };
        match plan {
            Err(e) => Probed::Settled(self.settle(Err(e))),
            Ok(Mutation::Keep) => Probed::Settled(self.settle(Ok(()))),
            Ok(change) => Probed::Change { service, change, run: self },
        }
    }

    /// Takes what the filesystem said of a change, `None` for success, and
    /// settles the service.
    pub fn changed(self, failure: Option<String>) -> (settled: Settled)
        ensures
            settled@ == after_change(self@, text_of(failure)),
    {
        match failure {
            None => self.settle(Ok(())),
            Some(reason) => self.settle(Err(ServiceError::MutationFailed(reason))),
        }
    }
}

fn _do_enable_disable(cfg: &Config, enable: bool) -> (next: Next)
    ensures
        next@ == begin_run(enable, cfg@),
{
    if cfg.operands.len() == 0 {
        return Next::Finish(Err(ControlError::NoServices));
    }
    let run = ControlRun {
        enable,
        svdir: cfg.svdir.clone(),
        rest: copy_texts(&cfg.operands),
        had_error: false,
    };
    run.advance()
}

/// Starts a run that enables the operands of `cfg`, in their order.
///
/// Without operands the run ends at once in `NoServices`. The run enables
/// whatever the mode of `cfg` is.
pub fn do_enable(cfg: &Config) -> (next: Next)
    ensures
        next@ == begin_run(true, cfg@),
{
    _do_enable_disable(cfg, true)
}

/// Starts a run that disables the operands of `cfg`, in their order.
///
/// Without operands the run ends at once in `NoServices`. The run disables
/// whatever the mode of `cfg` is.
pub fn do_disable(cfg: &Config) -> (next: Next)
    ensures
        next@ == begin_run(false, cfg@),
{
    _do_enable_disable(cfg, false)
}

} // verus!
