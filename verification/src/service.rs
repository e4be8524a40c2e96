//! One supervised service: where it lives, what was read from its
//! directory, and what `enable` and `disable` would change there.
//!
//! A service is a directory. It counts as a service only while it holds the
//! entry that a supervisor keeps its status record in. Whether it is enabled
//! is decided by a symbolic link in the directory, the control link: the
//! service is enabled while the link leads to a place outside the directory
//! that is left out at boot.
//!
//! Nothing here reads or writes a disk. The caller looks at the directory
//! and hands in what it found, as a `Probe`; `enable` and `disable` answer
//! with the change to make, as a `Mutation`.

use vstd::prelude::*;
use vstd::string::StringExecFns;
use crate::error::ServiceError;
use crate::status::{decode, decoded, RunState, StatusSnapshot, Timestamp};
use crate::text::{is_within, join_path, joined_path, path_within, same_text, text_of};

verus! {

/// The entry of a service directory that a supervisor keeps: a directory
/// with it is a service, one without it is not.
pub const SUPERVISE_ENTRY: &'static str = "supervise";

/// Where the status record lies in a service directory.
pub const STATUS_ENTRY: &'static str = "supervise/status";

/// The entry of a service directory that is the control link.
pub const LINK_ENTRY: &'static str = "boot";

/// Where `enable` points the control link.
pub const ENABLED_TARGET: &'static str = "/etc/sv/boot/enabled";

/// The directory that is left out at boot: a control link that leads into
/// it keeps its service disabled.
pub const EXCLUDED_DIR: &'static str = "/etc/sv/boot/excluded";

/// A service by name and place. It holds nothing that was read from disk:
/// what is read comes with each question, as a `Probe`.
#[derive(Clone, Debug, PartialEq, Eq)]
pub struct Service {
    /// The name of the service, as it was given or found.
    pub name: String,
    /// The directory of the service.
    pub path: String,
}

/// A `Service` with its texts as characters.
pub struct ServiceView {
    pub name: Seq<char>,
    pub path: Seq<char>,
}

impl View for Service {
    type V = ServiceView;

    open spec fn view(&self) -> ServiceView {
        ServiceView { name: self.name@, path: self.path@ }
    }
}

/// What one look at a service directory found.
#[derive(Clone, Debug, PartialEq, Eq)]
pub struct Probe {
    /// The names of the entries of the directory.
    pub entries: Vec<String>,
    /// The bytes of the status record; `None` where it could not be read.
    pub status: Option<Vec<u8>>,
    /// Where the control link leads; `None` where there is no such link.
    pub link_target: Option<String>,
}

/// A change to the control link.
#[derive(Debug, PartialEq, Eq)]
pub enum Mutation {
    /// Leave the directory as it is.
    Keep,
    /// Make the control link lead to this target, in place of whatever link
    /// is there, in one step.
    Link(String),
    /// Remove the control link.
    Unlink,
}

/// A `Mutation` with its target as characters.
pub enum MutationView {
    Keep,
    Link(Seq<char>),
    Unlink,
}

impl View for Mutation {
    type V = MutationView;

    open spec fn view(&self) -> MutationView {
        match self {
            Mutation::Keep => MutationView::Keep,
            Mutation::Link(target) => MutationView::Link(target@),
            Mutation::Unlink => MutationView::Unlink,
        }
    }
}

/// Whether what was found is a supervised service: the directory holds the
/// entry that a supervisor keeps.
pub open spec fn is_service(probe: Probe) -> bool {
    probe.entries.deep_view().contains(SUPERVISE_ENTRY@)
}

/// Whether a control link that leads to `target` enables its service: there
/// is a link, and it leads outside the excluded directory.
pub open spec fn link_enables(target: Option<Seq<char>>) -> bool {
    match target {
        Some(t) => !path_within(t, EXCLUDED_DIR@),
        None => false,
    }
}

/// What `enable` asks for: nothing where the service is enabled, else a
/// link to the enabled target.
pub open spec fn enable_plan(target: Option<Seq<char>>) -> MutationView {
    if link_enables(target) {
        MutationView::Keep
    } else {
        MutationView::Link(ENABLED_TARGET@)
    }
}

/// What `disable` asks for: nothing where the service is disabled, else
/// that the link goes.
pub open spec fn disable_plan(target: Option<Seq<char>>) -> MutationView {
    if link_enables(target) {
        MutationView::Unlink
    } else {
        MutationView::Keep
    }
}

/// Where the control link leads once `change` is done, if it led to
/// `target` before.
pub open spec fn link_after(change: MutationView, target: Option<Seq<char>>) -> Option<Seq<char>> {
    match change {
        MutationView::Keep => target,
        MutationView::Link(to) => Some(to),
        MutationView::Unlink => None,
    }
}

/// The view of a plan that may have been refused.
pub open spec fn plan_view(plan: Result<Mutation, ServiceError>) -> Result<
    MutationView,
    ServiceError,
> {
    match plan {
        Ok(change) => Ok(change@),
        Err(e) => Err(e),
    }
}

/// The status record of a probe, decoded; the failure where the service is
/// not valid, or the record is missing or malformed.
pub open spec fn probed_status(probe: Probe) -> Result<StatusSnapshot, ServiceError> {
    if !is_service(probe) {
        Err(ServiceError::InvalidService)
    } else {
        match probe.status {
            Some(bytes) => decoded(bytes@),
            None => Err(ServiceError::MalformedRecord),
        }
    }
}

/// What `Service::enable` answers to a probe: `InvalidService` where the
/// directory is no service, else the change that enables it.
pub open spec fn enable_of(probe: Probe) -> Result<MutationView, ServiceError> {
    if is_service(probe) {
        Ok(enable_plan(text_of(probe.link_target)))
    } else {
        Err(ServiceError::InvalidService)
    }
}

/// What `Service::disable` answers to a probe: `InvalidService` where the
/// directory is no service, else the change that disables it.
pub open spec fn disable_of(probe: Probe) -> Result<MutationView, ServiceError> {
    if is_service(probe) {
        Ok(disable_plan(text_of(probe.link_target)))
    } else {
        Err(ServiceError::InvalidService)
    }
}

/// Whether `after` may be found once the change that `answer` holds has
/// been made to what `before` found: the directory is a service as before,
/// and the control link leads where the change left it.
pub open spec fn follows(before: Probe, answer: Result<MutationView, ServiceError>, after: Probe) -> bool {
    &&& is_service(after) == is_service(before)
    &&& answer matches Ok(change)
    &&& text_of(after.link_target) == link_after(change, text_of(before.link_target))
}

/// The enabled target lies outside the excluded directory.
pub proof fn lemma_enabled_target_enables()
    ensures
        link_enables(Some(ENABLED_TARGET@)),
{
    reveal_strlit("/etc/sv/boot/enabled");
    reveal_strlit("/etc/sv/boot/excluded");
    assert(ENABLED_TARGET@.len() < EXCLUDED_DIR@.len());
}

/// Enabling twice is enabling once. Where a first `enable` was answered
/// with a change and the change was made, the service is enabled, and a
/// second `enable` is answered without error by `Keep`: the link stays as
/// the first call left it.
pub proof fn lemma_enable_is_idempotent(first: Probe, second: Probe)
    requires
        follows(first, enable_of(first), second),
    ensures
        link_enables(text_of(second.link_target)),
        enable_of(second) == Ok::<MutationView, ServiceError>(MutationView::Keep),
        link_after(MutationView::Keep, text_of(second.link_target)) == text_of(second.link_target),
{
    lemma_enabled_target_enables();
}

/// Disabling twice is disabling once. Where a first `disable` was answered
/// with a change and the change was made, the service is disabled, and a
/// second `disable` is answered without error by `Keep`.
pub proof fn lemma_disable_is_idempotent(first: Probe, second: Probe)
    requires
        follows(first, disable_of(first), second),
    ensures
        !link_enables(text_of(second.link_target)),
        disable_of(second) == Ok::<MutationView, ServiceError>(MutationView::Keep),
        link_after(MutationView::Keep, text_of(second.link_target)) == text_of(second.link_target),
{
}

/// A service that is enabled already is left as it is: `enable` is answered
/// without error by `Keep`, whatever the link leads to.
pub proof fn lemma_enabled_service_is_kept(probe: Probe)
    requires
        is_service(probe),
        link_enables(text_of(probe.link_target)),
    ensures
        enable_of(probe) == Ok::<MutationView, ServiceError>(MutationView::Keep),
{
}

impl Probe {
    /// Whether what was found is a supervised service: the directory holds
    /// the entry that a supervisor keeps.
    pub fn valid(&self) -> (valid: bool)
        ensures
            valid == is_service(*self),
    {
        let mut i: usize = 0;
        while i < self.entries.len()
            invariant
                i <= self.entries@.len(),
                forall|k: int| 0 <= k < i ==> self.entries.deep_view()[k] != SUPERVISE_ENTRY@,
            decreases self.entries@.len() - i,
        {
            if same_text(self.entries[i].as_str(), SUPERVISE_ENTRY) {
                assert(self.entries.deep_view()[i as int] == SUPERVISE_ENTRY@);
                return true;
            }
            i += 1;
        }
        false
    }

    /// The status record of this probe, decoded.
    ///
    /// Fails with `InvalidService` where the directory is no service, and
    /// with `MalformedRecord` where the record is missing or does not
    /// decode. The record of a directory that is no service is never looked
    /// at.
    pub fn read_status(&self) -> (result: Result<StatusSnapshot, ServiceError>)
        ensures
            result == probed_status(*self),
    {
        if !self.valid() {
            return Err(ServiceError::InvalidService);
        }
        match &self.status {
            Some(bytes) => decode(bytes.as_slice()),
            None => Err(ServiceError::MalformedRecord),
        }
    }
}

impl Service {
    /// A service of this name in this directory.
    pub fn new(name: &str, path: &str) -> (service: Service)
        ensures
            service.name@ == name@,
            service.path@ == path@,
    {
        Service { name: String::from_str(name), path: String::from_str(path) }
    }

    /// The service called `name` under the service root `root`.
    pub fn locate(root: &str, name: &str) -> (service: Service)
        ensures
            service.name@ == name@,
            service.path@ == joined_path(root@, name@),
    {
        Service { name: String::from_str(name), path: join_path(root, name) }
    }

    /// Where the status record of this service is kept.
    pub fn status_path(&self) -> (path: String)
        ensures
            path@ == joined_path(self.path@, STATUS_ENTRY@),
    {
        join_path(self.path.as_str(), STATUS_ENTRY)
    }

    /// Where the control link of this service is kept.
    pub fn link_path(&self) -> (path: String)
        ensures
            path@ == joined_path(self.path@, LINK_ENTRY@),
    {
        join_path(self.path.as_str(), LINK_ENTRY)
    }

    /// Whether the directory is a supervised service: it holds the entry
    /// that a supervisor keeps.
    pub fn valid(&self, probe: &Probe) -> (valid: bool)
        ensures
            valid == is_service(*probe),
    {
        probe.valid()
    }

    /// Whether the service is enabled: its control link is there and leads
    /// outside the excluded directory. What the service is doing plays no
    /// part.
    pub fn enabled(&self, probe: &Probe) -> (enabled: bool)
        ensures
            enabled == link_enables(text_of(probe.link_target)),
    {
        match &probe.link_target {
            Some(target) => !is_within(target.as_str(), EXCLUDED_DIR),
            None => false,
        }
    }

    /// The process id in the status record.
    ///
    /// Fails with `InvalidService` where the directory is no service, with
    /// `MalformedRecord` where the record is missing or does not decode, and
    /// with `ProcessNotFound` where the record names no process.
    pub fn get_pid(&self, probe: &Probe) -> (result: Result<u32, ServiceError>)
        ensures
            result == (match probed_status(*probe) {
                Ok(s) => match s.spec_process() {
                    Some(pid) => Ok(pid),
                    None => Err(ServiceError::ProcessNotFound),
                },
                Err(e) => Err(e),
            }),
    {
        match probe.read_status() {
            Ok(s) => match s.process() {
                Some(pid) => Ok(pid),
                None => Err(ServiceError::ProcessNotFound),
            },
            Err(e) => Err(e),
        }
    }

    /// The state in the status record.
    ///
    /// Fails with `InvalidService` where the directory is no service and
    /// with `MalformedRecord` where the record is missing or does not
    /// decode. A state byte of unknown value is no failure: it gives
    /// `Unknown`.
    pub fn get_state(&self, probe: &Probe) -> (result: Result<RunState, ServiceError>)
        ensures
            result == (match probed_status(*probe) {
                Ok(s) => Ok(s.spec_state()),
                Err(e) => Err(e),
            }),
    {
        match probe.read_status() {
            Ok(s) => Ok(s.state()),
            Err(e) => Err(e),
        }
    }

    /// The time of the last state transition in the status record.
    ///
    /// Fails with `InvalidService` where the directory is no service and
    /// with `MalformedRecord` where the record is missing or does not
    /// decode.
    pub fn get_start_time(&self, probe: &Probe) -> (result: Result<Timestamp, ServiceError>)
        ensures
            result == (match probed_status(*probe) {
                Ok(s) => Ok(s.spec_timestamp()),
                Err(e) => Err(e),
            }),
    {
        match probe.read_status() {
            Ok(s) => Ok(s.timestamp()),
            Err(e) => Err(e),
        }
    }

    /// The change that enables this service.
    ///
    /// Refused with `InvalidService` exactly where the directory is no
    /// service. Else the change is `Keep` where the service is enabled
    /// already, and a link to the enabled target where it is not.
    pub fn enable(&self, probe: &Probe) -> (plan: Result<Mutation, ServiceError>)
        ensures
            plan_view(plan) == enable_of(*probe),
    {
        if !probe.valid() {
            Err(ServiceError::InvalidService)
        } else if self.enabled(probe) {
            Ok(Mutation::Keep)
        } else {
            Ok(Mutation::Link(String::from_str(ENABLED_TARGET)))
        }
    }

    /// The change that disables this service.
    ///
    /// Refused with `InvalidService` exactly where the directory is no
    /// service. Else the change is `Keep` where the service is disabled
    /// already, and the removal of the link where it is not.
    pub fn disable(&self, probe: &Probe) -> (plan: Result<Mutation, ServiceError>)
        ensures
            plan_view(plan) == disable_of(*probe),
    {
        if !probe.valid() {
            Err(ServiceError::InvalidService)
        } else if self.enabled(probe) {
            Ok(Mutation::Unlink)
        } else {
            Ok(Mutation::Keep)
        }
    }
}

} // verus!
