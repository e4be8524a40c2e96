//! Matching a process id with what the process table shows for it.
//!
//! The caller looks the process up and hands in what it found: the command
//! line, whose arguments end in a zero byte each, and the time the entry was
//! last modified, which stands for the start of the process.

use vstd::prelude::*;
use crate::error::ServiceError;

verus! {

/// What the process table holds for one process.
#[derive(Clone, Debug, PartialEq, Eq)]
pub struct ProcEntry {
    /// The command line as stored: arguments with a zero byte after each.
    pub cmdline: Vec<u8>,
    /// When the entry was last modified, in seconds since the Unix epoch.
    pub modified: u64,
}

/// A running process as a report shows it.
#[derive(Clone, Debug, PartialEq, Eq)]
pub struct ProcessInfo {
    pub pid: u32,
    /// The first argument of the command line, byte for byte.
    pub command: Vec<u8>,
    /// About when the process started, in seconds since the Unix epoch.
    pub start_time: u64,
}

/// A `ProcessInfo` with its command as a sequence of bytes.
pub struct ProcessView {
    pub pid: u32,
    pub command: Seq<u8>,
    pub start_time: u64,
}

impl View for ProcessInfo {
    type V = ProcessView;

    open spec fn view(&self) -> ProcessView {
        ProcessView { pid: self.pid, command: self.command@, start_time: self.start_time }
    }
}

/// The view of a process that may be absent.
pub open spec fn process_view(process: Option<ProcessInfo>) -> Option<ProcessView> {
    match process {
        Some(p) => Some(p@),
        None => None,
    }
}

/// How many bytes stand before the first zero byte, or in all if there is
/// none.
pub open spec fn token_len(cmdline: Seq<u8>) -> nat
    decreases cmdline.len(),
{
    if cmdline.len() == 0 || cmdline[0] == 0 {
        0
    } else {
        1 + token_len(cmdline.drop_first())
    }
}

/// The first argument of a command line: its bytes up to the first zero
/// byte.
pub open spec fn first_token(cmdline: Seq<u8>) -> Seq<u8> {
    cmdline.take(token_len(cmdline) as int)
}

/// The first argument is a prefix of the command line, holds no zero byte,
/// and ends where the command line ends or where its first zero byte
/// stands.
pub proof fn lemma_first_token(cmdline: Seq<u8>)
    ensures
        token_len(cmdline) <= cmdline.len(),
        forall|i: int| 0 <= i < token_len(cmdline) ==> cmdline[i] != 0,
        token_len(cmdline) < cmdline.len() ==> cmdline[token_len(cmdline) as int] == 0,
    decreases cmdline.len(),
{
    if cmdline.len() > 0 && cmdline[0] != 0 {
        let rest = cmdline.drop_first();
        lemma_first_token(rest);
        assert forall|i: int| 0 <= i < token_len(cmdline) implies cmdline[i] != 0 by {
            if i > 0 {
                assert(cmdline[i] == rest[i - 1]);
            }
        }
        if token_len(cmdline) < cmdline.len() {
            assert(cmdline[token_len(cmdline) as int] == rest[token_len(rest) as int]);
        }
    }
}

/// What a lookup yields, as a function of what the process table showed.
pub open spec fn correlated(pid: u32, entry: Option<ProcEntry>) -> Result<ProcessView, ServiceError> {
    match entry {
        Some(e) if e.cmdline@.len() > 0 => Ok(
            ProcessView {
                pid,
                command: first_token(e.cmdline@),
                start_time: e.modified,
            },
        ),
        _ => Err(ServiceError::ProcessNotFound),
    }
}

/// The view of a lookup's result.
pub open spec fn lookup_view(result: Result<ProcessInfo, ServiceError>) -> Result<
    ProcessView,
    ServiceError,
> {
    match result {
        Ok(info) => Ok(info@),
        Err(e) => Err(e),
    }
}

/// The first argument of a command line.
pub fn first_token_of(cmdline: &[u8]) -> (token: Vec<u8>)
    ensures
        token@ == first_token(cmdline@),
{
    let mut token: Vec<u8> = Vec::new();
    let mut i: usize = 0;
    assert(cmdline@.skip(0) =~= cmdline@);
    while i < cmdline.len() && cmdline[i] != 0
        invariant
            i <= cmdline@.len(),
            token@ == cmdline@.take(i as int),
            token_len(cmdline@) == i + token_len(cmdline@.skip(i as int)),
        decreases cmdline@.len() - i,
    {
        proof {
            assert(cmdline@.skip(i as int).drop_first() =~= cmdline@.skip(i + 1));
            assert(cmdline@.take(i + 1) =~= cmdline@.take(i as int).push(cmdline@[i as int]));
        }
        token.push(cmdline[i]);
        i += 1;
    }
    token
}

/// Says what runs under `pid`, given what the process table showed for it.
///
/// Fails with `ProcessNotFound` exactly where there was no entry or its
/// command line was empty: the process has gone since its id was read.
/// Otherwise the command is the first argument of the command line, and the
/// start time is the entry's time of modification.
pub fn correlate(pid: u32, entry: Option<&ProcEntry>) -> (result: Result<ProcessInfo, ServiceError>)
    ensures
        lookup_view(result) == correlated(
            pid,
            match entry {
                Some(e) => Some(*e),
                None => None,
            },
        ),
{
    match entry {
        Some(e) => {
            if e.cmdline.len() == 0 {
                return Err(ServiceError::ProcessNotFound);
            }
            let command = first_token_of(e.cmdline.as_slice());
            Ok(ProcessInfo { pid, command, start_time: e.modified })
        },
        None => Err(ServiceError::ProcessNotFound),
    }
}

} // verus!
