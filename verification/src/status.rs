//! The status record: twenty bytes that a supervisor rewrites in place.
//!
//! | offset | length | field                                              |
//! |--------|--------|----------------------------------------------------|
//! | 0      | 8      | seconds of the last transition, big-endian         |
//! | 8      | 4      | nanoseconds, big-endian                            |
//! | 12     | 4      | process id, little-endian; 0 means no process      |
//! | 16     | 1      | paused, nonzero for yes                            |
//! | 17     | 1      | want: `u` for up, `d` for down                     |
//! | 18     | 1      | termination requested, nonzero for yes             |
//! | 19     | 1      | state: 0 down, 1 run, 2 finish                     |
//!
//! Every string of twenty bytes is a record. A byte that no supervisor
//! writes is read with the same rule that holds for the others: a state
//! byte above 2 gives the state `Unknown`, and a want byte other than `u`
//! is read as down, as a supervisor writes `u` only where it wants the
//! service up.
//!
//! The seconds count in the supervisor's own epoch, which runs ahead of the
//! Unix clock by a fixed amount: `RECORD_EPOCH`.

use vstd::prelude::*;
use vstd::string::StringExecFns;
use crate::error::ServiceError;

verus! {

/// Width of a status record in bytes.
pub const RECORD_LEN: usize = 20;

/// The byte that stands for "wanted up": the letter `u`.
pub const WANT_UP: u8 = 0x75;

/// The byte that is written for "wanted down": the letter `d`.
pub const WANT_DOWN: u8 = 0x64;

/// Seconds by which the clock of a status record runs ahead of the Unix
/// clock: records count in TAI64, which puts the start of 1970 at 2 to the
/// power 62 and is ten seconds ahead of it.
pub const RECORD_EPOCH: u64 = 0x4000_0000_0000_000a;

/// What a service is doing, as far as its record tells.
#[derive(Clone, Copy, Debug, PartialEq, Eq, Structural)]
pub enum RunState {
    Run,
    Down,
    Finish,
    /// The state byte holds a value that no known supervisor writes.
    Unknown,
}

/// What the supervisor was last told to aim for.
#[derive(Clone, Copy, Debug, PartialEq, Eq, Structural)]
pub enum Want {
    Up,
    Down,
}

/// A moment as a status record holds it: seconds in the supervisor's own
/// epoch, and nanoseconds within the second.
#[derive(Clone, Copy, Debug, PartialEq, Eq, Structural)]
pub struct Timestamp {
    pub seconds: u64,
    pub nanoseconds: u32,
}

/// One reading of a status record.
#[derive(Clone, Copy, Debug, PartialEq, Eq, Structural)]
pub struct StatusSnapshot {
    /// Seconds of the last state transition, in the supervisor's own epoch.
    pub seconds: u64,
    /// Nanoseconds within that second, as recorded.
    pub nanoseconds: u32,
    /// Process id of the supervised process; 0 when there is none.
    pub pid: u32,
    pub paused: bool,
    pub want: Want,
    pub term_flag: bool,
    /// The state byte as recorded.
    pub run_flag: u8,
}

/// The number that a run of bytes spells with the most significant byte first.
pub open spec fn be_value(bytes: Seq<u8>) -> nat
    decreases bytes.len(),
{
    if bytes.len() == 0 {
        0
    } else {
        be_value(bytes.drop_last()) * 256 + bytes.last() as nat
    }
}

/// The number that a run of bytes spells with the least significant byte first.
pub open spec fn le_value(bytes: Seq<u8>) -> nat
    decreases bytes.len(),
{
    if bytes.len() == 0 {
        0
    } else {
        bytes.first() as nat + 256 * le_value(bytes.drop_first())
    }
}

/// 256 to the power `n`: one more than the largest number that `n` bytes spell.
pub open spec fn radix(n: nat) -> nat
    decreases n,
{
    if n == 0 {
        1
    } else {
        256 * radix((n - 1) as nat)
    }
}

/// The `n` bytes that spell `value`, most significant first. Digits above
/// the `n`-th are dropped.
pub open spec fn be_bytes(value: nat, n: nat) -> Seq<u8>
    decreases n,
{
    if n == 0 {
        Seq::empty()
    } else {
        be_bytes(value / 256, (n - 1) as nat).push((value % 256) as u8)
    }
}

/// The `n` bytes that spell `value`, least significant first.
pub open spec fn le_bytes(value: nat, n: nat) -> Seq<u8>
    decreases n,
{
    if n == 0 {
        Seq::empty()
    } else {
        seq![(value % 256) as u8] + le_bytes(value / 256, (n - 1) as nat)
    }
}

/// The state that a state byte stands for.
pub open spec fn state_of(flag: u8) -> RunState {
    if flag == 1 {
        RunState::Run
    } else if flag == 2 {
        RunState::Finish
    } else if flag == 0 {
        RunState::Down
    } else {
        RunState::Unknown
    }
}

/// Whether `bytes` can be read as a status record: the width is right.
pub open spec fn well_formed(bytes: Seq<u8>) -> bool {
    bytes.len() == RECORD_LEN
}

/// The moment on the clock of a status record that the Unix clock shows as
/// `unix_seconds`; the last moment of that clock where it lies beyond it.
pub open spec fn record_clock(unix_seconds: u64) -> u64 {
    if unix_seconds + RECORD_EPOCH <= u64::MAX {
        (unix_seconds + RECORD_EPOCH) as u64
    } else {
        u64::MAX
    }
}

/// What a record says. Any want byte but `u` is read as down.
pub open spec fn snapshot_of(bytes: Seq<u8>) -> StatusSnapshot {
    StatusSnapshot {
        seconds: be_value(bytes.subrange(0, 8)) as u64,
        nanoseconds: be_value(bytes.subrange(8, 12)) as u32,
        pid: le_value(bytes.subrange(12, 16)) as u32,
        paused: bytes[16] != 0,
        want: if bytes[17] == WANT_UP {
            Want::Up
        } else {
            Want::Down
        },
        term_flag: bytes[18] != 0,
        run_flag: bytes[19],
    }
}

/// The record that spells a snapshot.
pub open spec fn record_of(s: StatusSnapshot) -> Seq<u8> {
    be_bytes(s.seconds as nat, 8) + be_bytes(s.nanoseconds as nat, 4) + le_bytes(s.pid as nat, 4)
        + seq![
        if s.paused {
            1u8
        } else {
            0u8
        },
        match s.want {
            Want::Up => WANT_UP,
            Want::Down => WANT_DOWN,
        },
        if s.term_flag {
            1u8
        } else {
            0u8
        },
        s.run_flag,
    ]
}

/// Decoding as a function of the bytes read.
pub open spec fn decoded(bytes: Seq<u8>) -> Result<StatusSnapshot, ServiceError> {
    if well_formed(bytes) {
        Ok(snapshot_of(bytes))
    } else {
        Err(ServiceError::MalformedRecord)
    }
}

/// Bytes read most significant first spell a number below the radix of
/// their count.
proof fn lemma_be_value_bound(bytes: Seq<u8>)
    ensures
        be_value(bytes) < radix(bytes.len()),
    decreases bytes.len(),
{
    if bytes.len() > 0 {
        lemma_be_value_bound(bytes.drop_last());
    }
}

/// The same bound for bytes that are read least significant first.
proof fn lemma_le_value_bound(bytes: Seq<u8>)
    ensures
        le_value(bytes) < radix(bytes.len()),
    decreases bytes.len(),
{
    if bytes.len() > 0 {
        lemma_le_value_bound(bytes.drop_first());
    }
}

/// The radix of up to eight bytes, written out.
proof fn lemma_radix_values()
    ensures
        radix(0) == 1,
        radix(1) == 0x100,
        radix(2) == 0x1_0000,
        radix(3) == 0x100_0000,
        radix(4) == 0x1_0000_0000,
        radix(5) == 0x100_0000_0000,
        radix(6) == 0x1_0000_0000_0000,
        radix(7) == 0x100_0000_0000_0000,
        radix(8) == 0x1_0000_0000_0000_0000,
{
    reveal_with_fuel(radix, 10);
}

/// More bytes have a radix at least as large.
proof fn lemma_radix_grows(a: nat, b: nat)
    requires
        a <= b,
    ensures
        radix(a) <= radix(b),
    decreases b,
{
    if a < b {
        lemma_radix_grows(a, (b - 1) as nat);
    }
}

/// A number written in `n` bytes takes `n` bytes.
proof fn lemma_be_bytes_len(value: nat, n: nat)
    ensures
        be_bytes(value, n).len() == n,
    decreases n,
{
    if n > 0 {
        lemma_be_bytes_len(value / 256, (n - 1) as nat);
    }
}

/// The same for bytes that are written least significant first.
proof fn lemma_le_bytes_len(value: nat, n: nat)
    ensures
        le_bytes(value, n).len() == n,
    decreases n,
{
    if n > 0 {
        lemma_le_bytes_len(value / 256, (n - 1) as nat);
    }
}

/// Bytes written most significant first spell the number they were made
/// from, if it fits their width.
proof fn lemma_be_round_trip(value: nat, n: nat)
    requires
        value < radix(n),
    ensures
        be_value(be_bytes(value, n)) == value,
    decreases n,
{
    if n > 0 {
        let rest = be_bytes(value / 256, (n - 1) as nat);
        lemma_be_round_trip(value / 256, (n - 1) as nat);
        assert(rest.push((value % 256) as u8).drop_last() =~= rest);
    }
}

/// Bytes written least significant first spell the number they were made
/// from, if it fits their width.
proof fn lemma_le_round_trip(value: nat, n: nat)
    requires
        value < radix(n),
    ensures
        le_value(le_bytes(value, n)) == value,
    decreases n,
{
    if n > 0 {
        let rest = le_bytes(value / 256, (n - 1) as nat);
        lemma_le_round_trip(value / 256, (n - 1) as nat);
        assert((seq![(value % 256) as u8] + rest).drop_first() =~= rest);
    }
}

/// A snapshot that is written out and read back is the same snapshot, field
/// by field.
pub proof fn lemma_decode_inverts_encode(s: StatusSnapshot)
    ensures
        record_of(s).len() == RECORD_LEN,
        decoded(record_of(s)) == Ok::<StatusSnapshot, ServiceError>(s),
{
    let record = record_of(s);
    let seconds = be_bytes(s.seconds as nat, 8);
    let nanos = be_bytes(s.nanoseconds as nat, 4);
    let pid = le_bytes(s.pid as nat, 4);
    lemma_be_bytes_len(s.seconds as nat, 8);
    lemma_be_bytes_len(s.nanoseconds as nat, 4);
    lemma_le_bytes_len(s.pid as nat, 4);
    lemma_radix_values();
    lemma_be_round_trip(s.seconds as nat, 8);
    lemma_be_round_trip(s.nanoseconds as nat, 4);
    lemma_le_round_trip(s.pid as nat, 4);
    assert(record.subrange(0, 8) =~= seconds);
    assert(record.subrange(8, 12) =~= nanos);
    assert(record.subrange(12, 16) =~= pid);
    assert(snapshot_of(record) == s);
}

/// Every record of twenty bytes decodes, whatever its bytes are, and the
/// state it shows is read off its last byte: 1 is Run, 2 is Finish, 0 is
/// Down, and every other value is Unknown.
pub proof fn lemma_state_never_fails(bytes: Seq<u8>)
    requires
        bytes.len() == RECORD_LEN,
    ensures
        decoded(bytes) is Ok,
        bytes[19] == 1 ==> decoded(bytes)->Ok_0.spec_state() == RunState::Run,
        bytes[19] == 2 ==> decoded(bytes)->Ok_0.spec_state() == RunState::Finish,
        bytes[19] == 0 ==> decoded(bytes)->Ok_0.spec_state() == RunState::Down,
        bytes[19] > 2 ==> decoded(bytes)->Ok_0.spec_state() == RunState::Unknown,
{
}

/// Bytes of any other width than a record's are refused.
pub proof fn lemma_wrong_width_is_malformed(bytes: Seq<u8>)
    requires
        bytes.len() != RECORD_LEN,
    ensures
        decoded(bytes) == Err::<StatusSnapshot, ServiceError>(ServiceError::MalformedRecord),
{
}

fn read_be(bytes: &[u8], start: usize, width: usize) -> (value: u64)
    requires
        start + width <= bytes@.len(),
        width <= 8,
    ensures
        value == be_value(bytes@.subrange(start as int, start + width)),
{
    let total = bytes.len();
    let mut value: u64 = 0;
    let mut i: usize = 0;
    while i < width
        invariant
            i <= width <= 8,
            start + width <= total == bytes@.len(),
            value == be_value(bytes@.subrange(start as int, start + i)),
        decreases width - i,
    {
        proof {
            let seen = bytes@.subrange(start as int, start + i);
            let next = bytes@.subrange(start as int, start + i + 1);
            assert(next.drop_last() =~= seen);
            lemma_be_value_bound(seen);
            lemma_radix_grows(i as nat, 7);
            lemma_radix_values();
        }
        value = value * 256 + bytes[start + i] as u64;
        i += 1;
    }
    value
}

fn read_le(bytes: &[u8], start: usize, width: usize) -> (value: u64)
    requires
        start + width <= bytes@.len(),
        width <= 8,
    ensures
        value == le_value(bytes@.subrange(start as int, start + width)),
{
    let total = bytes.len();
    let mut value: u64 = 0;
    let mut i: usize = width;
    while i > 0
        invariant
            i <= width <= 8,
            start + width <= total == bytes@.len(),
            value == le_value(bytes@.subrange(start + i, start + width)),
        decreases i,
    {
        proof {
            let seen = bytes@.subrange(start + i, start + width);
            let next = bytes@.subrange(start + i - 1, start + width);
            assert(next.drop_first() =~= seen);
            lemma_le_value_bound(seen);
            lemma_radix_grows((width - i) as nat, 7);
            lemma_radix_values();
        }
        i -= 1;
        value = bytes[start + i] as u64 + 256 * value;
    }
    value
}

fn push_be(out: &mut Vec<u8>, value: u64, width: usize)
    ensures
        final(out)@ == old(out)@ + be_bytes(value as nat, width as nat),
    decreases width,
{
    if width > 0 {
        push_be(out, value / 256, width - 1);
        out.push((value % 256) as u8);
    }
}

fn push_le(out: &mut Vec<u8>, value: u64, width: usize)
    ensures
        final(out)@ == old(out)@ + le_bytes(value as nat, width as nat),
    decreases width,
{
    if width > 0 {
        out.push((value % 256) as u8);
        push_le(out, value / 256, width - 1);
    }
}

/// The moment on the clock of a status record that the Unix clock shows as
/// `unix_seconds`: `RECORD_EPOCH` seconds later, and the last moment of
/// that clock where the sum lies beyond it.
pub fn record_seconds(unix_seconds: u64) -> (seconds: u64)
    ensures
        seconds == record_clock(unix_seconds),
{
    if unix_seconds <= u64::MAX - RECORD_EPOCH {
        unix_seconds + RECORD_EPOCH
    } else {
        u64::MAX
    }
}

/// Reads a status record.
///
/// Succeeds exactly on the byte strings that are twenty bytes long; every
/// other input is a `MalformedRecord`. An unknown state byte is no failure:
/// the snapshot keeps it, and `state` reports `Unknown` for it. A want byte
/// other than `u` is read as down.
pub fn decode(bytes: &[u8]) -> (result: Result<StatusSnapshot, ServiceError>)
    ensures
        result == decoded(bytes@),
        result is Ok <==> bytes@.len() == RECORD_LEN,
        result is Err ==> result == Err::<StatusSnapshot, ServiceError>(
            ServiceError::MalformedRecord,
        ),
        result matches Ok(s) ==> s.spec_state() == state_of(bytes@[19]),
{
    if bytes.len() != RECORD_LEN {
        return Err(ServiceError::MalformedRecord);
    }
    let want = if bytes[17] == WANT_UP {
        Want::Up
    } else {
        Want::Down
    };
    let seconds = read_be(bytes, 0, 8);
    let nanoseconds = read_be(bytes, 8, 4);
    let pid = read_le(bytes, 12, 4);
    proof {
        lemma_be_value_bound(bytes@.subrange(8, 12));
        lemma_le_value_bound(bytes@.subrange(12, 16));
        lemma_radix_values();
    }
    Ok(
        StatusSnapshot {
            seconds,
            nanoseconds: nanoseconds as u32,
            pid: pid as u32,
            paused: bytes[16] != 0,
            want,
            term_flag: bytes[18] != 0,
            run_flag: bytes[19],
        },
    )
}

impl RunState {
    /// The word for the state, as a model.
    pub open spec fn spec_label(self) -> Seq<char> {
        match self {
            RunState::Run => "run"@,
            RunState::Down => "down"@,
            RunState::Finish => "finish"@,
            RunState::Unknown => "n/a"@,
        }
    }

    /// The word that is shown for the state; `n/a` where it is not known.
    pub fn label(&self) -> (text: String)
        ensures
            text@ == self.spec_label(),
    {
        match self {
            RunState::Run => String::from_str("run"),
            RunState::Down => String::from_str("down"),
            RunState::Finish => String::from_str("finish"),
            RunState::Unknown => String::from_str("n/a"),
        }
    }
}

impl StatusSnapshot {
    /// The state that this snapshot shows, as a model.
    pub open spec fn spec_state(self) -> RunState {
        state_of(self.run_flag)
    }

    /// The process that this snapshot names, as a model.
    pub open spec fn spec_process(self) -> Option<u32> {
        if self.pid == 0 {
            None
        } else {
            Some(self.pid)
        }
    }

    /// The moment of the last transition, as a model.
    pub open spec fn spec_timestamp(self) -> Timestamp {
        Timestamp { seconds: self.seconds, nanoseconds: self.nanoseconds }
    }

    /// Seconds from the last transition to `now`, as a model.
    pub open spec fn spec_elapsed(self, now: u64) -> Option<u64> {
        if now >= self.seconds {
            Some((now - self.seconds) as u64)
        } else {
            None
        }
    }

    /// The state derived from the state byte: 1 is `Run`, 2 is `Finish`,
    /// 0 is `Down`, anything else is `Unknown`.
    pub fn state(&self) -> (state: RunState)
        ensures
            state == self.spec_state(),
    {
        if self.run_flag == 1 {
            RunState::Run
        } else if self.run_flag == 2 {
            RunState::Finish
        } else if self.run_flag == 0 {
            RunState::Down
        } else {
            RunState::Unknown
        }
    }

    /// The supervised process, or `None` where the record names none.
    pub fn process(&self) -> (pid: Option<u32>)
        ensures
            pid == self.spec_process(),
    {
        if self.pid == 0 {
            None
        } else {
            Some(self.pid)
        }
    }

    /// The moment of the last state transition.
    pub fn timestamp(&self) -> (moment: Timestamp)
        ensures
            moment == self.spec_timestamp(),
    {
        Timestamp { seconds: self.seconds, nanoseconds: self.nanoseconds }
    }

    /// Whole seconds from the last transition to `now`, both counted in the
    /// record's epoch; `None` where `now` lies before the transition.
    pub fn elapsed(&self, now: u64) -> (seconds: Option<u64>)
        ensures
            seconds == self.spec_elapsed(now),
    {
        if now >= self.seconds {
            Some(now - self.seconds)
        } else {
            None
        }
    }

    /// Writes this snapshot as a status record. `decode` reads it back
    /// unchanged.
    pub fn encode(&self) -> (bytes: Vec<u8>)
        ensures
            bytes@ == record_of(*self),
            bytes@.len() == RECORD_LEN,
            decoded(bytes@) == Ok::<StatusSnapshot, ServiceError>(*self),
    {
        let mut bytes: Vec<u8> = Vec::new();
        push_be(&mut bytes, self.seconds, 8);
        push_be(&mut bytes, self.nanoseconds as u64, 4);
        push_le(&mut bytes, self.pid as u64, 4);
        bytes.push(if self.paused { 1 } else { 0 });
        bytes.push(
            match self.want {
                Want::Up => WANT_UP,
                Want::Down => WANT_DOWN,
            },
        );
        bytes.push(if self.term_flag { 1 } else { 0 });
        bytes.push(self.run_flag);
        proof {
            lemma_decode_inverts_encode(*self);
            assert(bytes@ =~= record_of(*self));
        }
        bytes
    }
}

} // verus!
