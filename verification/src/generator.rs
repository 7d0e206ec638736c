//! The generator of identifiers.
//!
//! A generator belongs to one coordinate and one epoch. The clock is read,
//! and the sequence numbers are counted, by a generator of the `snowflake`
//! crate, which waits for the next millisecond once the sequence numbers of
//! the current one are used up. That generator counts time from the Unix
//! epoch; the configured epoch is taken off what it mints, here. Nothing is
//! assumed of what the crate hands back: every value is moved to the epoch,
//! held against the layout and against the last identifier issued, and only
//! then leaves the generator. What a generator issues is therefore strictly
//! increasing whatever the clock does. Where the clock has moved backward the
//! call fails: the generator does not wait for the clock to catch up, and
//! never issues an identifier out of order.

use vstd::prelude::*;
use snowflake::SnowflakeIdGenerator;
use crate::coordinate::{ConfigurationError, Coordinate};
use crate::layout::{
    compose,
    datacenter_of,
    pack,
    sequence_of,
    timestamp_of,
    worker_of,
    Fields,
    MAX_TIMESTAMP_MS,
};
use crate::resolver::{coordinate_of, resolve_coordinate};

verus! {

/// The epoch used where none is configured: the Unix epoch itself.
pub const DEFAULT_EPOCH_MS: u64 = 0;

/// The generator of the `snowflake` crate. Verus sees nothing inside it.
#[verifier::external_type_specification]
#[verifier::external_body]
pub struct ExSnowflakeIdGenerator(SnowflakeIdGenerator);

/// Makes a generator of the `snowflake` crate with
/// `SnowflakeIdGenerator::new`, which counts time from the Unix epoch.
/// Nothing is claimed of the generator. No argument makes the call fail: the
/// outside function panics only on a machine whose clock reads earlier than
/// 1970.
#[verifier::external_body]
fn start_inner(datacenter_id: u8, worker_id: u8) -> (inner: SnowflakeIdGenerator) {
    SnowflakeIdGenerator::new(datacenter_id as i32, worker_id as i32)
}

/// Why no identifier was issued.
#[derive(Clone, Copy, Debug, PartialEq, Eq, Structural)]
pub enum GenerateError {
    /// The requested count is zero or negative.
    InvalidCount,
    /// The clock has moved backward: what was minted lies before the epoch,
    /// or is not larger than the last identifier issued.
    ClockRollback,
    /// The time since the epoch does not fit the layout: what was minted lies
    /// more than `MAX_TIMESTAMP_MS` past the epoch, or is negative, or
    /// carries another coordinate.
    OutOfRange,
}

/// Where a moment lies with respect to an epoch.
#[derive(Clone, Copy, Debug, PartialEq, Eq, Structural)]
pub enum Reading {
    /// Earlier than the epoch.
    BeforeEpoch,
    /// This many milliseconds after the epoch, which an identifier can hold.
    At(i64),
    /// Further past the epoch than an identifier can hold.
    PastLayout,
}

/// The configured epoch, or the Unix epoch where none is configured.
pub open spec fn epoch_or_default(epoch_ms: Option<u64>) -> u64 {
    match epoch_ms {
        Some(configured) => configured,
        None => DEFAULT_EPOCH_MS,
    }
}

/// `id` is a non-negative identifier that carries `coordinate`.
pub open spec fn owns(coordinate: Coordinate, id: int) -> bool {
    &&& 0 <= id
    &&& datacenter_of(id) == coordinate.datacenter()
    &&& worker_of(id) == coordinate.worker()
}

/// `id` is positive and larger than the last identifier issued, if there is one.
pub open spec fn is_fresh(last_id: Option<i64>, id: int) -> bool {
    &&& 0 < id
    &&& last_id matches Some(last) ==> last < id
}

/// What becomes of `id`, offered as the next identifier of `coordinate`
/// after `last_id`.
pub open spec fn verdict(coordinate: Coordinate, last_id: Option<i64>, id: i64) -> Result<i64, GenerateError> {
    if !owns(coordinate, id as int) {
        Err(GenerateError::OutOfRange)
    } else if !is_fresh(last_id, id as int) {
        Err(GenerateError::ClockRollback)
    } else {
        Ok(id)
    }
}

/// What a generator is to its callers.
pub struct GeneratorState {
    /// The coordinate that every identifier carries.
    pub coordinate: Coordinate,
    /// The epoch, in milliseconds after the Unix epoch.
    pub epoch_ms: u64,
    /// The last identifier issued, if any.
    pub last_id: Option<i64>,
}

impl GeneratorState {
    /// The coordinate fits the layout, and the last identifier issued is a
    /// positive identifier of this coordinate.
    pub open spec fn wf(self) -> bool {
        &&& self.coordinate.wf()
        &&& self.last_id matches Some(last) ==> 0 < last && owns(self.coordinate, last as int)
    }

    /// The state before anything was issued.
    pub open spec fn initial(coordinate: Coordinate, epoch_ms: u64) -> GeneratorState {
        GeneratorState { coordinate, epoch_ms, last_id: None }
    }

    /// The state after `id` was issued.
    pub open spec fn after(self, id: i64) -> GeneratorState {
        GeneratorState { last_id: Some(id), ..self }
    }

    /// The millisecond, counted from the epoch, of the last identifier issued.
    pub open spec fn last_timestamp_ms(self) -> Option<int> {
        match self.last_id {
            Some(last) => Some(timestamp_of(last as int)),
            None => None,
        }
    }

    /// What becomes of a minted value: the epoch is taken off its time, and
    /// what is left is offered as the next identifier.
    pub open spec fn outcome(self, raw: i64) -> Result<i64, GenerateError> {
        match rebased(raw, self.epoch_ms) {
            Ok(id) => verdict(self.coordinate, self.last_id, id),
            Err(e) => Err(e),
        }
    }

    /// The sequence number of the last identifier issued; zero before the first.
    pub open spec fn sequence(self) -> int {
        match self.last_id {
            Some(last) => sequence_of(last as int),
            None => 0,
        }
    }
}

/// `ids` were issued in this order by a generator that was in state `pre`
/// and is in state `post` afterwards: there is at least one, each carries the
/// generator's coordinate, each is larger than the one before it and than
/// everything issued earlier, and the generator remembers the last of them.
pub open spec fn minted(pre: GeneratorState, ids: Seq<i64>, post: GeneratorState) -> bool {
    &&& ids.len() > 0
    &&& forall|i: int| 0 <= i < ids.len() ==> owns(pre.coordinate, #[trigger] ids[i] as int)
    &&& is_fresh(pre.last_id, ids[0] as int)
    &&& forall|i: int, j: int| 0 <= i < j < ids.len() ==> ids[i] < ids[j]
    &&& post == pre.after(ids.last())
}

/// The milliseconds after the Unix epoch that a minted value holds: the 42
/// bits above its coordinate and sequence number, read as a number that is
/// not negative.
pub open spec fn unix_millis_of(raw: i64) -> int {
    if raw < 0 {
        timestamp_of(raw as int) + 4398046511104
    } else {
        timestamp_of(raw as int)
    }
}

/// Where a moment `unix_ms` milliseconds after the Unix epoch lies with
/// respect to the epoch at `epoch_ms`.
pub open spec fn reading_of(unix_ms: u64, epoch_ms: u64) -> Reading {
    if unix_ms < epoch_ms {
        Reading::BeforeEpoch
    } else if unix_ms - epoch_ms > MAX_TIMESTAMP_MS {
        Reading::PastLayout
    } else {
        Reading::At((unix_ms - epoch_ms) as i64)
    }
}

/// What a reading means to a generator that is being made: the clock must lie
/// within the span after the epoch that an identifier can hold.
pub open spec fn epoch_verdict(reading: Reading) -> Result<(), ConfigurationError> {
    match reading {
        Reading::BeforeEpoch => Err(ConfigurationError::EpochInFuture),
        Reading::PastLayout => Err(ConfigurationError::EpochTooOld),
        Reading::At(_) => Ok(()),
    }
}

/// What becomes of a minted value once the epoch at `epoch_ms` is taken off
/// its time: the identifier with the same coordinate and sequence number and
/// with the milliseconds since the epoch, where these fit the layout.
pub open spec fn rebased(raw: i64, epoch_ms: u64) -> Result<i64, GenerateError> {
    match reading_of(unix_millis_of(raw) as u64, epoch_ms) {
        Reading::BeforeEpoch => Err(GenerateError::ClockRollback),
        Reading::PastLayout => Err(GenerateError::OutOfRange),
        Reading::At(timestamp_ms) => Ok(
            pack(
                timestamp_ms as int,
                datacenter_of(raw as int),
                worker_of(raw as int),
                sequence_of(raw as int),
            ) as i64,
        ),
    }
}

/// Reads the milliseconds after the Unix epoch that a minted value holds.
pub fn unix_millis(raw: i64) -> (r: u64)
    ensures
        r == unix_millis_of(raw),
        r < 4398046511104,
{
    let field: i64 = (raw >> 22) & 0x3FF_FFFF_FFFF;
    assert(0 <= field < 4398046511104 && (raw >= 0 ==> field == raw / 4194304) && (raw < 0 ==> field
        == raw / 4194304 + 4398046511104)) by (bit_vector)
        requires
            field == (raw >> 22) & 0x3FF_FFFF_FFFF,
    ;
    field as u64
}

/// Holds a moment, given in milliseconds after the Unix epoch, against the
/// epoch.
pub fn read_against_epoch(unix_ms: u64, epoch_ms: u64) -> (r: Reading)
    ensures
        r == reading_of(unix_ms, epoch_ms),
{
    if unix_ms < epoch_ms {
        Reading::BeforeEpoch
    } else if unix_ms - epoch_ms > MAX_TIMESTAMP_MS as u64 {
        Reading::PastLayout
    } else {
        Reading::At((unix_ms - epoch_ms) as i64)
    }
}

/// Decides whether a generator can be made at a reading.
pub fn check_epoch(reading: Reading) -> (r: Result<(), ConfigurationError>)
    ensures
        r == epoch_verdict(reading),
{
    match reading {
        Reading::BeforeEpoch => Err(ConfigurationError::EpochInFuture),
        Reading::PastLayout => Err(ConfigurationError::EpochTooOld),
        Reading::At(_) => Ok(()),
    }
}

/// Decides from a minted value whether a generator can be made for the epoch
/// at `epoch_ms`.
pub fn check_probe(probe: i64, epoch_ms: u64) -> (r: Result<(), ConfigurationError>)
    ensures
        r == epoch_verdict(reading_of(unix_millis_of(probe) as u64, epoch_ms)),
{
    check_epoch(read_against_epoch(unix_millis(probe), epoch_ms))
}

/// Takes the epoch at `epoch_ms` off the time that a minted value holds.
pub fn rebase(raw: i64, epoch_ms: u64) -> (r: Result<i64, GenerateError>)
    ensures
        r == rebased(raw, epoch_ms),
{
    match read_against_epoch(unix_millis(raw), epoch_ms) {
        Reading::BeforeEpoch => Err(GenerateError::ClockRollback),
        Reading::PastLayout => Err(GenerateError::OutOfRange),
        Reading::At(timestamp_ms) => {
            let fields = Fields {
                timestamp_ms,
                datacenter_id: crate::layout::datacenter_id(raw),
                worker_id: crate::layout::worker_id(raw),
                sequence: crate::layout::sequence(raw),
            };
            match compose(fields) {
                Some(id) => Ok(id),
                None => Err(GenerateError::OutOfRange),
            }
        },
    }
}

/// Decides what becomes of `id`, offered as the next identifier of
/// `coordinate` after `last_id`.
pub fn judge(coordinate: Coordinate, last_id: Option<i64>, id: i64) -> (r: Result<i64, GenerateError>)
    ensures
        r == verdict(coordinate, last_id, id),
{
    if id < 0 || crate::layout::datacenter_id(id) != coordinate.datacenter_id()
        || crate::layout::worker_id(id) != coordinate.worker_id() {
        return Err(GenerateError::OutOfRange);
    }
    if id == 0 {
        return Err(GenerateError::ClockRollback);
    }
    match last_id {
        Some(last) => if id <= last {
            Err(GenerateError::ClockRollback)
        } else {
            Ok(id)
        },
        None => Ok(id),
    }
}

/// A generator of identifiers for one coordinate.
pub struct Generator {
    coordinate: Coordinate,
    epoch_ms: u64,
    last_id: Option<i64>,
    inner: SnowflakeIdGenerator,
}

impl View for Generator {
    type V = GeneratorState;

    closed spec fn view(&self) -> GeneratorState {
        GeneratorState { coordinate: self.coordinate, epoch_ms: self.epoch_ms, last_id: self.last_id }
    }
}

impl Generator {
    /// Makes a generator for `coordinate` that counts time from `epoch_ms`
    /// milliseconds after the Unix epoch. One value is minted and thrown
    /// away, to hold the epoch against the clock: the call fails where the
    /// clock has not reached the epoch, and where it is so far past the epoch
    /// that the time since no longer fits an identifier.
    pub fn new(coordinate: Coordinate, epoch_ms: u64) -> (r: Result<Generator, ConfigurationError>)
        requires
            coordinate.wf(),
        ensures
            match r {
                Ok(generator) => generator@ == GeneratorState::initial(coordinate, epoch_ms)
                    && generator@.wf(),
                Err(e) => e == ConfigurationError::EpochInFuture || e == ConfigurationError::EpochTooOld,
            },
    {
        let inner = start_inner(coordinate.datacenter_id(), coordinate.worker_id());
        let mut generator = Generator { coordinate, epoch_ms, last_id: None, inner };
        let probe = generator.mint_raw();
        match check_probe(probe, epoch_ms) {
            Err(e) => Err(e),
            Ok(()) => Ok(generator),
        }
    }

    /// Makes the generator that a worker's configuration stands for: its
    /// coordinate resolved from the two ids and the host name, its epoch the
    /// configured one or else the Unix epoch.
    pub fn from_settings(worker_id: &str, data_center_id: &str, hostname: &str, epoch_ms: Option<u64>) -> (r:
        Result<Generator, ConfigurationError>)
        ensures
            match r {
                Ok(generator) => generator@.wf() && generator@.last_id is None && generator@.epoch_ms
                    == epoch_or_default(epoch_ms) && coordinate_of(worker_id@, data_center_id@, hostname@)
                    == Ok::<(u8, u8), ConfigurationError>(
                    (generator@.coordinate.datacenter(), generator@.coordinate.worker()),
                ),
                Err(e) => match coordinate_of(worker_id@, data_center_id@, hostname@) {
                    Err(cause) => e == cause,
                    Ok(_) => e == ConfigurationError::EpochInFuture || e == ConfigurationError::EpochTooOld,
                },
            },
    {
        let coordinate = match resolve_coordinate(worker_id, data_center_id, hostname) {
            Ok(coordinate) => coordinate,
            Err(e) => {
                return Err(e);
            },
        };
        let epoch_ms = match epoch_ms {
            Some(configured) => configured,
            None => DEFAULT_EPOCH_MS,
        };
        Generator::new(coordinate, epoch_ms)
    }

    /// Returns the coordinate that every identifier of this generator carries.
    pub fn coordinate(&self) -> (r: Coordinate)
        ensures
            r == self@.coordinate,
    {
        self.coordinate
    }

    /// Returns the epoch, in milliseconds after the Unix epoch.
    pub fn epoch_ms(&self) -> (r: u64)
        ensures
            r == self@.epoch_ms,
    {
        self.epoch_ms
    }

    /// Returns the last identifier issued, if any.
    pub fn last_id(&self) -> (r: Option<i64>)
        ensures
            r == self@.last_id,
    {
        self.last_id
    }

    /// Returns the millisecond, counted from the epoch, of the last
    /// identifier issued, if any.
    pub fn last_timestamp_ms(&self) -> (r: Option<i64>)
        ensures
            r is Some <==> self@.last_id is Some,
            r matches Some(t) ==> self@.last_timestamp_ms() == Some(t as int),
    {
        match self.last_id {
            Some(last) => Some(crate::layout::timestamp_ms(last)),
            None => None,
        }
    }

    /// Returns the sequence number of the last identifier issued; zero
    /// before the first.
    pub fn sequence(&self) -> (r: u16)
        ensures
            r == self@.sequence(),
    {
        match self.last_id {
            Some(last) => crate::layout::sequence(last),
            None => 0,
        }
    }

    /// Mints the next value with `SnowflakeIdGenerator::real_time_generate`,
    /// on the generator that `new` made for this one. Nothing is claimed of
    /// the value; what callers see of this generator stays as it was. No
    /// argument makes the call fail: the inner generator counts time from
    /// the Unix epoch, so the outside function panics only on a machine whose
    /// clock reads earlier than 1970. It returns once the clock has left a
    /// millisecond whose sequence numbers are used up.
    #[verifier::external_body]
    fn mint_raw(&mut self) -> (raw: i64)
        ensures
            final(self)@ == old(self)@,
    {
        self.inner.real_time_generate()
    }

    /// Takes in a minted value: the epoch is taken off its time, and what is
    /// left becomes the next identifier if it is one, that is a positive
    /// identifier of this coordinate, larger than the last one issued. The
    /// generator then remembers it; otherwise the generator stays as it was.
    pub fn accept(&mut self, raw: i64) -> (r: Result<i64, GenerateError>)
        requires
            old(self)@.wf(),
        ensures
            r == old(self)@.outcome(raw),
            final(self)@ == (match r {
                Ok(id) => old(self)@.after(id),
                Err(_) => old(self)@,
            }),
            final(self)@.wf(),
    {
        let id = match rebase(raw, self.epoch_ms) {
            Ok(id) => id,
            Err(e) => {
                return Err(e);
            },
        };
        let r = judge(self.coordinate, self.last_id, id);
        if r.is_ok() {
            self.last_id = Some(id);
        }
        r
    }

    /// Issues one identifier: a batch of one.
    pub fn generate_one(&mut self) -> (r: Result<i64, GenerateError>)
        requires
            old(self)@.wf(),
        ensures
            match r {
                Ok(id) => minted(old(self)@, seq![id], final(self)@),
                Err(e) => e != GenerateError::InvalidCount && final(self)@ == old(self)@,
            },
            final(self)@.wf(),
    {
        let raw = self.mint_raw();
        self.accept(raw)
    }

    /// Issues `count` identifiers in one go. Nothing else can be issued by this
    /// generator in between, since the call holds the generator exclusively
    /// from start to end. Fails without issuing anything where `count` is
    /// not positive, and where the clock gets in the way of any of the
    /// identifiers: the generator then forgets what it had taken so far.
    pub fn generate_batch(&mut self, count: i64) -> (r: Result<Vec<i64>, GenerateError>)
        requires
            old(self)@.wf(),
        ensures
            count <= 0 ==> r == Err::<Vec<i64>, GenerateError>(GenerateError::InvalidCount),
            match r {
                Ok(ids) => ids@.len() == count && minted(old(self)@, ids@, final(self)@),
                Err(e) => (e == GenerateError::InvalidCount <==> count <= 0) && final(self)@ == old(self)@,
            },
            final(self)@.wf(),
    {
        if count <= 0 {
            return Err(GenerateError::InvalidCount);
        }
        let before: Option<i64> = self.last_id;
        let mut ids: Vec<i64> = Vec::new();
        let mut issued: i64 = 0;
        while issued < count
            invariant
                0 <= issued <= count,
                ids@.len() == issued,
                old(self)@.wf(),
                self@.wf(),
                before == old(self)@.last_id,
                self@.coordinate == old(self)@.coordinate,
                self@.epoch_ms == old(self)@.epoch_ms,
                issued == 0 ==> self@.last_id == before,
                issued > 0 ==> self@.last_id == Some(ids@.last()),
                issued > 0 ==> is_fresh(before, ids@[0] as int),
                forall|i: int| 0 <= i < ids@.len() ==> owns(old(self)@.coordinate, #[trigger] ids@[i] as int),
                forall|i: int, j: int| 0 <= i < j < ids@.len() ==> ids@[i] < ids@[j],
            decreases count - issued,
        {
            match self.generate_one() {
                Ok(id) => {
                    ids.push(id);
                    issued = issued + 1;
                },
                Err(e) => {
                    self.last_id = before;
                    return Err(e);
                },
            }
        }
        Ok(ids)
    }
}

} // verus!
