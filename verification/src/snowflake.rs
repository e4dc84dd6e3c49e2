//! A lock-free generator of unique, roughly time-ordered 64-bit identifiers.
//!
//! An identifier packs three fields, most significant first:
//! the milliseconds elapsed since [`EPOCH`] (41 bits), the worker identifier
//! (8 bits) and a per-millisecond sequence number (14 bits). The sign bit
//! stays clear.
//!
//! The generator keeps one shared word that holds the last timestamp and the
//! last sequence number. The word keeps the timestamp counted from one, so
//! that the word of a new generator, [`INITIAL_STATE`], differs from every
//! word that a step installs: in whatever millisecond a new generator is
//! first asked, it starts at sequence number zero. The rule that takes this
//! word and a clock sample to the next word is [`advance`]; it is a pure
//! function with an exact contract, and every law of the generator is proved
//! of it. [`Snowflake`] applies the rule with a compare-and-swap on the
//! shared word.
use vstd::prelude::*;
use crossbeam::atomic::AtomicCell;
use crate::cell::{cell_compare_exchange, cell_fetch_add, cell_load, cell_new};
use vstd::arithmetic::div_mod::{
    lemma_div_pos_is_pos, lemma_fundamental_div_mod_converse, lemma_mod_bound,
};

verus! {

/// The instant from which identifiers count time: milliseconds since the
/// Unix epoch (2019-11-27).
pub const EPOCH: i64 = 1574784000000;

/// Width of the timestamp field.
pub const TIMESTAMP_BITS: u32 = 41;

/// Width of the worker field.
pub const WORKER_ID_BITS: u32 = 8;

/// Width of the sequence field.
pub const SEQUENCE_BITS: u32 = 14;

/// Position of the timestamp field: the two lower fields together.
pub const TIMESTAMP_SHIFT: u32 = 22;

/// Largest timestamp field, `2^41 - 1`.
pub const MAX_TIMESTAMP: u64 = 0x1ff_ffff_ffff;

/// Largest worker identifier, `2^8 - 1`.
pub const MAX_WORKER_ID: u64 = 0xff;

/// Largest sequence number, `2^14 - 1`; also the mask of the sequence field.
pub const SEQUENCE_MASK: u64 = 0x3fff;

/// How many clock samples one call takes before it gives up, unless the
/// generator was built with another limit.
pub const DEFAULT_SPIN_LIMIT: u64 = 0xffff_ffff_ffff_ffff;

/// The state word of a generator that has handed out nothing yet.
pub const INITIAL_STATE: u64 = 0;

/// `2^22`, the weight of the timestamp field.
pub open spec fn timestamp_unit() -> int {
    4194304
}

/// `2^14`, the weight of the worker field.
pub open spec fn worker_unit() -> int {
    16384
}

/// Milliseconds from [`EPOCH`] to `now`; zero for an instant at or before it.
pub open spec fn elapsed(now: i64) -> int {
    if now > EPOCH {
        now - EPOCH
    } else {
        0
    }
}

/// The stamp held in a state word: one more than the last timestamp, and
/// zero in the word of a generator that has handed out nothing.
pub open spec fn state_stamp(word: u64) -> int {
    word as int / timestamp_unit()
}

/// The last timestamp held in a state word; `-1`, before every timestamp,
/// in the word of a generator that has handed out nothing.
pub open spec fn state_timestamp(word: u64) -> int {
    state_stamp(word) - 1
}

/// The sequence number held in a state word.
pub open spec fn state_sequence(word: u64) -> int {
    word as int % worker_unit()
}

/// The state word that holds `timestamp` and `sequence`.
pub open spec fn state_word(timestamp: int, sequence: int) -> int {
    (timestamp + 1) * timestamp_unit() + sequence
}

/// The identifier made of the three fields.
pub open spec fn id_value(timestamp: int, worker_id: int, sequence: int) -> int {
    timestamp * timestamp_unit() + worker_id * worker_unit() + sequence
}

/// The timestamp field of an identifier.
pub open spec fn id_timestamp(id: i64) -> int {
    id as int / timestamp_unit()
}

/// The worker field of an identifier.
pub open spec fn id_worker(id: i64) -> int {
    (id as int / worker_unit()) % 256
}

/// The sequence field of an identifier.
pub open spec fn id_sequence(id: i64) -> int {
    id as int % worker_unit()
}

/// The identifier that a worker hands out when the state word `word` has
/// been installed.
pub open spec fn state_id(word: u64, worker_id: u8) -> int {
    id_value(state_timestamp(word), worker_id as int, state_sequence(word))
}

/// An identifier of the worker `worker_id`: not negative, and with that
/// worker in its worker field.
pub open spec fn is_id_of(id: i64, worker_id: u8) -> bool {
    &&& 0 <= id
    &&& id_worker(id) == worker_id
    &&& id == id_value(id_timestamp(id), worker_id as int, id_sequence(id))
}

/// What the generator does with a loaded state word and a clock sample.
#[derive(Clone, Copy, Debug, PartialEq, Eq, Structural)]
pub enum Step {
    /// Install this state word; if that succeeds, hand out its identifier.
    Issue(u64),
    /// The sequence numbers of the current millisecond are used up: sample
    /// the clock again once it has moved on.
    AwaitTick,
    /// The timestamp no longer fits its field: no identifier can be made.
    Exhausted,
}

/// The transition rule.
///
/// A sample that lies after the last timestamp starts a new millisecond with
/// sequence number zero. A sample at or before it (the clock stood still or
/// went back) stays in the last millisecond and takes the next sequence
/// number, or waits when there is none left.
pub open spec fn spec_advance(word: u64, now: i64) -> Step {
    let last = state_timestamp(word);
    let sequence = state_sequence(word);
    let sample = elapsed(now);
    if sample > last {
        if sample > MAX_TIMESTAMP {
            Step::Exhausted
        } else {
            Step::Issue(state_word(sample, 0) as u64)
        }
    } else if last > MAX_TIMESTAMP {
        Step::Exhausted
    } else if sequence == SEQUENCE_MASK {
        Step::AwaitTick
    } else {
        Step::Issue(state_word(last, sequence + 1) as u64)
    }
}

/// Whether the sample `now` lies before the timestamp of `word`: the clock
/// went back.
pub open spec fn spec_is_rollback(word: u64, now: i64) -> bool {
    elapsed(now) < state_timestamp(word)
}

/// The result of `count` steps from `word` while the clock stands at `now`:
/// the state word reached, or the first step that issued nothing.
pub open spec fn spec_burst(word: u64, now: i64, count: nat) -> Step
    decreases count,
{
    if count == 0 {
        Step::Issue(word)
    } else {
        match spec_burst(word, now, (count - 1) as nat) {
            Step::Issue(reached) => spec_advance(reached, now),
            other => other,
        }
    }
}

/// Whether some clock sample takes the state word `prev` to `next`.
pub open spec fn follows(prev: u64, next: u64) -> bool {
    exists|now: i64| #[trigger] spec_advance(prev, now) == Step::Issue(next)
}

/// A run of state words in which each follows from the one before it: the
/// words that successful updates of one generator install, in their order.
pub open spec fn is_history(words: Seq<u64>) -> bool {
    forall|k: int| 0 <= k < words.len() - 1 ==> follows(#[trigger] words[k], words[k + 1])
}

/// Milliseconds from [`EPOCH`] to `now`; zero for an instant at or before it.
pub fn elapsed_millis(now: i64) -> (sample: u64)
    ensures
        sample == elapsed(now),
{
    if now > EPOCH {
        (now - EPOCH) as u64
    } else {
        0
    }
}

/// The stamp held in a state word: one more than its timestamp.
pub fn stamp_of_state(word: u64) -> (stamp: u64)
    ensures
        stamp == state_stamp(word),
        stamp == state_timestamp(word) + 1,
        stamp <= 0x3ff_ffff_ffff,
{
    assert(word >> 22 == word / 4194304 && word >> 22 <= 0x3ff_ffff_ffff) by (bit_vector);
    word >> 22
}

/// The last timestamp held in a state word; none in the word of a generator
/// that has handed out nothing.
pub fn timestamp_of_state(word: u64) -> (timestamp: Option<u64>)
    ensures
        match timestamp {
            Some(last) => last == state_timestamp(word),
            None => state_timestamp(word) == -1,
        },
{
    let stamp = stamp_of_state(word);
    if stamp == 0 {
        None
    } else {
        Some(stamp - 1)
    }
}

/// The sequence number held in a state word.
pub fn sequence_of_state(word: u64) -> (sequence: u64)
    ensures
        sequence == state_sequence(word),
        sequence <= SEQUENCE_MASK,
{
    assert(word & 0x3fff == word % 16384 && word & 0x3fff <= 0x3fff) by (bit_vector);
    word & SEQUENCE_MASK
}

/// Packs a timestamp and a sequence number into a state word.
pub fn pack_state(timestamp: u64, sequence: u64) -> (word: u64)
    requires
        timestamp <= MAX_TIMESTAMP,
        sequence <= SEQUENCE_MASK,
    ensures
        word == state_word(timestamp as int, sequence as int),
        state_timestamp(word) == timestamp,
        state_sequence(word) == sequence,
{
    let stamp: u64 = timestamp + 1;
    assert((stamp << 22) | sequence == stamp * 4194304 + sequence) by (bit_vector)
        requires
            stamp <= 0x200_0000_0000,
            sequence <= 0x3fff,
    ;
    proof {
        lemma_state_word_fields(timestamp as int, sequence as int);
    }
    (stamp << 22) | sequence
}

/// Applies the transition rule to a loaded state word and a clock sample.
pub fn advance(word: u64, now: i64) -> (step: Step)
    ensures
        step == spec_advance(word, now),
{
    let stamp = stamp_of_state(word);
    let sequence = sequence_of_state(word);
    let sample = elapsed_millis(now);
    if sample >= stamp {
        if sample > MAX_TIMESTAMP {
            Step::Exhausted
        } else {
            Step::Issue(pack_state(sample, 0))
        }
    } else if stamp - 1 > MAX_TIMESTAMP {
        Step::Exhausted
    } else if sequence == SEQUENCE_MASK {
        Step::AwaitTick
    } else {
        Step::Issue(pack_state(stamp - 1, sequence + 1))
    }
}

/// Whether the sample `now` lies before the timestamp of `word`. The rule
/// absorbs such a sample; this test is for those who want to record it.
pub fn is_rollback(word: u64, now: i64) -> (back: bool)
    ensures
        back == spec_is_rollback(word, now),
{
    let stamp = stamp_of_state(word);
    stamp > 0 && elapsed_millis(now) < stamp - 1
}

/// Composes an identifier from its three fields.
pub fn compose_id(timestamp: u64, worker_id: u8, sequence: u64) -> (id: i64)
    requires
        timestamp <= MAX_TIMESTAMP,
        sequence <= SEQUENCE_MASK,
    ensures
        id == id_value(timestamp as int, worker_id as int, sequence as int),
        id_timestamp(id) == timestamp,
        id_worker(id) == worker_id,
        id_sequence(id) == sequence,
        is_id_of(id, worker_id),
{
    let worker = worker_id as u64;
    assert((timestamp << 22) | (worker << 14) | sequence == timestamp * 4194304 + worker * 16384
        + sequence) by (bit_vector)
        requires
            timestamp <= 0x1ff_ffff_ffff,
            worker <= 0xff,
            sequence <= 0x3fff,
    ;
    proof {
        lemma_id_fields_round_trip(timestamp as int, worker_id, sequence as int);
    }
    let bits = (timestamp << 22) | (worker << 14) | sequence;
    bits as i64
}

/// The identifier that the worker `worker_id` hands out for the state word
/// `word`.
pub fn id_of_state(word: u64, worker_id: u8) -> (id: i64)
    requires
        0 <= state_timestamp(word) <= MAX_TIMESTAMP,
    ensures
        id == state_id(word, worker_id),
        is_id_of(id, worker_id),
        id_timestamp(id) == state_timestamp(word),
        id_sequence(id) == state_sequence(word),
{
    proof {
        lemma_state_fields_bounds(word);
    }
    compose_id(stamp_of_state(word) - 1, worker_id, sequence_of_state(word))
}

/// Extracts the timestamp field of an identifier: milliseconds since
/// [`EPOCH`].
pub fn timestamp_of(id: i64) -> (timestamp: i64)
    requires
        0 <= id,
    ensures
        timestamp == id_timestamp(id),
        0 <= timestamp <= MAX_TIMESTAMP,
{
    assert(id >> 22 == id / 4194304 && 0 <= id >> 22 <= 0x1ff_ffff_ffff) by (bit_vector)
        requires
            0 <= id,
    ;
    id >> 22
}

/// Extracts the worker field of an identifier.
pub fn worker_of(id: i64) -> (worker_id: u8)
    requires
        0 <= id,
    ensures
        worker_id == id_worker(id),
{
    assert((id >> 14) & 0xff == (id / 16384) % 256) by (bit_vector)
        requires
            0 <= id,
    ;
    ((id >> 14) & 0xff) as u8
}

/// Extracts the sequence field of an identifier.
pub fn sequence_of(id: i64) -> (sequence: u16)
    requires
        0 <= id,
    ensures
        sequence == id_sequence(id),
        sequence <= SEQUENCE_MASK,
{
    assert(id & 0x3fff == id % 16384 && 0 <= id & 0x3fff <= 0x3fff) by (bit_vector)
        requires
            0 <= id,
    ;
    (id & 0x3fff) as u16
}

/// Why a call handed out no identifier.
#[derive(Clone, Copy, Debug, PartialEq, Eq, Structural)]
pub enum SnowflakeError {
    /// More than `2^41 - 1` milliseconds have passed since [`EPOCH`]: the
    /// timestamp no longer fits its field.
    TimestampExhausted,
    /// The call used up its clock samples without installing a state word:
    /// the clock did not move on, or other callers won every race.
    Stalled,
}

/// A source of wall-clock time for a generator.
pub trait Clock {
    /// The earliest time that this clock ever shows, in milliseconds since
    /// the Unix epoch: what it shows before it has moved at all. A clock
    /// that says nothing else may show any time.
    open spec fn earliest(&self) -> i64 {
        i64::MIN
    }

    /// The current time in milliseconds since the Unix epoch. It is never
    /// before [`Clock::earliest`].
    fn now_millis(&self) -> (now: i64)
        ensures
            self.earliest() <= now,
    ;

    /// A short wait between two samples, taken while the generator waits for
    /// the next millisecond.
    fn pause(&self);
}

/// Whether `id` is an identifier that the transition rule lets the worker
/// `worker_id` hand out: the identifier of a state word issued from some
/// state word at some clock sample.
pub open spec fn is_issued(id: i64, worker_id: u8) -> bool {
    exists|word: u64, now: i64|
        match #[trigger] spec_advance(word, now) {
            Step::Issue(next) => id == state_id(next, worker_id),
            _ => false,
        }
}

/// What a round hands out for the outcome of its compare-and-swap: the
/// identifier of the state word `next` where it was installed, and nothing
/// where another caller was first.
pub fn settle(outcome: Result<u64, u64>, next: u64, worker_id: u8) -> (issued: Option<i64>)
    requires
        0 <= state_timestamp(next) <= MAX_TIMESTAMP,
    ensures
        match outcome {
            Ok(_) => issued matches Some(id) && id == state_id(next, worker_id) && is_id_of(
                id,
                worker_id,
            ),
            Err(_) => issued is None,
        },
{
    match outcome {
        Ok(_) => Some(id_of_state(next, worker_id)),
        Err(_) => None,
    }
}

/// The count of identifiers drawn so far after one more call.
pub fn tally(issued: u64, outcome: &Result<i64, SnowflakeError>) -> (count: u64)
    requires
        issued < u64::MAX,
    ensures
        count == if outcome is Ok {
            issued + 1
        } else {
            issued as int
        },
{
    match outcome {
        Ok(_) => issued + 1,
        Err(_) => issued,
    }
}

/// The generator: one per process, shared by all callers.
pub struct Snowflake<C: Clock> {
    worker_id: u8,
    state: AtomicCell<u64>,
    rollbacks: AtomicCell<u64>,
    clock: C,
    spin_limit: u64,
}

impl<C: Clock> Snowflake<C> {
    /// The worker identifier that every identifier of this generator carries.
    pub closed spec fn worker(&self) -> u8 {
        self.worker_id
    }

    /// How many clock samples one call may take.
    pub closed spec fn samples_allowed(&self) -> u64 {
        self.spin_limit
    }

    /// A generator for the worker `worker_id` that reads time from `clock`.
    /// Every `u8` fits the worker field, so construction cannot fail. The
    /// shared word starts as [`INITIAL_STATE`].
    pub fn new(worker_id: u8, clock: C) -> (generator: Self)
        ensures
            generator.worker() == worker_id,
            generator.samples_allowed() == DEFAULT_SPIN_LIMIT,
    {
        Snowflake {
            worker_id,
            state: cell_new(INITIAL_STATE),
            rollbacks: cell_new(0),
            clock,
            spin_limit: DEFAULT_SPIN_LIMIT,
        }
    }

    /// A generator whose calls give up after `spin_limit` clock samples.
    pub fn with_spin_limit(worker_id: u8, clock: C, spin_limit: u64) -> (generator: Self)
        ensures
            generator.worker() == worker_id,
            generator.samples_allowed() == spin_limit,
    {
        Snowflake {
            worker_id,
            state: cell_new(INITIAL_STATE),
            rollbacks: cell_new(0),
            clock,
            spin_limit,
        }
    }

    /// The worker identifier of this generator.
    pub fn worker_id(&self) -> (worker_id: u8)
        ensures
            worker_id == self.worker(),
    {
        self.worker_id
    }

    /// How many clock samples so far lay before the last timestamp: the
    /// clock went back, and the generator stayed in its last millisecond.
    /// The count is for diagnosis; other callers may raise it at any time.
    pub fn rollbacks_seen(&self) -> u64 {
        cell_load(&self.rollbacks)
    }

    /// Samples the clock, pausing between samples, until it shows a
    /// millisecond after the one that `stamp` stands for, or `budget`
    /// pauses have been taken. The samples read come back with the result,
    /// in their order: the sample handed out is the last of them and the
    /// first that lies after that millisecond, and each pause costs one of
    /// the budget. The state of the generator is not touched.
    fn wait_for_next_millis(&self, stamp: u64, budget: &mut u64) -> (waited: (
        Option<i64>,
        Ghost<Seq<i64>>,
    ))
        ensures
            waited.1@.len() >= 1,
            forall|i: int|
                0 <= i < waited.1@.len() - 1 ==> elapsed(#[trigger] waited.1@[i]) < stamp,
            waited.0 matches Some(now) ==> now == waited.1@.last() && elapsed(now) >= stamp,
            waited.0 is None ==> elapsed(waited.1@.last()) < stamp && *final(budget) == 0,
            *final(budget) + waited.1@.len() - 1 == *old(budget),
    {
        let mut now = self.clock.now_millis();
        let ghost mut samples = seq![now];
        while elapsed_millis(now) < stamp && *budget > 0
            invariant
                samples.len() >= 1,
                samples.last() == now,
                forall|i: int| 0 <= i < samples.len() - 1 ==> elapsed(#[trigger] samples[i]) < stamp,
                *budget + samples.len() - 1 == *old(budget),
            decreases *budget,
        {
            *budget = *budget - 1;
            self.clock.pause();
            now = self.clock.now_millis();
            proof {
                samples = samples.push(now);
            }
        }
        if elapsed_millis(now) >= stamp {
            (Some(now), Ghost(samples))
        } else {
            (None, Ghost(samples))
        }
    }

    /// Tries to replace the loaded state word by `next`; on success the
    /// identifier of `next` is handed out.
    fn install(&self, loaded: u64, next: u64) -> (issued: Option<i64>)
        requires
            exists|now: i64| #[trigger] spec_advance(loaded, now) == Step::Issue(next),
        ensures
            issued matches Some(id) ==> id == state_id(next, self.worker()) && is_id_of(
                id,
                self.worker(),
            ) && is_issued(id, self.worker()),
    {
        proof {
            let now = choose|now: i64| #[trigger] spec_advance(loaded, now) == Step::Issue(next);
            lemma_advance_fields(loaded, now);
        }
        settle(cell_compare_exchange(&self.state, loaded, next), next, self.worker_id)
    }

    /// Hands out the next identifier.
    ///
    /// Each round loads the shared state word, samples the clock and applies
    /// [`advance`]; the state word it yields is installed by
    /// compare-and-swap, and a lost race starts a new round. When the
    /// sequence numbers of a millisecond are used up, the call samples the
    /// clock until it has moved on.
    ///
    /// A sample that lies before the last timestamp is counted (see
    /// [`Snowflake::rollbacks_seen`]) and otherwise treated as the rule says.
    ///
    /// An identifier that comes back carries this generator's worker
    /// identifier and is one that the transition rule issues. The call fails
    /// when the timestamp no longer fits, or when it has taken
    /// `samples_allowed()` samples without success.
    pub fn next_id(&self) -> (outcome: Result<i64, SnowflakeError>)
        ensures
            outcome matches Ok(id) ==> is_id_of(id, self.worker()) && is_issued(id, self.worker()),
            self.samples_allowed() == 0 ==> outcome == Err::<i64, SnowflakeError>(
                SnowflakeError::Stalled,
            ),
    {
        let mut budget = self.spin_limit;
        while budget > 0
            invariant
                budget <= self.spin_limit,
            decreases budget,
        {
            budget = budget - 1;
            let loaded = cell_load(&self.state);
            let now = self.clock.now_millis();
            if is_rollback(loaded, now) {
                cell_fetch_add(&self.rollbacks, 1);
            }
            match advance(loaded, now) {
                Step::Issue(next) => {
                    if let Some(id) = self.install(loaded, next) {
                        return Ok(id);
                    }
                },
                Step::AwaitTick => {
                    let stamp = stamp_of_state(loaded);
                    let (tick, _) = self.wait_for_next_millis(stamp, &mut budget);
                    match tick {
                        Some(later) => {
                            match advance(loaded, later) {
                                Step::Issue(next) => {
                                    if let Some(id) = self.install(loaded, next) {
                                        return Ok(id);
                                    }
                                },
                                _ => {
                                    return Err(SnowflakeError::TimestampExhausted);
                                },
                            }
                        },
                        None => {
                            return Err(SnowflakeError::Stalled);
                        },
                    }
                },
                Step::Exhausted => {
                    return Err(SnowflakeError::TimestampExhausted);
                },
            }
        }
        Err(SnowflakeError::Stalled)
    }
}

/// Hands out the next identifier of `generator`.
#[must_use]
pub fn new_id<C: Clock>(generator: &Snowflake<C>) -> (outcome: Result<i64, SnowflakeError>)
    ensures
        outcome matches Ok(id) ==> is_id_of(id, generator.worker()) && is_issued(
            id,
            generator.worker(),
        ),
        generator.samples_allowed() == 0 ==> outcome == Err::<i64, SnowflakeError>(
            SnowflakeError::Stalled,
        ),
{
    generator.next_id()
}

/// Draws `loop_count` identifiers from `generator` and counts those that
/// came back.
pub fn benchmark<C: Clock>(generator: &Snowflake<C>, loop_count: u64) -> (issued: u64)
    ensures
        issued <= loop_count,
        generator.samples_allowed() == 0 ==> issued == 0,
{
    let mut issued: u64 = 0;
    let mut round: u64 = 0;
    while round < loop_count
        invariant
            issued <= round <= loop_count,
            generator.samples_allowed() == 0 ==> issued == 0,
        decreases loop_count - round,
    {
        let outcome = generator.next_id();
        issued = tally(issued, &outcome);
        round = round + 1;
    }
    issued
}

/// A state word made of a timestamp and a sequence number holds both, and
/// fits 63 bits.
pub proof fn lemma_state_word_fields(timestamp: int, sequence: int)
    requires
        0 <= timestamp <= MAX_TIMESTAMP,
        0 <= sequence <= SEQUENCE_MASK,
    ensures
        0 < state_word(timestamp, sequence) <= u64::MAX,
        state_timestamp(state_word(timestamp, sequence) as u64) == timestamp,
        state_sequence(state_word(timestamp, sequence) as u64) == sequence,
{
    let word = state_word(timestamp, sequence);
    lemma_fundamental_div_mod_converse(word, 4194304, timestamp + 1, sequence);
    lemma_fundamental_div_mod_converse(word, 16384, (timestamp + 1) * 256, sequence);
}

/// The three fields read back from an identifier are the fields it was made
/// of, and the identifier is not negative.
pub proof fn lemma_id_fields_round_trip(timestamp: int, worker_id: u8, sequence: int)
    requires
        0 <= timestamp <= MAX_TIMESTAMP,
        0 <= sequence <= SEQUENCE_MASK,
    ensures
        0 <= id_value(timestamp, worker_id as int, sequence) <= i64::MAX,
        id_timestamp(id_value(timestamp, worker_id as int, sequence) as i64) == timestamp,
        id_worker(id_value(timestamp, worker_id as int, sequence) as i64) == worker_id,
        id_sequence(id_value(timestamp, worker_id as int, sequence) as i64) == sequence,
        is_id_of(id_value(timestamp, worker_id as int, sequence) as i64, worker_id),
{
    let id = id_value(timestamp, worker_id as int, sequence);
    let low = worker_id as int * 16384 + sequence;
    let high = timestamp * 256 + worker_id as int;
    lemma_fundamental_div_mod_converse(id, 4194304, timestamp, low);
    lemma_fundamental_div_mod_converse(id, 16384, high, sequence);
    lemma_fundamental_div_mod_converse(high, 256, timestamp, worker_id as int);
}

/// The stamp of a state word is never negative, so its timestamp is `-1`
/// at the least, and its sequence number fits the sequence field.
pub proof fn lemma_state_fields_bounds(word: u64)
    ensures
        -1 <= state_timestamp(word),
        0 <= state_sequence(word) <= SEQUENCE_MASK,
{
    lemma_div_pos_is_pos(word as int, 4194304);
    lemma_mod_bound(word as int, 16384);
}

/// What each outcome of the transition rule says of the fields involved.
pub proof fn lemma_advance_fields(word: u64, now: i64)
    ensures
        match spec_advance(word, now) {
            Step::Issue(next) => {
                &&& 0 <= state_timestamp(next) <= MAX_TIMESTAMP
                &&& state_sequence(next) <= SEQUENCE_MASK
                &&& next == state_word(state_timestamp(next), state_sequence(next))
                &&& elapsed(now) > state_timestamp(word) ==> state_timestamp(next) == elapsed(now)
                    && state_sequence(next) == 0
                &&& elapsed(now) <= state_timestamp(word) ==> state_timestamp(next)
                    == state_timestamp(word) && state_sequence(next) == state_sequence(word) + 1
            },
            Step::AwaitTick => {
                &&& elapsed(now) <= state_timestamp(word) <= MAX_TIMESTAMP
                &&& state_sequence(word) == SEQUENCE_MASK
            },
            Step::Exhausted => {
                elapsed(now) > MAX_TIMESTAMP || state_timestamp(word) > MAX_TIMESTAMP
            },
        },
{
    let last = state_timestamp(word);
    let sequence = state_sequence(word);
    let sample = elapsed(now);
    lemma_state_fields_bounds(word);
    if sample > last {
        if sample <= MAX_TIMESTAMP {
            lemma_state_word_fields(sample, 0);
        }
    } else if last <= MAX_TIMESTAMP && sequence != SEQUENCE_MASK {
        lemma_state_word_fields(last, sequence + 1);
    }
}

} // verus!
