//! Laws of the identifier generator, proved of the transition rule.
use vstd::prelude::*;
use crate::snowflake::{
    elapsed, follows, id_sequence, id_timestamp, id_value, id_worker, is_history, lemma_advance_fields,
    lemma_id_fields_round_trip, lemma_state_fields_bounds, lemma_state_word_fields, spec_advance,
    spec_burst, spec_is_rollback, state_id, state_sequence, state_timestamp, state_word, Step,
    EPOCH, INITIAL_STATE, MAX_TIMESTAMP, SEQUENCE_MASK,
};

verus! {

/// An identifier that is handed out carries the worker identifier exactly,
/// and its timestamp is the later of the clock sample and the last
/// timestamp: never before the epoch, and the sampled time itself unless the
/// clock went back.
pub proof fn lemma_issued_id_fields(word: u64, now: i64, worker_id: u8)
    requires
        spec_advance(word, now) is Issue,
    ensures
        ({
            let id = state_id(spec_advance(word, now)->Issue_0, worker_id);
            &&& 0 <= id <= i64::MAX
            &&& id_worker(id as i64) == worker_id
            &&& id_sequence(id as i64) <= SEQUENCE_MASK
            &&& 0 <= id_timestamp(id as i64) <= MAX_TIMESTAMP
            &&& id_timestamp(id as i64) == if elapsed(now) > state_timestamp(word) {
                elapsed(now)
            } else {
                state_timestamp(word)
            }
            &&& !spec_is_rollback(word, now) && now >= EPOCH ==> EPOCH + id_timestamp(id as i64)
                == now
        }),
{
    lemma_advance_fields(word, now);
    let next = spec_advance(word, now)->Issue_0;
    lemma_state_fields_bounds(word);
    lemma_state_fields_bounds(next);
    lemma_id_fields_round_trip(state_timestamp(next), worker_id, state_sequence(next));
}

/// Every state word that is issued lies after the one it was issued from:
/// it has a later timestamp, or the same timestamp and the next sequence
/// number. Its identifier is therefore the greater one, whatever the clock
/// showed.
pub proof fn lemma_issue_moves_forward(word: u64, now: i64, worker_id: u8)
    requires
        spec_advance(word, now) is Issue,
    ensures
        ({
            let next = spec_advance(word, now)->Issue_0;
            &&& state_timestamp(next) > state_timestamp(word) || (state_timestamp(next)
                == state_timestamp(word) && state_sequence(next) == state_sequence(word) + 1)
            &&& state_id(word, worker_id) < state_id(next, worker_id)
        }),
{
    lemma_advance_fields(word, now);
    lemma_state_fields_bounds(word);
    lemma_state_fields_bounds(spec_advance(word, now)->Issue_0);
}

/// Along a history the identifiers grow strictly: a later update hands out a
/// greater identifier than every earlier one.
pub proof fn lemma_history_ids_increase(words: Seq<u64>, worker_id: u8, i: int, j: int)
    requires
        is_history(words),
        0 <= i < j < words.len(),
    ensures
        state_id(words[i], worker_id) < state_id(words[j], worker_id),
    decreases j - i,
{
    assert(follows(words[j - 1], words[j - 1 + 1]));
    let now = choose|now: i64| #[trigger] spec_advance(words[j - 1], now) == Step::Issue(words[j]);
    lemma_issue_moves_forward(words[j - 1], now, worker_id);
    if i < j - 1 {
        lemma_history_ids_increase(words, worker_id, i, j - 1);
    }
}

/// No identifier is handed out twice: two different updates of one history
/// give two different identifiers.
pub proof fn lemma_history_ids_distinct(words: Seq<u64>, worker_id: u8, i: int, j: int)
    requires
        is_history(words),
        0 <= i < words.len(),
        0 <= j < words.len(),
        i != j,
    ensures
        state_id(words[i], worker_id) != state_id(words[j], worker_id),
{
    if i < j {
        lemma_history_ids_increase(words, worker_id, i, j);
    } else {
        lemma_history_ids_increase(words, worker_id, j, i);
    }
}

/// Two workers never hand out the same identifier, whatever state words
/// they have installed.
pub proof fn lemma_workers_ids_distinct(first: u64, second: u64, worker_a: u8, worker_b: u8)
    requires
        worker_a != worker_b,
        0 <= state_timestamp(first) <= MAX_TIMESTAMP,
        0 <= state_timestamp(second) <= MAX_TIMESTAMP,
    ensures
        state_id(first, worker_a) != state_id(second, worker_b),
{
    lemma_state_fields_bounds(first);
    lemma_state_fields_bounds(second);
    lemma_id_fields_round_trip(state_timestamp(first), worker_a, state_sequence(first));
    lemma_id_fields_round_trip(state_timestamp(second), worker_b, state_sequence(second));
}

/// While the clock stands at a millisecond that the generator has not seen,
/// the first `2^14` calls take the sequence numbers `0, 1, 2, ...` in that
/// millisecond: the call number `count` installs the sequence number
/// `count - 1`, and the identifier it hands out carries that sequence
/// number, the sampled millisecond and the worker identifier.
pub proof fn lemma_burst_sequences(word: u64, now: i64, count: nat, worker_id: u8)
    requires
        state_timestamp(word) < elapsed(now) <= MAX_TIMESTAMP,
        1 <= count <= SEQUENCE_MASK + 1,
    ensures
        spec_burst(word, now, count) == Step::Issue(state_word(elapsed(now), count - 1) as u64),
        state_timestamp(state_word(elapsed(now), count - 1) as u64) == elapsed(now),
        state_sequence(state_word(elapsed(now), count - 1) as u64) == count - 1,
        ({
            let id = state_id(state_word(elapsed(now), count - 1) as u64, worker_id);
            &&& 0 <= id <= i64::MAX
            &&& id == id_value(elapsed(now), worker_id as int, count - 1)
            &&& id_sequence(id as i64) == count - 1
            &&& id_timestamp(id as i64) == elapsed(now)
            &&& id_worker(id as i64) == worker_id
        }),
    decreases count,
{
    lemma_state_word_fields(elapsed(now), count - 1);
    lemma_id_fields_round_trip(elapsed(now), worker_id, count - 1);
    if count == 1 {
        assert(spec_burst(word, now, 0) == Step::Issue(word));
        lemma_advance_fields(word, now);
    } else {
        lemma_burst_sequences(word, now, (count - 1) as nat, worker_id);
        let reached = state_word(elapsed(now), count - 2) as u64;
        lemma_advance_fields(reached, now);
    }
}

/// A new generator starts at sequence number zero in whatever millisecond it
/// is first asked, the epoch itself and every sample before it included:
/// while the clock stands at `now`, its first `2^14` calls hand out the
/// sequence numbers `0, 1, 2, ...` with the timestamp of `now`.
pub proof fn lemma_new_generator_counts_from_zero(now: i64, count: nat, worker_id: u8)
    requires
        elapsed(now) <= MAX_TIMESTAMP,
        1 <= count <= SEQUENCE_MASK + 1,
    ensures
        spec_advance(INITIAL_STATE, now) == Step::Issue(state_word(elapsed(now), 0) as u64),
        spec_burst(INITIAL_STATE, now, count) == Step::Issue(
            state_word(elapsed(now), count - 1) as u64,
        ),
        ({
            let id = state_id(state_word(elapsed(now), count - 1) as u64, worker_id);
            &&& 0 <= id <= i64::MAX
            &&& id == id_value(elapsed(now), worker_id as int, count - 1)
            &&& id_sequence(id as i64) == count - 1
            &&& id_timestamp(id as i64) == elapsed(now)
            &&& id_worker(id as i64) == worker_id
        }),
{
    lemma_state_word_fields(elapsed(now), 0);
    lemma_state_word_fields(elapsed(now), count - 1);
    lemma_burst_sequences(INITIAL_STATE, now, count, worker_id);
}

/// A millisecond whose sequence numbers are used up forces the clock on:
/// whatever the sample, the rule issues nothing while the sample does not
/// lie after that millisecond, and the first sample that does starts its
/// millisecond at sequence number zero.
pub proof fn lemma_full_millisecond_forces_a_tick(word: u64, now: i64)
    requires
        0 <= state_timestamp(word) <= MAX_TIMESTAMP,
        state_sequence(word) == SEQUENCE_MASK,
    ensures
        elapsed(now) <= state_timestamp(word) ==> spec_advance(word, now) == Step::AwaitTick,
        state_timestamp(word) < elapsed(now) <= MAX_TIMESTAMP ==> spec_advance(word, now)
            == Step::Issue(state_word(elapsed(now), 0) as u64) && state_sequence(
            state_word(elapsed(now), 0) as u64,
        ) == 0 && state_timestamp(state_word(elapsed(now), 0) as u64) == elapsed(now),
        elapsed(now) > MAX_TIMESTAMP ==> spec_advance(word, now) == Step::Exhausted,
{
    if elapsed(now) <= MAX_TIMESTAMP {
        lemma_state_word_fields(elapsed(now), 0);
    }
}

/// After `2^14` calls in one millisecond its sequence numbers are used up:
/// the next call issues nothing while the clock stands, and once the clock
/// has moved on it starts the new millisecond with sequence number zero.
pub proof fn lemma_burst_exhausts(word: u64, now: i64, later: i64)
    requires
        state_timestamp(word) < elapsed(now) <= MAX_TIMESTAMP,
        elapsed(now) < elapsed(later) <= MAX_TIMESTAMP,
    ensures
        spec_burst(word, now, (SEQUENCE_MASK + 1) as nat) == Step::Issue(
            state_word(elapsed(now), SEQUENCE_MASK as int) as u64,
        ),
        spec_burst(word, now, (SEQUENCE_MASK + 2) as nat) == Step::AwaitTick,
        spec_advance(state_word(elapsed(now), SEQUENCE_MASK as int) as u64, later) == Step::Issue(
            state_word(elapsed(later), 0) as u64,
        ),
{
    lemma_burst_sequences(word, now, (SEQUENCE_MASK + 1) as nat, 0);
    let full = state_word(elapsed(now), SEQUENCE_MASK as int) as u64;
    lemma_state_word_fields(elapsed(now), SEQUENCE_MASK as int);
    lemma_state_word_fields(elapsed(later), 0);
    lemma_advance_fields(full, now);
    lemma_advance_fields(full, later);
    assert(spec_burst(word, now, (SEQUENCE_MASK + 2) as nat) == spec_advance(full, now));
}

/// A clock sample that lies before the last timestamp is absorbed: the rule
/// stays in the last millisecond, so it either issues a state word with that
/// timestamp and the next sequence number, whose identifier is greater than
/// the last one, or it waits. It never goes back.
pub proof fn lemma_rollback_is_absorbed(word: u64, now: i64, worker_id: u8)
    requires
        spec_is_rollback(word, now),
        state_timestamp(word) <= MAX_TIMESTAMP,
    ensures
        match spec_advance(word, now) {
            Step::Issue(next) => {
                &&& state_timestamp(next) == state_timestamp(word)
                &&& state_sequence(next) == state_sequence(word) + 1
                &&& state_id(next, worker_id) > state_id(word, worker_id)
            },
            Step::AwaitTick => state_sequence(word) == SEQUENCE_MASK,
            Step::Exhausted => false,
        },
{
    lemma_advance_fields(word, now);
    lemma_state_fields_bounds(word);
}

/// An identifier handed out after the clock went back is greater than every
/// identifier handed out before it.
pub proof fn lemma_rollback_keeps_the_order(words: Seq<u64>, now: i64, worker_id: u8, i: int)
    requires
        is_history(words),
        0 <= i < words.len(),
        spec_is_rollback(words.last(), now),
        spec_advance(words.last(), now) is Issue,
    ensures
        state_id(words[i], worker_id) < state_id(
            spec_advance(words.last(), now)->Issue_0,
            worker_id,
        ),
{
    let last = words.len() - 1;
    lemma_issue_moves_forward(words[last], now, worker_id);
    if i < last {
        lemma_history_ids_increase(words, worker_id, i, last);
    }
}

} // verus!
