//! Sharded, time-sortable 64-bit identifiers ("snowprints").
//!
//! An identifier packs a millisecond timestamp (41 bits), a logical volume
//! index (13 bits) and a per-millisecond sequence counter (10 bits) into one
//! `u64`. A [`Snowprints`] generator rotates through a configured range of
//! logical volumes, advancing the volume on every new millisecond and
//! borrowing neighbouring volumes when a millisecond's sequence space runs
//! out.

use vstd::prelude::*;

pub mod shared;

verus! {

pub const LOGICAL_VOLUME_BIT_LEN: u64 = 13;

pub const SEQUENCE_BIT_LEN: u64 = 10;

pub const LOGICAL_VOLUME_BIT_MASK: u64 = 0x7f_fc00;

pub const SEQUENCE_BIT_MASK: u64 = 0x3ff;

/// Number of distinct logical volumes the 13-bit field can hold.
pub const MAX_LOGICAL_VOLUMES: u64 = 8192;

/// Number of distinct sequence values per millisecond the 10-bit field can hold.
pub const MAX_SEQUENCES: u64 = 1024;

/// Number of distinct timestamps the 41-bit field can hold.
pub const MAX_TIMESTAMPS: u64 = 0x200_0000_0000;

/// The identifier that `compose` builds: timestamp in the high 41 bits,
/// logical volume in the next 13, sequence in the low 10. Values wider than
/// their field overflow silently into the neighbouring field.
pub open spec fn compose_spec(ms_timestamp: u64, logical_volume: u64, ticket_id: u64) -> u64 {
    (ms_timestamp << (LOGICAL_VOLUME_BIT_LEN + SEQUENCE_BIT_LEN)) | (logical_volume
        << SEQUENCE_BIT_LEN) | ticket_id
}

/// The triple that `decompose` extracts from an identifier.
pub open spec fn decompose_spec(snowprint: u64) -> (u64, u64, u64) {
    (
        snowprint >> (LOGICAL_VOLUME_BIT_LEN + SEQUENCE_BIT_LEN),
        (snowprint & LOGICAL_VOLUME_BIT_MASK) >> SEQUENCE_BIT_LEN,
        snowprint & SEQUENCE_BIT_MASK,
    )
}

/// Packs a timestamp, logical volume and sequence into one 64-bit identifier.
///
/// Performs no range checking: values wider than their field silently
/// overflow into the neighbouring field.
pub fn compose(ms_timestamp: u64, logical_volume: u64, ticket_id: u64) -> (r: u64)
    ensures
        r == compose_spec(ms_timestamp, logical_volume, ticket_id),
{
    ms_timestamp << (LOGICAL_VOLUME_BIT_LEN + SEQUENCE_BIT_LEN) | logical_volume
        << SEQUENCE_BIT_LEN | ticket_id
}

/// Splits an identifier back into its (timestamp, logical volume, sequence)
/// fields.
pub fn decompose(snowprint: u64) -> (r: (u64, u64, u64))
    ensures
        r == decompose_spec(snowprint),
{
    let time = snowprint >> (LOGICAL_VOLUME_BIT_LEN + SEQUENCE_BIT_LEN);
    let logical_volume = (snowprint & LOGICAL_VOLUME_BIT_MASK) >> SEQUENCE_BIT_LEN;
    let ticket_id = snowprint & SEQUENCE_BIT_MASK;

    (time, logical_volume, ticket_id)
}

/// Composing any triple within the field-width budgets and decomposing the
/// result gives the triple back: the two codecs are exact inverses there.
pub proof fn lemma_compose_decompose(ms_timestamp: u64, logical_volume: u64, ticket_id: u64)
    requires
        ms_timestamp < MAX_TIMESTAMPS,
        logical_volume < MAX_LOGICAL_VOLUMES,
        ticket_id < MAX_SEQUENCES,
    ensures
        decompose_spec(compose_spec(ms_timestamp, logical_volume, ticket_id)) == (
        ms_timestamp,
        logical_volume,
        ticket_id,
        ),
{
    let id = compose_spec(ms_timestamp, logical_volume, ticket_id);
    assert(((ms_timestamp << 23) | (logical_volume << 10) | ticket_id) >> 23 == ms_timestamp)
        by (bit_vector)
        requires
            ms_timestamp < 0x200_0000_0000u64,
            logical_volume < 8192u64,
            ticket_id < 1024u64,
    ;
    assert(((((ms_timestamp << 23) | (logical_volume << 10) | ticket_id) & 0x7f_fc00u64) >> 10)
        == logical_volume) by (bit_vector)
        requires
            ms_timestamp < 0x200_0000_0000u64,
            logical_volume < 8192u64,
            ticket_id < 1024u64,
    ;
    assert((((ms_timestamp << 23) | (logical_volume << 10) | ticket_id) & 0x3ffu64) == ticket_id)
        by (bit_vector)
        requires
            ms_timestamp < 0x200_0000_0000u64,
            logical_volume < 8192u64,
            ticket_id < 1024u64,
    ;
    assert(decompose_spec(id).0 == ms_timestamp);
    assert(decompose_spec(id).1 == logical_volume);
    assert(decompose_spec(id).2 == ticket_id);
}

#[derive(Debug, Clone, Eq, PartialEq)]
pub enum Errors {
    ExceededAvailableLogicalVolumes,
    ExceededAvailableSequences,
    FailedToParseOriginSystemTime,
    LogicalVolumeModuloIsZero,
}

/// Immutable configuration of a generator.
#[derive(Debug, Clone, Eq, PartialEq)]
pub struct Params {
    /// Offset added to every issued logical volume index.
    pub logical_volume_base: u64,
    /// Number of logical volumes in rotation; must be positive.
    pub logical_volume_length: u64,
    /// Epoch anchor: timestamps are milliseconds elapsed since this Unix
    /// millisecond.
    pub origin_time_ms: u64,
}

/// Mutable rollover state, owned exclusively by one generator.
#[derive(Debug, Clone, Eq, PartialEq)]
pub struct State {
    /// Last observed elapsed time; never decreases across calls.
    pub duration_ms: u64,
    /// Current logical volume index (0-based, before adding the base).
    pub logical_volume: u64,
    /// Logical volume in use immediately before the last time advance.
    pub prev_logical_volume: u64,
    /// Counter within the current millisecond, in `[0, MAX_SEQUENCES)`.
    pub sequence: u64,
}

/// A sharded identifier generator: configuration plus rollover state.
#[derive(Debug, Clone, Eq, PartialEq)]
pub struct Snowprints {
    pub params: Params,
    pub state: State,
}

/// Milliseconds of the wall clock past the Unix epoch, or `None` when the
/// clock reads earlier than the epoch or cannot be read.
///
/// Relies on `std::time::SystemTime::now` measured against
/// `std::time::UNIX_EPOCH` by `duration_since`; nothing can be promised of a
/// clock reading.
#[verifier::external_body]
fn unix_time_ms() -> (r: Option<u64>) {
    match std::time::SystemTime::now().duration_since(std::time::UNIX_EPOCH) {
        Ok(duration) => Some(duration.as_millis() as u64),
        Err(_) => None,
    }
}

/// The elapsed time a generator works with after seeing the clock reading
/// `reading`: milliseconds since the origin when the reading is usable and
/// ahead of `duration_ms`, otherwise the recorded `duration_ms` itself. The
/// result never falls below `duration_ms`: the generator never regresses its
/// notion of time.
pub open spec fn clamped_elapsed_ms(origin_time_ms: u64, duration_ms: u64, reading: Option<
    u64,
>) -> u64 {
    match reading {
        Some(now) => if now >= origin_time_ms && now - origin_time_ms > duration_ms {
            (now - origin_time_ms) as u64
        } else {
            duration_ms
        },
        None => duration_ms,
    }
}

/// The rollover state after a time advance to `duration_ms`: the sequence
/// restarts, the volume rotates one step, and the volume it leaves behind is
/// remembered.
pub open spec fn tick_logical_volume_spec(state: State, params: Params, duration_ms: u64) -> State {
    State {
        duration_ms,
        sequence: 0,
        prev_logical_volume: state.logical_volume,
        logical_volume: (((state.logical_volume + 1) as int % params.logical_volume_length as int)
            as u64),
    }
}

/// The rollover state after one more issuance within the same millisecond,
/// and whether that issuance succeeds. The sequence advances while it fits
/// its field; once it overflows it restarts at 0 and the next volume in
/// rotation is borrowed, unless that volume is the one left behind by the
/// last time advance, in which case capacity is exhausted and the call fails
/// (with the sequence already restarted).
pub open spec fn tick_sequence_spec(state: State, params: Params) -> (State, bool) {
    if state.sequence + 1 < MAX_SEQUENCES {
        (State { sequence: (state.sequence + 1) as u64, ..state }, true)
    } else {
        let next = (((state.logical_volume + 1) as int % params.logical_volume_length as int)
            as u64);
        if next != state.prev_logical_volume {
            (State { sequence: 0, logical_volume: next, ..state }, true)
        } else {
            (State { sequence: 0, ..state }, false)
        }
    }
}

/// The generator after one issuance attempt at clamped elapsed time `eff_ms`.
pub open spec fn next_after(g: Snowprints, eff_ms: u64) -> Snowprints {
    if eff_ms > g.state.duration_ms {
        Snowprints { state: tick_logical_volume_spec(g.state, g.params, eff_ms), ..g }
    } else {
        Snowprints { state: tick_sequence_spec(g.state, g.params).0, ..g }
    }
}

/// What one issuance attempt at clamped elapsed time `eff_ms` returns: the
/// identifier composed from the post-call state, or the capacity error.
pub open spec fn output_after(g: Snowprints, eff_ms: u64) -> Result<u64, Errors> {
    if eff_ms > g.state.duration_ms || tick_sequence_spec(g.state, g.params).1 {
        Ok(composed_id(next_after(g, eff_ms), eff_ms))
    } else {
        Err(Errors::ExceededAvailableSequences)
    }
}

/// The identifier a generator in state `g` issues at elapsed time `eff_ms`:
/// its current volume (after adding the base) and sequence under that
/// timestamp.
pub open spec fn composed_id(g: Snowprints, eff_ms: u64) -> u64 {
    compose_spec(
        eff_ms,
        ((g.params.logical_volume_base + g.state.logical_volume) as u64),
        g.state.sequence,
    )
}

/// How one `create_id` call relates the generator before (`pre`) and after
/// (`post`) the call, and its result `r`, given the clock reading it saw.
pub open spec fn create_id_rel(
    pre: Snowprints,
    post: Snowprints,
    reading: Option<u64>,
    r: Result<u64, Errors>,
) -> bool {
    let eff_ms = clamped_elapsed_ms(pre.params.origin_time_ms, pre.state.duration_ms, reading);
    &&& post == next_after(pre, eff_ms)
    &&& r == output_after(pre, eff_ms)
}

/// The generator `Snowprints::from` builds for `params` after seeing the
/// clock reading `reading`, or the construction error it reports.
pub open spec fn from_reading_spec(params: Params, reading: Option<u64>) -> Result<
    Snowprints,
    Errors,
> {
    if params.logical_volume_length == 0 {
        Err(Errors::LogicalVolumeModuloIsZero)
    } else if params.logical_volume_base + params.logical_volume_length > MAX_LOGICAL_VOLUMES {
        Err(Errors::ExceededAvailableLogicalVolumes)
    } else {
        match reading {
            Some(now) => if now >= params.origin_time_ms {
                Ok(
                    Snowprints {
                        params,
                        state: State {
                            duration_ms: (now - params.origin_time_ms) as u64,
                            sequence: 0,
                            logical_volume: 0,
                            prev_logical_volume: 0,
                        },
                    },
                )
            } else {
                Err(Errors::FailedToParseOriginSystemTime)
            },
            None => Err(Errors::FailedToParseOriginSystemTime),
        }
    }
}

impl Snowprints {
    /// Well-formedness: the volume range fits the 13-bit field, both volume
    /// cursors stay inside the configured rotation, and the sequence fits its
    /// 10-bit field.
    pub open spec fn wf(&self) -> bool {
        &&& 0 < self.params.logical_volume_length
        &&& self.params.logical_volume_base + self.params.logical_volume_length
            <= MAX_LOGICAL_VOLUMES
        &&& self.state.logical_volume < self.params.logical_volume_length
        &&& self.state.prev_logical_volume < self.params.logical_volume_length
        &&& self.state.sequence < MAX_SEQUENCES
    }

    /// Builds a generator from `params` using the system clock for the
    /// initial elapsed time. Rejects a zero-length volume rotation, a
    /// rotation reaching past the 13-bit budget, and a clock reading earlier
    /// than the origin.
    pub fn from(params: Params) -> (r: Result<Snowprints, Errors>)
        ensures
            exists|reading: Option<u64>| r == from_reading_spec(params, reading),
            params.logical_volume_length == 0 ==> r == Err::<Snowprints, Errors>(
                Errors::LogicalVolumeModuloIsZero,
            ),
            params.logical_volume_length > 0 && params.logical_volume_base
                + params.logical_volume_length > MAX_LOGICAL_VOLUMES ==> r == Err::<
                Snowprints,
                Errors,
            >(Errors::ExceededAvailableLogicalVolumes),
            r matches Ok(g) ==> g.wf() && g.params == params && g.state.sequence == 0
                && g.state.logical_volume == 0 && g.state.prev_logical_volume == 0,
    {
        let reading = unix_time_ms();
        Self::from_reading(params, reading)
    }

    /// Builds a generator from `params` and an explicit clock reading
    /// (milliseconds past the Unix epoch, `None` for an unreadable clock),
    /// exactly as [`Snowprints::from`] does with the system clock's reading.
    pub fn from_reading(params: Params, reading: Option<u64>) -> (r: Result<Snowprints, Errors>)
        ensures
            r == from_reading_spec(params, reading),
            r matches Ok(g) ==> g.wf(),
    {
        if let Err(err) = check_params(&params) {
            return Err(err);
        }
        let now = match reading {
            Some(now) => now,
            None => {
                return Err(Errors::FailedToParseOriginSystemTime);
            },
        };
        if now < params.origin_time_ms {
            return Err(Errors::FailedToParseOriginSystemTime);
        }
        let duration_ms = now - params.origin_time_ms;
        Ok(
            Snowprints {
                params,
                state: State { duration_ms, sequence: 0, logical_volume: 0, prev_logical_volume: 0 },
            },
        )
    }

    /// Issues the next identifier using the system clock, or reports that the
    /// volume and sequence capacity of the current millisecond is exhausted.
    /// Whatever the clock returned, the call is one `create_id_rel` step of
    /// the generator, and its notion of time never regresses.
    pub fn create_id(&mut self) -> (r: Result<u64, Errors>)
        requires
            old(self).wf(),
        ensures
            final(self).wf(),
            exists|reading: Option<u64>| create_id_rel(*old(self), *final(self), reading, r),
            final(self).params == old(self).params,
            final(self).state.duration_ms >= old(self).state.duration_ms,
    {
        let reading = unix_time_ms();
        self.create_id_at(reading)
    }

    /// Issues the next identifier as [`Snowprints::create_id`] does, but from
    /// an explicit clock reading (milliseconds past the Unix epoch, `None`
    /// for an unreadable clock).
    pub fn create_id_at(&mut self, reading: Option<u64>) -> (r: Result<u64, Errors>)
        requires
            old(self).wf(),
        ensures
            final(self).wf(),
            create_id_rel(*old(self), *final(self), reading, r),
            final(self).params == old(self).params,
            final(self).state.duration_ms >= old(self).state.duration_ms,
    {
        let duration_ms = get_most_recent_duration_ms(
            self.params.origin_time_ms,
            self.state.duration_ms,
            reading,
        );

        if duration_ms > self.state.duration_ms {
            tick_logical_volume(&mut self.state, &self.params, duration_ms);
        } else {
            if let Err(err) = tick_sequence(&mut self.state, &self.params) {
                return Err(err);
            }
        }

        Ok(
            compose(
                duration_ms,
                self.params.logical_volume_base + self.state.logical_volume,
                self.state.sequence,
            ),
        )
    }

    /// Time as the generator currently sees it: the system clock's elapsed
    /// milliseconds since the origin, clamped so it never falls below the
    /// recorded `duration_ms`. Read-only.
    pub fn get_timestamp(&self) -> (r: u64)
        ensures
            exists|reading: Option<u64>|
                r == clamped_elapsed_ms(
                    self.params.origin_time_ms,
                    self.state.duration_ms,
                    reading,
                ),
            r >= self.state.duration_ms,
    {
        self.get_timestamp_at(unix_time_ms())
    }

    /// Time as the generator sees it for an explicit clock reading.
    pub fn get_timestamp_at(&self, reading: Option<u64>) -> (r: u64)
        ensures
            r == clamped_elapsed_ms(self.params.origin_time_ms, self.state.duration_ms, reading),
            r >= self.state.duration_ms,
    {
        get_most_recent_duration_ms(self.params.origin_time_ms, self.state.duration_ms, reading)
    }

    /// An identifier-shaped range boundary: the current clamped timestamp
    /// minus `offset_ms` (clamped to 0 on underflow) composed with volume 0
    /// and sequence 0. Read-only.
    pub fn get_bit_shifted_timestamp(&self, offset_ms: u64) -> (r: u64)
        ensures
            exists|reading: Option<u64>| r == bit_shifted_timestamp_spec(*self, offset_ms, reading),
    {
        self.get_bit_shifted_timestamp_at(offset_ms, unix_time_ms())
    }

    /// The range boundary of [`Snowprints::get_bit_shifted_timestamp`] for an
    /// explicit clock reading.
    pub fn get_bit_shifted_timestamp_at(&self, offset_ms: u64, reading: Option<u64>) -> (r: u64)
        ensures
            r == bit_shifted_timestamp_spec(*self, offset_ms, reading),
    {
        let mut duration_ms = get_most_recent_duration_ms(
            self.params.origin_time_ms,
            self.state.duration_ms,
            reading,
        );

        duration_ms = if offset_ms < duration_ms {
            duration_ms - offset_ms
        } else {
            0
        };

        compose(duration_ms, 0, 0)
    }
}

/// The boundary `get_bit_shifted_timestamp` returns for a clock reading:
/// the clamped elapsed time less `offset_ms` — 0 when the offset reaches or
/// exceeds it, so the subtraction never underflows — in the timestamp field,
/// with volume and sequence 0.
pub open spec fn bit_shifted_timestamp_spec(g: Snowprints, offset_ms: u64, reading: Option<
    u64,
>) -> u64 {
    let eff_ms = clamped_elapsed_ms(g.params.origin_time_ms, g.state.duration_ms, reading);
    if offset_ms < eff_ms {
        compose_spec((eff_ms - offset_ms) as u64, 0, 0)
    } else {
        compose_spec(0, 0, 0)
    }
}

/// Rejects a zero-length volume rotation (`LogicalVolumeModuloIsZero`) and a
/// rotation reaching past the 13-bit field budget
/// (`ExceededAvailableLogicalVolumes`).
fn check_params(params: &Params) -> (r: Result<(), Errors>)
    ensures
        r is Ok <==> (0 < params.logical_volume_length && params.logical_volume_base
            + params.logical_volume_length <= MAX_LOGICAL_VOLUMES),
        params.logical_volume_length == 0 ==> r == Err::<(), Errors>(
            Errors::LogicalVolumeModuloIsZero,
        ),
        r is Err && params.logical_volume_length != 0 ==> r == Err::<(), Errors>(
            Errors::ExceededAvailableLogicalVolumes,
        ),
{
    if params.logical_volume_length == 0 {
        return Err(Errors::LogicalVolumeModuloIsZero);
    }
    if params.logical_volume_length > MAX_LOGICAL_VOLUMES || params.logical_volume_base
        > MAX_LOGICAL_VOLUMES - params.logical_volume_length {
        return Err(Errors::ExceededAvailableLogicalVolumes);
    }

    Ok(())
}

/// The clamped elapsed time of `clamped_elapsed_ms`, computed from a clock
/// reading: the reading's elapsed milliseconds when it is usable and ahead of
/// `duration_ms`, otherwise `duration_ms` unchanged.
fn get_most_recent_duration_ms(origin_time_ms: u64, duration_ms: u64, reading: Option<u64>) -> (r:
    u64)
    ensures
        r == clamped_elapsed_ms(origin_time_ms, duration_ms, reading),
        r >= duration_ms,
{
    if let Some(now) = reading {
        if now >= origin_time_ms {
            let dur_ms = now - origin_time_ms;
            if duration_ms < dur_ms {
                return dur_ms;
            }
        }
    }

    duration_ms
}

/// Applies the time-advance transition: restart the sequence, rotate the
/// volume, remember the volume left behind.
fn tick_logical_volume(state: &mut State, params: &Params, duration_ms: u64)
    requires
        old(state).logical_volume < params.logical_volume_length,
    ensures
        *final(state) == tick_logical_volume_spec(*old(state), *params, duration_ms),
{
    state.duration_ms = duration_ms;
    state.sequence = 0;
    state.prev_logical_volume = state.logical_volume;
    state.logical_volume = (state.logical_volume + 1) % params.logical_volume_length;
}

/// Applies the same-millisecond transition: advance the sequence, borrowing
/// the next volume when the sequence field overflows, and fail once the next
/// volume is the one the last time advance left behind.
fn tick_sequence(state: &mut State, params: &Params) -> (r: Result<(), Errors>)
    requires
        old(state).sequence < MAX_SEQUENCES,
        old(state).logical_volume < params.logical_volume_length,
    ensures
        *final(state) == tick_sequence_spec(*old(state), *params).0,
        r is Ok <==> tick_sequence_spec(*old(state), *params).1,
        r is Err ==> r == Err::<(), Errors>(Errors::ExceededAvailableSequences),
{
    state.sequence += 1;
    if state.sequence < MAX_SEQUENCES {
        return Ok(());
    }

    state.sequence = 0;
    let next_logical_volume = (state.logical_volume + 1) % params.logical_volume_length;
    if state.prev_logical_volume != next_logical_volume {
        state.logical_volume = next_logical_volume;
        return Ok(());
    }

    Err(Errors::ExceededAvailableSequences)
}

/// One issuance attempt keeps a generator well formed, keeps its
/// configuration, and never regresses its recorded time.
pub proof fn lemma_next_preserves_wf(g: Snowprints, eff_ms: u64)
    requires
        g.wf(),
    ensures
        next_after(g, eff_ms).wf(),
        next_after(g, eff_ms).params == g.params,
        next_after(g, eff_ms).state.duration_ms >= g.state.duration_ms,
{
}

/// Clock regression tolerance: the clamped elapsed time never falls below the
/// recorded `duration_ms`, one issuance attempt never lowers it, and a clock
/// reading at or behind the recorded time (or an unreadable clock) leaves the
/// generator's notion of time exactly where it was.
pub proof fn lemma_clock_regression_tolerated(g: Snowprints, reading: Option<u64>)
    ensures
        clamped_elapsed_ms(g.params.origin_time_ms, g.state.duration_ms, reading)
            >= g.state.duration_ms,
        next_after(
            g,
            clamped_elapsed_ms(g.params.origin_time_ms, g.state.duration_ms, reading),
        ).state.duration_ms >= g.state.duration_ms,
        (match reading {
            Some(now) => now < g.params.origin_time_ms || now - g.params.origin_time_ms
                <= g.state.duration_ms,
            None => true,
        }) ==> clamped_elapsed_ms(g.params.origin_time_ms, g.state.duration_ms, reading)
            == g.state.duration_ms,
{
}

/// Intra-millisecond sequencing: an issuance that sees the same millisecond
/// as the last call, with room left in the sequence field, keeps the volume,
/// advances the sequence by one, and succeeds with an identifier whose
/// decomposed fields show exactly that (within the 41-bit timestamp budget).
pub proof fn lemma_same_millisecond_sequencing(g: Snowprints, eff_ms: u64)
    requires
        g.wf(),
        eff_ms == g.state.duration_ms,
        g.state.sequence + 1 < MAX_SEQUENCES,
        g.state.duration_ms < MAX_TIMESTAMPS,
    ensures
        next_after(g, eff_ms).state.logical_volume == g.state.logical_volume,
        next_after(g, eff_ms).state.sequence == g.state.sequence + 1,
        next_after(g, eff_ms).state.duration_ms == g.state.duration_ms,
        output_after(g, eff_ms) matches Ok(id) && decompose_spec(id) == (
            g.state.duration_ms,
            ((g.params.logical_volume_base + g.state.logical_volume) as u64),
            ((g.state.sequence + 1) as u64),
        ),
{
    lemma_compose_decompose(
        g.state.duration_ms,
        ((g.params.logical_volume_base + g.state.logical_volume) as u64),
        ((g.state.sequence + 1) as u64),
    );
}

/// Shard borrow: an issuance that sees the same millisecond with its sequence
/// field full borrows the next volume in rotation when that volume is not the
/// one the last time advance left behind: the sequence restarts at 0 on the
/// borrowed volume and the call succeeds, visible in the decomposed
/// identifier (within the 41-bit timestamp budget).
pub proof fn lemma_sequence_overflow_borrows_next_volume(g: Snowprints, eff_ms: u64)
    requires
        g.wf(),
        eff_ms == g.state.duration_ms,
        g.state.sequence + 1 == MAX_SEQUENCES,
        ((g.state.logical_volume + 1) as int % g.params.logical_volume_length as int)
            != g.state.prev_logical_volume,
        g.state.duration_ms < MAX_TIMESTAMPS,
    ensures
        next_after(g, eff_ms).state == (State {
            duration_ms: g.state.duration_ms,
            sequence: 0,
            logical_volume: (((g.state.logical_volume + 1) as int
                % g.params.logical_volume_length as int) as u64),
            prev_logical_volume: g.state.prev_logical_volume,
        }),
        output_after(g, eff_ms) matches Ok(id) && decompose_spec(id) == (
            g.state.duration_ms,
            ((g.params.logical_volume_base + next_after(g, eff_ms).state.logical_volume) as u64),
            0u64,
        ),
{
    lemma_next_preserves_wf(g, eff_ms);
    lemma_compose_decompose(
        g.state.duration_ms,
        ((g.params.logical_volume_base + next_after(g, eff_ms).state.logical_volume) as u64),
        0u64,
    );
}

/// Shard exhaustion: when the borrow would revisit the volume the last time
/// advance left behind, the call fails with `ExceededAvailableSequences`, and
/// the only state change is the sequence restarting at 0 (the fail-closed
/// mutation the rollover policy keeps even on a failing call).
pub proof fn lemma_sequence_overflow_exhausts(g: Snowprints, eff_ms: u64)
    requires
        g.wf(),
        eff_ms == g.state.duration_ms,
        g.state.sequence + 1 == MAX_SEQUENCES,
        ((g.state.logical_volume + 1) as int % g.params.logical_volume_length as int)
            == g.state.prev_logical_volume,
    ensures
        output_after(g, eff_ms) == Err::<u64, Errors>(Errors::ExceededAvailableSequences),
        next_after(g, eff_ms).state == (State { sequence: 0, ..g.state }),
{
}

/// Clock regression tolerance at issuance: a reading at or behind the
/// recorded time (or an unreadable clock) leaves the generator's notion of
/// time where it was — the same-millisecond branch is taken, the recorded
/// time is unchanged, and any identifier issued carries that recorded time in
/// its timestamp field (within the 41-bit timestamp budget).
pub proof fn lemma_regressed_clock_keeps_recorded_time(g: Snowprints, reading: Option<u64>)
    requires
        g.wf(),
        match reading {
            Some(now) => now < g.params.origin_time_ms || now - g.params.origin_time_ms
                <= g.state.duration_ms,
            None => true,
        },
        g.state.duration_ms < MAX_TIMESTAMPS,
    ensures
        clamped_elapsed_ms(g.params.origin_time_ms, g.state.duration_ms, reading)
            == g.state.duration_ms,
        next_after(
            g,
            clamped_elapsed_ms(g.params.origin_time_ms, g.state.duration_ms, reading),
        ).state.duration_ms == g.state.duration_ms,
        output_after(
            g,
            clamped_elapsed_ms(g.params.origin_time_ms, g.state.duration_ms, reading),
        ) matches Ok(id) ==> decompose_spec(id).0 == g.state.duration_ms,
{
    let eff_ms = clamped_elapsed_ms(g.params.origin_time_ms, g.state.duration_ms, reading);
    lemma_next_preserves_wf(g, eff_ms);
    if output_after(g, eff_ms) is Ok {
        lemma_compose_decompose(
            g.state.duration_ms,
            ((g.params.logical_volume_base + next_after(g, eff_ms).state.logical_volume) as u64),
            next_after(g, eff_ms).state.sequence,
        );
    }
}

proof fn lemma_compose_lt_by_timestamp(t1: u64, l1: u64, s1: u64, t2: u64, l2: u64, s2: u64)
    requires
        t1 < t2 < MAX_TIMESTAMPS,
        l1 < MAX_LOGICAL_VOLUMES,
        l2 < MAX_LOGICAL_VOLUMES,
        s1 < MAX_SEQUENCES,
        s2 < MAX_SEQUENCES,
    ensures
        compose_spec(t1, l1, s1) < compose_spec(t2, l2, s2),
{
    assert((t1 << 23) | (l1 << 10) | s1 < (t2 << 23) | (l2 << 10) | s2) by (bit_vector)
        requires
            t1 < t2 < 0x200_0000_0000u64,
            l1 < 8192u64,
            l2 < 8192u64,
            s1 < 1024u64,
            s2 < 1024u64,
    ;
}

proof fn lemma_compose_lt_by_volume(t: u64, l1: u64, s1: u64, l2: u64)
    requires
        t < MAX_TIMESTAMPS,
        l1 < l2 < MAX_LOGICAL_VOLUMES,
        s1 < MAX_SEQUENCES,
    ensures
        compose_spec(t, l1, s1) < compose_spec(t, l2, 0),
{
    assert((t << 23) | (l1 << 10) | s1 < (t << 23) | (l2 << 10) | 0u64) by (bit_vector)
        requires
            t < 0x200_0000_0000u64,
            l1 < l2 < 8192u64,
            s1 < 1024u64,
    ;
}

proof fn lemma_compose_lt_by_sequence(t: u64, l: u64, s1: u64, s2: u64)
    requires
        t < MAX_TIMESTAMPS,
        l < MAX_LOGICAL_VOLUMES,
        s1 < s2 < MAX_SEQUENCES,
    ensures
        compose_spec(t, l, s1) < compose_spec(t, l, s2),
{
    assert((t << 23) | (l << 10) | s1 < (t << 23) | (l << 10) | s2) by (bit_vector)
        requires
            t < 0x200_0000_0000u64,
            l < 8192u64,
            s1 < s2 < 1024u64,
    ;
}

/// Monotonicity: two successive successful issuances yield strictly
/// increasing identifiers, as long as the timestamps stay within the 41-bit
/// field and the second issuance is not a same-millisecond sequence overflow
/// that wraps the volume rotation back to index 0 (a wrapped borrow issues on
/// a lower volume under the same timestamp, so that identifier sorts lower).
pub proof fn lemma_create_id_monotonic(g0: Snowprints, eff1: u64, eff2: u64)
    requires
        g0.wf(),
        eff1 >= g0.state.duration_ms,
        eff2 >= next_after(g0, eff1).state.duration_ms,
        eff2 < MAX_TIMESTAMPS,
        output_after(g0, eff1) is Ok,
        output_after(next_after(g0, eff1), eff2) is Ok,
        !(eff2 == next_after(g0, eff1).state.duration_ms && next_after(g0, eff1).state.sequence + 1
            == MAX_SEQUENCES && next_after(g0, eff1).state.logical_volume + 1 == next_after(
            g0,
            eff1,
        ).params.logical_volume_length),
    ensures
        output_after(g0, eff1)->Ok_0 < output_after(next_after(g0, eff1), eff2)->Ok_0,
{
    let g1 = next_after(g0, eff1);
    let g2 = next_after(g1, eff2);
    lemma_next_preserves_wf(g0, eff1);
    lemma_next_preserves_wf(g1, eff2);
    assert(g1.state.duration_ms == eff1);

    let base = g0.params.logical_volume_base;
    let len = g0.params.logical_volume_length;
    let id1 = output_after(g0, eff1)->Ok_0;
    let id2 = output_after(g1, eff2)->Ok_0;
    assert(id1 == compose_spec(eff1, ((base + g1.state.logical_volume) as u64), g1.state.sequence));
    assert(id2 == compose_spec(eff2, ((base + g2.state.logical_volume) as u64), g2.state.sequence));

    let l1 = (base + g1.state.logical_volume) as u64;
    let l2 = (base + g2.state.logical_volume) as u64;
    if eff2 > eff1 {
        lemma_compose_lt_by_timestamp(eff1, l1, g1.state.sequence, eff2, l2, g2.state.sequence);
    } else {
        assert(eff2 == eff1);
        if g1.state.sequence + 1 < MAX_SEQUENCES {
            assert(g2.state.logical_volume == g1.state.logical_volume);
            assert(g2.state.sequence == g1.state.sequence + 1);
            lemma_compose_lt_by_sequence(eff1, l1, g1.state.sequence, g2.state.sequence);
        } else {
            assert(g1.state.logical_volume + 1 < len);
            assert(g2.state.logical_volume == ((g1.state.logical_volume + 1) as int % len as int)
                as u64);
            vstd::arithmetic::div_mod::lemma_small_mod(
                (g1.state.logical_volume + 1) as nat,
                len as nat,
            );
            assert(g2.state.logical_volume == g1.state.logical_volume + 1);
            assert(g2.state.sequence == 0);
            lemma_compose_lt_by_volume(eff1, l1, g1.state.sequence, l2);
        }
    }
}

} // verus!

