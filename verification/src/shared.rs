//! Shared access to one generator.
//!
//! A [`SharedSnowprints`] handle owns a single [`Snowprints`] generator
//! behind a mutual-exclusion lock, so many concurrent callers can issue
//! identifiers from the same rotation: every operation acquires the lock,
//! delegates to the generator, and releases it. Issuance calls take the lock
//! exclusively; the read-only projections take it shared.

use vstd::prelude::*;
use vstd::rwlock::{RwLock, RwLockPredicate};

use crate::clamped_elapsed_ms;
use crate::create_id_rel;
use crate::from_reading_spec;
use crate::output_after;
use crate::bit_shifted_timestamp_spec;
use crate::Errors;
use crate::Params;
use crate::Snowprints;

verus! {

/// The invariant the lock maintains: every generator stored in a shared
/// handle is well formed and carries the configuration the handle was built
/// with.
pub struct GeneratorInv {
    pub params: Params,
}

impl RwLockPredicate<Snowprints> for GeneratorInv {
    open spec fn inv(self, v: Snowprints) -> bool {
        v.wf() && v.params == self.params
    }
}

/// One generator behind a lock, safely shared by concurrent callers.
pub struct SharedSnowprints {
    lock: RwLock<Snowprints, GeneratorInv>,
}

impl SharedSnowprints {
    /// The configuration every generator stored in this handle carries.
    pub closed spec fn params(&self) -> Params {
        self.lock.pred().params
    }
}

/// Whether the handle constructor's result `r` passes the generator
/// construction's result `built` through: a handle over the freshly built
/// generator (so over `built`'s configuration), or `built`'s own error
/// unchanged.
pub open spec fn wraps_construction(
    r: Result<SharedSnowprints, Errors>,
    built: Result<Snowprints, Errors>,
) -> bool {
    match r {
        Ok(h) => built matches Ok(g) && h.params() == g.params,
        Err(e) => built == Err::<Snowprints, Errors>(e),
    }
}

/// Builds a generator for `params` as [`Snowprints::from`] does and wraps it
/// in a shared handle over that very generator; a construction error is
/// returned unchanged.
pub fn from_params(params: Params) -> (r: Result<SharedSnowprints, Errors>)
    ensures
        exists|reading: Option<u64>|
            wraps_construction(r, #[trigger] from_reading_spec(params, reading)),
        r matches Ok(h) ==> h.params() == params,
        params.logical_volume_length == 0 ==> (r matches Err(e) && e
            == Errors::LogicalVolumeModuloIsZero),
        params.logical_volume_length > 0 && params.logical_volume_base
            + params.logical_volume_length > crate::MAX_LOGICAL_VOLUMES ==> (r matches Err(e) && e
            == Errors::ExceededAvailableLogicalVolumes),
        r matches Err(e) ==> e == Errors::LogicalVolumeModuloIsZero || e
            == Errors::ExceededAvailableLogicalVolumes || e
            == Errors::FailedToParseOriginSystemTime,
{
    let built = Snowprints::from(params);
    let ghost built_reading = choose|reading: Option<u64>|
        built == from_reading_spec(params, reading);

    let snowprints = match built {
        Ok(snowprints) => snowprints,
        Err(e) => {
            proof {
                assert(wraps_construction(
                    Err::<SharedSnowprints, Errors>(e),
                    from_reading_spec(params, built_reading),
                ));
            }
            return Err(e);
        },
    };

    let handle = SharedSnowprints {
        lock: RwLock::new(snowprints, Ghost(GeneratorInv { params })),
    };
    proof {
        assert(wraps_construction(
            Ok::<SharedSnowprints, Errors>(handle),
            from_reading_spec(params, built_reading),
        ));
    }

    Ok(handle)
}

/// Issues the next identifier from the shared generator, holding the lock
/// exclusively for the call. Any identifier handed out is one issued by a
/// well-formed generator carrying this handle's configuration, for some clock
/// reading; the only failure is such a generator's capacity exhaustion,
/// reported as a message.
pub fn create_id(snowprints_shared: &SharedSnowprints) -> (r: Result<u64, String>)
    ensures
        r matches Ok(id) ==> exists|g: Snowprints, reading: Option<u64>|
            g.wf() && g.params == snowprints_shared.params() && #[trigger] output_after(
                g,
                clamped_elapsed_ms(g.params.origin_time_ms, g.state.duration_ms, reading),
            ) == Ok::<u64, Errors>(id),
        r matches Err(m) ==> m@ == "failed to create an id"@,
        r matches Err(m) ==> exists|g: Snowprints, reading: Option<u64>|
            g.wf() && g.params == snowprints_shared.params() && #[trigger] output_after(
                g,
                clamped_elapsed_ms(g.params.origin_time_ms, g.state.duration_ms, reading),
            ) == Err::<u64, Errors>(Errors::ExceededAvailableSequences),
{
    let (mut snowprints, write_handle) = snowprints_shared.lock.acquire_write();
    let ghost pre = snowprints;
    let res = snowprints.create_id();
    write_handle.release_write(snowprints);

    proof {
        let reading = choose|reading: Option<u64>| create_id_rel(pre, snowprints, reading, res);
        assert(res == output_after(
            pre,
            clamped_elapsed_ms(pre.params.origin_time_ms, pre.state.duration_ms, reading),
        ));
    }

    match res {
        Ok(snowprint) => Ok(snowprint),
        Err(_e) => Err("failed to create an id".to_string()),
    }
}

/// Reads the shared generator's clamped timestamp under the lock. Never
/// fails: the result is the clamped elapsed time of a well-formed generator
/// carrying this handle's configuration, for some clock reading.
pub fn get_timestamp(snowprints_shared: &SharedSnowprints) -> (r: Result<u64, String>)
    ensures
        r matches Ok(ts) ==> exists|g: Snowprints, reading: Option<u64>|
            g.wf() && g.params == snowprints_shared.params() && ts
                == #[trigger] clamped_elapsed_ms(
                g.params.origin_time_ms,
                g.state.duration_ms,
                reading,
            ),
        r is Ok,
{
    let read_handle = snowprints_shared.lock.acquire_read();
    let ts = read_handle.borrow().get_timestamp();
    read_handle.release_read();

    Ok(ts)
}

/// Reads an identifier-shaped range boundary from the shared generator under
/// the lock, as [`Snowprints::get_bit_shifted_timestamp`] computes it for a
/// well-formed generator carrying this handle's configuration. Never fails.
pub fn get_bit_shifted_timestamp(snowprints_shared: &SharedSnowprints, offset: u64) -> (r: Result<
    u64,
    String,
>)
    ensures
        r matches Ok(id) ==> exists|g: Snowprints, reading: Option<u64>|
            g.wf() && g.params == snowprints_shared.params() && id
                == #[trigger] bit_shifted_timestamp_spec(g, offset, reading),
        r is Ok,
{
    let read_handle = snowprints_shared.lock.acquire_read();
    let id = read_handle.borrow().get_bit_shifted_timestamp(offset);
    read_handle.release_read();

    Ok(id)
}

} // verus!
