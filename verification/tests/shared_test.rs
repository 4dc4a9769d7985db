use snowprints::shared::{create_id, from_params, get_bit_shifted_timestamp, get_timestamp};
use snowprints::{decompose, Errors, Params};

const JANUARY_1ST_2024_AS_MS: u64 = 1704096000000;

#[test]
fn shared_handle_issues_identifiers() {
    let params = Params {
        origin_time_ms: JANUARY_1ST_2024_AS_MS,
        logical_volume_base: 0,
        logical_volume_length: 8192,
    };
    let handle = from_params(params).unwrap();

    let first = create_id(&handle).unwrap();
    let second = create_id(&handle).unwrap();
    assert!(second > first);

    let (_, logical_volume, _) = decompose(first);
    assert!(logical_volume < 8192);
}

#[test]
fn shared_handle_reports_timestamps() {
    let params = Params {
        origin_time_ms: JANUARY_1ST_2024_AS_MS,
        logical_volume_base: 0,
        logical_volume_length: 8192,
    };
    let handle = from_params(params).unwrap();

    let timestamp = get_timestamp(&handle).unwrap();

    // An identifier issued afterwards cannot carry an earlier timestamp.
    let id = create_id(&handle).unwrap();
    let (id_timestamp, _, _) = decompose(id);
    assert!(id_timestamp >= timestamp);
}

#[test]
fn shared_handle_builds_range_boundaries() {
    let params = Params {
        origin_time_ms: JANUARY_1ST_2024_AS_MS,
        logical_volume_base: 0,
        logical_volume_length: 8192,
    };
    let handle = from_params(params).unwrap();

    // An offset past the elapsed time clamps the boundary to 0; any boundary
    // has volume and sequence 0.
    assert_eq!(get_bit_shifted_timestamp(&handle, u64::MAX).unwrap(), 0);

    let boundary = get_bit_shifted_timestamp(&handle, 1000).unwrap();
    let (_, logical_volume, sequence) = decompose(boundary);
    assert_eq!(logical_volume, 0);
    assert_eq!(sequence, 0);
}

#[test]
fn shared_handle_rejects_bad_params() {
    let zero_length = Params {
        origin_time_ms: JANUARY_1ST_2024_AS_MS,
        logical_volume_base: 0,
        logical_volume_length: 0,
    };
    match from_params(zero_length) {
        Ok(_) => panic!("zero-length rotation must be rejected"),
        Err(err) => assert_eq!(err, Errors::LogicalVolumeModuloIsZero),
    }

    let too_wide = Params {
        origin_time_ms: JANUARY_1ST_2024_AS_MS,
        logical_volume_base: 8000,
        logical_volume_length: 193,
    };
    match from_params(too_wide) {
        Ok(_) => panic!("rotation past the volume budget must be rejected"),
        Err(err) => assert_eq!(err, Errors::ExceededAvailableLogicalVolumes),
    }
}
