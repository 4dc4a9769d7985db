use snowprints::{compose, decompose, Errors, Params, Snowprints};

const JANUARY_1ST_2024_AS_MS: u64 = 1704096000000;

#[test]
fn compose_and_decompose() {
    let time = 987654321;
    let logical_volume = 7890;
    let sequence = 956;

    let snowprint = compose(time, logical_volume, sequence);
    let (d_time, d_logical_volume, d_sequence) = decompose(snowprint);

    assert_eq!(time, d_time);
    assert_eq!(logical_volume, d_logical_volume);
    assert_eq!(sequence, d_sequence);
}

#[test]
fn compose_and_decompose_from_a_real_date() {
    let logical_volume = 7890;
    let sequence = 956;

    let snowprint = compose(JANUARY_1ST_2024_AS_MS, logical_volume, sequence);
    let (d_time, d_logical_volume, d_sequence) = decompose(snowprint);

    assert_eq!(JANUARY_1ST_2024_AS_MS, d_time);
    assert_eq!(logical_volume, d_logical_volume);
    assert_eq!(sequence, d_sequence);
}

#[test]
fn snowprint_struct_builds_and_returns_snowprint() {
    let params = Params {
        origin_time_ms: JANUARY_1ST_2024_AS_MS,
        logical_volume_base: 0,
        logical_volume_length: 8192,
    };

    let mut snowprints = match Snowprints::from(params) {
        Ok(snow) => snow,
        // error by comparing result to incorrect error
        Err(err) => return assert_eq!(Errors::ExceededAvailableSequences, err),
    };

    let snowprint = snowprints.create_id();
    match snowprint {
        Ok(sp) => {
            let (_timestamp, logical_volume, sequence) = decompose(sp);

            assert_eq!(logical_volume, 0);
            assert_eq!(sequence, 1);
        }
        // error by comparing result to incorrect error
        Err(err) => assert_eq!(Errors::ExceededAvailableLogicalVolumes, err),
    }
}

#[test]
fn compose_packs_fields_at_documented_offsets() {
    // 1 << 23 | 2 << 10 | 3
    assert_eq!(compose(1, 2, 3), 8390659);
    assert_eq!(compose(0, 0, 0), 0);
    assert_eq!(decompose(8390659), (1, 2, 3));
}

#[test]
fn construction_rejects_zero_logical_volume_length() {
    let params = Params {
        origin_time_ms: JANUARY_1ST_2024_AS_MS,
        logical_volume_base: 0,
        logical_volume_length: 0,
    };

    assert_eq!(Snowprints::from(params), Err(Errors::LogicalVolumeModuloIsZero));
}

#[test]
fn construction_rejects_range_past_available_volumes() {
    let params = Params {
        origin_time_ms: JANUARY_1ST_2024_AS_MS,
        logical_volume_base: 4096,
        logical_volume_length: 4097,
    };

    assert_eq!(
        Snowprints::from(params),
        Err(Errors::ExceededAvailableLogicalVolumes)
    );
}

#[test]
fn construction_rejects_unreadable_clock() {
    let params = Params {
        origin_time_ms: JANUARY_1ST_2024_AS_MS,
        logical_volume_base: 0,
        logical_volume_length: 8192,
    };

    assert_eq!(
        Snowprints::from_reading(params, None),
        Err(Errors::FailedToParseOriginSystemTime)
    );
}

#[test]
fn construction_rejects_clock_before_origin() {
    let params = Params {
        origin_time_ms: JANUARY_1ST_2024_AS_MS,
        logical_volume_base: 0,
        logical_volume_length: 8192,
    };

    assert_eq!(
        Snowprints::from_reading(params, Some(JANUARY_1ST_2024_AS_MS - 1)),
        Err(Errors::FailedToParseOriginSystemTime)
    );
}

fn generator_at(logical_volume_base: u64, logical_volume_length: u64, elapsed_ms: u64) -> Snowprints {
    let params = Params {
        origin_time_ms: JANUARY_1ST_2024_AS_MS,
        logical_volume_base,
        logical_volume_length,
    };
    Snowprints::from_reading(params, Some(JANUARY_1ST_2024_AS_MS + elapsed_ms)).unwrap()
}

#[test]
fn same_millisecond_calls_keep_volume_and_count_sequence() {
    let mut generator = generator_at(0, 8192, 0);
    let reading = Some(JANUARY_1ST_2024_AS_MS + 1);

    // The first call sees a fresh millisecond: it rotates to the next volume
    // and restarts the sequence; the second call, in the same millisecond,
    // keeps the volume and advances the sequence.
    let (t1, l1, s1) = decompose(generator.create_id_at(reading).unwrap());
    let (t2, l2, s2) = decompose(generator.create_id_at(reading).unwrap());

    assert_eq!(t1, 1);
    assert_eq!(t2, 1);
    assert_eq!(l1, l2);
    assert_eq!((s1, s2), (0, 1));
}

#[test]
fn sequence_overflow_borrows_next_volume_then_exhausts() {
    let mut generator = generator_at(0, 2, 0);
    let reading = Some(JANUARY_1ST_2024_AS_MS);

    // Volume 0: sequences 1..=1023 within the construction millisecond.
    for expected in 1..1024u64 {
        let (_, logical_volume, sequence) = decompose(generator.create_id_at(reading).unwrap());
        assert_eq!(logical_volume, 0);
        assert_eq!(sequence, expected);
    }

    // The sequence field overflows: the generator borrows volume 1.
    let (_, logical_volume, sequence) = decompose(generator.create_id_at(reading).unwrap());
    assert_eq!(logical_volume, 1);
    assert_eq!(sequence, 0);

    // Volume 1: sequences 1..=1023.
    for expected in 1..1024u64 {
        let (_, logical_volume, sequence) = decompose(generator.create_id_at(reading).unwrap());
        assert_eq!(logical_volume, 1);
        assert_eq!(sequence, expected);
    }

    // Rotating again would revisit volume 0, which the last time advance left
    // behind: capacity for this millisecond is exhausted.
    assert_eq!(
        generator.create_id_at(reading),
        Err(Errors::ExceededAvailableSequences)
    );

    // Once time advances the generator recovers.
    let later = Some(JANUARY_1ST_2024_AS_MS + 1);
    let (t, _, sequence) = decompose(generator.create_id_at(later).unwrap());
    assert_eq!(t, 1);
    assert_eq!(sequence, 0);
}

#[test]
fn identifiers_increase_across_calls() {
    let mut generator = generator_at(16, 64, 0);

    let mut previous = generator
        .create_id_at(Some(JANUARY_1ST_2024_AS_MS))
        .unwrap();
    // Same millisecond, then two later milliseconds, then a regressed clock.
    let readings = [0, 0, 1, 7, 3];
    for elapsed in readings {
        let id = generator
            .create_id_at(Some(JANUARY_1ST_2024_AS_MS + elapsed))
            .unwrap();
        assert!(id > previous);
        previous = id;
    }
}

#[test]
fn clock_regression_never_lowers_the_timestamp() {
    let mut generator = generator_at(0, 8192, 100);

    // A reading 50 ms behind the recorded time is ignored...
    assert_eq!(
        generator.get_timestamp_at(Some(JANUARY_1ST_2024_AS_MS + 50)),
        100
    );
    // ...as is an unreadable clock, or a reading before the origin.
    assert_eq!(generator.get_timestamp_at(None), 100);
    assert_eq!(generator.get_timestamp_at(Some(0)), 100);

    let (t, _, s) = decompose(
        generator
            .create_id_at(Some(JANUARY_1ST_2024_AS_MS + 50))
            .unwrap(),
    );
    assert_eq!(t, 100);
    assert_eq!(s, 1);
}

#[test]
fn bit_shifted_timestamp_clamps_to_zero_on_underflow() {
    let generator = generator_at(0, 8192, 100);
    let reading = Some(JANUARY_1ST_2024_AS_MS + 100);

    // An offset past the elapsed time clamps the timestamp field to 0.
    assert_eq!(generator.get_bit_shifted_timestamp_at(500, reading), 0);
    assert_eq!(generator.get_bit_shifted_timestamp_at(100, reading), 0);

    // A smaller offset lands on the shifted difference, volume and sequence 0.
    let boundary = generator.get_bit_shifted_timestamp_at(40, reading);
    assert_eq!(boundary, compose(60, 0, 0));
    assert_eq!(decompose(boundary), (60, 0, 0));
}
