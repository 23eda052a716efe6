use proto_convert::ConvertError;
use proto_convert::DateTimeUtc;
use proto_convert::Duration;
use proto_convert::FromProto;
use proto_convert::ProtoDateTimeUtc;
use proto_convert::ProtoDuration;
use proto_convert::Required;
use proto_convert::ToProto;
use proto_convert::ToProtoAlias;
use proto_convert::MAX_TIMESTAMP_SECONDS;
use proto_convert::MIN_TIMESTAMP_SECONDS;

#[test]
fn test_duration() {
    let pd = ProtoDuration {
        seconds: 1,
        nanos: 2,
    };

    let d = pd.clone().from_proto().unwrap();
    let pd2 = d.to_proto();
    assert_eq!(pd, pd2);

    let pd = ProtoDuration {
        seconds: -1,
        nanos: 2,
    };

    let d = pd.clone().from_proto().unwrap();
    let pd2 = d.to_proto();
    assert_eq!(pd, pd2);
}

#[test]
fn test_date_time() {
    let pd = ProtoDateTimeUtc {
        seconds: -1,
        nanos: 2,
    };

    let d = pd.clone().from_proto().unwrap();
    let pd2 = d.to_proto();
    assert_eq!(pd, pd2);
}

#[test]
fn duration_sign_policy() {
    // A negative seconds base subtracts the nanosecond magnitude.
    let d = ProtoDuration {
        seconds: -1,
        nanos: 2,
    }
    .from_proto()
    .unwrap();
    assert_eq!(d, Duration { total_nanos: -1_000_000_002 });

    // A non-negative base adds it.
    let d = ProtoDuration {
        seconds: 1,
        nanos: 2,
    }
    .from_proto()
    .unwrap();
    assert_eq!(d, Duration { total_nanos: 1_000_000_002 });

    // With a zero seconds base, a nonzero magnitude is a positive duration;
    // there is no negative-zero-seconds encoding.
    let d = ProtoDuration {
        seconds: 0,
        nanos: 750,
    }
    .from_proto()
    .unwrap();
    assert_eq!(d, Duration { total_nanos: 750 });
}

#[test]
fn duration_round_trip_edges() {
    let records = [
        ProtoDuration { seconds: 0, nanos: 0 },
        ProtoDuration { seconds: 0, nanos: 999_999_999 },
        ProtoDuration { seconds: -1, nanos: 0 },
        ProtoDuration { seconds: -1, nanos: 999_999_999 },
        ProtoDuration { seconds: i64::MAX, nanos: 999_999_999 },
        ProtoDuration { seconds: i64::MIN, nanos: 0 },
        ProtoDuration { seconds: i64::MIN, nanos: 999_999_999 },
    ];
    for pd in records {
        let d = pd.from_proto().unwrap();
        assert_eq!(pd, d.to_proto());
    }
}

#[test]
fn duration_from_wire_is_total() {
    // A nanos field of a whole second or more is not rejected; it simply
    // extends the magnitude.
    let d = ProtoDuration {
        seconds: 1,
        nanos: 1_500_000_000,
    }
    .from_proto()
    .unwrap();
    assert_eq!(d, Duration { total_nanos: 2_500_000_000 });

    let d = ProtoDuration {
        seconds: -1,
        nanos: 4_294_967_295,
    }
    .from_proto()
    .unwrap();
    assert_eq!(d, Duration { total_nanos: -5_294_967_295 });
}

#[test]
fn duration_encode_negative_subsecond() {
    // The ambiguous corner of the sign convention: a negative sub-second
    // duration encodes with a zero seconds base, and so decodes as positive.
    let p = Duration { total_nanos: -999_999_998 }.to_proto();
    assert_eq!(
        p,
        ProtoDuration {
            seconds: 0,
            nanos: 999_999_998,
        }
    );
}

#[test]
fn timestamp_invalid_nanos() {
    let r = ProtoDateTimeUtc {
        seconds: i64::MAX,
        nanos: 4_000_000_000,
    }
    .from_proto();
    assert_eq!(
        r,
        Err(ConvertError::UnrepresentableTimestamp {
            seconds: i64::MAX,
            nanos: 4_000_000_000,
        })
    );
}

#[test]
fn timestamp_calendar_bounds() {
    let ok = ProtoDateTimeUtc {
        seconds: MAX_TIMESTAMP_SECONDS,
        nanos: 999_999_999,
    }
    .from_proto();
    assert!(ok.is_ok());

    let ok = ProtoDateTimeUtc {
        seconds: MIN_TIMESTAMP_SECONDS,
        nanos: 0,
    }
    .from_proto();
    assert!(ok.is_ok());

    let err = ProtoDateTimeUtc {
        seconds: MAX_TIMESTAMP_SECONDS + 1,
        nanos: 0,
    }
    .from_proto();
    assert_eq!(
        err,
        Err(ConvertError::UnrepresentableTimestamp {
            seconds: MAX_TIMESTAMP_SECONDS + 1,
            nanos: 0,
        })
    );

    let err = ProtoDateTimeUtc {
        seconds: MIN_TIMESTAMP_SECONDS - 1,
        nanos: 0,
    }
    .from_proto();
    assert!(err.is_err());
}

#[test]
fn timestamp_leap_second() {
    // A nanos field in [1e9, 2e9) stands for a leap second and is accepted
    // only on the last second of a minute.
    let ok = ProtoDateTimeUtc {
        seconds: 59,
        nanos: 1_500_000_000,
    }
    .from_proto();
    assert_eq!(
        ok,
        Ok(DateTimeUtc {
            seconds: 59,
            nanos: 1_500_000_000,
        })
    );

    // Second -1 is 23:59:59 of the day before the epoch.
    let ok = ProtoDateTimeUtc {
        seconds: -1,
        nanos: 1_999_999_999,
    }
    .from_proto();
    assert!(ok.is_ok());

    let err = ProtoDateTimeUtc {
        seconds: 58,
        nanos: 1_500_000_000,
    }
    .from_proto();
    assert!(err.is_err());

    let err = ProtoDateTimeUtc {
        seconds: 59,
        nanos: 2_000_000_000,
    }
    .from_proto();
    assert!(err.is_err());
}

#[test]
fn timestamp_round_trip() {
    let records = [
        ProtoDateTimeUtc { seconds: 0, nanos: 0 },
        ProtoDateTimeUtc { seconds: -1, nanos: 2 },
        ProtoDateTimeUtc { seconds: 59, nanos: 1_500_000_000 },
        ProtoDateTimeUtc { seconds: MAX_TIMESTAMP_SECONDS, nanos: 999_999_999 },
        ProtoDateTimeUtc { seconds: MIN_TIMESTAMP_SECONDS, nanos: 0 },
    ];
    for pd in records {
        let t = pd.from_proto().unwrap();
        assert_eq!(pd, t.to_proto());
    }
}

#[test]
fn optional_composition() {
    // An absent optional sub-value converts to an absent domain value.
    let r: Result<Option<Duration>, ConvertError> = Option::<ProtoDuration>::None.from_proto();
    assert_eq!(r, Ok(None));

    // A present one converts by the contained conversion.
    let r = Some(ProtoDuration {
        seconds: 1,
        nanos: 2,
    })
    .from_proto();
    assert_eq!(r, Ok(Some(Duration { total_nanos: 1_000_000_002 })));

    // A present failing one propagates its error.
    let r = Some(ProtoDateTimeUtc {
        seconds: 0,
        nanos: 4_000_000_000,
    })
    .from_proto();
    assert_eq!(
        r,
        Err(ConvertError::UnrepresentableTimestamp {
            seconds: 0,
            nanos: 4_000_000_000,
        })
    );
}

#[test]
fn required_unwraps_or_fails() {
    let r: Result<i32, ConvertError> = Some(7).required();
    assert_eq!(r, Ok(7));

    let r: Result<i32, ConvertError> = None.required();
    assert_eq!(r, Err(ConvertError::MissingRequiredValue));
}

#[test]
fn sequence_fail_fast() {
    // The second element fails: the whole conversion reports that element's
    // error, and the first element's successful conversion is discarded.
    let wire = vec![
        ProtoDateTimeUtc { seconds: 0, nanos: 0 },
        ProtoDateTimeUtc { seconds: 1, nanos: 4_000_000_000 },
        ProtoDateTimeUtc { seconds: 2, nanos: 0 },
    ];
    let r = wire.from_proto();
    assert_eq!(
        r,
        Err(ConvertError::UnrepresentableTimestamp {
            seconds: 1,
            nanos: 4_000_000_000,
        })
    );
}

#[test]
fn sequence_order_preserved() {
    let wire = vec![
        ProtoDuration { seconds: 1, nanos: 0 },
        ProtoDuration { seconds: 2, nanos: 0 },
        ProtoDuration { seconds: -1, nanos: 2 },
    ];
    let r = wire.from_proto().unwrap();
    assert_eq!(
        r,
        vec![
            Duration { total_nanos: 1_000_000_000 },
            Duration { total_nanos: 2_000_000_000 },
            Duration { total_nanos: -1_000_000_002 },
        ]
    );

    let back = r.to_proto();
    assert_eq!(
        back,
        vec![
            ProtoDuration { seconds: 1, nanos: 0 },
            ProtoDuration { seconds: 2, nanos: 0 },
            ProtoDuration { seconds: -1, nanos: 2 },
        ]
    );
}

#[test]
fn optional_to_wire() {
    let r = Some(Duration { total_nanos: 1_000_000_002 }).to_proto();
    assert_eq!(
        r,
        Some(ProtoDuration {
            seconds: 1,
            nanos: 2,
        })
    );

    let r = Option::<Duration>::None.to_proto();
    assert_eq!(r, None);

    let r = Duration { total_nanos: 5 }.to_proto_option();
    assert_eq!(
        r,
        Some(ProtoDuration {
            seconds: 0,
            nanos: 5,
        })
    );
}

#[test]
fn boolean_identity() {
    assert_eq!(true.to_proto(), true);
    assert_eq!(false.to_proto(), false);
    assert_eq!(false.from_proto(), Ok(false));
    assert_eq!(true.from_proto(), Ok(true));
    assert_eq!(true.to_proto_option(), Some(true));
}
