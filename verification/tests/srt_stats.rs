use srt_relay::record::{Double, FieldFault, OpaqueRecord, Value, ValueKind};
use srt_relay::srt_stats::{
    DecodeError, FieldError, SrtStatistics, SrtStatisticsReport, StatField, CONNECTION_FIELDS,
};

const REQUIRED: [StatField; 23] = [
    StatField::PacketsSent,
    StatField::PacketsSentLost,
    StatField::PacketsRetransmitted,
    StatField::PacketAckReceived,
    StatField::PacketNackReceived,
    StatField::SendDurationUs,
    StatField::BytesSent,
    StatField::BytesRetransmitted,
    StatField::BytesSentDropped,
    StatField::PacketsSentDropped,
    StatField::SendRateMbps,
    StatField::NegotiatedLatencyMs,
    StatField::PacketsReceived,
    StatField::PacketsReceivedLost,
    StatField::PacketsReceivedRetransmitted,
    StatField::PacketsReceivedDropped,
    StatField::PacketAckSent,
    StatField::PacketNackSent,
    StatField::BytesReceived,
    StatField::BytesReceivedLost,
    StatField::ReceiveRateMbps,
    StatField::BandwidthMbps,
    StatField::RttMs,
];

fn double(x: f64) -> Double {
    Double { bits: x.to_bits() }
}

/// A value of the field's own type that tells the fields and the connections apart.
fn value_for(field: StatField, place: usize, seed: u32) -> Value {
    let n = (seed as i64) * 100 + place as i64;
    match field.kind() {
        ValueKind::Int => Value::Int(n as i32),
        ValueKind::Int64 => Value::Int64(n << 33),
        ValueKind::UInt64 => Value::UInt64((n as u64) << 34),
        ValueKind::Double => Value::Double(double(n as f64 + 0.25)),
        _ => unreachable!(),
    }
}

fn connection(seed: u32) -> OpaqueRecord {
    let mut r = OpaqueRecord::new();
    for (place, field) in REQUIRED.iter().enumerate() {
        r.set(field.key(), value_for(*field, place, seed));
    }
    r
}

fn connection_without(seed: u32, missing: StatField) -> OpaqueRecord {
    let mut r = OpaqueRecord::new();
    for (place, field) in REQUIRED.iter().enumerate() {
        if *field != missing {
            r.set(field.key(), value_for(*field, place, seed));
        }
    }
    r
}

fn expected(seed: u32, caller_address: Option<&str>) -> SrtStatistics {
    let n = |place: i64| (seed as i64) * 100 + place;
    SrtStatistics {
        packets_sent: n(0) << 33,
        packets_sent_lost: n(1) as i32,
        packets_retransmitted: n(2) as i32,
        packet_ack_received: n(3) as i32,
        packet_nack_received: n(4) as i32,
        send_duration_us: (n(5) as u64) << 34,
        bytes_sent: (n(6) as u64) << 34,
        bytes_retransmitted: (n(7) as u64) << 34,
        bytes_sent_dropped: (n(8) as u64) << 34,
        packets_sent_dropped: n(9) as i32,
        send_rate_mbps: double(n(10) as f64 + 0.25),
        negotiated_latency_ms: n(11) as i32,
        packets_received: n(12) << 33,
        packets_received_lost: n(13) as i32,
        packets_received_retransmitted: n(14) as i32,
        packets_received_dropped: n(15) as i32,
        packet_ack_sent: n(16) as i32,
        packet_nack_sent: n(17) as i32,
        bytes_received: (n(18) as u64) << 34,
        bytes_received_lost: (n(19) as u64) << 34,
        receive_rate_mbps: double(n(20) as f64 + 0.25),
        bandwidth_mbps: double(n(21) as f64 + 0.25),
        rtt_ms: double(n(22) as f64 + 0.25),
        caller_address: caller_address.map(|a| a.to_string()),
    }
}

fn report_record(callers: Vec<OpaqueRecord>, total: u64) -> OpaqueRecord {
    let mut r = OpaqueRecord::new();
    r.set("callers", Value::List(callers.into_iter().map(Value::Record).collect()));
    r.set("bytes-received-total", Value::UInt64(total));
    r
}

#[test]
fn field_keys_and_names() {
    assert_eq!(CONNECTION_FIELDS, REQUIRED.len());
    let keys = [
        "packets-sent",
        "packets-sent-lost",
        "packets-retransmitted",
        "packet-ack-received",
        "packet-nack-received",
        "send-duration-us",
        "bytes-sent",
        "bytes-retransmitted",
        "bytes-sent-dropped",
        "packets-sent-dropped",
        "send-rate-mbps",
        "negotiated-latency-ms",
        "packets-received",
        "packets-received-lost",
        "packets-received-retransmitted",
        "packets-received-dropped",
        "packet-ack-sent",
        "packet-nack-sent",
        "bytes-received",
        "bytes-received-lost",
        "receive-rate-mbps",
        "bandwidth-mbps",
        "rtt-ms",
    ];
    for (field, key) in REQUIRED.iter().zip(keys) {
        assert_eq!(field.key(), key);
        assert_eq!(field.name(), key.replace('-', "_"));
    }
    assert_eq!(StatField::CallerAddress.key(), "caller-address");
    assert_eq!(StatField::CallerAddress.name(), "caller_address");
    assert_eq!(StatField::Callers.key(), "callers");
    assert_eq!(StatField::Callers.name(), "callers");
    assert_eq!(StatField::BytesReceivedTotal.key(), "bytes-received-total");
    assert_eq!(StatField::BytesReceivedTotal.name(), "bytes_received_total");
}

#[test]
fn field_kinds() {
    let kinds = [
        ValueKind::Int64,
        ValueKind::Int,
        ValueKind::Int,
        ValueKind::Int,
        ValueKind::Int,
        ValueKind::UInt64,
        ValueKind::UInt64,
        ValueKind::UInt64,
        ValueKind::UInt64,
        ValueKind::Int,
        ValueKind::Double,
        ValueKind::Int,
        ValueKind::Int64,
        ValueKind::Int,
        ValueKind::Int,
        ValueKind::Int,
        ValueKind::Int,
        ValueKind::Int,
        ValueKind::UInt64,
        ValueKind::UInt64,
        ValueKind::Double,
        ValueKind::Double,
        ValueKind::Double,
    ];
    for (field, kind) in REQUIRED.iter().zip(kinds) {
        assert_eq!(field.kind(), kind);
    }
    assert_eq!(StatField::CallerAddress.kind(), ValueKind::Text);
    assert_eq!(StatField::Callers.kind(), ValueKind::List);
    assert_eq!(StatField::BytesReceivedTotal.kind(), ValueKind::UInt64);
}

#[test]
fn connection_decodes_field_for_field() {
    assert_eq!(SrtStatistics::decode(&connection(3)), Ok(expected(3, None)));
    let mut with_address = connection(4);
    with_address.set("caller-address", Value::Text("192.0.2.7:50000".to_string()));
    assert_eq!(SrtStatistics::decode(&with_address), Ok(expected(4, Some("192.0.2.7:50000"))));
}

#[test]
fn connection_rates_keep_their_bits() {
    let mut r = connection(1);
    r.set("rtt-ms", Value::Double(double(12.625)));
    r.set("bandwidth-mbps", Value::Double(double(f64::NAN)));
    let stats = SrtStatistics::decode(&r).unwrap();
    assert_eq!(f64::from_bits(stats.rtt_ms.bits), 12.625);
    assert_eq!(stats.rtt_ms.bits, 0x4029_4000_0000_0000);
    assert!(f64::from_bits(stats.bandwidth_mbps.bits).is_nan());
}

#[test]
fn connection_address_may_be_absent() {
    let mut r = connection(2);
    assert_eq!(SrtStatistics::decode(&r).unwrap().caller_address, None);
    r.set("caller-address", Value::Text(String::new()));
    assert_eq!(SrtStatistics::decode(&r).unwrap().caller_address, Some(String::new()));
    r.set("caller-address", Value::Text("[2001:db8::1]:9000".to_string()));
    assert_eq!(
        SrtStatistics::decode(&r).unwrap().caller_address,
        Some("[2001:db8::1]:9000".to_string())
    );
}

#[test]
fn connection_address_of_another_type_fails() {
    let wrong = |found| {
        Err(FieldError {
            field: StatField::CallerAddress,
            cause: FieldFault::WrongType { expected: ValueKind::Text, found },
        })
    };
    let cases = [
        (Value::Int(42), ValueKind::Int),
        (Value::Int64(42), ValueKind::Int64),
        (Value::UInt64(42), ValueKind::UInt64),
        (Value::Double(double(4.2)), ValueKind::Double),
        (Value::List(vec![]), ValueKind::List),
        (Value::Record(OpaqueRecord::new()), ValueKind::Record),
        (Value::Other, ValueKind::Other),
    ];
    for (value, found) in cases {
        let mut r = connection(2);
        r.set("caller-address", value);
        assert_eq!(SrtStatistics::decode(&r), wrong(found));
    }
}

#[test]
fn connection_of_zeros_with_integer_address_fails() {
    let mut r = OpaqueRecord::new();
    for field in REQUIRED {
        let zero = match field.kind() {
            ValueKind::Int => Value::Int(0),
            ValueKind::Int64 => Value::Int64(0),
            ValueKind::UInt64 => Value::UInt64(0),
            ValueKind::Double => Value::Double(double(0.0)),
            _ => unreachable!(),
        };
        r.set(field.key(), zero);
    }
    assert!(SrtStatistics::decode(&r).is_ok());
    r.set("caller-address", Value::Int(42));
    let got = SrtStatistics::decode(&r);
    assert_eq!(
        got,
        Err(FieldError {
            field: StatField::CallerAddress,
            cause: FieldFault::WrongType { expected: ValueKind::Text, found: ValueKind::Int },
        })
    );
    assert_eq!(got.unwrap_err().field.name(), "caller_address");
}

#[test]
fn connection_required_fields_come_before_the_address() {
    let mut r = connection_without(1, StatField::RttMs);
    r.set("caller-address", Value::Int(42));
    assert_eq!(
        SrtStatistics::decode(&r),
        Err(FieldError { field: StatField::RttMs, cause: FieldFault::Missing })
    );
}

#[test]
fn connection_missing_each_required_field() {
    for field in REQUIRED {
        assert_eq!(
            SrtStatistics::decode(&connection_without(1, field)),
            Err(FieldError { field, cause: FieldFault::Missing }),
        );
    }
}

#[test]
fn connection_reports_the_first_fault_in_field_order() {
    let mut r = connection_without(1, StatField::RttMs);
    r.set("bytes-sent", Value::Int(1));
    assert_eq!(
        SrtStatistics::decode(&r),
        Err(FieldError {
            field: StatField::BytesSent,
            cause: FieldFault::WrongType { expected: ValueKind::UInt64, found: ValueKind::Int },
        })
    );
    assert_eq!(
        SrtStatistics::decode(&OpaqueRecord::new()),
        Err(FieldError { field: StatField::PacketsSent, cause: FieldFault::Missing })
    );
}

#[test]
fn connection_values_are_not_converted() {
    let wrong = |expected, found| FieldFault::WrongType { expected, found };
    let cases = [
        (StatField::PacketsSent, Value::Int(1), wrong(ValueKind::Int64, ValueKind::Int)),
        (StatField::PacketsSentLost, Value::Int64(1), wrong(ValueKind::Int, ValueKind::Int64)),
        (
            StatField::PacketsRetransmitted,
            Value::Double(double(2.0)),
            wrong(ValueKind::Int, ValueKind::Double),
        ),
        (StatField::BytesSent, Value::Int64(1), wrong(ValueKind::UInt64, ValueKind::Int64)),
        (StatField::SendRateMbps, Value::Int(1), wrong(ValueKind::Double, ValueKind::Int)),
        (
            StatField::RttMs,
            Value::Text("1.5".to_string()),
            wrong(ValueKind::Double, ValueKind::Text),
        ),
        (StatField::BytesReceived, Value::Other, wrong(ValueKind::UInt64, ValueKind::Other)),
    ];
    for (field, value, cause) in cases {
        let mut r = connection(1);
        r.set(field.key(), value);
        assert_eq!(SrtStatistics::decode(&r), Err(FieldError { field, cause }));
    }
}

#[test]
fn report_without_callers_key() {
    let mut r = OpaqueRecord::new();
    r.set("bytes-received-total", Value::UInt64(4096));
    assert_eq!(
        SrtStatisticsReport::decode(&r),
        Ok(SrtStatisticsReport { callers: vec![], bytes_received_total: 4096 })
    );
}

#[test]
fn report_with_callers_that_is_no_list() {
    let mut r = OpaqueRecord::new();
    r.set("callers", Value::Text("none".to_string()));
    r.set("bytes-received-total", Value::UInt64(0));
    assert_eq!(
        SrtStatisticsReport::decode(&r),
        Ok(SrtStatisticsReport { callers: vec![], bytes_received_total: 0 })
    );
}

#[test]
fn report_with_empty_list() {
    assert_eq!(
        SrtStatisticsReport::decode(&report_record(vec![], u64::MAX)),
        Ok(SrtStatisticsReport { callers: vec![], bytes_received_total: u64::MAX })
    );
}

#[test]
fn report_with_several_callers_keeps_their_order() {
    let record = report_record(vec![connection(5), connection(1), connection(9)], 77);
    assert_eq!(
        SrtStatisticsReport::decode(&record),
        Ok(SrtStatisticsReport {
            callers: vec![expected(5, None), expected(1, None), expected(9, None)],
            bytes_received_total: 77,
        })
    );
}

#[test]
fn report_total_is_not_the_sum_of_the_connections() {
    let record = report_record(vec![connection(1), connection(2)], 5);
    let report = SrtStatisticsReport::decode(&record).unwrap();
    let sum: u64 = report.callers.iter().map(|c| c.bytes_received).sum();
    assert_eq!(report.bytes_received_total, 5);
    assert_ne!(report.bytes_received_total, sum);
}

#[test]
fn report_fails_at_third_caller_missing_a_counter() {
    let record = report_record(
        vec![
            connection(1),
            connection(2),
            connection_without(3, StatField::PacketsReceivedLost),
            connection(4),
        ],
        10,
    );
    assert_eq!(
        SrtStatisticsReport::decode(&record),
        Err(DecodeError::Field(Some(2), StatField::PacketsReceivedLost, FieldFault::Missing))
    );
}

#[test]
fn report_fails_at_the_first_bad_caller() {
    let record = report_record(
        vec![
            connection(1),
            connection_without(2, StatField::RttMs),
            connection_without(3, StatField::PacketsSent),
        ],
        10,
    );
    assert_eq!(
        SrtStatisticsReport::decode(&record),
        Err(DecodeError::Field(Some(1), StatField::RttMs, FieldFault::Missing))
    );
    let record = report_record(vec![OpaqueRecord::new()], 10);
    assert_eq!(
        SrtStatisticsReport::decode(&record),
        Err(DecodeError::Field(Some(0), StatField::PacketsSent, FieldFault::Missing))
    );
}

#[test]
fn report_fails_at_caller_with_address_of_another_type() {
    let mut bad = connection(2);
    bad.set("caller-address", Value::Int(42));
    let record = report_record(vec![connection(1), bad, connection(3)], 10);
    assert_eq!(
        SrtStatisticsReport::decode(&record),
        Err(DecodeError::Field(
            Some(1),
            StatField::CallerAddress,
            FieldFault::WrongType { expected: ValueKind::Text, found: ValueKind::Int },
        ))
    );
}

#[test]
fn report_fails_at_list_entry_that_is_no_record() {
    let entries = [
        (Value::Int(1), ValueKind::Int),
        (Value::Text("caller".to_string()), ValueKind::Text),
        (Value::List(vec![]), ValueKind::List),
        (Value::Other, ValueKind::Other),
    ];
    for (entry, found) in entries {
        let mut r = OpaqueRecord::new();
        r.set(
            "callers",
            Value::List(vec![Value::Record(connection(1)), entry, Value::Record(connection(2))]),
        );
        r.set("bytes-received-total", Value::UInt64(1));
        assert_eq!(
            SrtStatisticsReport::decode(&r),
            Err(DecodeError::Field(
                Some(1),
                StatField::Callers,
                FieldFault::WrongType { expected: ValueKind::Record, found },
            ))
        );
    }
}

#[test]
fn list_entry_decodes_as_its_record_does() {
    assert_eq!(
        SrtStatisticsReport::decode_caller(&Value::Record(connection(6))),
        SrtStatistics::decode(&connection(6))
    );
    assert_eq!(
        SrtStatisticsReport::decode_caller(&Value::UInt64(6)),
        Err(FieldError {
            field: StatField::Callers,
            cause: FieldFault::WrongType {
                expected: ValueKind::Record,
                found: ValueKind::UInt64,
            },
        })
    );
}

#[test]
fn report_missing_total() {
    let mut r = OpaqueRecord::new();
    r.set("callers", Value::List(vec![Value::Record(connection(1))]));
    let got = SrtStatisticsReport::decode(&r);
    assert_eq!(
        got,
        Err(DecodeError::Field(None, StatField::BytesReceivedTotal, FieldFault::Missing))
    );
    let Err(DecodeError::Field(_, field, _)) = got else { unreachable!() };
    assert_eq!(field.name(), "bytes_received_total");
}

#[test]
fn report_total_of_wrong_type() {
    for (value, found) in [
        (Value::Int64(4096), ValueKind::Int64),
        (Value::Int(4096), ValueKind::Int),
        (Value::Double(double(4096.0)), ValueKind::Double),
    ] {
        let mut r = OpaqueRecord::new();
        r.set("bytes-received-total", value);
        assert_eq!(
            SrtStatisticsReport::decode(&r),
            Err(DecodeError::Field(
                None,
                StatField::BytesReceivedTotal,
                FieldFault::WrongType { expected: ValueKind::UInt64, found },
            ))
        );
    }
}

#[test]
fn report_bad_caller_comes_before_missing_total() {
    let mut r = OpaqueRecord::new();
    r.set(
        "callers",
        Value::List(vec![Value::Record(connection_without(1, StatField::BytesSent))]),
    );
    assert_eq!(
        SrtStatisticsReport::decode(&r),
        Err(DecodeError::Field(Some(0), StatField::BytesSent, FieldFault::Missing))
    );
}

#[test]
fn decode_twice_gives_equal_outcomes() {
    let good = report_record(vec![connection(1), connection(2)], 123);
    let first = SrtStatisticsReport::decode(&good);
    let second = SrtStatisticsReport::decode(&good);
    assert!(first.is_ok());
    assert_eq!(first, second);
    let bad = report_record(vec![connection_without(1, StatField::RttMs)], 123);
    let first = SrtStatisticsReport::decode(&bad);
    let second = SrtStatisticsReport::decode(&bad);
    assert!(first.is_err());
    assert_eq!(first, second);
}

#[test]
fn sample_that_could_not_be_taken_fails_to_decode() {
    assert_eq!(
        SrtStatisticsReport::sample(None),
        Err(DecodeError::Field(None, StatField::BytesReceivedTotal, FieldFault::Missing))
    );
    assert_eq!(SrtStatisticsReport::sample(None), SrtStatisticsReport::decode(&OpaqueRecord::new()));
}

#[test]
fn sample_decodes_what_was_taken() {
    let record = report_record(vec![connection(8)], 4096);
    assert_eq!(SrtStatisticsReport::sample(Some(&record)), SrtStatisticsReport::decode(&record));
    assert_eq!(
        SrtStatisticsReport::sample(Some(&record)),
        Ok(SrtStatisticsReport { callers: vec![expected(8, None)], bytes_received_total: 4096 })
    );
}
