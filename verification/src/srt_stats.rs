//! Transport statistics: the typed report and its decoding from the
//! dynamically typed record in which the SRT endpoint publishes its counters.

use vstd::prelude::*;
use crate::record::{
    Double, FieldFault, OpaqueRecord, RecordView, Value, ValueKind, ValueView, values_view,
};

verus! {

/// The fields of the statistics record.
#[derive(Debug, Clone, Copy, PartialEq, Eq, Structural)]
pub enum StatField {
    PacketsSent,
    PacketsSentLost,
    PacketsRetransmitted,
    PacketAckReceived,
    PacketNackReceived,
    SendDurationUs,
    BytesSent,
    BytesRetransmitted,
    BytesSentDropped,
    PacketsSentDropped,
    SendRateMbps,
    NegotiatedLatencyMs,
    PacketsReceived,
    PacketsReceivedLost,
    PacketsReceivedRetransmitted,
    PacketsReceivedDropped,
    PacketAckSent,
    PacketNackSent,
    BytesReceived,
    BytesReceivedLost,
    ReceiveRateMbps,
    BandwidthMbps,
    RttMs,
    CallerAddress,
    Callers,
    BytesReceivedTotal,
}

/// Number of fields that every connection's record must hold.
pub const CONNECTION_FIELDS: usize = 23;

impl StatField {
    /// Name of the field in the record.
    pub open spec fn key_spec(self) -> Seq<char> {
        match self {
            StatField::PacketsSent => "packets-sent"@,
            StatField::PacketsSentLost => "packets-sent-lost"@,
            StatField::PacketsRetransmitted => "packets-retransmitted"@,
            StatField::PacketAckReceived => "packet-ack-received"@,
            StatField::PacketNackReceived => "packet-nack-received"@,
            StatField::SendDurationUs => "send-duration-us"@,
            StatField::BytesSent => "bytes-sent"@,
            StatField::BytesRetransmitted => "bytes-retransmitted"@,
            StatField::BytesSentDropped => "bytes-sent-dropped"@,
            StatField::PacketsSentDropped => "packets-sent-dropped"@,
            StatField::SendRateMbps => "send-rate-mbps"@,
            StatField::NegotiatedLatencyMs => "negotiated-latency-ms"@,
            StatField::PacketsReceived => "packets-received"@,
            StatField::PacketsReceivedLost => "packets-received-lost"@,
            StatField::PacketsReceivedRetransmitted => "packets-received-retransmitted"@,
            StatField::PacketsReceivedDropped => "packets-received-dropped"@,
            StatField::PacketAckSent => "packet-ack-sent"@,
            StatField::PacketNackSent => "packet-nack-sent"@,
            StatField::BytesReceived => "bytes-received"@,
            StatField::BytesReceivedLost => "bytes-received-lost"@,
            StatField::ReceiveRateMbps => "receive-rate-mbps"@,
            StatField::BandwidthMbps => "bandwidth-mbps"@,
            StatField::RttMs => "rtt-ms"@,
            StatField::CallerAddress => "caller-address"@,
            StatField::Callers => "callers"@,
            StatField::BytesReceivedTotal => "bytes-received-total"@,
        }
    }

    /// Name of the field in the report.
    pub open spec fn name_spec(self) -> Seq<char> {
        match self {
            StatField::PacketsSent => "packets_sent"@,
            StatField::PacketsSentLost => "packets_sent_lost"@,
            StatField::PacketsRetransmitted => "packets_retransmitted"@,
            StatField::PacketAckReceived => "packet_ack_received"@,
            StatField::PacketNackReceived => "packet_nack_received"@,
            StatField::SendDurationUs => "send_duration_us"@,
            StatField::BytesSent => "bytes_sent"@,
            StatField::BytesRetransmitted => "bytes_retransmitted"@,
            StatField::BytesSentDropped => "bytes_sent_dropped"@,
            StatField::PacketsSentDropped => "packets_sent_dropped"@,
            StatField::SendRateMbps => "send_rate_mbps"@,
            StatField::NegotiatedLatencyMs => "negotiated_latency_ms"@,
            StatField::PacketsReceived => "packets_received"@,
            StatField::PacketsReceivedLost => "packets_received_lost"@,
            StatField::PacketsReceivedRetransmitted => "packets_received_retransmitted"@,
            StatField::PacketsReceivedDropped => "packets_received_dropped"@,
            StatField::PacketAckSent => "packet_ack_sent"@,
            StatField::PacketNackSent => "packet_nack_sent"@,
            StatField::BytesReceived => "bytes_received"@,
            StatField::BytesReceivedLost => "bytes_received_lost"@,
            StatField::ReceiveRateMbps => "receive_rate_mbps"@,
            StatField::BandwidthMbps => "bandwidth_mbps"@,
            StatField::RttMs => "rtt_ms"@,
            StatField::CallerAddress => "caller_address"@,
            StatField::Callers => "callers"@,
            StatField::BytesReceivedTotal => "bytes_received_total"@,
        }
    }

    /// Type of the field's value.
    pub open spec fn kind_spec(self) -> ValueKind {
        match self {
            StatField::PacketsSent => ValueKind::Int64,
            StatField::PacketsSentLost => ValueKind::Int,
            StatField::PacketsRetransmitted => ValueKind::Int,
            StatField::PacketAckReceived => ValueKind::Int,
            StatField::PacketNackReceived => ValueKind::Int,
            StatField::SendDurationUs => ValueKind::UInt64,
            StatField::BytesSent => ValueKind::UInt64,
            StatField::BytesRetransmitted => ValueKind::UInt64,
            StatField::BytesSentDropped => ValueKind::UInt64,
            StatField::PacketsSentDropped => ValueKind::Int,
            StatField::SendRateMbps => ValueKind::Double,
            StatField::NegotiatedLatencyMs => ValueKind::Int,
            StatField::PacketsReceived => ValueKind::Int64,
            StatField::PacketsReceivedLost => ValueKind::Int,
            StatField::PacketsReceivedRetransmitted => ValueKind::Int,
            StatField::PacketsReceivedDropped => ValueKind::Int,
            StatField::PacketAckSent => ValueKind::Int,
            StatField::PacketNackSent => ValueKind::Int,
            StatField::BytesReceived => ValueKind::UInt64,
            StatField::BytesReceivedLost => ValueKind::UInt64,
            StatField::ReceiveRateMbps => ValueKind::Double,
            StatField::BandwidthMbps => ValueKind::Double,
            StatField::RttMs => ValueKind::Double,
            StatField::CallerAddress => ValueKind::Text,
            StatField::Callers => ValueKind::List,
            StatField::BytesReceivedTotal => ValueKind::UInt64,
        }
    }

    /// Name of the field in the record.
    pub fn key(self) -> (r: &'static str)
        ensures
            r@ == self.key_spec(),
    {
        match self {
            StatField::PacketsSent => "packets-sent",
            StatField::PacketsSentLost => "packets-sent-lost",
            StatField::PacketsRetransmitted => "packets-retransmitted",
            StatField::PacketAckReceived => "packet-ack-received",
            StatField::PacketNackReceived => "packet-nack-received",
            StatField::SendDurationUs => "send-duration-us",
            StatField::BytesSent => "bytes-sent",
            StatField::BytesRetransmitted => "bytes-retransmitted",
            StatField::BytesSentDropped => "bytes-sent-dropped",
            StatField::PacketsSentDropped => "packets-sent-dropped",
            StatField::SendRateMbps => "send-rate-mbps",
            StatField::NegotiatedLatencyMs => "negotiated-latency-ms",
            StatField::PacketsReceived => "packets-received",
            StatField::PacketsReceivedLost => "packets-received-lost",
            StatField::PacketsReceivedRetransmitted => "packets-received-retransmitted",
            StatField::PacketsReceivedDropped => "packets-received-dropped",
            StatField::PacketAckSent => "packet-ack-sent",
            StatField::PacketNackSent => "packet-nack-sent",
            StatField::BytesReceived => "bytes-received",
            StatField::BytesReceivedLost => "bytes-received-lost",
            StatField::ReceiveRateMbps => "receive-rate-mbps",
            StatField::BandwidthMbps => "bandwidth-mbps",
            StatField::RttMs => "rtt-ms",
            StatField::CallerAddress => "caller-address",
            StatField::Callers => "callers",
            StatField::BytesReceivedTotal => "bytes-received-total",
        }
    }

    /// Name of the field in the report.
    pub fn name(self) -> (r: &'static str)
        ensures
            r@ == self.name_spec(),
    {
        match self {
            StatField::PacketsSent => "packets_sent",
            StatField::PacketsSentLost => "packets_sent_lost",
            StatField::PacketsRetransmitted => "packets_retransmitted",
            StatField::PacketAckReceived => "packet_ack_received",
            StatField::PacketNackReceived => "packet_nack_received",
            StatField::SendDurationUs => "send_duration_us",
            StatField::BytesSent => "bytes_sent",
            StatField::BytesRetransmitted => "bytes_retransmitted",
            StatField::BytesSentDropped => "bytes_sent_dropped",
            StatField::PacketsSentDropped => "packets_sent_dropped",
            StatField::SendRateMbps => "send_rate_mbps",
            StatField::NegotiatedLatencyMs => "negotiated_latency_ms",
            StatField::PacketsReceived => "packets_received",
            StatField::PacketsReceivedLost => "packets_received_lost",
            StatField::PacketsReceivedRetransmitted => "packets_received_retransmitted",
            StatField::PacketsReceivedDropped => "packets_received_dropped",
            StatField::PacketAckSent => "packet_ack_sent",
            StatField::PacketNackSent => "packet_nack_sent",
            StatField::BytesReceived => "bytes_received",
            StatField::BytesReceivedLost => "bytes_received_lost",
            StatField::ReceiveRateMbps => "receive_rate_mbps",
            StatField::BandwidthMbps => "bandwidth_mbps",
            StatField::RttMs => "rtt_ms",
            StatField::CallerAddress => "caller_address",
            StatField::Callers => "callers",
            StatField::BytesReceivedTotal => "bytes_received_total",
        }
    }

    /// Type of the field's value.
    pub fn kind(self) -> (r: ValueKind)
        ensures
            r == self.kind_spec(),
    {
        match self {
            StatField::PacketsSent => ValueKind::Int64,
            StatField::PacketsSentLost => ValueKind::Int,
            StatField::PacketsRetransmitted => ValueKind::Int,
            StatField::PacketAckReceived => ValueKind::Int,
            StatField::PacketNackReceived => ValueKind::Int,
            StatField::SendDurationUs => ValueKind::UInt64,
            StatField::BytesSent => ValueKind::UInt64,
            StatField::BytesRetransmitted => ValueKind::UInt64,
            StatField::BytesSentDropped => ValueKind::UInt64,
            StatField::PacketsSentDropped => ValueKind::Int,
            StatField::SendRateMbps => ValueKind::Double,
            StatField::NegotiatedLatencyMs => ValueKind::Int,
            StatField::PacketsReceived => ValueKind::Int64,
            StatField::PacketsReceivedLost => ValueKind::Int,
            StatField::PacketsReceivedRetransmitted => ValueKind::Int,
            StatField::PacketsReceivedDropped => ValueKind::Int,
            StatField::PacketAckSent => ValueKind::Int,
            StatField::PacketNackSent => ValueKind::Int,
            StatField::BytesReceived => ValueKind::UInt64,
            StatField::BytesReceivedLost => ValueKind::UInt64,
            StatField::ReceiveRateMbps => ValueKind::Double,
            StatField::BandwidthMbps => ValueKind::Double,
            StatField::RttMs => ValueKind::Double,
            StatField::CallerAddress => ValueKind::Text,
            StatField::Callers => ValueKind::List,
            StatField::BytesReceivedTotal => ValueKind::UInt64,
        }
    }
}

/// The fields that every connection's record must hold, in the order in
/// which they are examined: `at` counts from zero.
pub open spec fn required_field(at: int) -> StatField
    recommends
        0 <= at < CONNECTION_FIELDS,
{
    if at == 0 {
        StatField::PacketsSent
    } else if at == 1 {
        StatField::PacketsSentLost
    } else if at == 2 {
        StatField::PacketsRetransmitted
    } else if at == 3 {
        StatField::PacketAckReceived
    } else if at == 4 {
        StatField::PacketNackReceived
    } else if at == 5 {
        StatField::SendDurationUs
    } else if at == 6 {
        StatField::BytesSent
    } else if at == 7 {
        StatField::BytesRetransmitted
    } else if at == 8 {
        StatField::BytesSentDropped
    } else if at == 9 {
        StatField::PacketsSentDropped
    } else if at == 10 {
        StatField::SendRateMbps
    } else if at == 11 {
        StatField::NegotiatedLatencyMs
    } else if at == 12 {
        StatField::PacketsReceived
    } else if at == 13 {
        StatField::PacketsReceivedLost
    } else if at == 14 {
        StatField::PacketsReceivedRetransmitted
    } else if at == 15 {
        StatField::PacketsReceivedDropped
    } else if at == 16 {
        StatField::PacketAckSent
    } else if at == 17 {
        StatField::PacketNackSent
    } else if at == 18 {
        StatField::BytesReceived
    } else if at == 19 {
        StatField::BytesReceivedLost
    } else if at == 20 {
        StatField::ReceiveRateMbps
    } else if at == 21 {
        StatField::BandwidthMbps
    } else {
        StatField::RttMs
    }
}

/// Counters of one connection.
#[derive(Debug, Clone, PartialEq, Eq)]
pub struct SrtStatistics {
    /// Packets sent.
    pub packets_sent: i64,
    /// Sent packets reported lost.
    pub packets_sent_lost: i32,
    /// Packets sent again.
    pub packets_retransmitted: i32,
    /// Acknowledgements received.
    pub packet_ack_received: i32,
    /// Negative acknowledgements received.
    pub packet_nack_received: i32,
    /// Time spent sending, in microseconds.
    pub send_duration_us: u64,
    /// Bytes sent.
    pub bytes_sent: u64,
    /// Bytes sent again.
    pub bytes_retransmitted: u64,
    /// Bytes dropped before they were sent.
    pub bytes_sent_dropped: u64,
    /// Packets dropped before they were sent.
    pub packets_sent_dropped: i32,
    /// Sending rate at the moment of the sample, in megabits per second.
    pub send_rate_mbps: Double,
    /// Latency agreed with the peer, in milliseconds.
    pub negotiated_latency_ms: i32,
    /// Packets received.
    pub packets_received: i64,
    /// Packets found missing on reception.
    pub packets_received_lost: i32,
    /// Received packets that were sent again.
    pub packets_received_retransmitted: i32,
    /// Received packets that were dropped.
    pub packets_received_dropped: i32,
    /// Acknowledgements sent.
    pub packet_ack_sent: i32,
    /// Negative acknowledgements sent.
    pub packet_nack_sent: i32,
    /// Bytes received.
    pub bytes_received: u64,
    /// Bytes found missing on reception.
    pub bytes_received_lost: u64,
    /// Receiving rate at the moment of the sample, in megabits per second.
    pub receive_rate_mbps: Double,
    /// Estimated bandwidth of the link, in megabits per second.
    pub bandwidth_mbps: Double,
    /// Round-trip time at the moment of the sample, in milliseconds.
    pub rtt_ms: Double,
    /// Address of the peer, where the endpoint reports one.
    pub caller_address: Option<String>,
}

/// An [`SrtStatistics`] as plain values.
pub struct StatsView {
    pub packets_sent: i64,
    pub packets_sent_lost: i32,
    pub packets_retransmitted: i32,
    pub packet_ack_received: i32,
    pub packet_nack_received: i32,
    pub send_duration_us: u64,
    pub bytes_sent: u64,
    pub bytes_retransmitted: u64,
    pub bytes_sent_dropped: u64,
    pub packets_sent_dropped: i32,
    pub send_rate_mbps: Double,
    pub negotiated_latency_ms: i32,
    pub packets_received: i64,
    pub packets_received_lost: i32,
    pub packets_received_retransmitted: i32,
    pub packets_received_dropped: i32,
    pub packet_ack_sent: i32,
    pub packet_nack_sent: i32,
    pub bytes_received: u64,
    pub bytes_received_lost: u64,
    pub receive_rate_mbps: Double,
    pub bandwidth_mbps: Double,
    pub rtt_ms: Double,
    pub caller_address: Option<Seq<char>>,
}

impl View for SrtStatistics {
    type V = StatsView;

    open spec fn view(&self) -> StatsView {
        StatsView {
            packets_sent: self.packets_sent,
            packets_sent_lost: self.packets_sent_lost,
            packets_retransmitted: self.packets_retransmitted,
            packet_ack_received: self.packet_ack_received,
            packet_nack_received: self.packet_nack_received,
            send_duration_us: self.send_duration_us,
            bytes_sent: self.bytes_sent,
            bytes_retransmitted: self.bytes_retransmitted,
            bytes_sent_dropped: self.bytes_sent_dropped,
            packets_sent_dropped: self.packets_sent_dropped,
            send_rate_mbps: self.send_rate_mbps,
            negotiated_latency_ms: self.negotiated_latency_ms,
            packets_received: self.packets_received,
            packets_received_lost: self.packets_received_lost,
            packets_received_retransmitted: self.packets_received_retransmitted,
            packets_received_dropped: self.packets_received_dropped,
            packet_ack_sent: self.packet_ack_sent,
            packet_nack_sent: self.packet_nack_sent,
            bytes_received: self.bytes_received,
            bytes_received_lost: self.bytes_received_lost,
            receive_rate_mbps: self.receive_rate_mbps,
            bandwidth_mbps: self.bandwidth_mbps,
            rtt_ms: self.rtt_ms,
            caller_address: match self.caller_address {
                Some(a) => Some(a@),
                None => None,
            },
        }
    }
}

/// A field that could not be read, and why.
#[derive(Debug, Clone, Copy, PartialEq, Eq, Structural)]
pub struct FieldError {
    pub field: StatField,
    pub cause: FieldFault,
}

/// What stands in the way of reading `field` from `record`.
pub open spec fn field_fault(record: RecordView, field: StatField) -> Option<FieldFault> {
    record.fault(field.key_spec(), field.kind_spec())
}

/// The first required field, from place `from` on, that cannot be read from
/// a connection's record.
pub open spec fn first_fault_from(record: RecordView, from: int) -> Option<FieldError>
    decreases CONNECTION_FIELDS - from,
{
    if from < 0 || from >= CONNECTION_FIELDS {
        None
    } else {
        match field_fault(record, required_field(from)) {
            Some(cause) => Some(FieldError { field: required_field(from), cause }),
            None => first_fault_from(record, from + 1),
        }
    }
}

/// The peer's address in a connection's record: none where the record has
/// no such field, the text where the field holds one, and a fault where it
/// holds anything else.
pub open spec fn address_of(record: RecordView) -> Result<Option<Seq<char>>, FieldError> {
    match record.text(StatField::CallerAddress.key_spec()) {
        Ok(address) => Ok(Some(address)),
        Err(FieldFault::Missing) => Ok(None),
        Err(cause) => Err(FieldError { field: StatField::CallerAddress, cause }),
    }
}

/// The counters that a connection's record holds, each read from the field
/// of its name, beside the given address of the peer.
pub open spec fn stats_of(record: RecordView, caller_address: Option<Seq<char>>) -> StatsView {
    StatsView {
        packets_sent: record.int64(StatField::PacketsSent.key_spec()).unwrap(),
        packets_sent_lost: record.int32(StatField::PacketsSentLost.key_spec()).unwrap(),
        packets_retransmitted: record.int32(StatField::PacketsRetransmitted.key_spec()).unwrap(),
        packet_ack_received: record.int32(StatField::PacketAckReceived.key_spec()).unwrap(),
        packet_nack_received: record.int32(StatField::PacketNackReceived.key_spec()).unwrap(),
        send_duration_us: record.uint64(StatField::SendDurationUs.key_spec()).unwrap(),
        bytes_sent: record.uint64(StatField::BytesSent.key_spec()).unwrap(),
        bytes_retransmitted: record.uint64(StatField::BytesRetransmitted.key_spec()).unwrap(),
        bytes_sent_dropped: record.uint64(StatField::BytesSentDropped.key_spec()).unwrap(),
        packets_sent_dropped: record.int32(StatField::PacketsSentDropped.key_spec()).unwrap(),
        send_rate_mbps: record.double(StatField::SendRateMbps.key_spec()).unwrap(),
        negotiated_latency_ms: record.int32(StatField::NegotiatedLatencyMs.key_spec()).unwrap(),
        packets_received: record.int64(StatField::PacketsReceived.key_spec()).unwrap(),
        packets_received_lost: record.int32(StatField::PacketsReceivedLost.key_spec()).unwrap(),
        packets_received_retransmitted: record.int32(StatField::PacketsReceivedRetransmitted.key_spec()).unwrap(),
        packets_received_dropped: record.int32(StatField::PacketsReceivedDropped.key_spec()).unwrap(),
        packet_ack_sent: record.int32(StatField::PacketAckSent.key_spec()).unwrap(),
        packet_nack_sent: record.int32(StatField::PacketNackSent.key_spec()).unwrap(),
        bytes_received: record.uint64(StatField::BytesReceived.key_spec()).unwrap(),
        bytes_received_lost: record.uint64(StatField::BytesReceivedLost.key_spec()).unwrap(),
        receive_rate_mbps: record.double(StatField::ReceiveRateMbps.key_spec()).unwrap(),
        bandwidth_mbps: record.double(StatField::BandwidthMbps.key_spec()).unwrap(),
        rtt_ms: record.double(StatField::RttMs.key_spec()).unwrap(),
        caller_address,
    }
}

/// What a connection's record decodes to. The required fields come first,
/// in their order, and the first that cannot be read fails the record. Then
/// comes the peer's address, which may be absent but not of another type.
/// Only where all of it can be read are there counters.
pub open spec fn connection_of(record: RecordView) -> Result<StatsView, FieldError> {
    match first_fault_from(record, 0) {
        Some(e) => Err(e),
        None => match address_of(record) {
            Err(e) => Err(e),
            Ok(caller_address) => Ok(stats_of(record, caller_address)),
        },
    }
}

/// Reads the required field at place `at`, which holds a signed 32-bit integer.
fn read_int(record: &OpaqueRecord, field: StatField, Ghost(at): Ghost<int>) -> (r: Result<
    i32,
    FieldError,
>)
    requires
        0 <= at < CONNECTION_FIELDS,
        required_field(at) == field,
        field.kind_spec() == ValueKind::Int,
    ensures
        match r {
            Ok(v) => first_fault_from(record@, at) == first_fault_from(record@, at + 1)
                && record@.int32(field.key_spec()) == Ok::<i32, FieldFault>(v),
            Err(e) => first_fault_from(record@, at) == Some(e),
        },
{
    match record.get_int(field.key()) {
        Ok(v) => Ok(v),
        Err(cause) => Err(FieldError { field, cause }),
    }
}

/// Reads the required field at place `at`, which holds a signed 64-bit integer.
fn read_int64(record: &OpaqueRecord, field: StatField, Ghost(at): Ghost<int>) -> (r: Result<
    i64,
    FieldError,
>)
    requires
        0 <= at < CONNECTION_FIELDS,
        required_field(at) == field,
        field.kind_spec() == ValueKind::Int64,
    ensures
        match r {
            Ok(v) => first_fault_from(record@, at) == first_fault_from(record@, at + 1)
                && record@.int64(field.key_spec()) == Ok::<i64, FieldFault>(v),
            Err(e) => first_fault_from(record@, at) == Some(e),
        },
{
    match record.get_int64(field.key()) {
        Ok(v) => Ok(v),
        Err(cause) => Err(FieldError { field, cause }),
    }
}

/// Reads the required field at place `at`, which holds an unsigned 64-bit integer.
fn read_uint64(record: &OpaqueRecord, field: StatField, Ghost(at): Ghost<int>) -> (r: Result<
    u64,
    FieldError,
>)
    requires
        0 <= at < CONNECTION_FIELDS,
        required_field(at) == field,
        field.kind_spec() == ValueKind::UInt64,
    ensures
        match r {
            Ok(v) => first_fault_from(record@, at) == first_fault_from(record@, at + 1)
                && record@.uint64(field.key_spec()) == Ok::<u64, FieldFault>(v),
            Err(e) => first_fault_from(record@, at) == Some(e),
        },
{
    match record.get_uint64(field.key()) {
        Ok(v) => Ok(v),
        Err(cause) => Err(FieldError { field, cause }),
    }
}

/// Reads the required field at place `at`, which holds a double-precision number.
fn read_double(record: &OpaqueRecord, field: StatField, Ghost(at): Ghost<int>) -> (r: Result<
    Double,
    FieldError,
>)
    requires
        0 <= at < CONNECTION_FIELDS,
        required_field(at) == field,
        field.kind_spec() == ValueKind::Double,
    ensures
        match r {
            Ok(v) => first_fault_from(record@, at) == first_fault_from(record@, at + 1)
                && record@.double(field.key_spec()) == Ok::<Double, FieldFault>(v),
            Err(e) => first_fault_from(record@, at) == Some(e),
        },
{
    match record.get_double(field.key()) {
        Ok(v) => Ok(v),
        Err(cause) => Err(FieldError { field, cause }),
    }
}

impl SrtStatistics {
    /// Decodes the counters of one connection. Every field but the peer's
    /// address must be there, and each field that is there must hold a value
    /// of its own type; the first one that does not, in the order of the
    /// fields with the address last, is reported.
    pub fn decode(record: &OpaqueRecord) -> (r: Result<SrtStatistics, FieldError>)
        ensures
            match r {
                Ok(stats) => Ok(stats@),
                Err(e) => Err(e),
            } == connection_of(record@),
    {
        let packets_sent: i64 = match read_int64(record, StatField::PacketsSent, Ghost(0)) {
            Ok(v) => v,
            Err(e) => {
                return Err(e);
            },
        };
        let packets_sent_lost: i32 = match read_int(record, StatField::PacketsSentLost, Ghost(1)) {
            Ok(v) => v,
            Err(e) => {
                return Err(e);
            },
        };
        let packets_retransmitted: i32 = match read_int(record, StatField::PacketsRetransmitted, Ghost(2)) {
            Ok(v) => v,
            Err(e) => {
                return Err(e);
            },
        };
        let packet_ack_received: i32 = match read_int(record, StatField::PacketAckReceived, Ghost(3)) {
            Ok(v) => v,
            Err(e) => {
                return Err(e);
            },
        };
        let packet_nack_received: i32 = match read_int(record, StatField::PacketNackReceived, Ghost(4)) {
            Ok(v) => v,
            Err(e) => {
                return Err(e);
            },
        };
        let send_duration_us: u64 = match read_uint64(record, StatField::SendDurationUs, Ghost(5)) {
            Ok(v) => v,
            Err(e) => {
                return Err(e);
            },
        };
        let bytes_sent: u64 = match read_uint64(record, StatField::BytesSent, Ghost(6)) {
            Ok(v) => v,
            Err(e) => {
                return Err(e);
            },
        };
        let bytes_retransmitted: u64 = match read_uint64(record, StatField::BytesRetransmitted, Ghost(7)) {
            Ok(v) => v,
            Err(e) => {
                return Err(e);
            },
        };
        let bytes_sent_dropped: u64 = match read_uint64(record, StatField::BytesSentDropped, Ghost(8)) {
            Ok(v) => v,
            Err(e) => {
                return Err(e);
            },
        };
        let packets_sent_dropped: i32 = match read_int(record, StatField::PacketsSentDropped, Ghost(9)) {
            Ok(v) => v,
            Err(e) => {
                return Err(e);
            },
        };
        let send_rate_mbps: Double = match read_double(record, StatField::SendRateMbps, Ghost(10)) {
            Ok(v) => v,
            Err(e) => {
                return Err(e);
            },
        };
        let negotiated_latency_ms: i32 = match read_int(record, StatField::NegotiatedLatencyMs, Ghost(11)) {
            Ok(v) => v,
            Err(e) => {
                return Err(e);
            },
        };
        let packets_received: i64 = match read_int64(record, StatField::PacketsReceived, Ghost(12)) {
            Ok(v) => v,
            Err(e) => {
                return Err(e);
            },
        };
        let packets_received_lost: i32 = match read_int(record, StatField::PacketsReceivedLost, Ghost(13)) {
            Ok(v) => v,
            Err(e) => {
                return Err(e);
            },
        };
        let packets_received_retransmitted: i32 = match read_int(record, StatField::PacketsReceivedRetransmitted, Ghost(14)) {
            Ok(v) => v,
            Err(e) => {
                return Err(e);
            },
        };
        let packets_received_dropped: i32 = match read_int(record, StatField::PacketsReceivedDropped, Ghost(15)) {
            Ok(v) => v,
            Err(e) => {
                return Err(e);
            },
        };
        let packet_ack_sent: i32 = match read_int(record, StatField::PacketAckSent, Ghost(16)) {
            Ok(v) => v,
            Err(e) => {
                return Err(e);
            },
        };
        let packet_nack_sent: i32 = match read_int(record, StatField::PacketNackSent, Ghost(17)) {
            Ok(v) => v,
            Err(e) => {
                return Err(e);
            },
        };
        let bytes_received: u64 = match read_uint64(record, StatField::BytesReceived, Ghost(18)) {
            Ok(v) => v,
            Err(e) => {
                return Err(e);
            },
        };
        let bytes_received_lost: u64 = match read_uint64(record, StatField::BytesReceivedLost, Ghost(19)) {
            Ok(v) => v,
            Err(e) => {
                return Err(e);
            },
        };
        let receive_rate_mbps: Double = match read_double(record, StatField::ReceiveRateMbps, Ghost(20)) {
            Ok(v) => v,
            Err(e) => {
                return Err(e);
            },
        };
        let bandwidth_mbps: Double = match read_double(record, StatField::BandwidthMbps, Ghost(21)) {
            Ok(v) => v,
            Err(e) => {
                return Err(e);
            },
        };
        let rtt_ms: Double = match read_double(record, StatField::RttMs, Ghost(22)) {
            Ok(v) => v,
            Err(e) => {
                return Err(e);
            },
        };
        let caller_address: Option<String> = match record.get_text(StatField::CallerAddress.key()) {
            Ok(address) => Some(address.to_owned()),
            Err(FieldFault::Missing) => None,
            Err(cause) => {
                return Err(FieldError { field: StatField::CallerAddress, cause });
            },
        };
        Ok(
            SrtStatistics {
                packets_sent,
                packets_sent_lost,
                packets_retransmitted,
                packet_ack_received,
                packet_nack_received,
                send_duration_us,
                bytes_sent,
                bytes_retransmitted,
                bytes_sent_dropped,
                packets_sent_dropped,
                send_rate_mbps,
                negotiated_latency_ms,
                packets_received,
                packets_received_lost,
                packets_received_retransmitted,
                packets_received_dropped,
                packet_ack_sent,
                packet_nack_sent,
                bytes_received,
                bytes_received_lost,
                receive_rate_mbps,
                bandwidth_mbps,
                rtt_ms,
                caller_address,
            },
        )
    }
}

/// Why a record did not decode to a report.
#[derive(Debug, Clone, Copy, PartialEq, Eq, Structural)]
pub enum DecodeError {
    /// A field could not be read: the place of the connection in the list
    /// (`None` for a field of the report itself), the field, and what was wrong
    /// with it.
    Field(Option<usize>, StatField, FieldFault),
}

/// A snapshot of the endpoint's statistics: one entry for each connected
/// caller, and the bytes received since the endpoint started, which are
/// counted apart from the connections.
#[derive(Debug, Clone, PartialEq, Eq)]
pub struct SrtStatisticsReport {
    pub callers: Vec<SrtStatistics>,
    pub bytes_received_total: u64,
}

/// An [`SrtStatisticsReport`] as plain values.
pub struct ReportView {
    pub callers: Seq<StatsView>,
    pub bytes_received_total: u64,
}

impl View for SrtStatisticsReport {
    type V = ReportView;

    open spec fn view(&self) -> ReportView {
        ReportView {
            callers: Seq::new(self.callers@.len(), |i: int| self.callers@[i]@),
            bytes_received_total: self.bytes_received_total,
        }
    }
}

/// The entries for the connections: the list under `callers`, and none where
/// that field is absent or holds no list.
pub open spec fn callers_of(record: RecordView) -> Seq<ValueView> {
    match record.list(StatField::Callers.key_spec()) {
        Ok(callers) => callers,
        Err(_) => Seq::empty(),
    }
}

/// What one entry of the list of connections decodes to: what its record
/// decodes to, and a fault of the list where the entry is no record.
pub open spec fn caller_of(entry: ValueView) -> Result<StatsView, FieldError> {
    match entry {
        ValueView::Record(record) => connection_of(record),
        _ => Err(
            FieldError {
                field: StatField::Callers,
                cause: FieldFault::WrongType { expected: ValueKind::Record, found: entry.kind() },
            },
        ),
    }
}

/// The failure of the first connection, from place `from` on, whose entry
/// does not decode.
pub open spec fn first_failure_from(callers: Seq<ValueView>, from: int) -> Option<DecodeError>
    decreases callers.len() - from,
{
    if from < 0 || from >= callers.len() {
        None
    } else {
        match caller_of(callers[from]) {
            Err(e) => Some(DecodeError::Field(Some(from as usize), e.field, e.cause)),
            Ok(_) => first_failure_from(callers, from + 1),
        }
    }
}

/// What a record decodes to. The connections come first: the first one that
/// does not decode fails the whole report. Then the total is read. Only where
/// all of it can be read is there a report.
pub open spec fn report_of(record: RecordView) -> Result<ReportView, DecodeError> {
    let callers = callers_of(record);
    match first_failure_from(callers, 0) {
        Some(e) => Err(e),
        None => match record.uint64(StatField::BytesReceivedTotal.key_spec()) {
            Err(cause) => Err(DecodeError::Field(None, StatField::BytesReceivedTotal, cause)),
            Ok(total) => Ok(
                ReportView {
                    callers: Seq::new(callers.len(), |i: int| caller_of(callers[i]).unwrap()),
                    bytes_received_total: total,
                },
            ),
        },
    }
}

/// The outcome of a decoding as plain values.
pub open spec fn outcome_view(outcome: Result<SrtStatisticsReport, DecodeError>) -> Result<
    ReportView,
    DecodeError,
> {
    match outcome {
        Ok(report) => Ok(report@),
        Err(e) => Err(e),
    }
}

impl SrtStatisticsReport {
    /// Decodes one entry of the list of connections, which must be a record.
    pub fn decode_caller(entry: &Value) -> (r: Result<SrtStatistics, FieldError>)
        ensures
            match r {
                Ok(stats) => Ok(stats@),
                Err(e) => Err(e),
            } == caller_of(entry@),
    {
        match entry {
            Value::Record(record) => SrtStatistics::decode(record),
            _ => Err(
                FieldError {
                    field: StatField::Callers,
                    cause: FieldFault::WrongType {
                        expected: ValueKind::Record,
                        found: entry.kind(),
                    },
                },
            ),
        }
    }

    /// Decodes a statistics record. The result is all or nothing: a report
    /// with every connection of the list and the total, or the first failure.
    pub fn decode(record: &OpaqueRecord) -> (r: Result<SrtStatisticsReport, DecodeError>)
        ensures
            outcome_view(r) == report_of(record@),
    {
        let mut callers: Vec<SrtStatistics> = Vec::new();
        if let Ok(list) = record.get_list(StatField::Callers.key()) {
            let ghost entries = values_view(list@);
            let mut i: usize = 0;
            while i < list.len()
                invariant
                    entries == values_view(list@),
                    entries == callers_of(record@),
                    i <= list@.len(),
                    callers@.len() == i,
                    first_failure_from(entries, 0) == first_failure_from(entries, i as int),
                    forall|j: int|
                        0 <= j < i ==> caller_of(entries[j]) == Ok::<StatsView, FieldError>(
                            (#[trigger] callers@[j])@,
                        ),
                decreases list@.len() - i,
            {
                match SrtStatisticsReport::decode_caller(&list[i]) {
                    Ok(stats) => {
                        callers.push(stats);
                    },
                    Err(e) => {
                        return Err(DecodeError::Field(Some(i), e.field, e.cause));
                    },
                }
                i = i + 1;
            }
        }
        match record.get_uint64(StatField::BytesReceivedTotal.key()) {
            Err(cause) => Err(DecodeError::Field(None, StatField::BytesReceivedTotal, cause)),
            Ok(total) => {
                let report = SrtStatisticsReport { callers, bytes_received_total: total };
                assert(report@.callers =~= report_of(record@)->Ok_0.callers);
                Ok(report)
            },
        }
    }

    /// Decodes a sample of the endpoint's statistics. A sample that could not
    /// be taken decodes as the record without fields does: to a failure.
    pub fn sample(snapshot: Option<&OpaqueRecord>) -> (r: Result<SrtStatisticsReport, DecodeError>)
        ensures
            outcome_view(r) == report_of(
                match snapshot {
                    Some(record) => record@,
                    None => RecordView::empty(),
                },
            ),
    {
        match snapshot {
            Some(record) => SrtStatisticsReport::decode(record),
            None => SrtStatisticsReport::decode(&OpaqueRecord::new()),
        }
    }
}

/// Where no required field from place `from` up to place `to` is at fault,
/// the search for the first fault may as well start at `to`.
proof fn lemma_faults_skip(record: RecordView, from: int, to: int)
    requires
        0 <= from <= to <= CONNECTION_FIELDS,
        forall|k: int| from <= k < to ==> field_fault(record, #[trigger] required_field(k)) is None,
    ensures
        first_fault_from(record, from) == first_fault_from(record, to),
    decreases to - from,
{
    if from < to {
        lemma_faults_skip(record, from + 1, to);
    }
}

/// A connection's record decodes exactly when each of its required fields
/// can be read and the peer's address is absent or a text. It then decodes
/// to the counters that it holds, with that address.
pub proof fn lemma_connection_decodes_when_complete(record: RecordView)
    ensures
        connection_of(record) is Ok <==> address_of(record) is Ok && forall|k: int|
            0 <= k < CONNECTION_FIELDS ==> field_fault(record, #[trigger] required_field(k))
                is None,
        connection_of(record) is Ok ==> connection_of(record) == Ok::<StatsView, FieldError>(
            stats_of(record, address_of(record).unwrap()),
        ),
        address_of(record) is Ok <==> record.lookup(StatField::CallerAddress.key_spec()) is None
            || record.lookup(StatField::CallerAddress.key_spec())->0 is Text,
{
    if forall|k: int|
        0 <= k < CONNECTION_FIELDS ==> field_fault(record, #[trigger] required_field(k)) is None {
        lemma_faults_skip(record, 0, CONNECTION_FIELDS as int);
    } else {
        let k = choose|k: int|
            0 <= k < CONNECTION_FIELDS && !(field_fault(record, #[trigger] required_field(k))
                is None);
        lemma_first_fault_exists(record, 0, k);
    }
}

/// A connection's record whose required fields can all be read, but whose
/// peer's address is of another type than text, fails to decode with that
/// field and with the type that was found.
pub proof fn lemma_connection_fails_on_address(record: RecordView)
    requires
        forall|k: int|
            0 <= k < CONNECTION_FIELDS ==> field_fault(record, #[trigger] required_field(k))
                is None,
        record.lookup(StatField::CallerAddress.key_spec()) matches Some(v) && !(v is Text),
    ensures
        connection_of(record) == Err::<StatsView, FieldError>(
            FieldError {
                field: StatField::CallerAddress,
                cause: FieldFault::WrongType {
                    expected: ValueKind::Text,
                    found: record.lookup(StatField::CallerAddress.key_spec())->0.kind(),
                },
            },
        ),
{
    lemma_faults_skip(record, 0, CONNECTION_FIELDS as int);
}

/// Where a required field at or after place `from` is at fault, the search
/// from `from` finds a fault.
proof fn lemma_first_fault_exists(record: RecordView, from: int, at: int)
    requires
        0 <= from <= at < CONNECTION_FIELDS,
        field_fault(record, required_field(at)) is Some,
    ensures
        first_fault_from(record, from) is Some,
    decreases at - from,
{
    if from < at && field_fault(record, required_field(from)) is None {
        lemma_first_fault_exists(record, from + 1, at);
    }
}

/// A connection's record fails to decode with the first of its required
/// fields, in their order, that cannot be read, and with what is wrong with
/// that field.
pub proof fn lemma_connection_fails_at_first_fault(record: RecordView, at: int, cause: FieldFault)
    requires
        0 <= at < CONNECTION_FIELDS,
        forall|k: int| 0 <= k < at ==> field_fault(record, #[trigger] required_field(k)) is None,
        field_fault(record, required_field(at)) == Some(cause),
    ensures
        connection_of(record) == Err::<StatsView, FieldError>(
            FieldError { field: required_field(at), cause },
        ),
{
    lemma_faults_skip(record, 0, at);
}

/// Where every connection from place `from` up to place `to` decodes, the
/// search for the first failure may as well start at `to`.
proof fn lemma_failures_skip(callers: Seq<ValueView>, from: int, to: int)
    requires
        0 <= from <= to <= callers.len(),
        forall|j: int| from <= j < to ==> caller_of(#[trigger] callers[j]) is Ok,
    ensures
        first_failure_from(callers, from) == first_failure_from(callers, to),
    decreases to - from,
{
    if from < to {
        lemma_failures_skip(callers, from + 1, to);
    }
}

/// A record without a list of callers, be the field absent or of another
/// type, decodes to a report without connections, with the total that the
/// record holds.
pub proof fn lemma_report_without_callers(record: RecordView, total: u64)
    requires
        record.list(StatField::Callers.key_spec()) is Err,
        record.uint64(StatField::BytesReceivedTotal.key_spec()) == Ok::<u64, FieldFault>(total),
    ensures
        report_of(record) == Ok::<ReportView, DecodeError>(
            ReportView { callers: Seq::empty(), bytes_received_total: total },
        ),
{
    assert(report_of(record)->Ok_0.callers =~= Seq::empty());
}

/// Where the connection at place `at` is the first that does not decode, the
/// whole record fails with that place and with that connection's failure,
/// whatever else the record holds.
pub proof fn lemma_report_fails_at_first_bad_connection(
    record: RecordView,
    at: int,
    failure: FieldError,
)
    requires
        0 <= at < callers_of(record).len(),
        forall|j: int| 0 <= j < at ==> caller_of(#[trigger] callers_of(record)[j]) is Ok,
        caller_of(callers_of(record)[at]) == Err::<StatsView, FieldError>(failure),
    ensures
        report_of(record) == Err::<ReportView, DecodeError>(
            DecodeError::Field(Some(at as usize), failure.field, failure.cause),
        ),
{
    lemma_failures_skip(callers_of(record), 0, at);
}

/// A record whose connections all decode fails exactly when its total
/// cannot be read, and then with the total's fault.
pub proof fn lemma_report_needs_total(record: RecordView)
    requires
        forall|j: int|
            0 <= j < callers_of(record).len() ==> caller_of(#[trigger] callers_of(record)[j])
                is Ok,
    ensures
        match record.uint64(StatField::BytesReceivedTotal.key_spec()) {
            Ok(total) => report_of(record) is Ok && report_of(record)->Ok_0.bytes_received_total
                == total && report_of(record)->Ok_0.callers.len() == callers_of(record).len(),
            Err(cause) => report_of(record) == Err::<ReportView, DecodeError>(
                DecodeError::Field(None, StatField::BytesReceivedTotal, cause),
            ),
        },
{
    lemma_failures_skip(callers_of(record), 0, callers_of(record).len() as int);
}

/// Decoding is a function of the record: two decodings of one record give
/// the same outcome, field for field.
pub proof fn lemma_decode_is_deterministic(
    record: OpaqueRecord,
    first: Result<SrtStatisticsReport, DecodeError>,
    second: Result<SrtStatisticsReport, DecodeError>,
)
    requires
        outcome_view(first) == report_of(record@),
        outcome_view(second) == report_of(record@),
    ensures
        outcome_view(first) == outcome_view(second),
        first is Ok <==> second is Ok,
        first is Ok ==> first->Ok_0@ == second->Ok_0@,
        first is Err ==> first->Err_0 == second->Err_0,
{
}

} // verus!
