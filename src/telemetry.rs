//! The fixed-layout telemetry record sent by the wheel.
use vstd::prelude::*;

verus! {

/// Size of an encoded record.
pub const TELEMETRY_SIZE: usize = 16;

/// One telemetry record.
#[derive(Debug, Clone, Copy)]
pub struct TelemetryMessage {
    pub sequence: u32,
    pub timestamp: u32,
    pub button_state: u16,
    pub throttle: u16,
    pub brake: u16,
}

/// `v` as two little-endian bytes.
pub open spec fn le_u16(v: u16) -> Seq<u8> {
    seq![(v % 256) as u8, (v / 256) as u8]
}

/// `v` as four little-endian bytes.
pub open spec fn le_u32(v: u32) -> Seq<u8> {
    seq![(v % 256) as u8, ((v / 256) % 256) as u8, ((v / 65536) % 256) as u8, (v / 16777216) as u8]
}

/// The encoding: the fields in order, little-endian, then two bytes of padding.
pub open spec fn encode(m: TelemetryMessage) -> Seq<u8> {
    le_u32(m.sequence) + le_u32(m.timestamp) + le_u16(m.button_state) + le_u16(m.throttle)
        + le_u16(m.brake) + seq![0u8, 0u8]
}

impl TelemetryMessage {
    /// A record with every field zero.
    pub fn new() -> (r: Self)
        ensures
            r.sequence == 0 && r.timestamp == 0,
            r.button_state == 0 && r.throttle == 0 && r.brake == 0,
    {
        Self { sequence: 0, timestamp: 0, button_state: 0, throttle: 0, brake: 0 }
    }

    /// The periodic broadcast record: a test pattern derived from the sequence number.
    pub fn broadcast_sample(sequence: u32, timestamp: u32) -> (r: Self)
        ensures
            r.sequence == sequence && r.timestamp == timestamp,
            r.button_state == sequence % 256,
            r.throttle == (sequence * 100) % 4096,
            r.brake == (sequence * 50) % 4096,
    {
        Self {
            sequence,
            timestamp,
            button_state: (sequence % 256) as u16,
            throttle: ((sequence as u64 * 100) % 4096) as u16,
            brake: ((sequence as u64 * 50) % 4096) as u16,
        }
    }

    /// The periodic update for the vehicle computer and battery system: first
    /// button down, half throttle, no brake.
    pub fn steering_sample(sequence: u32, timestamp: u32) -> (r: Self)
        ensures
            r.sequence == sequence && r.timestamp == timestamp,
            r.button_state == 1 && r.throttle == 2048 && r.brake == 0,
    {
        Self { sequence, timestamp, button_state: 0x0001, throttle: 2048, brake: 0 }
    }

    /// The record's wire form.
    pub fn to_bytes(&self) -> (r: [u8; 16])
        ensures
            r@ == encode(*self),
    {
        let s = self.sequence;
        let t = self.timestamp;
        let r: [u8; 16] = [
            (s % 256) as u8,
            ((s / 256) % 256) as u8,
            ((s / 65536) % 256) as u8,
            (s / 16777216) as u8,
            (t % 256) as u8,
            ((t / 256) % 256) as u8,
            ((t / 65536) % 256) as u8,
            (t / 16777216) as u8,
            (self.button_state % 256) as u8,
            (self.button_state / 256) as u8,
            (self.throttle % 256) as u8,
            (self.throttle / 256) as u8,
            (self.brake % 256) as u8,
            (self.brake / 256) as u8,
            0,
            0,
        ];
        assert(r@ =~= encode(*self));
        r
    }
}

} // verus!
