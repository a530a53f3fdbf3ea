use vstd::prelude::*;

verus! {

/// Thresholds that a door node applies to its motion supervision.
#[derive(Debug, Clone, Copy, PartialEq, Eq)]
pub struct PowerWindowsConfig {
    pub opening_current_interrupt_threshold_amps: u16,
    pub closing_current_interrupt_threshold_amps: u16,
    pub handle_time_threshold_millis: u16,
}

/// Length of the fixed configuration payload.
pub const CONFIG_PAYLOAD_LEN: usize = 8;

/// The high byte of a big-endian 16-bit value.
pub open spec fn be_high(x: u16) -> u8 {
    (x / 256) as u8
}

/// The low byte of a big-endian 16-bit value.
pub open spec fn be_low(x: u16) -> u8 {
    (x % 256) as u8
}

/// The 16-bit value of two big-endian bytes.
pub open spec fn be_u16(hi: u8, lo: u8) -> u16 {
    (hi * 256 + lo) as u16
}

/// The eight wire bytes of a configuration: three big-endian fields and two
/// reserved zero bytes.
pub open spec fn config_bytes(c: PowerWindowsConfig) -> Seq<u8> {
    seq![
        be_high(c.opening_current_interrupt_threshold_amps),
        be_low(c.opening_current_interrupt_threshold_amps),
        be_high(c.closing_current_interrupt_threshold_amps),
        be_low(c.closing_current_interrupt_threshold_amps),
        be_high(c.handle_time_threshold_millis),
        be_low(c.handle_time_threshold_millis),
        0u8,
        0u8,
    ]
}

/// The configuration that eight wire bytes describe; the reserved bytes are
/// ignored.
pub open spec fn config_of_bytes(b: Seq<u8>) -> PowerWindowsConfig
    recommends
        b.len() == 8,
{
    PowerWindowsConfig {
        opening_current_interrupt_threshold_amps: be_u16(b[0], b[1]),
        closing_current_interrupt_threshold_amps: be_u16(b[2], b[3]),
        handle_time_threshold_millis: be_u16(b[4], b[5]),
    }
}

/// Encoding into the fixed 8-byte payload.
pub trait Serialize {
    spec fn spec_serialize(&self) -> Seq<u8>;

    fn serialize(&self) -> (r: [u8; 8])
        ensures
            r@ == self.spec_serialize(),
    ;
}

/// Decoding from the fixed 8-byte payload.
pub trait Deserialize: Sized {
    spec fn spec_deserialize(buffer: Seq<u8>) -> Self;

    fn deserialize(buffer: [u8; 8]) -> (r: Self)
        ensures
            r == Self::spec_deserialize(buffer@),
    ;
}

fn split_be(x: u16) -> (r: (u8, u8))
    ensures
        r.0 == be_high(x),
        r.1 == be_low(x),
{
    ((x / 256) as u8, (x % 256) as u8)
}

fn join_be(hi: u8, lo: u8) -> (r: u16)
    ensures
        r == be_u16(hi, lo),
{
    (hi as u16) * 256 + (lo as u16)
}

impl Serialize for PowerWindowsConfig {
    open spec fn spec_serialize(&self) -> Seq<u8> {
        config_bytes(*self)
    }

    fn serialize(&self) -> (r: [u8; 8]) {
        let (o_hi, o_lo) = split_be(self.opening_current_interrupt_threshold_amps);
        let (c_hi, c_lo) = split_be(self.closing_current_interrupt_threshold_amps);
        let (t_hi, t_lo) = split_be(self.handle_time_threshold_millis);
        let buffer: [u8; 8] = [o_hi, o_lo, c_hi, c_lo, t_hi, t_lo, 0, 0];
        assert(buffer@ =~= config_bytes(*self));
        buffer
    }
}

impl Deserialize for PowerWindowsConfig {
    open spec fn spec_deserialize(buffer: Seq<u8>) -> PowerWindowsConfig {
        config_of_bytes(buffer)
    }

    fn deserialize(buffer: [u8; 8]) -> (r: PowerWindowsConfig) {
        PowerWindowsConfig {
            opening_current_interrupt_threshold_amps: join_be(buffer[0], buffer[1]),
            closing_current_interrupt_threshold_amps: join_be(buffer[2], buffer[3]),
            handle_time_threshold_millis: join_be(buffer[4], buffer[5]),
        }
    }
}


/// Decoding the encoding of a configuration gives the same configuration.
pub proof fn lemma_config_round_trip(c: PowerWindowsConfig)
    ensures
        config_of_bytes(config_bytes(c)) == c,
        PowerWindowsConfig::spec_deserialize(c.spec_serialize()) == c,
{
}

/// Reads a configuration from a payload of any length: only a payload of
/// exactly eight bytes is accepted.
pub fn parse_config_payload(data: &[u8]) -> (r: Option<PowerWindowsConfig>)
    ensures
        data@.len() == 8 ==> r == Some(config_of_bytes(data@)),
        data@.len() != 8 ==> r is None,
{
    if data.len() != CONFIG_PAYLOAD_LEN {
        return None;
    }
    let buffer: [u8; 8] = [data[0], data[1], data[2], data[3], data[4], data[5], data[6], data[7]];
    assert(buffer@ =~= data@);
    Some(PowerWindowsConfig::deserialize(buffer))
}

} // verus!
