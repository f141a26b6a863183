//! Device identity: the hardware address rendered as lowercase hexadecimal,
//! and the small identity records sent alongside it.

use vstd::prelude::*;

verus! {

#[verifier::external_type_specification]
#[verifier::external_body]
pub struct ExFromHexError(hex::FromHexError);

/// The lowercase hexadecimal digit (ASCII) for a value below sixteen.
pub open spec fn hex_digit(n: u8) -> u8 {
    if n < 10 {
        (48 + n) as u8
    } else {
        (87 + n) as u8
    }
}

/// Lowercase hexadecimal text of `b`: two digits per byte, high nibble first,
/// no separators.
pub open spec fn hex_lower(b: Seq<u8>) -> Seq<u8> {
    Seq::new(
        2 * b.len(),
        |i: int|
            if i % 2 == 0 {
                hex_digit(b[i / 2] / 16)
            } else {
                hex_digit(b[i / 2] % 16)
            },
    )
}

/// Relies on `hex::encode_to_slice`: it fails, writing nothing, unless the
/// output is exactly twice as long as the input; otherwise it fills the output
/// with the input's lowercase hexadecimal digits.
#[verifier::external_body]
fn encode_to_slice(input: &[u8], output: &mut Vec<u8>) -> (r: Result<(), hex::FromHexError>)
    ensures
        r.is_ok() <==> old(output)@.len() == 2 * input@.len(),
        r.is_ok() ==> final(output)@ == hex_lower(input@),
        r.is_err() ==> final(output)@ == old(output)@,
{
    hex::encode_to_slice(input, output.as_mut_slice())
}

/// Renders a hardware address as the device identifier: fixed-width
/// lowercase hexadecimal, two digits per byte.
pub fn derive_identity(hardware_address: &[u8]) -> (r: Vec<u8>)
    requires
        2 * hardware_address@.len() <= usize::MAX,
    ensures
        r@ == hex_lower(hardware_address@),
{
    let n: usize = 2 * hardware_address.len();
    let mut out: Vec<u8> = Vec::with_capacity(n);
    let mut i: usize = 0;
    while i < n
        invariant
            i <= n,
            out@.len() == i,
        decreases n - i,
    {
        out.push(0);
        i = i + 1;
    }
    match encode_to_slice(hardware_address, &mut out) {
        Ok(()) => {},
        Err(_) => {},
    }
    out
}

/// Identity record: a twelve-character identifier and a firmware version.
pub struct Heartbeat<'a> {
    pub id: [char; 12],
    pub version: &'a str,
}

impl<'a> Heartbeat<'a> {
    /// A heartbeat for `id`; the version is the one given, or `"unknown"`.
    pub fn new(id: [char; 12], version: Option<&'static str>) -> (r: Heartbeat<'static>)
        ensures
            r.id == id,
            version is Some ==> r.version == version->Some_0,
            version is None ==> r.version == "unknown",
    {
        let version = match version {
            Some(v) => v,
            None => "unknown",
        };
        Heartbeat { id, version }
    }
}

/// Status record: a twelve-character identifier and a count.
pub struct SensorStatus {
    pub id: [char; 12],
    pub count: u32,
}

impl SensorStatus {
    pub fn new(id: [char; 12], count: u32) -> (r: SensorStatus)
        ensures
            r.id == id,
            r.count == count,
    {
        SensorStatus { id, count }
    }
}

} // verus!
