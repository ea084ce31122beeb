//! Device identity types shared between the agent, pairing and interface
//! layers. Only the serializable, non-secret shapes live here.
use crate::config::Role;
use crate::text::{decimal, decimal_chars, hex_byte, hex_digit_char, push_all, string_from_chars};
use vstd::prelude::*;

verus! {

/// A random, unique identifier for a CableDesk installation, generated on
/// first launch. Not secret — this is what gets advertised over mDNS.
#[derive(Debug, Clone, Copy, PartialEq, Eq, Hash)]
pub struct DeviceId(pub [u8; 16]);

/// Two lower-case hex digits per byte, in order.
pub open spec fn hex_text(bytes: Seq<u8>) -> Seq<char>
    decreases bytes.len(),
{
    if bytes.len() == 0 {
        Seq::empty()
    } else {
        hex_text(bytes.drop_last()) + hex_byte(bytes.last())
    }
}

/// The decimal numeral of each value, concatenated.
pub open spec fn digits_text(values: Seq<u8>) -> Seq<char>
    decreases values.len(),
{
    if values.len() == 0 {
        Seq::empty()
    } else {
        digits_text(values.drop_last()) + decimal(values.last() as nat)
    }
}

impl DeviceId {
    /// The identifier as lower-case hexadecimal, two digits per byte.
    pub fn to_string(&self) -> (r: String)
        ensures
            r@ == hex_text(self.0@),
    {
        let mut v: Vec<char> = Vec::new();
        let mut i: usize = 0;
        while i < 16
            invariant
                i <= 16,
                self.0@.len() == 16,
                v@ == hex_text(self.0@.take(i as int)),
            decreases 16 - i,
        {
            let b = self.0[i];
            v.push(hex_digit_char(b / 16));
            v.push(hex_digit_char(b % 16));
            i = i + 1;
            assert(self.0@.take(i as int).drop_last() =~= self.0@.take((i - 1) as int));
            assert(v@ =~= hex_text(self.0@.take(i as int)));
        }
        assert(self.0@.take(16) =~= self.0@);
        string_from_chars(&v)
    }
}

/// The six-digit pairing verification code shown on both devices.
///
/// It is only for human verification during pairing — never the long-term
/// trust credential.
#[derive(Debug, Clone, Copy, PartialEq, Eq)]
pub struct PairingCode(pub [u8; 6]);

impl PairingCode {
    /// Builds a code from six digits (0-9 each), validating range.
    pub fn from_digits(digits: [u8; 6]) -> (r: Option<Self>)
        ensures
            (forall|i: int| 0 <= i < 6 ==> #[trigger] digits@[i] <= 9) ==> r == Some(
                PairingCode(digits),
            ),
            !(forall|i: int| 0 <= i < 6 ==> #[trigger] digits@[i] <= 9) ==> r is None,
    {
        let mut i: usize = 0;
        while i < 6
            invariant
                i <= 6,
                digits@.len() == 6,
                forall|j: int| 0 <= j < i ==> #[trigger] digits@[j] <= 9,
            decreases 6 - i,
        {
            if digits[i] > 9 {
                return None;
            }
            i = i + 1;
        }
        Some(PairingCode(digits))
    }

    /// The code as its digits printed one after another.
    pub fn to_string(&self) -> (r: String)
        ensures
            r@ == digits_text(self.0@),
    {
        let mut v: Vec<char> = Vec::new();
        let mut i: usize = 0;
        while i < 6
            invariant
                i <= 6,
                self.0@.len() == 6,
                v@ == digits_text(self.0@.take(i as int)),
            decreases 6 - i,
        {
            let d = decimal_chars(self.0[i] as u64);
            push_all(&mut v, &d);
            i = i + 1;
            assert(self.0@.take(i as int).drop_last() =~= self.0@.take((i - 1) as int));
        }
        assert(self.0@.take(6) =~= self.0@);
        string_from_chars(&v)
    }
}

/// A previously-paired peer, as stored in the trusted-device database.
#[derive(Debug, Clone, PartialEq, Eq)]
pub struct TrustedDevice {
    pub id: DeviceId,
    pub friendly_name: String,
    /// Human-readable fingerprint of the peer's long-term public key.
    pub public_key_fingerprint: String,
    pub role: Role,
    pub auto_connect: bool,
    pub require_confirmation: bool,
    /// RFC 3339 timestamp of the last successful connection, if any.
    pub last_connected: Option<String>,
}

} // verus!
