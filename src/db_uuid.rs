//! The stable 128-bit identity of a volume.

use vstd::prelude::*;

verus! {

/// A volume UUID as its sixteen bytes, most significant first.
#[derive(Clone, Copy, Debug)]
pub struct DbUuid {
    pub bytes: [u8; 16],
}

impl View for DbUuid {
    type V = Seq<u8>;

    open spec fn view(&self) -> Seq<u8> {
        self.bytes@
    }
}

/// The upper-case hexadecimal digit for `n` (below 16).
pub open spec fn hex_digit_upper(n: int) -> char {
    if n < 10 {
        (n + 48) as char
    } else {
        (n + 55) as char
    }
}

/// Two upper-case hexadecimal digits for each byte, most significant first.
pub open spec fn hex_upper(bytes: Seq<u8>) -> Seq<char>
    decreases bytes.len(),
{
    if bytes.len() == 0 {
        Seq::empty()
    } else {
        seq![hex_digit_upper(bytes[0] as int / 16), hex_digit_upper(bytes[0] as int % 16)] + hex_upper(
            bytes.drop_first(),
        )
    }
}

/// The hyphenated form `XXXXXXXX-XXXX-XXXX-XXXX-XXXXXXXXXXXX` of a UUID, in upper case.
pub open spec fn hyphenated_upper(bytes: Seq<u8>) -> Seq<char> {
    hex_upper(bytes.subrange(0, 4)) + seq!['-'] + hex_upper(bytes.subrange(4, 6)) + seq!['-']
        + hex_upper(bytes.subrange(6, 8)) + seq!['-'] + hex_upper(bytes.subrange(8, 10)) + seq![
        '-',
    ] + hex_upper(bytes.subrange(10, 16))
}

/// Relies on the uuid crate's `Uuid::from_bytes` and `Hyphenated::encode_upper`: the
/// bytes in order, each as two upper-case hex digits, with hyphens after the 4th,
/// 6th, 8th and 10th byte.
#[verifier::external_body]
fn uuid_hyphenated_upper(bytes: [u8; 16]) -> (r: String)
    ensures
        r@ == hyphenated_upper(bytes@),
{
    let mut buffer = uuid::Uuid::encode_buffer();
    uuid::Uuid::from_bytes(bytes).hyphenated().encode_upper(&mut buffer).to_string()
}

impl DbUuid {
    /// The UUID with the given bytes.
    pub fn from_bytes(bytes: [u8; 16]) -> (r: DbUuid)
        ensures
            r@ == bytes@,
    {
        DbUuid { bytes }
    }

    /// The nil UUID, all bytes zero: the identity of a volume that reports none.
    pub fn nil() -> (r: DbUuid)
        ensures
            r@ == Seq::new(16, |i: int| 0u8),
    {
        let r = DbUuid { bytes: [0u8; 16] };
        assert(r@ =~= Seq::new(16, |i: int| 0u8));
        r
    }

    /// Whether every byte is zero.
    pub fn is_nil(&self) -> (r: bool)
        ensures
            r == (self@ == Seq::new(16, |i: int| 0u8)),
    {
        let mut i: usize = 0;
        while i < 16
            invariant
                i <= 16,
                self@.len() == 16,
                forall|j: int| 0 <= j < i ==> self@[j] == 0,
            decreases 16 - i,
        {
            if self.bytes[i] != 0 {
                assert(self@[i as int] != Seq::new(16, |k: int| 0u8)[i as int]);
                return false;
            }
            i = i + 1;
        }
        assert(self@ =~= Seq::new(16, |i: int| 0u8));
        true
    }

    /// The hyphenated upper-case text of the UUID.
    pub fn to_hyphenated(&self) -> (r: String)
        ensures
            r@ == hyphenated_upper(self@),
    {
        uuid_hyphenated_upper(self.bytes)
    }
}

impl PartialEq for DbUuid {
    fn eq(&self, other: &DbUuid) -> (r: bool) {
        let mut i: usize = 0;
        while i < 16
            invariant
                i <= 16,
                self@.len() == 16,
                other@.len() == 16,
                forall|j: int| 0 <= j < i ==> self@[j] == other@[j],
            decreases 16 - i,
        {
            if self.bytes[i] != other.bytes[i] {
                return false;
            }
            i = i + 1;
        }
        assert(self@ =~= other@);
        true
    }
}

impl vstd::std_specs::cmp::PartialEqSpecImpl for DbUuid {
    open spec fn obeys_eq_spec() -> bool {
        true
    }

    open spec fn eq_spec(&self, other: &DbUuid) -> bool {
        self@ == other@
    }
}

impl Eq for DbUuid {

}

} // verus!
