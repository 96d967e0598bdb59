//! Document identifiers: twelve bytes, written as 24 lowercase hexadecimal
//! digits.
use vstd::prelude::*;
use vstd::utf8::{encode_utf8, is_ascii_chars, is_ascii_chars_encode_utf8};

use crate::hexcode::{first_non_hex, hex_decode, hex_decode_spec, hex_digit_value, hex_pair_value};
use crate::text::push_char;

verus! {

broadcast use vstd::string::group_string_axioms;

/// A twelve-byte document identifier.
#[derive(Clone, Copy, Debug, PartialEq, Eq)]
pub struct ObjectId {
    pub bytes: [u8; 12],
}

/// The identifier that a string names: its 24 hexadecimal digits (either
/// case), or none.
pub open spec fn parse_object_id_spec(s: Seq<char>) -> Option<Seq<u8>> {
    match hex_decode_spec(encode_utf8(s)) {
        Ok(b) => if b.len() == 12 {
            Some(b)
        } else {
            None
        },
        Err(_) => None,
    }
}

/// The lowercase hexadecimal digit for `d < 16`.
pub open spec fn lower_hex_char(d: nat) -> char {
    if d < 10 {
        ((48 + d) as u8) as char
    } else {
        ((87 + d) as u8) as char
    }
}

/// Bytes written as lowercase hexadecimal, two digits per byte.
pub open spec fn lower_hex(b: Seq<u8>) -> Seq<char>
    decreases b.len(),
{
    if b.len() == 0 {
        Seq::empty()
    } else {
        lower_hex(b.drop_last()) + seq![lower_hex_char((b.last() / 16) as nat), lower_hex_char((b.last() % 16) as nat)]
    }
}

fn hex_char(d: u8) -> (c: char)
    requires
        d < 16,
    ensures
        c == lower_hex_char(d as nat),
{
    if d < 10 {
        (48u8 + d) as char
    } else {
        (87u8 + d) as char
    }
}

impl ObjectId {
    /// The identifier written in `s`, or `None` when `s` is not 24
    /// hexadecimal digits.
    pub fn parse_str(s: &str) -> (r: Option<ObjectId>)
        ensures
            match parse_object_id_spec(s@) {
                Some(b) => r matches Some(id) && id.bytes@ == b,
                None => r is None,
            },
    {
        match hex_decode(s) {
            Ok(v) => {
                if v.len() != 12 {
                    return None;
                }
                let mut bytes = [0u8; 12];
                let mut i: usize = 0;
                while i < 12
                    invariant
                        v@.len() == 12,
                        i <= 12,
                        forall|j: int| 0 <= j < i ==> bytes@[j] == v@[j],
                    decreases 12 - i,
                {
                    bytes[i] = v[i];
                    i += 1;
                }
                assert(bytes@ =~= v@);
                Some(ObjectId { bytes })
            },
            Err(_) => None,
        }
    }

    /// The identifier as 24 lowercase hexadecimal digits.
    pub fn to_hex(&self) -> (s: String)
        ensures
            s@ == lower_hex(self.bytes@),
            s@.len() == 24,
    {
        let mut s = String::new();
        let mut i: usize = 0;
        while i < 12
            invariant
                i <= 12,
                s@ == lower_hex(self.bytes@.take(i as int)),
                s@.len() == 2 * i,
            decreases 12 - i,
        {
            let b = self.bytes[i];
            push_char(&mut s, hex_char(b / 16));
            push_char(&mut s, hex_char(b % 16));
            assert(self.bytes@.take(i + 1).drop_last() =~= self.bytes@.take(i as int));
            i += 1;
        }
        assert(self.bytes@.take(12) =~= self.bytes@);
        s
    }
}

/// The identifier in an optional string, when the string names one.
pub fn parse_optional_id(id: Option<String>) -> (r: Option<ObjectId>)
    ensures
        match id {
            Some(s) => match parse_object_id_spec(s@) {
                Some(b) => r matches Some(o) && o.bytes@ == b,
                None => r is None,
            },
            None => r is None,
        },
{
    match id {
        Some(s) => ObjectId::parse_str(s.as_str()),
        None => None,
    }
}

proof fn lemma_lower_hex_shape(b: Seq<u8>)
    ensures
        lower_hex(b).len() == 2 * b.len(),
        forall|k: int| 0 <= k < b.len() ==> {
            &&& #[trigger] lower_hex(b)[2 * k] == lower_hex_char((b[k] / 16) as nat)
            &&& lower_hex(b)[2 * k + 1] == lower_hex_char((b[k] % 16) as nat)
        },
    decreases b.len(),
{
    if b.len() > 0 {
        lemma_lower_hex_shape(b.drop_last());
        assert forall|k: int| 0 <= k < b.len() implies {
            &&& #[trigger] lower_hex(b)[2 * k] == lower_hex_char((b[k] / 16) as nat)
            &&& lower_hex(b)[2 * k + 1] == lower_hex_char((b[k] % 16) as nat)
        } by {
            if k < b.len() - 1 {
                assert(b.drop_last()[k] == b[k]);
                assert(lower_hex(b.drop_last())[2 * k] == lower_hex_char((b.drop_last()[k] / 16) as nat));
            }
        }
    }
}

proof fn lemma_hex_char_value(d: nat)
    requires
        d < 16,
    ensures
        '\0' <= lower_hex_char(d) <= '\u{7f}',
        hex_digit_value(lower_hex_char(d) as u8) == Some(d as u8),
{
}

proof fn lemma_all_hex_digits(x: Seq<u8>, from: int)
    requires
        0 <= from,
        forall|i: int| 0 <= i < x.len() ==> #[trigger] hex_digit_value(x[i]) is Some,
    ensures
        first_non_hex(x, from) is None,
    decreases x.len() - from,
{
    if from < x.len() {
        lemma_all_hex_digits(x, from + 1);
    }
}

/// Writing an identifier in hexadecimal and parsing the text gives the
/// identifier back.
pub proof fn lemma_object_id_hex_roundtrip(b: Seq<u8>)
    requires
        b.len() == 12,
    ensures
        parse_object_id_spec(lower_hex(b)) == Some(b),
{
    let h = lower_hex(b);
    lemma_lower_hex_shape(b);
    assert forall|i: int| 0 <= i < h.len() implies '\0' <= #[trigger] h[i] <= '\u{7f}'
        && hex_digit_value(h[i] as u8) == Some((if i % 2 == 0 { b[i / 2] / 16 } else { b[i / 2] % 16 }) as u8) by {
        let k = i / 2;
        if i % 2 == 0 {
            assert(i == 2 * k);
            assert(h[2 * k] == lower_hex_char((b[k] / 16) as nat));
            lemma_hex_char_value((b[k] / 16) as nat);
        } else {
            assert(i == 2 * k + 1);
            assert(h[2 * k] == lower_hex_char((b[k] / 16) as nat));
            assert(h[2 * k + 1] == lower_hex_char((b[k] % 16) as nat));
            lemma_hex_char_value((b[k] % 16) as nat);
        }
    }
    assert(is_ascii_chars(h));
    is_ascii_chars_encode_utf8(h);
    let x = encode_utf8(h);
    assert(x.len() == 24);
    assert forall|i: int| 0 <= i < x.len() implies #[trigger] hex_digit_value(x[i]) is Some by {
        assert(h[i] as u8 == x[i]);
    }
    lemma_all_hex_digits(x, 0);
    assert forall|k: int| 0 <= k < 12 implies #[trigger] hex_pair_value(x, k) == b[k] by {
        assert(h[2 * k] as u8 == x[2 * k]);
        assert(h[2 * k + 1] as u8 == x[2 * k + 1]);
        assert(hex_digit_value(x[2 * k]) == Some((b[k] / 16) as u8));
        assert(hex_digit_value(x[2 * k + 1]) == Some((b[k] % 16) as u8));
    }
    assert(Seq::new(12, |k: int| hex_pair_value(x, k)) =~= b);
}

} // verus!
