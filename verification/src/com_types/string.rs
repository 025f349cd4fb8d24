//! The text codec: host text against UTF-16 wire buffers.
//!
//! The primary wire form is a length-prefixed buffer of UTF-16 code units
//! with no restriction on its contents; the by-reference form is
//! NUL-terminated and so refuses text with an embedded NUL.

use vstd::prelude::*;

use crate::convert::VariantConversionError;
use vstd::utf8::char_is_scalar;
use vstd::utf8::char_u32_cast;

verus! {

/// Whether `u` is a leading (high) surrogate code unit.
pub open spec fn is_high_surrogate(u: u16) -> bool {
    0xD800 <= u < 0xDC00
}

/// Whether `u` is a trailing (low) surrogate code unit.
pub open spec fn is_low_surrogate(u: u16) -> bool {
    0xDC00 <= u < 0xE000
}

/// Whether `u` is a surrogate code unit of either kind.
pub open spec fn is_surrogate(u: u16) -> bool {
    0xD800 <= u < 0xE000
}

/// The UTF-16 code units of a single scalar value: scalars below 0x10000
/// are one unit, the rest a surrogate pair.
pub open spec fn utf16_encode_char(c: char) -> Seq<u16> {
    let v: u32 = c as u32;
    if v < 0x10000 {
        seq![v as u16]
    } else {
        seq![
            (0xD800 + (v - 0x10000) / 0x400) as u16,
            (0xDC00 + (v - 0x10000) % 0x400) as u16,
        ]
    }
}

/// The UTF-16 encoding of a sequence of characters.
pub open spec fn utf16_encode(s: Seq<char>) -> Seq<u16>
    decreases s.len(),
{
    if s.len() == 0 {
        Seq::empty()
    } else {
        utf16_encode_char(s[0]) + utf16_encode(s.drop_first())
    }
}

/// The characters a well-formed UTF-16 unit sequence denotes, or `None`
/// exactly when the sequence is ill-formed (an unpaired surrogate).
pub open spec fn utf16_decode(u: Seq<u16>) -> Option<Seq<char>>
    decreases u.len(),
{
    if u.len() == 0 {
        Some(Seq::empty())
    } else if !is_surrogate(u[0]) {
        match utf16_decode(u.drop_first()) {
            Some(t) => Some(seq![(u[0] as u32) as char] + t),
            None => None,
        }
    } else if is_high_surrogate(u[0]) && u.len() >= 2 && is_low_surrogate(u[1]) {
        let v: int = 0x10000 + (u[0] - 0xD800) * 0x400 + (u[1] - 0xDC00);
        match utf16_decode(u.skip(2)) {
            Some(t) => Some(seq![(v as u32) as char] + t),
            None => None,
        }
    } else {
        None
    }
}

/// Whether a unit sequence holds an embedded NUL unit.
pub open spec fn contains_nul(u: Seq<u16>) -> bool {
    exists|i: int| 0 <= i < u.len() && u[i] == 0
}

/// Encoding distributes over appending one character.
proof fn lemma_utf16_encode_snoc(s: Seq<char>, c: char)
    ensures
        utf16_encode(s.push(c)) == utf16_encode(s) + utf16_encode_char(c),
    decreases s.len(),
{
    if s.len() == 0 {
        assert(s.push(c)[0] == c);
        assert(s.push(c).drop_first() =~= Seq::<char>::empty());
        assert(utf16_encode(s.push(c)) == utf16_encode_char(c) + utf16_encode(
            Seq::<char>::empty(),
        ));
        assert(utf16_encode(Seq::<char>::empty()) =~= Seq::<u16>::empty());
        assert(utf16_encode(s) =~= Seq::<u16>::empty());
        assert(utf16_encode(s.push(c)) =~= utf16_encode(s) + utf16_encode_char(c));
    } else {
        assert(s.push(c)[0] == s[0]);
        assert(s.push(c).drop_first() =~= s.drop_first().push(c));
        lemma_utf16_encode_snoc(s.drop_first(), c);
        assert(utf16_encode(s.push(c)) =~= utf16_encode(s) + utf16_encode_char(c));
    }
}

/// Decoding inverts encoding: every encoded character sequence is
/// well-formed UTF-16 and reads back as itself.
pub proof fn lemma_utf16_roundtrip(s: Seq<char>)
    ensures
        utf16_decode(utf16_encode(s)) == Some(s),
    decreases s.len(),
{
    if s.len() == 0 {
        assert(utf16_encode(s).len() == 0);
    } else {
        let c: char = s[0];
        let v: u32 = c as u32;
        char_is_scalar(c);
        let u = utf16_encode(s);
        let rest = utf16_encode(s.drop_first());
        lemma_utf16_roundtrip(s.drop_first());
        if v < 0x10000 {
            let unit0: u16 = v as u16;
            assert(unit0 == v);
            assert(!is_surrogate(unit0));
            assert(u[0] == unit0);
            assert(u.drop_first() =~= rest);
            char_u32_cast(c, v);
            assert((unit0 as u32) == v);
            assert(utf16_decode(u) == Some(seq![c] + s.drop_first()));
            assert(seq![c] + s.drop_first() =~= s);
        } else {
            let q: int = (v - 0x10000) / 0x400;
            let r: int = (v - 0x10000) % 0x400;
            vstd::arithmetic::div_mod::lemma_fundamental_div_mod(v - 0x10000, 0x400);
            assert(0 <= q <= 0x3FF);
            assert(0 <= r <= 0x3FF);
            let hi: u16 = (0xD800 + q) as u16;
            let lo: u16 = (0xDC00 + r) as u16;
            assert(is_high_surrogate(hi));
            assert(is_low_surrogate(lo));
            assert(u.len() >= 2);
            assert(u[0] == hi && u[1] == lo);
            assert(u.skip(2) =~= rest);
            assert(0x10000 + (hi - 0xD800) * 0x400 + (lo - 0xDC00) == v);
            char_u32_cast(c, v);
            assert(utf16_decode(u) == Some(seq![c] + s.drop_first()));
            assert(seq![c] + s.drop_first() =~= s);
        }
    }
}

/// Encodes host text into UTF-16 code units.
pub fn utf16_encode_units(s: &str) -> (r: Vec<u16>)
    ensures
        r@ == utf16_encode(s@),
{
    let mut units: Vec<u16> = Vec::new();
    for c in it: s.chars()
        invariant
            it.seq() == s@,
            units@ == utf16_encode(s@.take(it.index() as int)),
    {
        proof {
            assert(s@.take(it.index() + 1) =~= s@.take(it.index() as int).push(c));
            lemma_utf16_encode_snoc(s@.take(it.index() as int), c);
            char_is_scalar(c);
        }
        let v: u32 = c as u32;
        if v < 0x10000 {
            units.push(v as u16);
            proof {
                assert(units@ =~= utf16_encode(s@.take(it.index() + 1)));
            }
        } else {
            units.push((0xD800 + (v - 0x10000) / 0x400) as u16);
            units.push((0xDC00 + (v - 0x10000) % 0x400) as u16);
            proof {
                assert(units@ =~= utf16_encode(s@.take(it.index() + 1)));
            }
        }
    }
    proof {
        assert(s@.take(s@.len() as int) =~= s@);
    }
    units
}

/// Relies on `String::from_utf16`: the string of the given UTF-16 code
/// units, or nothing exactly when the units are ill-formed UTF-16.
#[verifier::external_body]
fn string_from_utf16(units: &Vec<u16>) -> (r: Option<String>)
    ensures
        r is Some <==> utf16_decode(units@) is Some,
        r matches Some(s) ==> Some(s@) == utf16_decode(units@),
{
    String::from_utf16(units.as_slice()).ok()
}

/// Decodes a UTF-16 buffer into host text; fails with the string
/// conversion error exactly when the buffer is ill-formed (an unpaired
/// surrogate).
pub fn utf16_to_string(units: &Vec<u16>) -> (r: Result<String, VariantConversionError>)
    ensures
        r is Ok <==> utf16_decode(units@) is Some,
        r matches Ok(s) ==> Some(s@) == utf16_decode(units@),
        r matches Err(e) ==> e == VariantConversionError::StringConversionError,
{
    match string_from_utf16(units) {
        Some(s) => Ok(s),
        None => Err(VariantConversionError::StringConversionError),
    }
}

/// The NUL-terminated by-reference text form: UTF-16 code units free of
/// embedded NULs, with the terminator left implicit.
#[derive(Debug, PartialEq, Eq, Hash)]
pub struct ComString {
    units: Vec<u16>,
}

impl View for ComString {
    type V = Seq<u16>;

    closed spec fn view(&self) -> Seq<u16> {
        self.units@
    }
}

impl ComString {
    /// A NUL-terminated buffer never holds an embedded NUL unit.
    pub open spec fn wf(self) -> bool {
        !contains_nul(self@)
    }

    /// Encodes host text into the NUL-terminated form; fails with the
    /// string conversion error exactly when the text holds an embedded
    /// NUL.
    pub fn try_from(s: &str) -> (r: Result<ComString, VariantConversionError>)
        ensures
            r is Ok <==> !contains_nul(utf16_encode(s@)),
            r matches Ok(c) ==> c@ == utf16_encode(s@) && c.wf(),
            r matches Err(e) ==> e == VariantConversionError::StringConversionError,
    {
        let units = utf16_encode_units(s);
        Self::from_units(units)
    }

    /// Wraps raw code units as the NUL-terminated form; fails with the
    /// string conversion error exactly when a unit is NUL.
    pub fn from_units(units: Vec<u16>) -> (r: Result<ComString, VariantConversionError>)
        ensures
            r is Ok <==> !contains_nul(units@),
            r matches Ok(c) ==> c@ == units@ && c.wf(),
            r matches Err(e) ==> e == VariantConversionError::StringConversionError,
    {
        let n = units.len();
        for i in 0..n
            invariant
                n == units.len(),
                forall|j: int| 0 <= j < i ==> units@[j] != 0,
        {
            if units[i] == 0 {
                return Err(VariantConversionError::StringConversionError);
            }
        }
        Ok(ComString { units })
    }

    /// Decodes the buffer into host text; fails with the string conversion
    /// error exactly when the units are ill-formed UTF-16.
    pub fn try_into_string(&self) -> (r: Result<String, VariantConversionError>)
        ensures
            r is Ok <==> utf16_decode(self@) is Some,
            r matches Ok(s) ==> Some(s@) == utf16_decode(self@),
            r matches Err(e) ==> e == VariantConversionError::StringConversionError,
    {
        utf16_to_string(&self.units)
    }

    /// The buffer of code units, for the platform boundary to copy out.
    pub fn as_mut_ptr(&mut self) -> (r: &Vec<u16>)
        ensures
            r@ == old(self)@,
            *final(self) == *old(self),
    {
        &self.units
    }
}

} // verus!
