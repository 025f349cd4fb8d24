//! The wire boolean: false is all zeros, true is all ones.

use vstd::prelude::*;

verus! {

/// The two values of the 16-bit wire boolean: `False` is 0 and `True` is
/// all ones (-1).
#[derive(Clone, Copy, Debug, PartialEq, Eq, Hash, Structural)]
pub enum ComBool {
    False,
    True,
}

impl ComBool {
    /// The 16-bit wire encoding of this value.
    pub open spec fn to_i16_spec(self) -> i16 {
        match self {
            ComBool::False => 0i16,
            ComBool::True => -1i16,
        }
    }

    /// The 16-bit wire encoding of this value.
    pub fn to_i16(self) -> (v: i16)
        ensures
            v == self.to_i16_spec(),
    {
        match self {
            ComBool::False => 0,
            ComBool::True => -1,
        }
    }

    /// The value of an exact 16-bit encoding: 0 and -1 are recognized,
    /// everything else is refused.
    pub fn from_i16(v: i16) -> (r: Option<ComBool>)
        ensures
            v == 0 ==> r == Some(ComBool::False),
            v == -1 ==> r == Some(ComBool::True),
            v != 0 && v != -1 ==> r is None,
    {
        if v == 0 {
            Some(ComBool::False)
        } else if v == -1 {
            Some(ComBool::True)
        } else {
            None
        }
    }
}

impl From<bool> for ComBool {
    /// `true` becomes `True` and `false` becomes `False`.
    fn from(value: bool) -> (r: ComBool) {
        if value {
            ComBool::True
        } else {
            ComBool::False
        }
    }
}

impl vstd::std_specs::convert::FromSpecImpl<bool> for ComBool {
    open spec fn obeys_from_spec() -> bool {
        true
    }

    open spec fn from_spec(value: bool) -> ComBool {
        if value {
            ComBool::True
        } else {
            ComBool::False
        }
    }
}

impl From<ComBool> for bool {
    /// Every value but `False` reads as `true`.
    fn from(value: ComBool) -> (r: bool) {
        match value {
            ComBool::False => false,
            ComBool::True => true,
        }
    }
}

impl vstd::std_specs::convert::FromSpecImpl<ComBool> for bool {
    open spec fn obeys_from_spec() -> bool {
        true
    }

    open spec fn from_spec(value: ComBool) -> bool {
        value != ComBool::False
    }
}

} // verus!
