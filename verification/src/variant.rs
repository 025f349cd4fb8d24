//! The tag registry and the statically typed `Variant`.

use vstd::prelude::*;

use crate::com_types::currency::Currency;
use crate::com_types::date::DateTime;
use crate::com_types::decimal::Decimal;
use crate::com_types::ptr_wrapper::InterfaceHandle;
use crate::com_types::ptr_wrapper::PtrWrapper;

verus! {

/// The by-reference flag, layered on top of the base tag code in the 16-bit
/// tag field.  Base codes never collide with this bit.
pub const VT_BYREF: u16 = 0x4000;

/// The canonical enumeration of base tag codes of the wire format.
#[allow(non_camel_case_types)]
#[derive(Clone, Copy, Debug, PartialEq, Eq, Structural)]
pub enum VariantType {
    VT_EMPTY,
    VT_NULL,
    VT_I2,
    VT_I4,
    VT_R4,
    VT_R8,
    VT_CY,
    VT_DATE,
    VT_BSTR,
    VT_DISPATCH,
    VT_ERROR,
    VT_BOOL,
    VT_VARIANT,
    VT_UNKNOWN,
    VT_DECIMAL,
    VT_I1,
    VT_UI1,
    VT_UI2,
    VT_UI4,
    VT_I8,
    VT_UI8,
    VT_INT,
    VT_UINT,
    VT_VOID,
    VT_HRESULT,
    VT_PTR,
    VT_SAFEARRAY,
    VT_CARRAY,
    VT_USERDEFINED,
    VT_LPSTR,
    VT_LPWSTR,
    VT_RECORD,
    VT_INT_PTR,
    VT_UINT_PTR,
}

/// How a base tag code may legally appear in a wire value.
#[derive(Clone, Copy, Debug, PartialEq, Eq, Structural)]
pub enum TagClass {
    /// Only the direct (inline) form is accepted.
    DirectOnly,
    /// Only the by-reference (aliased) form is accepted.
    RefOnly,
    /// Both the direct and the by-reference form are accepted.
    Dual,
    /// The code may only appear in a type description, never as a value.
    DescriptorOnly,
    /// The code is recognized but carrying a value of it is not implemented.
    Unimplemented,
}

impl VariantType {
    /// The numeric base code of this tag.
    pub open spec fn code_spec(self) -> u16 {
        match self {
            VariantType::VT_EMPTY => 0,
            VariantType::VT_NULL => 1,
            VariantType::VT_I2 => 2,
            VariantType::VT_I4 => 3,
            VariantType::VT_R4 => 4,
            VariantType::VT_R8 => 5,
            VariantType::VT_CY => 6,
            VariantType::VT_DATE => 7,
            VariantType::VT_BSTR => 8,
            VariantType::VT_DISPATCH => 9,
            VariantType::VT_ERROR => 10,
            VariantType::VT_BOOL => 11,
            VariantType::VT_VARIANT => 12,
            VariantType::VT_UNKNOWN => 13,
            VariantType::VT_DECIMAL => 14,
            VariantType::VT_I1 => 16,
            VariantType::VT_UI1 => 17,
            VariantType::VT_UI2 => 18,
            VariantType::VT_UI4 => 19,
            VariantType::VT_I8 => 20,
            VariantType::VT_UI8 => 21,
            VariantType::VT_INT => 22,
            VariantType::VT_UINT => 23,
            VariantType::VT_VOID => 24,
            VariantType::VT_HRESULT => 25,
            VariantType::VT_PTR => 26,
            VariantType::VT_SAFEARRAY => 27,
            VariantType::VT_CARRAY => 28,
            VariantType::VT_USERDEFINED => 29,
            VariantType::VT_LPSTR => 30,
            VariantType::VT_LPWSTR => 31,
            VariantType::VT_RECORD => 36,
            VariantType::VT_INT_PTR => 37,
            VariantType::VT_UINT_PTR => 38,
        }
    }

    /// The numeric base code of this tag.
    pub fn code(self) -> (c: u16)
        ensures
            c == self.code_spec(),
    {
        match self {
            VariantType::VT_EMPTY => 0,
            VariantType::VT_NULL => 1,
            VariantType::VT_I2 => 2,
            VariantType::VT_I4 => 3,
            VariantType::VT_R4 => 4,
            VariantType::VT_R8 => 5,
            VariantType::VT_CY => 6,
            VariantType::VT_DATE => 7,
            VariantType::VT_BSTR => 8,
            VariantType::VT_DISPATCH => 9,
            VariantType::VT_ERROR => 10,
            VariantType::VT_BOOL => 11,
            VariantType::VT_VARIANT => 12,
            VariantType::VT_UNKNOWN => 13,
            VariantType::VT_DECIMAL => 14,
            VariantType::VT_I1 => 16,
            VariantType::VT_UI1 => 17,
            VariantType::VT_UI2 => 18,
            VariantType::VT_UI4 => 19,
            VariantType::VT_I8 => 20,
            VariantType::VT_UI8 => 21,
            VariantType::VT_INT => 22,
            VariantType::VT_UINT => 23,
            VariantType::VT_VOID => 24,
            VariantType::VT_HRESULT => 25,
            VariantType::VT_PTR => 26,
            VariantType::VT_SAFEARRAY => 27,
            VariantType::VT_CARRAY => 28,
            VariantType::VT_USERDEFINED => 29,
            VariantType::VT_LPSTR => 30,
            VariantType::VT_LPWSTR => 31,
            VariantType::VT_RECORD => 36,
            VariantType::VT_INT_PTR => 37,
            VariantType::VT_UINT_PTR => 38,
        }
    }

    /// The tag whose base code is `c`, if `c` is recognized.
    pub open spec fn from_code_spec(c: u16) -> Option<VariantType> {
        match c {
            0u16 => Some(VariantType::VT_EMPTY),
            1u16 => Some(VariantType::VT_NULL),
            2u16 => Some(VariantType::VT_I2),
            3u16 => Some(VariantType::VT_I4),
            4u16 => Some(VariantType::VT_R4),
            5u16 => Some(VariantType::VT_R8),
            6u16 => Some(VariantType::VT_CY),
            7u16 => Some(VariantType::VT_DATE),
            8u16 => Some(VariantType::VT_BSTR),
            9u16 => Some(VariantType::VT_DISPATCH),
            10u16 => Some(VariantType::VT_ERROR),
            11u16 => Some(VariantType::VT_BOOL),
            12u16 => Some(VariantType::VT_VARIANT),
            13u16 => Some(VariantType::VT_UNKNOWN),
            14u16 => Some(VariantType::VT_DECIMAL),
            16u16 => Some(VariantType::VT_I1),
            17u16 => Some(VariantType::VT_UI1),
            18u16 => Some(VariantType::VT_UI2),
            19u16 => Some(VariantType::VT_UI4),
            20u16 => Some(VariantType::VT_I8),
            21u16 => Some(VariantType::VT_UI8),
            22u16 => Some(VariantType::VT_INT),
            23u16 => Some(VariantType::VT_UINT),
            24u16 => Some(VariantType::VT_VOID),
            25u16 => Some(VariantType::VT_HRESULT),
            26u16 => Some(VariantType::VT_PTR),
            27u16 => Some(VariantType::VT_SAFEARRAY),
            28u16 => Some(VariantType::VT_CARRAY),
            29u16 => Some(VariantType::VT_USERDEFINED),
            30u16 => Some(VariantType::VT_LPSTR),
            31u16 => Some(VariantType::VT_LPWSTR),
            36u16 => Some(VariantType::VT_RECORD),
            37u16 => Some(VariantType::VT_INT_PTR),
            38u16 => Some(VariantType::VT_UINT_PTR),
            _ => None,
        }
    }

    /// The tag whose base code is `c`, if `c` is recognized.
    pub fn from_code(c: u16) -> (t: Option<VariantType>)
        ensures
            t == Self::from_code_spec(c),
    {
        match c {
            0u16 => Some(VariantType::VT_EMPTY),
            1u16 => Some(VariantType::VT_NULL),
            2u16 => Some(VariantType::VT_I2),
            3u16 => Some(VariantType::VT_I4),
            4u16 => Some(VariantType::VT_R4),
            5u16 => Some(VariantType::VT_R8),
            6u16 => Some(VariantType::VT_CY),
            7u16 => Some(VariantType::VT_DATE),
            8u16 => Some(VariantType::VT_BSTR),
            9u16 => Some(VariantType::VT_DISPATCH),
            10u16 => Some(VariantType::VT_ERROR),
            11u16 => Some(VariantType::VT_BOOL),
            12u16 => Some(VariantType::VT_VARIANT),
            13u16 => Some(VariantType::VT_UNKNOWN),
            14u16 => Some(VariantType::VT_DECIMAL),
            16u16 => Some(VariantType::VT_I1),
            17u16 => Some(VariantType::VT_UI1),
            18u16 => Some(VariantType::VT_UI2),
            19u16 => Some(VariantType::VT_UI4),
            20u16 => Some(VariantType::VT_I8),
            21u16 => Some(VariantType::VT_UI8),
            22u16 => Some(VariantType::VT_INT),
            23u16 => Some(VariantType::VT_UINT),
            24u16 => Some(VariantType::VT_VOID),
            25u16 => Some(VariantType::VT_HRESULT),
            26u16 => Some(VariantType::VT_PTR),
            27u16 => Some(VariantType::VT_SAFEARRAY),
            28u16 => Some(VariantType::VT_CARRAY),
            29u16 => Some(VariantType::VT_USERDEFINED),
            30u16 => Some(VariantType::VT_LPSTR),
            31u16 => Some(VariantType::VT_LPWSTR),
            36u16 => Some(VariantType::VT_RECORD),
            37u16 => Some(VariantType::VT_INT_PTR),
            38u16 => Some(VariantType::VT_UINT_PTR),
            _ => None,
        }
    }

    /// How this tag may legally appear in a wire value.
    pub open spec fn classify_spec(self) -> TagClass {
        match self {
            VariantType::VT_EMPTY => TagClass::DirectOnly,
            VariantType::VT_NULL => TagClass::DirectOnly,
            VariantType::VT_BSTR => TagClass::DirectOnly,
            VariantType::VT_DISPATCH => TagClass::DirectOnly,
            VariantType::VT_UNKNOWN => TagClass::DirectOnly,
            VariantType::VT_VARIANT => TagClass::RefOnly,
            VariantType::VT_I2 => TagClass::Dual,
            VariantType::VT_I4 => TagClass::Dual,
            VariantType::VT_R4 => TagClass::Dual,
            VariantType::VT_R8 => TagClass::Dual,
            VariantType::VT_CY => TagClass::Dual,
            VariantType::VT_DATE => TagClass::Dual,
            VariantType::VT_ERROR => TagClass::Dual,
            VariantType::VT_BOOL => TagClass::Dual,
            VariantType::VT_DECIMAL => TagClass::Dual,
            VariantType::VT_I1 => TagClass::Dual,
            VariantType::VT_UI1 => TagClass::Dual,
            VariantType::VT_UI2 => TagClass::Dual,
            VariantType::VT_UI4 => TagClass::Dual,
            VariantType::VT_I8 => TagClass::Dual,
            VariantType::VT_UI8 => TagClass::Dual,
            VariantType::VT_INT => TagClass::Dual,
            VariantType::VT_UINT => TagClass::Dual,
            VariantType::VT_RECORD => TagClass::Unimplemented,
            VariantType::VT_VOID => TagClass::DescriptorOnly,
            VariantType::VT_HRESULT => TagClass::DescriptorOnly,
            VariantType::VT_PTR => TagClass::DescriptorOnly,
            VariantType::VT_SAFEARRAY => TagClass::DescriptorOnly,
            VariantType::VT_CARRAY => TagClass::DescriptorOnly,
            VariantType::VT_USERDEFINED => TagClass::DescriptorOnly,
            VariantType::VT_LPSTR => TagClass::DescriptorOnly,
            VariantType::VT_LPWSTR => TagClass::DescriptorOnly,
            VariantType::VT_INT_PTR => TagClass::DescriptorOnly,
            VariantType::VT_UINT_PTR => TagClass::DescriptorOnly,
        }
    }

    /// How this tag may legally appear in a wire value.
    pub fn classify(self) -> (cl: TagClass)
        ensures
            cl == self.classify_spec(),
    {
        match self {
            VariantType::VT_EMPTY => TagClass::DirectOnly,
            VariantType::VT_NULL => TagClass::DirectOnly,
            VariantType::VT_BSTR => TagClass::DirectOnly,
            VariantType::VT_DISPATCH => TagClass::DirectOnly,
            VariantType::VT_UNKNOWN => TagClass::DirectOnly,
            VariantType::VT_VARIANT => TagClass::RefOnly,
            VariantType::VT_RECORD => TagClass::Unimplemented,
            VariantType::VT_VOID => TagClass::DescriptorOnly,
            VariantType::VT_HRESULT => TagClass::DescriptorOnly,
            VariantType::VT_PTR => TagClass::DescriptorOnly,
            VariantType::VT_SAFEARRAY => TagClass::DescriptorOnly,
            VariantType::VT_CARRAY => TagClass::DescriptorOnly,
            VariantType::VT_USERDEFINED => TagClass::DescriptorOnly,
            VariantType::VT_LPSTR => TagClass::DescriptorOnly,
            VariantType::VT_LPWSTR => TagClass::DescriptorOnly,
            VariantType::VT_INT_PTR => TagClass::DescriptorOnly,
            VariantType::VT_UINT_PTR => TagClass::DescriptorOnly,
            _ => TagClass::Dual,
        }
    }

    /// The full 16-bit tag field of the by-reference form of this tag.
    pub fn byref(self) -> (c: u16)
        ensures
            c == (self.code_spec() | VT_BYREF),
    {
        self.code() | VT_BYREF
    }

    /// Every recognized base code keeps clear of the by-reference bit.
    pub proof fn lemma_code_clear_of_byref(self)
        ensures
            self.code_spec() & VT_BYREF == 0,
            self.code_spec() <= 38,
    {
        let c = self.code_spec();
        assert(c <= 38);
        assert(c <= 38 ==> c & 0x4000u16 == 0) by (bit_vector);
    }

    /// `from_code_spec` inverts `code_spec`: the registry is a bijection
    /// between the recognized codes and the tags.
    pub proof fn lemma_registry_bijection(self)
        ensures
            Self::from_code_spec(self.code_spec()) == Some(self),
    {
    }

    /// A recognized code is reproduced by the tag it names.
    pub proof fn lemma_registry_injective(c: u16)
        ensures
            Self::from_code_spec(c) matches Some(t) ==> t.code_spec() == c,
    {
    }
}

/// The statically typed variant: exactly one tag is active at a time.
///
/// Direct arms hold the value inline (the two float widths as their
/// IEEE-754 bit patterns, since the conversion core never computes with
/// them).  `*Ref` arms alias externally owned storage through
/// [`PtrWrapper`] and never own what they point at.  The text arm owns
/// host text; the handle arms own one counted interface reference each,
/// with `None` for a null handle.
#[derive(Debug, PartialEq)]
pub enum Variant {
    Empty,
    Null,
    Bool(bool),
    BoolRef(PtrWrapper),
    I8(i8),
    I8Ref(PtrWrapper),
    I16(i16),
    I16Ref(PtrWrapper),
    I32(i32),
    I32Ref(PtrWrapper),
    I64(i64),
    I64Ref(PtrWrapper),
    U8(u8),
    U8Ref(PtrWrapper),
    U16(u16),
    U16Ref(PtrWrapper),
    U32(u32),
    U32Ref(PtrWrapper),
    U64(u64),
    U64Ref(PtrWrapper),
    F32(u32),
    F32Ref(PtrWrapper),
    F64(u64),
    F64Ref(PtrWrapper),
    Currency(Currency),
    CurrencyRef(PtrWrapper),
    Decimal(Decimal),
    DecimalRef(PtrWrapper),
    Date(DateTime),
    DateRef(PtrWrapper),
    Str(String),
    StrRef(PtrWrapper),
    Dispatch(Option<InterfaceHandle>),
    Unknown(Option<InterfaceHandle>),
    Error(i32),
    ErrorRef(PtrWrapper),
    VariantRef(PtrWrapper),
}

/// The mathematical value of a variant: aliases and handles as their
/// addresses, text as its characters, everything else verbatim.
pub enum VariantV {
    Empty,
    Null,
    Bool(bool),
    BoolRef(u64),
    I8(i8),
    I8Ref(u64),
    I16(i16),
    I16Ref(u64),
    I32(i32),
    I32Ref(u64),
    I64(i64),
    I64Ref(u64),
    U8(u8),
    U8Ref(u64),
    U16(u16),
    U16Ref(u64),
    U32(u32),
    U32Ref(u64),
    U64(u64),
    U64Ref(u64),
    F32(u32),
    F32Ref(u64),
    F64(u64),
    F64Ref(u64),
    Currency(Currency),
    CurrencyRef(u64),
    Decimal(Decimal),
    DecimalRef(u64),
    Date(DateTime),
    DateRef(u64),
    Str(Seq<char>),
    StrRef(u64),
    Dispatch(Option<u64>),
    Unknown(Option<u64>),
    Error(i32),
    ErrorRef(u64),
    VariantRef(u64),
}

impl View for Variant {
    type V = VariantV;

    open spec fn view(&self) -> VariantV {
        match self {
            Variant::Empty => VariantV::Empty,
            Variant::Null => VariantV::Null,
            Variant::Bool(x) => VariantV::Bool(*x),
            Variant::BoolRef(p) => VariantV::BoolRef(p.addr_spec()),
            Variant::I8(x) => VariantV::I8(*x),
            Variant::I8Ref(p) => VariantV::I8Ref(p.addr_spec()),
            Variant::I16(x) => VariantV::I16(*x),
            Variant::I16Ref(p) => VariantV::I16Ref(p.addr_spec()),
            Variant::I32(x) => VariantV::I32(*x),
            Variant::I32Ref(p) => VariantV::I32Ref(p.addr_spec()),
            Variant::I64(x) => VariantV::I64(*x),
            Variant::I64Ref(p) => VariantV::I64Ref(p.addr_spec()),
            Variant::U8(x) => VariantV::U8(*x),
            Variant::U8Ref(p) => VariantV::U8Ref(p.addr_spec()),
            Variant::U16(x) => VariantV::U16(*x),
            Variant::U16Ref(p) => VariantV::U16Ref(p.addr_spec()),
            Variant::U32(x) => VariantV::U32(*x),
            Variant::U32Ref(p) => VariantV::U32Ref(p.addr_spec()),
            Variant::U64(x) => VariantV::U64(*x),
            Variant::U64Ref(p) => VariantV::U64Ref(p.addr_spec()),
            Variant::F32(x) => VariantV::F32(*x),
            Variant::F32Ref(p) => VariantV::F32Ref(p.addr_spec()),
            Variant::F64(x) => VariantV::F64(*x),
            Variant::F64Ref(p) => VariantV::F64Ref(p.addr_spec()),
            Variant::Currency(x) => VariantV::Currency(*x),
            Variant::CurrencyRef(p) => VariantV::CurrencyRef(p.addr_spec()),
            Variant::Decimal(x) => VariantV::Decimal(*x),
            Variant::DecimalRef(p) => VariantV::DecimalRef(p.addr_spec()),
            Variant::Date(x) => VariantV::Date(*x),
            Variant::DateRef(p) => VariantV::DateRef(p.addr_spec()),
            Variant::Str(s) => VariantV::Str(s@),
            Variant::StrRef(p) => VariantV::StrRef(p.addr_spec()),
            Variant::Dispatch(h) => VariantV::Dispatch(
                match h {
                    Some(x) => Some(x.addr_spec()),
                    None => None,
                },
            ),
            Variant::Unknown(h) => VariantV::Unknown(
                match h {
                    Some(x) => Some(x.addr_spec()),
                    None => None,
                },
            ),
            Variant::Error(x) => VariantV::Error(*x),
            Variant::ErrorRef(p) => VariantV::ErrorRef(p.addr_spec()),
            Variant::VariantRef(p) => VariantV::VariantRef(p.addr_spec()),
        }
    }
}

impl VariantV {
    /// Whether this variant aliases external storage.
    pub open spec fn is_byref(self) -> bool {
        match self {
            VariantV::BoolRef(_) => true,
            VariantV::I8Ref(_) => true,
            VariantV::I16Ref(_) => true,
            VariantV::I32Ref(_) => true,
            VariantV::I64Ref(_) => true,
            VariantV::U8Ref(_) => true,
            VariantV::U16Ref(_) => true,
            VariantV::U32Ref(_) => true,
            VariantV::U64Ref(_) => true,
            VariantV::F32Ref(_) => true,
            VariantV::F64Ref(_) => true,
            VariantV::CurrencyRef(_) => true,
            VariantV::DecimalRef(_) => true,
            VariantV::DateRef(_) => true,
            VariantV::StrRef(_) => true,
            VariantV::ErrorRef(_) => true,
            VariantV::VariantRef(_) => true,
            _ => false,
        }
    }

    /// The alias address of a by-reference variant.
    pub open spec fn ref_addr(self) -> u64 {
        match self {
            VariantV::BoolRef(a) => a,
            VariantV::I8Ref(a) => a,
            VariantV::I16Ref(a) => a,
            VariantV::I32Ref(a) => a,
            VariantV::I64Ref(a) => a,
            VariantV::U8Ref(a) => a,
            VariantV::U16Ref(a) => a,
            VariantV::U32Ref(a) => a,
            VariantV::U64Ref(a) => a,
            VariantV::F32Ref(a) => a,
            VariantV::F64Ref(a) => a,
            VariantV::CurrencyRef(a) => a,
            VariantV::DecimalRef(a) => a,
            VariantV::DateRef(a) => a,
            VariantV::StrRef(a) => a,
            VariantV::ErrorRef(a) => a,
            VariantV::VariantRef(a) => a,
            _ => 0,
        }
    }

    /// A well-formed variant aliases no null address and holds no
    /// null-address handle (a null handle is `None`).
    pub open spec fn wf(self) -> bool {
        if self.is_byref() {
            self.ref_addr() != 0
        } else {
            match self {
                VariantV::Dispatch(Some(a)) => a != 0,
                VariantV::Unknown(Some(a)) => a != 0,
                _ => true,
            }
        }
    }
}

impl Variant {
    /// Whether this variant aliases external storage.
    pub fn is_byref(&self) -> (b: bool)
        ensures
            b == self@.is_byref(),
    {
        match self {
            Variant::BoolRef(_) => true,
            Variant::I8Ref(_) => true,
            Variant::I16Ref(_) => true,
            Variant::I32Ref(_) => true,
            Variant::I64Ref(_) => true,
            Variant::U8Ref(_) => true,
            Variant::U16Ref(_) => true,
            Variant::U32Ref(_) => true,
            Variant::U64Ref(_) => true,
            Variant::F32Ref(_) => true,
            Variant::F64Ref(_) => true,
            Variant::CurrencyRef(_) => true,
            Variant::DecimalRef(_) => true,
            Variant::DateRef(_) => true,
            Variant::StrRef(_) => true,
            Variant::ErrorRef(_) => true,
            Variant::VariantRef(_) => true,
            _ => false,
        }
    }

    /// A copy of a directly held variant.  Aliasing variants cannot be
    /// duplicated: two aliases of one storage would defeat the exclusive
    /// access the codec assumes, so callers must not ask for one.  Cloning
    /// a handle-carrying variant yields a second counted reference to the
    /// same object.
    pub fn clone(&self) -> (r: Variant)
        requires
            !self@.is_byref(),
        ensures
            r@ == self@,
    {
        match self {
            Variant::Empty => Variant::Empty,
            Variant::Null => Variant::Null,
            Variant::Bool(x) => Variant::Bool(*x),
            Variant::I8(x) => Variant::I8(*x),
            Variant::I16(x) => Variant::I16(*x),
            Variant::I32(x) => Variant::I32(*x),
            Variant::I64(x) => Variant::I64(*x),
            Variant::U8(x) => Variant::U8(*x),
            Variant::U16(x) => Variant::U16(*x),
            Variant::U32(x) => Variant::U32(*x),
            Variant::U64(x) => Variant::U64(*x),
            Variant::F32(x) => Variant::F32(*x),
            Variant::F64(x) => Variant::F64(*x),
            Variant::Currency(x) => Variant::Currency(*x),
            Variant::Decimal(x) => Variant::Decimal(*x),
            Variant::Date(x) => Variant::Date(*x),
            Variant::Str(s) => Variant::Str(s.clone()),
            Variant::Dispatch(h) => Variant::Dispatch(
                match h {
                    Some(x) => Some(InterfaceHandle::from_nonzero(x.addr())),
                    None => None,
                },
            ),
            Variant::Unknown(h) => Variant::Unknown(
                match h {
                    Some(x) => Some(InterfaceHandle::from_nonzero(x.addr())),
                    None => None,
                },
            ),
            Variant::Error(x) => Variant::Error(*x),
            Variant::BoolRef(_) | Variant::I8Ref(_) | Variant::I16Ref(_) | Variant::I32Ref(_)
                | Variant::I64Ref(_) | Variant::U8Ref(_) | Variant::U16Ref(_) | Variant::U32Ref(_)
                | Variant::U64Ref(_) | Variant::F32Ref(_) | Variant::F64Ref(_)
                | Variant::CurrencyRef(_) | Variant::DecimalRef(_) | Variant::DateRef(_)
                | Variant::StrRef(_) | Variant::ErrorRef(_) | Variant::VariantRef(_) => {
                // ruled out by the precondition
                proof {
                    assert(false);
                }
                Variant::Empty
            },
        }
    }
}

/// Turning a host value into the variant that carries it.
pub trait ToVariant: Sized {
    /// The variant value this host value becomes.
    spec fn to_variant_view(&self) -> VariantV;

    /// Wraps this host value in its variant.
    fn to_variant(self) -> (v: Variant)
        ensures
            v@ == self.to_variant_view(),
    ;
}

impl ToVariant for bool {
    open spec fn to_variant_view(&self) -> VariantV {
        VariantV::Bool(*self)
    }

    fn to_variant(self) -> (v: Variant) {
        Variant::Bool(self)
    }
}

impl ToVariant for i8 {
    open spec fn to_variant_view(&self) -> VariantV {
        VariantV::I8(*self)
    }

    fn to_variant(self) -> (v: Variant) {
        Variant::I8(self)
    }
}

impl ToVariant for i16 {
    open spec fn to_variant_view(&self) -> VariantV {
        VariantV::I16(*self)
    }

    fn to_variant(self) -> (v: Variant) {
        Variant::I16(self)
    }
}

impl ToVariant for i32 {
    open spec fn to_variant_view(&self) -> VariantV {
        VariantV::I32(*self)
    }

    fn to_variant(self) -> (v: Variant) {
        Variant::I32(self)
    }
}

impl ToVariant for i64 {
    open spec fn to_variant_view(&self) -> VariantV {
        VariantV::I64(*self)
    }

    fn to_variant(self) -> (v: Variant) {
        Variant::I64(self)
    }
}

impl ToVariant for u8 {
    open spec fn to_variant_view(&self) -> VariantV {
        VariantV::U8(*self)
    }

    fn to_variant(self) -> (v: Variant) {
        Variant::U8(self)
    }
}

impl ToVariant for u16 {
    open spec fn to_variant_view(&self) -> VariantV {
        VariantV::U16(*self)
    }

    fn to_variant(self) -> (v: Variant) {
        Variant::U16(self)
    }
}

impl ToVariant for u32 {
    open spec fn to_variant_view(&self) -> VariantV {
        VariantV::U32(*self)
    }

    fn to_variant(self) -> (v: Variant) {
        Variant::U32(self)
    }
}

impl ToVariant for u64 {
    open spec fn to_variant_view(&self) -> VariantV {
        VariantV::U64(*self)
    }

    fn to_variant(self) -> (v: Variant) {
        Variant::U64(self)
    }
}

impl ToVariant for () {
    open spec fn to_variant_view(&self) -> VariantV {
        VariantV::Null
    }

    fn to_variant(self) -> (v: Variant) {
        Variant::Null
    }
}

impl ToVariant for String {
    open spec fn to_variant_view(&self) -> VariantV {
        VariantV::Str(self@)
    }

    fn to_variant(self) -> (v: Variant) {
        Variant::Str(self)
    }
}

impl ToVariant for &str {
    open spec fn to_variant_view(&self) -> VariantV {
        VariantV::Str(self@)
    }

    fn to_variant(self) -> (v: Variant) {
        Variant::Str(self.to_owned())
    }
}

impl From<bool> for Variant {
    /// The boolean variant of the value.
    fn from(t: bool) -> (v: Variant) {
        Variant::Bool(t)
    }
}

impl vstd::std_specs::convert::FromSpecImpl<bool> for Variant {
    open spec fn obeys_from_spec() -> bool {
        true
    }

    open spec fn from_spec(t: bool) -> Variant {
        Variant::Bool(t)
    }
}

impl From<i32> for Variant {
    /// The 32-bit integer variant of the value.
    fn from(t: i32) -> (v: Variant) {
        Variant::I32(t)
    }
}

impl vstd::std_specs::convert::FromSpecImpl<i32> for Variant {
    open spec fn obeys_from_spec() -> bool {
        true
    }

    open spec fn from_spec(t: i32) -> Variant {
        Variant::I32(t)
    }
}

impl From<i64> for Variant {
    /// The 64-bit integer variant of the value.
    fn from(t: i64) -> (v: Variant) {
        Variant::I64(t)
    }
}

impl vstd::std_specs::convert::FromSpecImpl<i64> for Variant {
    open spec fn obeys_from_spec() -> bool {
        true
    }

    open spec fn from_spec(t: i64) -> Variant {
        Variant::I64(t)
    }
}

impl From<&str> for Variant {
    /// The text variant of the value.  What `from` returns is stated by
    /// [`ToVariant::to_variant`], which this forwards to; a spec-level
    /// `from` cannot build host text, so `obeys_from_spec` stays false.
    fn from(t: &str) -> (v: Variant)
        ensures
            v@ == VariantV::Str(t@),
    {
        t.to_variant()
    }
}

impl vstd::std_specs::convert::FromSpecImpl<&str> for Variant {
    open spec fn obeys_from_spec() -> bool {
        false
    }

    open spec fn from_spec(t: &str) -> Variant {
        Variant::Empty
    }
}

} // verus!
