//! The values that cross to the native runtime and the integers under which
//! the runtime knows them.
//!
//! A variant of one of the four enumerations crosses as an unsigned 64-bit
//! integer: `raw` gives that integer and `from_raw` reads one back. The two
//! are inverse to each other, which the proof functions of each type state.
//! A boolean comes back from the runtime as a signed 8-bit integer.

use vstd::prelude::*;

verus! {

/// How a kernel may use the buffer that is bound to a slot of its pipeline.
#[allow(non_camel_case_types)]
#[derive(Clone, Copy, PartialEq, Eq, Structural, Hash, Debug)]
pub enum MTLMutability {
    Default,
    Mutable,
    Immutable,
}

impl MTLMutability {
    /// The integer that the native runtime uses for this variant.
    pub open spec fn raw_value(self) -> u64 {
        match self {
            MTLMutability::Default => 0,
            MTLMutability::Mutable => 1,
            MTLMutability::Immutable => 2,
        }
    }

    /// The variant that the native runtime knows as `raw`, if there is one.
    pub open spec fn of_raw_value(raw: u64) -> Option<Self> {
        match raw {
            0 => Some(MTLMutability::Default),
            1 => Some(MTLMutability::Mutable),
            2 => Some(MTLMutability::Immutable),
            _ => None,
        }
    }

    /// Encodes this variant for the native runtime.
    pub fn raw(self) -> (r: u64)
        ensures
            r == self.raw_value(),
    {
        match self {
            MTLMutability::Default => 0,
            MTLMutability::Mutable => 1,
            MTLMutability::Immutable => 2,
        }
    }

    /// Decodes an integer of the native runtime. The result is `None` exactly
    /// when no variant has that value, which is when `raw` is 3 or more.
    pub fn from_raw(raw: u64) -> (r: Option<Self>)
        ensures
            r == Self::of_raw_value(raw),
            r is Some <==> raw < 3,
    {
        match raw {
            0 => Some(MTLMutability::Default),
            1 => Some(MTLMutability::Mutable),
            2 => Some(MTLMutability::Immutable),
            _ => None,
        }
    }

    /// Every variant is read back from its own value, and that value is below 3.
    pub proof fn lemma_decode_encode(v: Self)
        ensures
            Self::of_raw_value(v.raw_value()) == Some(v),
            v.raw_value() < 3,
    {
    }

    /// Decoding is the inverse of encoding: an integer is read as a variant
    /// exactly when some variant has it as its value, which is when it is below
    /// 3, and the variant that is read is one that has it.
    pub proof fn lemma_encode_decode(raw: u64)
        ensures
            Self::of_raw_value(raw) is Some <==> raw < 3,
            Self::of_raw_value(raw) is Some <==> exists|v: Self| v.raw_value() == raw,
            Self::of_raw_value(raw) matches Some(v) ==> v.raw_value() == raw,
    {
        if let Some(v) = Self::of_raw_value(raw) {
            assert(v.raw_value() == raw);
        }
    }

    /// No two variants share a value.
    pub proof fn lemma_raw_value_injective(a: Self, b: Self)
        requires
            a.raw_value() == b.raw_value(),
        ensures
            a == b,
    {
    }
}

/// The width of the entries of an index buffer.
#[allow(non_camel_case_types)]
#[derive(Clone, Copy, PartialEq, Eq, Structural, Hash, Debug)]
pub enum MTLIndexType {
    UInt16,
    UInt32,
}

impl MTLIndexType {
    /// The integer that the native runtime uses for this variant.
    pub open spec fn raw_value(self) -> u64 {
        match self {
            MTLIndexType::UInt16 => 0,
            MTLIndexType::UInt32 => 1,
        }
    }

    /// The variant that the native runtime knows as `raw`, if there is one.
    pub open spec fn of_raw_value(raw: u64) -> Option<Self> {
        match raw {
            0 => Some(MTLIndexType::UInt16),
            1 => Some(MTLIndexType::UInt32),
            _ => None,
        }
    }

    /// Encodes this variant for the native runtime.
    pub fn raw(self) -> (r: u64)
        ensures
            r == self.raw_value(),
    {
        match self {
            MTLIndexType::UInt16 => 0,
            MTLIndexType::UInt32 => 1,
        }
    }

    /// Decodes an integer of the native runtime. The result is `None` exactly
    /// when no variant has that value, which is when `raw` is 2 or more.
    pub fn from_raw(raw: u64) -> (r: Option<Self>)
        ensures
            r == Self::of_raw_value(raw),
            r is Some <==> raw < 2,
    {
        match raw {
            0 => Some(MTLIndexType::UInt16),
            1 => Some(MTLIndexType::UInt32),
            _ => None,
        }
    }

    /// Every variant is read back from its own value, and that value is below 2.
    pub proof fn lemma_decode_encode(v: Self)
        ensures
            Self::of_raw_value(v.raw_value()) == Some(v),
            v.raw_value() < 2,
    {
    }

    /// Decoding is the inverse of encoding: an integer is read as a variant
    /// exactly when some variant has it as its value, which is when it is below
    /// 2, and the variant that is read is one that has it.
    pub proof fn lemma_encode_decode(raw: u64)
        ensures
            Self::of_raw_value(raw) is Some <==> raw < 2,
            Self::of_raw_value(raw) is Some <==> exists|v: Self| v.raw_value() == raw,
            Self::of_raw_value(raw) matches Some(v) ==> v.raw_value() == raw,
    {
        if let Some(v) = Self::of_raw_value(raw) {
            assert(v.raw_value() == raw);
        }
    }

    /// No two variants share a value.
    pub proof fn lemma_raw_value_injective(a: Self, b: Self)
        requires
            a.raw_value() == b.raw_value(),
        ensures
            a == b,
    {
    }
}

/// The layout of one attribute in a buffer: the type of its components, their
/// number, and whether integer components are read as normalized values.
#[allow(non_camel_case_types)]
#[derive(Clone, Copy, PartialEq, Eq, Structural, Hash, Debug)]
pub enum MTLAttributeFormat {
    Invalid,
    UChar2,
    UChar3,
    UChar4,
    Char2,
    Char3,
    Char4,
    UChar2Normalized,
    UChar3Normalized,
    UChar4Normalized,
    Char2Normalized,
    Char3Normalized,
    Char4Normalized,
    UShort2,
    UShort3,
    UShort4,
    Short2,
    Short3,
    Short4,
    UShort2Normalized,
    UShort3Normalized,
    UShort4Normalized,
    Short2Normalized,
    Short3Normalized,
    Short4Normalized,
    Half2,
    Half3,
    Half4,
    Float,
    Float2,
    Float3,
    Float4,
    Int,
    Int2,
    Int3,
    Int4,
    UInt,
    UInt2,
    UInt3,
    UInt4,
    Int1010102Normalized,
    UInt1010102Normalized,
}

impl MTLAttributeFormat {
    /// The integer that the native runtime uses for this variant.
    pub open spec fn raw_value(self) -> u64 {
        match self {
            MTLAttributeFormat::Invalid => 0,
            MTLAttributeFormat::UChar2 => 1,
            MTLAttributeFormat::UChar3 => 2,
            MTLAttributeFormat::UChar4 => 3,
            MTLAttributeFormat::Char2 => 4,
            MTLAttributeFormat::Char3 => 5,
            MTLAttributeFormat::Char4 => 6,
            MTLAttributeFormat::UChar2Normalized => 7,
            MTLAttributeFormat::UChar3Normalized => 8,
            MTLAttributeFormat::UChar4Normalized => 9,
            MTLAttributeFormat::Char2Normalized => 10,
            MTLAttributeFormat::Char3Normalized => 11,
            MTLAttributeFormat::Char4Normalized => 12,
            MTLAttributeFormat::UShort2 => 13,
            MTLAttributeFormat::UShort3 => 14,
            MTLAttributeFormat::UShort4 => 15,
            MTLAttributeFormat::Short2 => 16,
            MTLAttributeFormat::Short3 => 17,
            MTLAttributeFormat::Short4 => 18,
            MTLAttributeFormat::UShort2Normalized => 19,
            MTLAttributeFormat::UShort3Normalized => 20,
            MTLAttributeFormat::UShort4Normalized => 21,
            MTLAttributeFormat::Short2Normalized => 22,
            MTLAttributeFormat::Short3Normalized => 23,
            MTLAttributeFormat::Short4Normalized => 24,
            MTLAttributeFormat::Half2 => 25,
            MTLAttributeFormat::Half3 => 26,
            MTLAttributeFormat::Half4 => 27,
            MTLAttributeFormat::Float => 28,
            MTLAttributeFormat::Float2 => 29,
            MTLAttributeFormat::Float3 => 30,
            MTLAttributeFormat::Float4 => 31,
            MTLAttributeFormat::Int => 32,
            MTLAttributeFormat::Int2 => 33,
            MTLAttributeFormat::Int3 => 34,
            MTLAttributeFormat::Int4 => 35,
            MTLAttributeFormat::UInt => 36,
            MTLAttributeFormat::UInt2 => 37,
            MTLAttributeFormat::UInt3 => 38,
            MTLAttributeFormat::UInt4 => 39,
            MTLAttributeFormat::Int1010102Normalized => 40,
            MTLAttributeFormat::UInt1010102Normalized => 41,
        }
    }

    /// The variant that the native runtime knows as `raw`, if there is one.
    pub open spec fn of_raw_value(raw: u64) -> Option<Self> {
        match raw {
            0 => Some(MTLAttributeFormat::Invalid),
            1 => Some(MTLAttributeFormat::UChar2),
            2 => Some(MTLAttributeFormat::UChar3),
            3 => Some(MTLAttributeFormat::UChar4),
            4 => Some(MTLAttributeFormat::Char2),
            5 => Some(MTLAttributeFormat::Char3),
            6 => Some(MTLAttributeFormat::Char4),
            7 => Some(MTLAttributeFormat::UChar2Normalized),
            8 => Some(MTLAttributeFormat::UChar3Normalized),
            9 => Some(MTLAttributeFormat::UChar4Normalized),
            10 => Some(MTLAttributeFormat::Char2Normalized),
            11 => Some(MTLAttributeFormat::Char3Normalized),
            12 => Some(MTLAttributeFormat::Char4Normalized),
            13 => Some(MTLAttributeFormat::UShort2),
            14 => Some(MTLAttributeFormat::UShort3),
            15 => Some(MTLAttributeFormat::UShort4),
            16 => Some(MTLAttributeFormat::Short2),
            17 => Some(MTLAttributeFormat::Short3),
            18 => Some(MTLAttributeFormat::Short4),
            19 => Some(MTLAttributeFormat::UShort2Normalized),
            20 => Some(MTLAttributeFormat::UShort3Normalized),
            21 => Some(MTLAttributeFormat::UShort4Normalized),
            22 => Some(MTLAttributeFormat::Short2Normalized),
            23 => Some(MTLAttributeFormat::Short3Normalized),
            24 => Some(MTLAttributeFormat::Short4Normalized),
            25 => Some(MTLAttributeFormat::Half2),
            26 => Some(MTLAttributeFormat::Half3),
            27 => Some(MTLAttributeFormat::Half4),
            28 => Some(MTLAttributeFormat::Float),
            29 => Some(MTLAttributeFormat::Float2),
            30 => Some(MTLAttributeFormat::Float3),
            31 => Some(MTLAttributeFormat::Float4),
            32 => Some(MTLAttributeFormat::Int),
            33 => Some(MTLAttributeFormat::Int2),
            34 => Some(MTLAttributeFormat::Int3),
            35 => Some(MTLAttributeFormat::Int4),
            36 => Some(MTLAttributeFormat::UInt),
            37 => Some(MTLAttributeFormat::UInt2),
            38 => Some(MTLAttributeFormat::UInt3),
            39 => Some(MTLAttributeFormat::UInt4),
            40 => Some(MTLAttributeFormat::Int1010102Normalized),
            41 => Some(MTLAttributeFormat::UInt1010102Normalized),
            _ => None,
        }
    }

    /// Encodes this variant for the native runtime.
    pub fn raw(self) -> (r: u64)
        ensures
            r == self.raw_value(),
    {
        match self {
            MTLAttributeFormat::Invalid => 0,
            MTLAttributeFormat::UChar2 => 1,
            MTLAttributeFormat::UChar3 => 2,
            MTLAttributeFormat::UChar4 => 3,
            MTLAttributeFormat::Char2 => 4,
            MTLAttributeFormat::Char3 => 5,
            MTLAttributeFormat::Char4 => 6,
            MTLAttributeFormat::UChar2Normalized => 7,
            MTLAttributeFormat::UChar3Normalized => 8,
            MTLAttributeFormat::UChar4Normalized => 9,
            MTLAttributeFormat::Char2Normalized => 10,
            MTLAttributeFormat::Char3Normalized => 11,
            MTLAttributeFormat::Char4Normalized => 12,
            MTLAttributeFormat::UShort2 => 13,
            MTLAttributeFormat::UShort3 => 14,
            MTLAttributeFormat::UShort4 => 15,
            MTLAttributeFormat::Short2 => 16,
            MTLAttributeFormat::Short3 => 17,
            MTLAttributeFormat::Short4 => 18,
            MTLAttributeFormat::UShort2Normalized => 19,
            MTLAttributeFormat::UShort3Normalized => 20,
            MTLAttributeFormat::UShort4Normalized => 21,
            MTLAttributeFormat::Short2Normalized => 22,
            MTLAttributeFormat::Short3Normalized => 23,
            MTLAttributeFormat::Short4Normalized => 24,
            MTLAttributeFormat::Half2 => 25,
            MTLAttributeFormat::Half3 => 26,
            MTLAttributeFormat::Half4 => 27,
            MTLAttributeFormat::Float => 28,
            MTLAttributeFormat::Float2 => 29,
            MTLAttributeFormat::Float3 => 30,
            MTLAttributeFormat::Float4 => 31,
            MTLAttributeFormat::Int => 32,
            MTLAttributeFormat::Int2 => 33,
            MTLAttributeFormat::Int3 => 34,
            MTLAttributeFormat::Int4 => 35,
            MTLAttributeFormat::UInt => 36,
            MTLAttributeFormat::UInt2 => 37,
            MTLAttributeFormat::UInt3 => 38,
            MTLAttributeFormat::UInt4 => 39,
            MTLAttributeFormat::Int1010102Normalized => 40,
            MTLAttributeFormat::UInt1010102Normalized => 41,
        }
    }

    /// Decodes an integer of the native runtime. The result is `None` exactly
    /// when no variant has that value, which is when `raw` is 42 or more.
    pub fn from_raw(raw: u64) -> (r: Option<Self>)
        ensures
            r == Self::of_raw_value(raw),
            r is Some <==> raw < 42,
    {
        match raw {
            0 => Some(MTLAttributeFormat::Invalid),
            1 => Some(MTLAttributeFormat::UChar2),
            2 => Some(MTLAttributeFormat::UChar3),
            3 => Some(MTLAttributeFormat::UChar4),
            4 => Some(MTLAttributeFormat::Char2),
            5 => Some(MTLAttributeFormat::Char3),
            6 => Some(MTLAttributeFormat::Char4),
            7 => Some(MTLAttributeFormat::UChar2Normalized),
            8 => Some(MTLAttributeFormat::UChar3Normalized),
            9 => Some(MTLAttributeFormat::UChar4Normalized),
            10 => Some(MTLAttributeFormat::Char2Normalized),
            11 => Some(MTLAttributeFormat::Char3Normalized),
            12 => Some(MTLAttributeFormat::Char4Normalized),
            13 => Some(MTLAttributeFormat::UShort2),
            14 => Some(MTLAttributeFormat::UShort3),
            15 => Some(MTLAttributeFormat::UShort4),
            16 => Some(MTLAttributeFormat::Short2),
            17 => Some(MTLAttributeFormat::Short3),
            18 => Some(MTLAttributeFormat::Short4),
            19 => Some(MTLAttributeFormat::UShort2Normalized),
            20 => Some(MTLAttributeFormat::UShort3Normalized),
            21 => Some(MTLAttributeFormat::UShort4Normalized),
            22 => Some(MTLAttributeFormat::Short2Normalized),
            23 => Some(MTLAttributeFormat::Short3Normalized),
            24 => Some(MTLAttributeFormat::Short4Normalized),
            25 => Some(MTLAttributeFormat::Half2),
            26 => Some(MTLAttributeFormat::Half3),
            27 => Some(MTLAttributeFormat::Half4),
            28 => Some(MTLAttributeFormat::Float),
            29 => Some(MTLAttributeFormat::Float2),
            30 => Some(MTLAttributeFormat::Float3),
            31 => Some(MTLAttributeFormat::Float4),
            32 => Some(MTLAttributeFormat::Int),
            33 => Some(MTLAttributeFormat::Int2),
            34 => Some(MTLAttributeFormat::Int3),
            35 => Some(MTLAttributeFormat::Int4),
            36 => Some(MTLAttributeFormat::UInt),
            37 => Some(MTLAttributeFormat::UInt2),
            38 => Some(MTLAttributeFormat::UInt3),
            39 => Some(MTLAttributeFormat::UInt4),
            40 => Some(MTLAttributeFormat::Int1010102Normalized),
            41 => Some(MTLAttributeFormat::UInt1010102Normalized),
            _ => None,
        }
    }

    /// Every variant is read back from its own value, and that value is below 42.
    pub proof fn lemma_decode_encode(v: Self)
        ensures
            Self::of_raw_value(v.raw_value()) == Some(v),
            v.raw_value() < 42,
    {
    }

    /// Decoding is the inverse of encoding: an integer is read as a variant
    /// exactly when some variant has it as its value, which is when it is below
    /// 42, and the variant that is read is one that has it.
    pub proof fn lemma_encode_decode(raw: u64)
        ensures
            Self::of_raw_value(raw) is Some <==> raw < 42,
            Self::of_raw_value(raw) is Some <==> exists|v: Self| v.raw_value() == raw,
            Self::of_raw_value(raw) matches Some(v) ==> v.raw_value() == raw,
    {
        if let Some(v) = Self::of_raw_value(raw) {
            assert(v.raw_value() == raw);
        }
    }

    /// No two variants share a value.
    pub proof fn lemma_raw_value_injective(a: Self, b: Self)
        requires
            a.raw_value() == b.raw_value(),
        ensures
            a == b,
    {
    }
}

/// When the data that is fetched through a buffer layout moves on to its next element.
#[allow(non_camel_case_types)]
#[derive(Clone, Copy, PartialEq, Eq, Structural, Hash, Debug)]
pub enum MTLStepFunction {
    Constant,
    PerVertex,
    PerInstance,
    PerPatch,
    PerPatchControlPoint,
    ThreadPositionInGridX,
    ThreadPositionInGridY,
    ThreadPositionInGridXIndexed,
    ThreadPositionInGridYIndexed,
}

impl MTLStepFunction {
    /// The integer that the native runtime uses for this variant.
    pub open spec fn raw_value(self) -> u64 {
        match self {
            MTLStepFunction::Constant => 0,
            MTLStepFunction::PerVertex => 1,
            MTLStepFunction::PerInstance => 2,
            MTLStepFunction::PerPatch => 3,
            MTLStepFunction::PerPatchControlPoint => 4,
            MTLStepFunction::ThreadPositionInGridX => 5,
            MTLStepFunction::ThreadPositionInGridY => 6,
            MTLStepFunction::ThreadPositionInGridXIndexed => 7,
            MTLStepFunction::ThreadPositionInGridYIndexed => 8,
        }
    }

    /// The variant that the native runtime knows as `raw`, if there is one.
    pub open spec fn of_raw_value(raw: u64) -> Option<Self> {
        match raw {
            0 => Some(MTLStepFunction::Constant),
            1 => Some(MTLStepFunction::PerVertex),
            2 => Some(MTLStepFunction::PerInstance),
            3 => Some(MTLStepFunction::PerPatch),
            4 => Some(MTLStepFunction::PerPatchControlPoint),
            5 => Some(MTLStepFunction::ThreadPositionInGridX),
            6 => Some(MTLStepFunction::ThreadPositionInGridY),
            7 => Some(MTLStepFunction::ThreadPositionInGridXIndexed),
            8 => Some(MTLStepFunction::ThreadPositionInGridYIndexed),
            _ => None,
        }
    }

    /// Encodes this variant for the native runtime.
    pub fn raw(self) -> (r: u64)
        ensures
            r == self.raw_value(),
    {
        match self {
            MTLStepFunction::Constant => 0,
            MTLStepFunction::PerVertex => 1,
            MTLStepFunction::PerInstance => 2,
            MTLStepFunction::PerPatch => 3,
            MTLStepFunction::PerPatchControlPoint => 4,
            MTLStepFunction::ThreadPositionInGridX => 5,
            MTLStepFunction::ThreadPositionInGridY => 6,
            MTLStepFunction::ThreadPositionInGridXIndexed => 7,
            MTLStepFunction::ThreadPositionInGridYIndexed => 8,
        }
    }

    /// Decodes an integer of the native runtime. The result is `None` exactly
    /// when no variant has that value, which is when `raw` is 9 or more.
    pub fn from_raw(raw: u64) -> (r: Option<Self>)
        ensures
            r == Self::of_raw_value(raw),
            r is Some <==> raw < 9,
    {
        match raw {
            0 => Some(MTLStepFunction::Constant),
            1 => Some(MTLStepFunction::PerVertex),
            2 => Some(MTLStepFunction::PerInstance),
            3 => Some(MTLStepFunction::PerPatch),
            4 => Some(MTLStepFunction::PerPatchControlPoint),
            5 => Some(MTLStepFunction::ThreadPositionInGridX),
            6 => Some(MTLStepFunction::ThreadPositionInGridY),
            7 => Some(MTLStepFunction::ThreadPositionInGridXIndexed),
            8 => Some(MTLStepFunction::ThreadPositionInGridYIndexed),
            _ => None,
        }
    }

    /// Every variant is read back from its own value, and that value is below 9.
    pub proof fn lemma_decode_encode(v: Self)
        ensures
            Self::of_raw_value(v.raw_value()) == Some(v),
            v.raw_value() < 9,
    {
    }

    /// Decoding is the inverse of encoding: an integer is read as a variant
    /// exactly when some variant has it as its value, which is when it is below
    /// 9, and the variant that is read is one that has it.
    pub proof fn lemma_encode_decode(raw: u64)
        ensures
            Self::of_raw_value(raw) is Some <==> raw < 9,
            Self::of_raw_value(raw) is Some <==> exists|v: Self| v.raw_value() == raw,
            Self::of_raw_value(raw) matches Some(v) ==> v.raw_value() == raw,
    {
        if let Some(v) = Self::of_raw_value(raw) {
            assert(v.raw_value() == raw);
        }
    }

    /// No two variants share a value.
    pub proof fn lemma_raw_value_injective(a: Self, b: Self)
        requires
            a.raw_value() == b.raw_value(),
        ensures
            a == b,
    {
    }
}

impl Default for MTLMutability {
    /// The mutability of a buffer slot that was never configured: the variant
    /// whose native value is zero.
    fn default() -> (r: Self)
        ensures
            r == MTLMutability::Default,
            r.raw_value() == 0,
    {
        MTLMutability::Default
    }
}

impl MTLAttributeFormat {
    /// The number of components of an attribute of this format.
    pub open spec fn component_count(self) -> nat {
        match self {
            MTLAttributeFormat::Invalid => 0,
            MTLAttributeFormat::Float | MTLAttributeFormat::Int | MTLAttributeFormat::UInt => 1,
            MTLAttributeFormat::UChar2
            | MTLAttributeFormat::Char2
            | MTLAttributeFormat::UChar2Normalized
            | MTLAttributeFormat::Char2Normalized
            | MTLAttributeFormat::UShort2
            | MTLAttributeFormat::Short2
            | MTLAttributeFormat::UShort2Normalized
            | MTLAttributeFormat::Short2Normalized
            | MTLAttributeFormat::Half2
            | MTLAttributeFormat::Float2
            | MTLAttributeFormat::Int2
            | MTLAttributeFormat::UInt2 => 2,
            MTLAttributeFormat::UChar3
            | MTLAttributeFormat::Char3
            | MTLAttributeFormat::UChar3Normalized
            | MTLAttributeFormat::Char3Normalized
            | MTLAttributeFormat::UShort3
            | MTLAttributeFormat::Short3
            | MTLAttributeFormat::UShort3Normalized
            | MTLAttributeFormat::Short3Normalized
            | MTLAttributeFormat::Half3
            | MTLAttributeFormat::Float3
            | MTLAttributeFormat::Int3
            | MTLAttributeFormat::UInt3 => 3,
            MTLAttributeFormat::UChar4
            | MTLAttributeFormat::Char4
            | MTLAttributeFormat::UChar4Normalized
            | MTLAttributeFormat::Char4Normalized
            | MTLAttributeFormat::UShort4
            | MTLAttributeFormat::Short4
            | MTLAttributeFormat::UShort4Normalized
            | MTLAttributeFormat::Short4Normalized
            | MTLAttributeFormat::Half4
            | MTLAttributeFormat::Float4
            | MTLAttributeFormat::Int4
            | MTLAttributeFormat::UInt4
            | MTLAttributeFormat::Int1010102Normalized
            | MTLAttributeFormat::UInt1010102Normalized => 4,
        }
    }

    /// Whether the components of this format share one 32-bit word, three of
    /// them with ten bits each and the fourth with two.
    pub open spec fn is_packed(self) -> bool {
        self == MTLAttributeFormat::Int1010102Normalized
            || self == MTLAttributeFormat::UInt1010102Normalized
    }

    /// The bytes that one component of this format takes, for the formats whose
    /// components take whole bytes; zero for the others.
    pub open spec fn component_width(self) -> nat {
        match self {
            MTLAttributeFormat::Invalid
            | MTLAttributeFormat::Int1010102Normalized
            | MTLAttributeFormat::UInt1010102Normalized => 0,
            MTLAttributeFormat::UChar2
            | MTLAttributeFormat::UChar3
            | MTLAttributeFormat::UChar4
            | MTLAttributeFormat::Char2
            | MTLAttributeFormat::Char3
            | MTLAttributeFormat::Char4
            | MTLAttributeFormat::UChar2Normalized
            | MTLAttributeFormat::UChar3Normalized
            | MTLAttributeFormat::UChar4Normalized
            | MTLAttributeFormat::Char2Normalized
            | MTLAttributeFormat::Char3Normalized
            | MTLAttributeFormat::Char4Normalized => 1,
            MTLAttributeFormat::UShort2
            | MTLAttributeFormat::UShort3
            | MTLAttributeFormat::UShort4
            | MTLAttributeFormat::Short2
            | MTLAttributeFormat::Short3
            | MTLAttributeFormat::Short4
            | MTLAttributeFormat::UShort2Normalized
            | MTLAttributeFormat::UShort3Normalized
            | MTLAttributeFormat::UShort4Normalized
            | MTLAttributeFormat::Short2Normalized
            | MTLAttributeFormat::Short3Normalized
            | MTLAttributeFormat::Short4Normalized
            | MTLAttributeFormat::Half2
            | MTLAttributeFormat::Half3
            | MTLAttributeFormat::Half4 => 2,
            MTLAttributeFormat::Float
            | MTLAttributeFormat::Float2
            | MTLAttributeFormat::Float3
            | MTLAttributeFormat::Float4
            | MTLAttributeFormat::Int
            | MTLAttributeFormat::Int2
            | MTLAttributeFormat::Int3
            | MTLAttributeFormat::Int4
            | MTLAttributeFormat::UInt
            | MTLAttributeFormat::UInt2
            | MTLAttributeFormat::UInt3
            | MTLAttributeFormat::UInt4 => 4,
        }
    }

    /// The bytes that one attribute of this format takes in its buffer: four
    /// for a packed format, else the components one after the other.
    pub open spec fn size_in_bytes(self) -> nat {
        if self.is_packed() {
            4
        } else {
            self.component_count() * self.component_width()
        }
    }

    /// The bytes that one attribute of this format takes in its buffer.
    pub fn byte_size(self) -> (r: u64)
        ensures
            r == self.size_in_bytes(),
            r <= 16,
    {
        match self {
            MTLAttributeFormat::Invalid => 0,
            MTLAttributeFormat::UChar2
            | MTLAttributeFormat::Char2
            | MTLAttributeFormat::UChar2Normalized
            | MTLAttributeFormat::Char2Normalized => 2,
            MTLAttributeFormat::UChar3
            | MTLAttributeFormat::Char3
            | MTLAttributeFormat::UChar3Normalized
            | MTLAttributeFormat::Char3Normalized => 3,
            MTLAttributeFormat::UChar4
            | MTLAttributeFormat::Char4
            | MTLAttributeFormat::UChar4Normalized
            | MTLAttributeFormat::Char4Normalized => 4,
            MTLAttributeFormat::UShort2
            | MTLAttributeFormat::Short2
            | MTLAttributeFormat::UShort2Normalized
            | MTLAttributeFormat::Short2Normalized
            | MTLAttributeFormat::Half2 => 4,
            MTLAttributeFormat::UShort3
            | MTLAttributeFormat::Short3
            | MTLAttributeFormat::UShort3Normalized
            | MTLAttributeFormat::Short3Normalized
            | MTLAttributeFormat::Half3 => 6,
            MTLAttributeFormat::UShort4
            | MTLAttributeFormat::Short4
            | MTLAttributeFormat::UShort4Normalized
            | MTLAttributeFormat::Short4Normalized
            | MTLAttributeFormat::Half4 => 8,
            MTLAttributeFormat::Float | MTLAttributeFormat::Int | MTLAttributeFormat::UInt => 4,
            MTLAttributeFormat::Float2 | MTLAttributeFormat::Int2 | MTLAttributeFormat::UInt2 => 8,
            MTLAttributeFormat::Float3 | MTLAttributeFormat::Int3 | MTLAttributeFormat::UInt3 => 12,
            MTLAttributeFormat::Float4 | MTLAttributeFormat::Int4 | MTLAttributeFormat::UInt4 => 16,
            MTLAttributeFormat::Int1010102Normalized
            | MTLAttributeFormat::UInt1010102Normalized => 4,
        }
    }

    /// No attribute takes more than sixteen bytes, and only the invalid format
    /// takes none.
    pub proof fn lemma_size_in_bytes_bounds(self)
        ensures
            self.size_in_bytes() <= 16,
            self.size_in_bytes() == 0 <==> self == MTLAttributeFormat::Invalid,
    {
    }
}

/// The native runtime's value for a boolean that is true.
pub const OBJC_YES: i8 = 1;

/// The native runtime's value for a boolean that is false.
pub const OBJC_NO: i8 = 0;

/// The boolean that the native runtime means by `raw`, if it means one.
pub open spec fn objc_bool_value(raw: i8) -> Option<bool> {
    if raw == OBJC_YES {
        Some(true)
    } else if raw == OBJC_NO {
        Some(false)
    } else {
        None
    }
}

/// Reads a boolean of the native runtime. The result is `None` exactly when
/// `raw` is neither of the runtime's two values.
pub fn bool_from_objc(raw: i8) -> (r: Option<bool>)
    ensures
        r == objc_bool_value(raw),
        r is None <==> raw != OBJC_YES && raw != OBJC_NO,
{
    if raw == OBJC_YES {
        Some(true)
    } else if raw == OBJC_NO {
        Some(false)
    } else {
        None
    }
}

} // verus!
