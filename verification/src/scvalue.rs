//! The plain data of a dynamic value: its type tags, unit tags and result codes.

#![allow(non_camel_case_types, non_snake_case)]

use vstd::prelude::*;

verus! {

/// Result of an operation on a value.
#[derive(Clone, Copy, PartialEq, Eq, Structural, Debug)]
pub enum VALUE_RESULT {
    /// Done, and the answer is `true` (a comparison found the values equal).
    OK_TRUE,
    /// Done.
    OK,
    /// An argument was not acceptable.
    BAD_PARAMETER,
    /// The value's type does not allow the operation.
    INCOMPATIBLE_TYPE,
}

impl VALUE_RESULT {
    /// The number that the engine uses for this variant.
    pub open spec fn spec_code(self) -> int {
        match self {
            VALUE_RESULT::OK_TRUE => -1,
            VALUE_RESULT::OK => 0,
            VALUE_RESULT::BAD_PARAMETER => 1,
            VALUE_RESULT::INCOMPATIBLE_TYPE => 2,
        }
    }

    /// The variant that a number stands for, if there is one.
    pub open spec fn spec_from_code(code: int) -> Option<VALUE_RESULT> {
        if code == -1 {
            Some(VALUE_RESULT::OK_TRUE)
        } else if code == 0 {
            Some(VALUE_RESULT::OK)
        } else if code == 1 {
            Some(VALUE_RESULT::BAD_PARAMETER)
        } else if code == 2 {
            Some(VALUE_RESULT::INCOMPATIBLE_TYPE)
        } else {
            None
        }
    }

    /// The number that the engine uses for this variant.
    pub fn code(self) -> (code: i32)
        ensures
            code == self.spec_code(),
    {
        match self {
            VALUE_RESULT::OK_TRUE => -1,
            VALUE_RESULT::OK => 0,
            VALUE_RESULT::BAD_PARAMETER => 1,
            VALUE_RESULT::INCOMPATIBLE_TYPE => 2,
        }
    }

    /// Reads a number back into its variant; `None` for a number that stands for none.
    pub fn from_code(code: i32) -> (r: Option<VALUE_RESULT>)
        ensures
            r == Self::spec_from_code(code as int),
    {
        if code == -1 {
            Some(VALUE_RESULT::OK_TRUE)
        } else if code == 0 {
            Some(VALUE_RESULT::OK)
        } else if code == 1 {
            Some(VALUE_RESULT::BAD_PARAMETER)
        } else if code == 2 {
            Some(VALUE_RESULT::INCOMPATIBLE_TYPE)
        } else {
            None
        }
    }

    /// Each variant is read back from its own code, and a number that is read back
    /// into a variant is that variant's code.
    pub proof fn lemma_code_round_trip(v: VALUE_RESULT, code: int)
        ensures
            Self::spec_from_code(v.spec_code()) == Some(v),
            Self::spec_from_code(code) == Some(v) ==> v.spec_code() == code,
    {
    }
}

impl VALUE_RESULT {
    /// The name of the result, as it is printed.
    pub open spec fn spec_name(self) -> Seq<char> {
        match self {
            VALUE_RESULT::OK_TRUE => "OK_TRUE"@,
            VALUE_RESULT::OK => "OK"@,
            VALUE_RESULT::BAD_PARAMETER => "BAD_PARAMETER"@,
            VALUE_RESULT::INCOMPATIBLE_TYPE => "INCOMPATIBLE_TYPE"@,
        }
    }

    /// The name of the result, as it is printed.
    pub fn to_string(&self) -> (s: String)
        ensures
            s@ == self.spec_name(),
    {
        match self {
            VALUE_RESULT::OK_TRUE => String::from_str("OK_TRUE"),
            VALUE_RESULT::OK => String::from_str("OK"),
            VALUE_RESULT::BAD_PARAMETER => String::from_str("BAD_PARAMETER"),
            VALUE_RESULT::INCOMPATIBLE_TYPE => String::from_str("INCOMPATIBLE_TYPE"),
        }
    }
}

/// How a value is written as text, and read back from it.
#[derive(Clone, Copy, PartialEq, Eq, Structural, Debug)]
pub enum VALUE_STRING_CVT_TYPE {
    /// Plain text of the value.
    SIMPLE,
    /// A JSON literal.
    JSON_LITERAL,
    /// A JSON map without its outer braces.
    JSON_MAP,
    /// A JSON literal with the extensions of the script language.
    XJSON_LITERAL,
}

impl VALUE_STRING_CVT_TYPE {
    /// The number that the engine uses for this variant.
    pub open spec fn spec_code(self) -> int {
        match self {
            VALUE_STRING_CVT_TYPE::SIMPLE => 0,
            VALUE_STRING_CVT_TYPE::JSON_LITERAL => 1,
            VALUE_STRING_CVT_TYPE::JSON_MAP => 2,
            VALUE_STRING_CVT_TYPE::XJSON_LITERAL => 3,
        }
    }

    /// The variant that a number stands for, if there is one.
    pub open spec fn spec_from_code(code: int) -> Option<VALUE_STRING_CVT_TYPE> {
        if code == 0 {
            Some(VALUE_STRING_CVT_TYPE::SIMPLE)
        } else if code == 1 {
            Some(VALUE_STRING_CVT_TYPE::JSON_LITERAL)
        } else if code == 2 {
            Some(VALUE_STRING_CVT_TYPE::JSON_MAP)
        } else if code == 3 {
            Some(VALUE_STRING_CVT_TYPE::XJSON_LITERAL)
        } else {
            None
        }
    }

    /// The number that the engine uses for this variant.
    pub fn code(self) -> (code: u32)
        ensures
            code == self.spec_code(),
    {
        match self {
            VALUE_STRING_CVT_TYPE::SIMPLE => 0,
            VALUE_STRING_CVT_TYPE::JSON_LITERAL => 1,
            VALUE_STRING_CVT_TYPE::JSON_MAP => 2,
            VALUE_STRING_CVT_TYPE::XJSON_LITERAL => 3,
        }
    }

    /// Reads a number back into its variant; `None` for a number that stands for none.
    pub fn from_code(code: u32) -> (r: Option<VALUE_STRING_CVT_TYPE>)
        ensures
            r == Self::spec_from_code(code as int),
    {
        if code == 0 {
            Some(VALUE_STRING_CVT_TYPE::SIMPLE)
        } else if code == 1 {
            Some(VALUE_STRING_CVT_TYPE::JSON_LITERAL)
        } else if code == 2 {
            Some(VALUE_STRING_CVT_TYPE::JSON_MAP)
        } else if code == 3 {
            Some(VALUE_STRING_CVT_TYPE::XJSON_LITERAL)
        } else {
            None
        }
    }

    /// Each variant is read back from its own code, and a number that is read back
    /// into a variant is that variant's code.
    pub proof fn lemma_code_round_trip(v: VALUE_STRING_CVT_TYPE, code: int)
        ensures
            Self::spec_from_code(v.spec_code()) == Some(v),
            Self::spec_from_code(code) == Some(v) ==> v.spec_code() == code,
    {
    }
}

/// Type identifier of a value.
#[derive(Clone, Copy, PartialEq, Eq, Structural, Debug)]
pub enum VALUE_TYPE {
    /// Just undefined; the data is zero.
    T_UNDEFINED,
    /// Explicit `null`.
    T_NULL,
    /// Data is `1` or `0`.
    T_BOOL,
    /// Data is a 32-bit integer.
    T_INT,
    /// Data is a double float.
    T_FLOAT,
    /// A string; the unit is a [`VALUE_UNIT_TYPE_STRING`].
    T_STRING,
    /// Data is a 64-bit count of 100 ns intervals.
    T_DATE,
    /// Data is a 64-bit number.
    T_CURRENCY,
    /// Data is a float; the unit is a [`VALUE_UNIT_TYPE_LENGTH`].
    T_LENGTH,
    /// An array of values.
    T_ARRAY,
    /// An array of key-value pairs.
    T_MAP,
    /// A script function.
    T_FUNCTION,
    /// An array of bytes.
    T_BYTES,
    /// A script object; the unit is a [`VALUE_UNIT_TYPE_OBJECT`].
    T_OBJECT,
    /// A DOM element.
    T_DOM_OBJECT,
    /// A resource that the engine manages.
    T_RESOURCE,
    /// `N..M` as a pair of 32-bit integers.
    T_RANGE,
    /// A time span as a float, in seconds.
    T_DURATION,
    /// An angle as a float, in radians.
    T_ANGLE,
    /// A color as a 32-bit number.
    T_COLOR,
    /// An array of value-name pairs.
    T_ENUM,
    /// A native asset.
    T_ASSET,
    /// A type this library has no name for.
    T_UNKNOWN,
}

impl VALUE_TYPE {
    /// The number that the engine uses for this variant.
    pub open spec fn spec_code(self) -> int {
        match self {
            VALUE_TYPE::T_UNDEFINED => 0,
            VALUE_TYPE::T_NULL => 1,
            VALUE_TYPE::T_BOOL => 2,
            VALUE_TYPE::T_INT => 3,
            VALUE_TYPE::T_FLOAT => 4,
            VALUE_TYPE::T_STRING => 5,
            VALUE_TYPE::T_DATE => 6,
            VALUE_TYPE::T_CURRENCY => 7,
            VALUE_TYPE::T_LENGTH => 8,
            VALUE_TYPE::T_ARRAY => 9,
            VALUE_TYPE::T_MAP => 10,
            VALUE_TYPE::T_FUNCTION => 11,
            VALUE_TYPE::T_BYTES => 12,
            VALUE_TYPE::T_OBJECT => 13,
            VALUE_TYPE::T_DOM_OBJECT => 14,
            VALUE_TYPE::T_RESOURCE => 15,
            VALUE_TYPE::T_RANGE => 16,
            VALUE_TYPE::T_DURATION => 17,
            VALUE_TYPE::T_ANGLE => 18,
            VALUE_TYPE::T_COLOR => 19,
            VALUE_TYPE::T_ENUM => 20,
            VALUE_TYPE::T_ASSET => 21,
            VALUE_TYPE::T_UNKNOWN => 22,
        }
    }

    /// The variant that a number stands for, if there is one.
    pub open spec fn spec_from_code(code: int) -> Option<VALUE_TYPE> {
        if code == 0 {
            Some(VALUE_TYPE::T_UNDEFINED)
        } else if code == 1 {
            Some(VALUE_TYPE::T_NULL)
        } else if code == 2 {
            Some(VALUE_TYPE::T_BOOL)
        } else if code == 3 {
            Some(VALUE_TYPE::T_INT)
        } else if code == 4 {
            Some(VALUE_TYPE::T_FLOAT)
        } else if code == 5 {
            Some(VALUE_TYPE::T_STRING)
        } else if code == 6 {
            Some(VALUE_TYPE::T_DATE)
        } else if code == 7 {
            Some(VALUE_TYPE::T_CURRENCY)
        } else if code == 8 {
            Some(VALUE_TYPE::T_LENGTH)
        } else if code == 9 {
            Some(VALUE_TYPE::T_ARRAY)
        } else if code == 10 {
            Some(VALUE_TYPE::T_MAP)
        } else if code == 11 {
            Some(VALUE_TYPE::T_FUNCTION)
        } else if code == 12 {
            Some(VALUE_TYPE::T_BYTES)
        } else if code == 13 {
            Some(VALUE_TYPE::T_OBJECT)
        } else if code == 14 {
            Some(VALUE_TYPE::T_DOM_OBJECT)
        } else if code == 15 {
            Some(VALUE_TYPE::T_RESOURCE)
        } else if code == 16 {
            Some(VALUE_TYPE::T_RANGE)
        } else if code == 17 {
            Some(VALUE_TYPE::T_DURATION)
        } else if code == 18 {
            Some(VALUE_TYPE::T_ANGLE)
        } else if code == 19 {
            Some(VALUE_TYPE::T_COLOR)
        } else if code == 20 {
            Some(VALUE_TYPE::T_ENUM)
        } else if code == 21 {
            Some(VALUE_TYPE::T_ASSET)
        } else if code == 22 {
            Some(VALUE_TYPE::T_UNKNOWN)
        } else {
            None
        }
    }

    /// The number that the engine uses for this variant.
    pub fn code(self) -> (code: u32)
        ensures
            code == self.spec_code(),
    {
        match self {
            VALUE_TYPE::T_UNDEFINED => 0,
            VALUE_TYPE::T_NULL => 1,
            VALUE_TYPE::T_BOOL => 2,
            VALUE_TYPE::T_INT => 3,
            VALUE_TYPE::T_FLOAT => 4,
            VALUE_TYPE::T_STRING => 5,
            VALUE_TYPE::T_DATE => 6,
            VALUE_TYPE::T_CURRENCY => 7,
            VALUE_TYPE::T_LENGTH => 8,
            VALUE_TYPE::T_ARRAY => 9,
            VALUE_TYPE::T_MAP => 10,
            VALUE_TYPE::T_FUNCTION => 11,
            VALUE_TYPE::T_BYTES => 12,
            VALUE_TYPE::T_OBJECT => 13,
            VALUE_TYPE::T_DOM_OBJECT => 14,
            VALUE_TYPE::T_RESOURCE => 15,
            VALUE_TYPE::T_RANGE => 16,
            VALUE_TYPE::T_DURATION => 17,
            VALUE_TYPE::T_ANGLE => 18,
            VALUE_TYPE::T_COLOR => 19,
            VALUE_TYPE::T_ENUM => 20,
            VALUE_TYPE::T_ASSET => 21,
            VALUE_TYPE::T_UNKNOWN => 22,
        }
    }

    /// Reads a number back into its variant; `None` for a number that stands for none.
    pub fn from_code(code: u32) -> (r: Option<VALUE_TYPE>)
        ensures
            r == Self::spec_from_code(code as int),
    {
        if code == 0 {
            Some(VALUE_TYPE::T_UNDEFINED)
        } else if code == 1 {
            Some(VALUE_TYPE::T_NULL)
        } else if code == 2 {
            Some(VALUE_TYPE::T_BOOL)
        } else if code == 3 {
            Some(VALUE_TYPE::T_INT)
        } else if code == 4 {
            Some(VALUE_TYPE::T_FLOAT)
        } else if code == 5 {
            Some(VALUE_TYPE::T_STRING)
        } else if code == 6 {
            Some(VALUE_TYPE::T_DATE)
        } else if code == 7 {
            Some(VALUE_TYPE::T_CURRENCY)
        } else if code == 8 {
            Some(VALUE_TYPE::T_LENGTH)
        } else if code == 9 {
            Some(VALUE_TYPE::T_ARRAY)
        } else if code == 10 {
            Some(VALUE_TYPE::T_MAP)
        } else if code == 11 {
            Some(VALUE_TYPE::T_FUNCTION)
        } else if code == 12 {
            Some(VALUE_TYPE::T_BYTES)
        } else if code == 13 {
            Some(VALUE_TYPE::T_OBJECT)
        } else if code == 14 {
            Some(VALUE_TYPE::T_DOM_OBJECT)
        } else if code == 15 {
            Some(VALUE_TYPE::T_RESOURCE)
        } else if code == 16 {
            Some(VALUE_TYPE::T_RANGE)
        } else if code == 17 {
            Some(VALUE_TYPE::T_DURATION)
        } else if code == 18 {
            Some(VALUE_TYPE::T_ANGLE)
        } else if code == 19 {
            Some(VALUE_TYPE::T_COLOR)
        } else if code == 20 {
            Some(VALUE_TYPE::T_ENUM)
        } else if code == 21 {
            Some(VALUE_TYPE::T_ASSET)
        } else if code == 22 {
            Some(VALUE_TYPE::T_UNKNOWN)
        } else {
            None
        }
    }

    /// Each variant is read back from its own code, and a number that is read back
    /// into a variant is that variant's code.
    pub proof fn lemma_code_round_trip(v: VALUE_TYPE, code: int)
        ensures
            Self::spec_from_code(v.spec_code()) == Some(v),
            Self::spec_from_code(code) == Some(v) ==> v.spec_code() == code,
    {
    }
}

impl Default for VALUE_TYPE {
    fn default() -> (r: VALUE_TYPE)
        ensures
            r == VALUE_TYPE::T_UNDEFINED,
    {
        VALUE_TYPE::T_UNDEFINED
    }
}

impl VALUE_TYPE {
    /// The name of the type, as it is printed.
    pub open spec fn spec_name(self) -> Seq<char> {
        match self {
            VALUE_TYPE::T_UNDEFINED => "T_UNDEFINED"@,
            VALUE_TYPE::T_NULL => "T_NULL"@,
            VALUE_TYPE::T_BOOL => "T_BOOL"@,
            VALUE_TYPE::T_INT => "T_INT"@,
            VALUE_TYPE::T_FLOAT => "T_FLOAT"@,
            VALUE_TYPE::T_STRING => "T_STRING"@,
            VALUE_TYPE::T_DATE => "T_DATE"@,
            VALUE_TYPE::T_CURRENCY => "T_CURRENCY"@,
            VALUE_TYPE::T_LENGTH => "T_LENGTH"@,
            VALUE_TYPE::T_ARRAY => "T_ARRAY"@,
            VALUE_TYPE::T_MAP => "T_MAP"@,
            VALUE_TYPE::T_FUNCTION => "T_FUNCTION"@,
            VALUE_TYPE::T_BYTES => "T_BYTES"@,
            VALUE_TYPE::T_OBJECT => "T_OBJECT"@,
            VALUE_TYPE::T_DOM_OBJECT => "T_DOM_OBJECT"@,
            VALUE_TYPE::T_RESOURCE => "T_RESOURCE"@,
            VALUE_TYPE::T_RANGE => "T_RANGE"@,
            VALUE_TYPE::T_DURATION => "T_DURATION"@,
            VALUE_TYPE::T_ANGLE => "T_ANGLE"@,
            VALUE_TYPE::T_COLOR => "T_COLOR"@,
            VALUE_TYPE::T_ENUM => "T_ENUM"@,
            VALUE_TYPE::T_ASSET => "T_ASSET"@,
            VALUE_TYPE::T_UNKNOWN => "T_UNKNOWN"@,
        }
    }

    /// The name of the type, as it is printed.
    pub fn name(self) -> (s: &'static str)
        ensures
            s@ == self.spec_name(),
    {
        match self {
            VALUE_TYPE::T_UNDEFINED => "T_UNDEFINED",
            VALUE_TYPE::T_NULL => "T_NULL",
            VALUE_TYPE::T_BOOL => "T_BOOL",
            VALUE_TYPE::T_INT => "T_INT",
            VALUE_TYPE::T_FLOAT => "T_FLOAT",
            VALUE_TYPE::T_STRING => "T_STRING",
            VALUE_TYPE::T_DATE => "T_DATE",
            VALUE_TYPE::T_CURRENCY => "T_CURRENCY",
            VALUE_TYPE::T_LENGTH => "T_LENGTH",
            VALUE_TYPE::T_ARRAY => "T_ARRAY",
            VALUE_TYPE::T_MAP => "T_MAP",
            VALUE_TYPE::T_FUNCTION => "T_FUNCTION",
            VALUE_TYPE::T_BYTES => "T_BYTES",
            VALUE_TYPE::T_OBJECT => "T_OBJECT",
            VALUE_TYPE::T_DOM_OBJECT => "T_DOM_OBJECT",
            VALUE_TYPE::T_RESOURCE => "T_RESOURCE",
            VALUE_TYPE::T_RANGE => "T_RANGE",
            VALUE_TYPE::T_DURATION => "T_DURATION",
            VALUE_TYPE::T_ANGLE => "T_ANGLE",
            VALUE_TYPE::T_COLOR => "T_COLOR",
            VALUE_TYPE::T_ENUM => "T_ENUM",
            VALUE_TYPE::T_ASSET => "T_ASSET",
            VALUE_TYPE::T_UNKNOWN => "T_UNKNOWN",
        }
    }
}

/// Sub-state of `undefined`.
#[derive(Clone, Copy, PartialEq, Eq, Structural, Debug)]
pub enum VALUE_UNIT_UNDEFINED {
    /// 'nothing', also known as 'void', in script.
    UT_NOTHING,
}

impl VALUE_UNIT_UNDEFINED {
    /// The number that the engine uses for this variant.
    pub open spec fn spec_code(self) -> int {
        match self {
            VALUE_UNIT_UNDEFINED::UT_NOTHING => 1,
        }
    }

    /// The variant that a number stands for, if there is one.
    pub open spec fn spec_from_code(code: int) -> Option<VALUE_UNIT_UNDEFINED> {
        if code == 1 {
            Some(VALUE_UNIT_UNDEFINED::UT_NOTHING)
        } else {
            None
        }
    }

    /// The number that the engine uses for this variant.
    pub fn code(self) -> (code: u32)
        ensures
            code == self.spec_code(),
    {
        match self {
            VALUE_UNIT_UNDEFINED::UT_NOTHING => 1,
        }
    }

    /// Reads a number back into its variant; `None` for a number that stands for none.
    pub fn from_code(code: u32) -> (r: Option<VALUE_UNIT_UNDEFINED>)
        ensures
            r == Self::spec_from_code(code as int),
    {
        if code == 1 {
            Some(VALUE_UNIT_UNDEFINED::UT_NOTHING)
        } else {
            None
        }
    }

    /// Each variant is read back from its own code, and a number that is read back
    /// into a variant is that variant's code.
    pub proof fn lemma_code_round_trip(v: VALUE_UNIT_UNDEFINED, code: int)
        ensures
            Self::spec_from_code(v.spec_code()) == Some(v),
            Self::spec_from_code(code) == Some(v) ==> v.spec_code() == code,
    {
    }
}

/// String sub-types.
#[derive(Clone, Copy, PartialEq, Eq, Structural, Debug)]
pub enum VALUE_UNIT_TYPE_STRING {
    /// A plain string.
    STRING,
    /// An error string.
    ERROR,
    /// A secure string, wiped when it is destroyed.
    SECURE,
    /// `url(...)`.
    URL,
    /// `selector(...)`.
    SELECTOR,
    /// A file name.
    FILE,
    /// A symbol of the script language.
    SYMBOL,
}

impl VALUE_UNIT_TYPE_STRING {
    /// The number that the engine uses for this variant.
    pub open spec fn spec_code(self) -> int {
        match self {
            VALUE_UNIT_TYPE_STRING::STRING => 0,
            VALUE_UNIT_TYPE_STRING::ERROR => 1,
            VALUE_UNIT_TYPE_STRING::SECURE => 2,
            VALUE_UNIT_TYPE_STRING::URL => 3,
            VALUE_UNIT_TYPE_STRING::SELECTOR => 4,
            VALUE_UNIT_TYPE_STRING::FILE => 0xfffe,
            VALUE_UNIT_TYPE_STRING::SYMBOL => 0xffff,
        }
    }

    /// The variant that a number stands for, if there is one.
    pub open spec fn spec_from_code(code: int) -> Option<VALUE_UNIT_TYPE_STRING> {
        if code == 0 {
            Some(VALUE_UNIT_TYPE_STRING::STRING)
        } else if code == 1 {
            Some(VALUE_UNIT_TYPE_STRING::ERROR)
        } else if code == 2 {
            Some(VALUE_UNIT_TYPE_STRING::SECURE)
        } else if code == 3 {
            Some(VALUE_UNIT_TYPE_STRING::URL)
        } else if code == 4 {
            Some(VALUE_UNIT_TYPE_STRING::SELECTOR)
        } else if code == 0xfffe {
            Some(VALUE_UNIT_TYPE_STRING::FILE)
        } else if code == 0xffff {
            Some(VALUE_UNIT_TYPE_STRING::SYMBOL)
        } else {
            None
        }
    }

    /// The number that the engine uses for this variant.
    pub fn code(self) -> (code: u32)
        ensures
            code == self.spec_code(),
    {
        match self {
            VALUE_UNIT_TYPE_STRING::STRING => 0,
            VALUE_UNIT_TYPE_STRING::ERROR => 1,
            VALUE_UNIT_TYPE_STRING::SECURE => 2,
            VALUE_UNIT_TYPE_STRING::URL => 3,
            VALUE_UNIT_TYPE_STRING::SELECTOR => 4,
            VALUE_UNIT_TYPE_STRING::FILE => 0xfffe,
            VALUE_UNIT_TYPE_STRING::SYMBOL => 0xffff,
        }
    }

    /// Reads a number back into its variant; `None` for a number that stands for none.
    pub fn from_code(code: u32) -> (r: Option<VALUE_UNIT_TYPE_STRING>)
        ensures
            r == Self::spec_from_code(code as int),
    {
        if code == 0 {
            Some(VALUE_UNIT_TYPE_STRING::STRING)
        } else if code == 1 {
            Some(VALUE_UNIT_TYPE_STRING::ERROR)
        } else if code == 2 {
            Some(VALUE_UNIT_TYPE_STRING::SECURE)
        } else if code == 3 {
            Some(VALUE_UNIT_TYPE_STRING::URL)
        } else if code == 4 {
            Some(VALUE_UNIT_TYPE_STRING::SELECTOR)
        } else if code == 0xfffe {
            Some(VALUE_UNIT_TYPE_STRING::FILE)
        } else if code == 0xffff {
            Some(VALUE_UNIT_TYPE_STRING::SYMBOL)
        } else {
            None
        }
    }

    /// Each variant is read back from its own code, and a number that is read back
    /// into a variant is that variant's code.
    pub proof fn lemma_code_round_trip(v: VALUE_UNIT_TYPE_STRING, code: int)
        ensures
            Self::spec_from_code(v.spec_code()) == Some(v),
            Self::spec_from_code(code) == Some(v) ==> v.spec_code() == code,
    {
    }
}

/// Length sub-types.
#[derive(Clone, Copy, PartialEq, Eq, Structural, Debug)]
pub enum VALUE_UNIT_TYPE_LENGTH {
    /// Height of the element's font.
    EM,
    /// Height of the letter 'x'.
    EX,
    /// Per cent.
    PR,
    /// "Springs", or flex units.
    SP,
    /// Pixels.
    PX,
    /// Inches.
    IN,
    /// Centimeters.
    CM,
    /// Millimeters.
    MM,
    /// Points, 1/72 of an inch.
    PT,
    /// Picas, 12 points.
    PC,
    /// Device independent pixels.
    DIP,
    /// A url in a string.
    URL,
}

impl VALUE_UNIT_TYPE_LENGTH {
    /// The number that the engine uses for this variant.
    pub open spec fn spec_code(self) -> int {
        match self {
            VALUE_UNIT_TYPE_LENGTH::EM => 1,
            VALUE_UNIT_TYPE_LENGTH::EX => 2,
            VALUE_UNIT_TYPE_LENGTH::PR => 3,
            VALUE_UNIT_TYPE_LENGTH::SP => 4,
            VALUE_UNIT_TYPE_LENGTH::PX => 7,
            VALUE_UNIT_TYPE_LENGTH::IN => 8,
            VALUE_UNIT_TYPE_LENGTH::CM => 9,
            VALUE_UNIT_TYPE_LENGTH::MM => 10,
            VALUE_UNIT_TYPE_LENGTH::PT => 11,
            VALUE_UNIT_TYPE_LENGTH::PC => 12,
            VALUE_UNIT_TYPE_LENGTH::DIP => 13,
            VALUE_UNIT_TYPE_LENGTH::URL => 16,
        }
    }

    /// The variant that a number stands for, if there is one.
    pub open spec fn spec_from_code(code: int) -> Option<VALUE_UNIT_TYPE_LENGTH> {
        if code == 1 {
            Some(VALUE_UNIT_TYPE_LENGTH::EM)
        } else if code == 2 {
            Some(VALUE_UNIT_TYPE_LENGTH::EX)
        } else if code == 3 {
            Some(VALUE_UNIT_TYPE_LENGTH::PR)
        } else if code == 4 {
            Some(VALUE_UNIT_TYPE_LENGTH::SP)
        } else if code == 7 {
            Some(VALUE_UNIT_TYPE_LENGTH::PX)
        } else if code == 8 {
            Some(VALUE_UNIT_TYPE_LENGTH::IN)
        } else if code == 9 {
            Some(VALUE_UNIT_TYPE_LENGTH::CM)
        } else if code == 10 {
            Some(VALUE_UNIT_TYPE_LENGTH::MM)
        } else if code == 11 {
            Some(VALUE_UNIT_TYPE_LENGTH::PT)
        } else if code == 12 {
            Some(VALUE_UNIT_TYPE_LENGTH::PC)
        } else if code == 13 {
            Some(VALUE_UNIT_TYPE_LENGTH::DIP)
        } else if code == 16 {
            Some(VALUE_UNIT_TYPE_LENGTH::URL)
        } else {
            None
        }
    }

    /// The number that the engine uses for this variant.
    pub fn code(self) -> (code: u32)
        ensures
            code == self.spec_code(),
    {
        match self {
            VALUE_UNIT_TYPE_LENGTH::EM => 1,
            VALUE_UNIT_TYPE_LENGTH::EX => 2,
            VALUE_UNIT_TYPE_LENGTH::PR => 3,
            VALUE_UNIT_TYPE_LENGTH::SP => 4,
            VALUE_UNIT_TYPE_LENGTH::PX => 7,
            VALUE_UNIT_TYPE_LENGTH::IN => 8,
            VALUE_UNIT_TYPE_LENGTH::CM => 9,
            VALUE_UNIT_TYPE_LENGTH::MM => 10,
            VALUE_UNIT_TYPE_LENGTH::PT => 11,
            VALUE_UNIT_TYPE_LENGTH::PC => 12,
            VALUE_UNIT_TYPE_LENGTH::DIP => 13,
            VALUE_UNIT_TYPE_LENGTH::URL => 16,
        }
    }

    /// Reads a number back into its variant; `None` for a number that stands for none.
    pub fn from_code(code: u32) -> (r: Option<VALUE_UNIT_TYPE_LENGTH>)
        ensures
            r == Self::spec_from_code(code as int),
    {
        if code == 1 {
            Some(VALUE_UNIT_TYPE_LENGTH::EM)
        } else if code == 2 {
            Some(VALUE_UNIT_TYPE_LENGTH::EX)
        } else if code == 3 {
            Some(VALUE_UNIT_TYPE_LENGTH::PR)
        } else if code == 4 {
            Some(VALUE_UNIT_TYPE_LENGTH::SP)
        } else if code == 7 {
            Some(VALUE_UNIT_TYPE_LENGTH::PX)
        } else if code == 8 {
            Some(VALUE_UNIT_TYPE_LENGTH::IN)
        } else if code == 9 {
            Some(VALUE_UNIT_TYPE_LENGTH::CM)
        } else if code == 10 {
            Some(VALUE_UNIT_TYPE_LENGTH::MM)
        } else if code == 11 {
            Some(VALUE_UNIT_TYPE_LENGTH::PT)
        } else if code == 12 {
            Some(VALUE_UNIT_TYPE_LENGTH::PC)
        } else if code == 13 {
            Some(VALUE_UNIT_TYPE_LENGTH::DIP)
        } else if code == 16 {
            Some(VALUE_UNIT_TYPE_LENGTH::URL)
        } else {
            None
        }
    }

    /// Each variant is read back from its own code, and a number that is read back
    /// into a variant is that variant's code.
    pub proof fn lemma_code_round_trip(v: VALUE_UNIT_TYPE_LENGTH, code: int)
        ensures
            Self::spec_from_code(v.spec_code()) == Some(v),
            Self::spec_from_code(code) == Some(v) ==> v.spec_code() == code,
    {
    }
}

/// Array sub-types.
#[derive(Clone, Copy, PartialEq, Eq, Structural, Debug)]
pub enum VALUE_UNIT_TYPE_ARRAY {
    /// White space separated list.
    WT_LIST,
    /// Comma separated list.
    CS_LIST,
    /// Slash separated pair.
    PAIR,
}

impl VALUE_UNIT_TYPE_ARRAY {
    /// The number that the engine uses for this variant.
    pub open spec fn spec_code(self) -> int {
        match self {
            VALUE_UNIT_TYPE_ARRAY::WT_LIST => 1,
            VALUE_UNIT_TYPE_ARRAY::CS_LIST => 2,
            VALUE_UNIT_TYPE_ARRAY::PAIR => 3,
        }
    }

    /// The variant that a number stands for, if there is one.
    pub open spec fn spec_from_code(code: int) -> Option<VALUE_UNIT_TYPE_ARRAY> {
        if code == 1 {
            Some(VALUE_UNIT_TYPE_ARRAY::WT_LIST)
        } else if code == 2 {
            Some(VALUE_UNIT_TYPE_ARRAY::CS_LIST)
        } else if code == 3 {
            Some(VALUE_UNIT_TYPE_ARRAY::PAIR)
        } else {
            None
        }
    }

    /// The number that the engine uses for this variant.
    pub fn code(self) -> (code: u32)
        ensures
            code == self.spec_code(),
    {
        match self {
            VALUE_UNIT_TYPE_ARRAY::WT_LIST => 1,
            VALUE_UNIT_TYPE_ARRAY::CS_LIST => 2,
            VALUE_UNIT_TYPE_ARRAY::PAIR => 3,
        }
    }

    /// Reads a number back into its variant; `None` for a number that stands for none.
    pub fn from_code(code: u32) -> (r: Option<VALUE_UNIT_TYPE_ARRAY>)
        ensures
            r == Self::spec_from_code(code as int),
    {
        if code == 1 {
            Some(VALUE_UNIT_TYPE_ARRAY::WT_LIST)
        } else if code == 2 {
            Some(VALUE_UNIT_TYPE_ARRAY::CS_LIST)
        } else if code == 3 {
            Some(VALUE_UNIT_TYPE_ARRAY::PAIR)
        } else {
            None
        }
    }

    /// Each variant is read back from its own code, and a number that is read back
    /// into a variant is that variant's code.
    pub proof fn lemma_code_round_trip(v: VALUE_UNIT_TYPE_ARRAY, code: int)
        ensures
            Self::spec_from_code(v.spec_code()) == Some(v),
            Self::spec_from_code(code) == Some(v) ==> v.spec_code() == code,
    {
    }
}

/// Sub-types of a script object.
#[derive(Clone, Copy, PartialEq, Eq, Structural, Debug)]
pub enum VALUE_UNIT_TYPE_OBJECT {
    /// An `Array`.
    ARRAY,
    /// An `Object`.
    OBJECT,
    /// A class or a namespace.
    CLASS,
    /// A native type with a data slot.
    NATIVE,
    /// A `Function`.
    FUNCTION,
    /// An `Error`.
    ERROR,
}

impl VALUE_UNIT_TYPE_OBJECT {
    /// The number that the engine uses for this variant.
    pub open spec fn spec_code(self) -> int {
        match self {
            VALUE_UNIT_TYPE_OBJECT::ARRAY => 0,
            VALUE_UNIT_TYPE_OBJECT::OBJECT => 1,
            VALUE_UNIT_TYPE_OBJECT::CLASS => 2,
            VALUE_UNIT_TYPE_OBJECT::NATIVE => 3,
            VALUE_UNIT_TYPE_OBJECT::FUNCTION => 4,
            VALUE_UNIT_TYPE_OBJECT::ERROR => 5,
        }
    }

    /// The variant that a number stands for, if there is one.
    pub open spec fn spec_from_code(code: int) -> Option<VALUE_UNIT_TYPE_OBJECT> {
        if code == 0 {
            Some(VALUE_UNIT_TYPE_OBJECT::ARRAY)
        } else if code == 1 {
            Some(VALUE_UNIT_TYPE_OBJECT::OBJECT)
        } else if code == 2 {
            Some(VALUE_UNIT_TYPE_OBJECT::CLASS)
        } else if code == 3 {
            Some(VALUE_UNIT_TYPE_OBJECT::NATIVE)
        } else if code == 4 {
            Some(VALUE_UNIT_TYPE_OBJECT::FUNCTION)
        } else if code == 5 {
            Some(VALUE_UNIT_TYPE_OBJECT::ERROR)
        } else {
            None
        }
    }

    /// The number that the engine uses for this variant.
    pub fn code(self) -> (code: u32)
        ensures
            code == self.spec_code(),
    {
        match self {
            VALUE_UNIT_TYPE_OBJECT::ARRAY => 0,
            VALUE_UNIT_TYPE_OBJECT::OBJECT => 1,
            VALUE_UNIT_TYPE_OBJECT::CLASS => 2,
            VALUE_UNIT_TYPE_OBJECT::NATIVE => 3,
            VALUE_UNIT_TYPE_OBJECT::FUNCTION => 4,
            VALUE_UNIT_TYPE_OBJECT::ERROR => 5,
        }
    }

    /// Reads a number back into its variant; `None` for a number that stands for none.
    pub fn from_code(code: u32) -> (r: Option<VALUE_UNIT_TYPE_OBJECT>)
        ensures
            r == Self::spec_from_code(code as int),
    {
        if code == 0 {
            Some(VALUE_UNIT_TYPE_OBJECT::ARRAY)
        } else if code == 1 {
            Some(VALUE_UNIT_TYPE_OBJECT::OBJECT)
        } else if code == 2 {
            Some(VALUE_UNIT_TYPE_OBJECT::CLASS)
        } else if code == 3 {
            Some(VALUE_UNIT_TYPE_OBJECT::NATIVE)
        } else if code == 4 {
            Some(VALUE_UNIT_TYPE_OBJECT::FUNCTION)
        } else if code == 5 {
            Some(VALUE_UNIT_TYPE_OBJECT::ERROR)
        } else {
            None
        }
    }

    /// Each variant is read back from its own code, and a number that is read back
    /// into a variant is that variant's code.
    pub proof fn lemma_code_round_trip(v: VALUE_UNIT_TYPE_OBJECT, code: int)
        ensures
            Self::spec_from_code(v.spec_code()) == Some(v),
            Self::spec_from_code(code) == Some(v) ==> v.spec_code() == code,
    {
    }
}

/// The cell of a value as the engine lays it out: a type tag, a unit tag and
/// eight bytes that are a number or stand for storage that the engine owns.
#[derive(Clone, Copy, PartialEq, Eq, Structural, Debug)]
pub struct VALUE {
    /// Value type.
    pub t: VALUE_TYPE,
    /// Value unit type.
    pub u: u32,
    /// Value data.
    pub d: u64,
}

impl VALUE {
    /// `undefined`: every field is zero.
    pub fn new() -> (r: VALUE)
        ensures
            r == (VALUE { t: VALUE_TYPE::T_UNDEFINED, u: 0, d: 0 }),
    {
        VALUE { t: VALUE_TYPE::T_UNDEFINED, u: 0, d: 0 }
    }
}

impl Default for VALUE {
    fn default() -> (r: VALUE)
        ensures
            r == (VALUE { t: VALUE_TYPE::T_UNDEFINED, u: 0, d: 0 }),
    {
        VALUE::new()
    }
}

} // verus!
