//! SQL literals as expressions hold them: a value with its logical type and
//! its text.

use crate::text::{push_decimal, push_signed_decimal};
use crate::text::{spec_decimal, spec_signed_decimal};
use crate::types::{CharLengthUnits, LogicalType};
use std::sync::Arc;
use vstd::prelude::*;

verus! {

#[derive(Debug, Clone, PartialEq, Eq, Hash)]
pub enum DataValue {
    Null,
    Boolean(bool),
    Int8(i8),
    Int16(i16),
    Int32(i32),
    Int64(i64),
    UInt8(u8),
    UInt16(u16),
    UInt32(u32),
    UInt64(u64),
    Utf8(String),
}

/// A shared handle to an immutable literal.
pub type ValueRef = Arc<DataValue>;

impl DataValue {
    pub open spec fn spec_logical_type(&self) -> LogicalType {
        match self {
            DataValue::Null => LogicalType::SqlNull,
            DataValue::Boolean(_) => LogicalType::Boolean,
            DataValue::Int8(_) => LogicalType::Tinyint,
            DataValue::Int16(_) => LogicalType::Smallint,
            DataValue::Int32(_) => LogicalType::Integer,
            DataValue::Int64(_) => LogicalType::Bigint,
            DataValue::UInt8(_) => LogicalType::UTinyint,
            DataValue::UInt16(_) => LogicalType::USmallint,
            DataValue::UInt32(_) => LogicalType::UInteger,
            DataValue::UInt64(_) => LogicalType::UBigint,
            DataValue::Utf8(_) => LogicalType::Varchar(None, CharLengthUnits::Characters),
        }
    }

    /// The text of the literal: `null`, `true` or `false`, the decimal
    /// notation of a number, the characters of a string.
    pub open spec fn spec_text(&self) -> Seq<char> {
        match self {
            DataValue::Null => "null"@,
            DataValue::Boolean(b) => if *b {
                "true"@
            } else {
                "false"@
            },
            DataValue::Int8(v) => spec_signed_decimal(*v as int),
            DataValue::Int16(v) => spec_signed_decimal(*v as int),
            DataValue::Int32(v) => spec_signed_decimal(*v as int),
            DataValue::Int64(v) => spec_signed_decimal(*v as int),
            DataValue::UInt8(v) => spec_decimal(*v as nat),
            DataValue::UInt16(v) => spec_decimal(*v as nat),
            DataValue::UInt32(v) => spec_decimal(*v as nat),
            DataValue::UInt64(v) => spec_decimal(*v as nat),
            DataValue::Utf8(s) => s@,
        }
    }

    /// Whether the literal is the string `*`, the argument that stands for
    /// "every row" in a count.
    pub open spec fn spec_is_star(&self) -> bool {
        match self {
            DataValue::Utf8(s) => s@ == seq!['*'],
            _ => false,
        }
    }

    pub fn logical_type(&self) -> (r: LogicalType)
        ensures
            r == self.spec_logical_type(),
    {
        match self {
            DataValue::Null => LogicalType::SqlNull,
            DataValue::Boolean(_) => LogicalType::Boolean,
            DataValue::Int8(_) => LogicalType::Tinyint,
            DataValue::Int16(_) => LogicalType::Smallint,
            DataValue::Int32(_) => LogicalType::Integer,
            DataValue::Int64(_) => LogicalType::Bigint,
            DataValue::UInt8(_) => LogicalType::UTinyint,
            DataValue::UInt16(_) => LogicalType::USmallint,
            DataValue::UInt32(_) => LogicalType::UInteger,
            DataValue::UInt64(_) => LogicalType::UBigint,
            DataValue::Utf8(_) => LogicalType::Varchar(None, CharLengthUnits::Characters),
        }
    }

    /// The text of the literal.
    pub fn to_string(&self) -> (r: String)
        ensures
            r@ == self.spec_text(),
    {
        let mut s = String::new();
        match self {
            DataValue::Null => {
                s.append("null");
            },
            DataValue::Boolean(b) => {
                if *b {
                    s.append("true");
                } else {
                    s.append("false");
                }
            },
            DataValue::Int8(v) => {
                push_signed_decimal(&mut s, *v as i64);
            },
            DataValue::Int16(v) => {
                push_signed_decimal(&mut s, *v as i64);
            },
            DataValue::Int32(v) => {
                push_signed_decimal(&mut s, *v as i64);
            },
            DataValue::Int64(v) => {
                push_signed_decimal(&mut s, *v);
            },
            DataValue::UInt8(v) => {
                push_decimal(&mut s, *v as u64);
            },
            DataValue::UInt16(v) => {
                push_decimal(&mut s, *v as u64);
            },
            DataValue::UInt32(v) => {
                push_decimal(&mut s, *v as u64);
            },
            DataValue::UInt64(v) => {
                push_decimal(&mut s, *v);
            },
            DataValue::Utf8(text) => {
                s.append(text.as_str());
            },
        }
        assert(s@ =~= self.spec_text());
        s
    }

    /// Whether the literal is the string `*`.
    pub fn is_star(&self) -> (r: bool)
        ensures
            r == self.spec_is_star(),
    {
        match self {
            DataValue::Utf8(s) => {
                proof {
                    reveal_strlit("*");
                }
                let star = String::from_str("*");
                assert(star@ =~= seq!['*']);
                *s == star
            },
            _ => false,
        }
    }
}

} // verus!
