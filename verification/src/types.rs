//! Logical types: the SQL type tags that expressions carry, and the
//! promotion rules that join two of them.

use crate::errors::DatabaseError;
use vstd::prelude::*;

verus! {

/// The unit in which a character type counts its length.
#[derive(Debug, Clone, Copy, PartialEq, Eq, Hash)]
pub enum CharLengthUnits {
    Characters,
    Octets,
}

#[derive(Debug, Clone, Copy, PartialEq, Eq, Hash)]
pub enum LogicalType {
    Invalid,
    SqlNull,
    Boolean,
    Tinyint,
    UTinyint,
    Smallint,
    USmallint,
    Integer,
    UInteger,
    Bigint,
    UBigint,
    Float,
    Double,
    Char(u32, CharLengthUnits),
    Varchar(Option<u32>, CharLengthUnits),
    Date,
    DateTime,
    Time,
    Decimal(Option<u8>, Option<u8>),
    Tuple,
}

impl CharLengthUnits {
    pub fn same(&self, other: &CharLengthUnits) -> (r: bool)
        ensures
            r == (*self == *other),
    {
        match (self, other) {
            (CharLengthUnits::Characters, CharLengthUnits::Characters) => true,
            (CharLengthUnits::Octets, CharLengthUnits::Octets) => true,
            _ => false,
        }
    }
}

impl LogicalType {
    /// Width rank of an integer type, 1 for 8 bits up to 4 for 64 bits; 0 for
    /// every other type.
    pub open spec fn spec_width(&self) -> nat {
        match self {
            LogicalType::Tinyint | LogicalType::UTinyint => 1,
            LogicalType::Smallint | LogicalType::USmallint => 2,
            LogicalType::Integer | LogicalType::UInteger => 3,
            LogicalType::Bigint | LogicalType::UBigint => 4,
            _ => 0,
        }
    }

    pub open spec fn spec_is_signed_integer(&self) -> bool {
        matches!(
            self,
            LogicalType::Tinyint | LogicalType::Smallint | LogicalType::Integer
                | LogicalType::Bigint
        )
    }

    pub open spec fn spec_is_unsigned_numeric(&self) -> bool {
        matches!(
            self,
            LogicalType::UTinyint | LogicalType::USmallint | LogicalType::UInteger
                | LogicalType::UBigint
        )
    }

    pub open spec fn spec_is_numeric(&self) -> bool {
        self.spec_is_signed_integer() || self.spec_is_unsigned_numeric() || matches!(
            self,
            LogicalType::Float | LogicalType::Double | LogicalType::Decimal(_, _)
        )
    }

    /// The signed integer type of the given width rank; ranks above 64 bits
    /// leave the integers for `Double`.
    pub open spec fn spec_signed_of_width(w: nat) -> LogicalType {
        if w <= 1 {
            LogicalType::Tinyint
        } else if w == 2 {
            LogicalType::Smallint
        } else if w == 3 {
            LogicalType::Integer
        } else if w == 4 {
            LogicalType::Bigint
        } else {
            LogicalType::Double
        }
    }

    /// The signed type that an unsigned operand is cast to before a unary
    /// operator; every other type stands for itself.
    pub open spec fn spec_to_signed(&self) -> LogicalType {
        match self {
            LogicalType::UTinyint => LogicalType::Tinyint,
            LogicalType::USmallint => LogicalType::Smallint,
            LogicalType::UInteger => LogicalType::Integer,
            LogicalType::UBigint => LogicalType::Bigint,
            _ => *self,
        }
    }

    /// The join of two distinct numeric types under SQL promotion.
    ///
    /// A decimal absorbs every other numeric type but a decimal of another
    /// shape; then `Double` wins, then `Float`. Two integers of one
    /// signedness give the wider. A signed and an unsigned integer give the
    /// signed one where it is strictly wider, and else the signed type one
    /// rank above the unsigned.
    pub open spec fn spec_combine_numeric(left: LogicalType, right: LogicalType) -> Option<
        LogicalType,
    > {
        if left == right {
            Some(left)
        } else if left is Decimal {
            if right is Decimal {
                None
            } else {
                Some(left)
            }
        } else if right is Decimal {
            Some(right)
        } else if left is Double || right is Double {
            Some(LogicalType::Double)
        } else if left is Float || right is Float {
            Some(LogicalType::Float)
        } else if left.spec_is_signed_integer() == right.spec_is_signed_integer() {
            if left.spec_width() >= right.spec_width() {
                Some(left)
            } else {
                Some(right)
            }
        } else {
            let signed = if left.spec_is_signed_integer() {
                left
            } else {
                right
            };
            let unsigned = if left.spec_is_signed_integer() {
                right
            } else {
                left
            };
            if unsigned.spec_width() < signed.spec_width() {
                Some(signed)
            } else {
                Some(Self::spec_signed_of_width(unsigned.spec_width() + 1))
            }
        }
    }

    /// The SQL-promotion join of two types, `None` where they are
    /// incompatible.
    ///
    /// Equal types join to themselves, `SqlNull` joins to the other type,
    /// numeric types join by `spec_combine_numeric`, a date joins with a
    /// date-time to the date-time, either joins with a `Varchar` to itself,
    /// and a `Char` joins with a `Varchar` to that `Varchar`.
    pub open spec fn spec_max_logical_type(left: LogicalType, right: LogicalType) -> Option<
        LogicalType,
    > {
        if left == right {
            Some(left)
        } else if left is SqlNull {
            Some(right)
        } else if right is SqlNull {
            Some(left)
        } else if left.spec_is_numeric() && right.spec_is_numeric() {
            Self::spec_combine_numeric(left, right)
        } else {
            match (left, right) {
                (LogicalType::Date, LogicalType::Varchar(_, _)) => Some(LogicalType::Date),
                (LogicalType::Varchar(_, _), LogicalType::Date) => Some(LogicalType::Date),
                (LogicalType::Date, LogicalType::DateTime) => Some(LogicalType::DateTime),
                (LogicalType::DateTime, LogicalType::Date) => Some(LogicalType::DateTime),
                (LogicalType::DateTime, LogicalType::Varchar(_, _)) => Some(LogicalType::DateTime),
                (LogicalType::Varchar(_, _), LogicalType::DateTime) => Some(LogicalType::DateTime),
                (LogicalType::Char(_, _), LogicalType::Varchar(_, _)) => Some(right),
                (LogicalType::Varchar(_, _), LogicalType::Char(_, _)) => Some(left),
                _ => None,
            }
        }
    }

    /// The name under which a type appears in rendered expressions.
    pub open spec fn spec_name(&self) -> Seq<char> {
        match self {
            LogicalType::Invalid => "Invalid"@,
            LogicalType::SqlNull => "SqlNull"@,
            LogicalType::Boolean => "Boolean"@,
            LogicalType::Tinyint => "Tinyint"@,
            LogicalType::UTinyint => "UTinyint"@,
            LogicalType::Smallint => "Smallint"@,
            LogicalType::USmallint => "USmallint"@,
            LogicalType::Integer => "Integer"@,
            LogicalType::UInteger => "UInteger"@,
            LogicalType::Bigint => "Bigint"@,
            LogicalType::UBigint => "UBigint"@,
            LogicalType::Float => "Float"@,
            LogicalType::Double => "Double"@,
            LogicalType::Char(_, _) => "Char"@,
            LogicalType::Varchar(_, _) => "Varchar"@,
            LogicalType::Date => "Date"@,
            LogicalType::DateTime => "DateTime"@,
            LogicalType::Time => "Time"@,
            LogicalType::Decimal(_, _) => "Decimal"@,
            LogicalType::Tuple => "Tuple"@,
        }
    }

    /// Whether two types are the same type, parameters included.
    pub fn same(&self, other: &LogicalType) -> (r: bool)
        ensures
            r == (*self == *other),
    {
        match (self, other) {
            (LogicalType::Invalid, LogicalType::Invalid) => true,
            (LogicalType::SqlNull, LogicalType::SqlNull) => true,
            (LogicalType::Boolean, LogicalType::Boolean) => true,
            (LogicalType::Tinyint, LogicalType::Tinyint) => true,
            (LogicalType::UTinyint, LogicalType::UTinyint) => true,
            (LogicalType::Smallint, LogicalType::Smallint) => true,
            (LogicalType::USmallint, LogicalType::USmallint) => true,
            (LogicalType::Integer, LogicalType::Integer) => true,
            (LogicalType::UInteger, LogicalType::UInteger) => true,
            (LogicalType::Bigint, LogicalType::Bigint) => true,
            (LogicalType::UBigint, LogicalType::UBigint) => true,
            (LogicalType::Float, LogicalType::Float) => true,
            (LogicalType::Double, LogicalType::Double) => true,
            (LogicalType::Char(l1, u1), LogicalType::Char(l2, u2)) => *l1 == *l2 && u1.same(u2),
            (LogicalType::Varchar(l1, u1), LogicalType::Varchar(l2, u2)) => {
                let lens = match (l1, l2) {
                    (Some(a), Some(b)) => *a == *b,
                    (None, None) => true,
                    _ => false,
                };
                lens && u1.same(u2)
            },
            (LogicalType::Date, LogicalType::Date) => true,
            (LogicalType::DateTime, LogicalType::DateTime) => true,
            (LogicalType::Time, LogicalType::Time) => true,
            (LogicalType::Decimal(p1, s1), LogicalType::Decimal(p2, s2)) => {
                let precisions = match (p1, p2) {
                    (Some(a), Some(b)) => *a == *b,
                    (None, None) => true,
                    _ => false,
                };
                let scales = match (s1, s2) {
                    (Some(a), Some(b)) => *a == *b,
                    (None, None) => true,
                    _ => false,
                };
                precisions && scales
            },
            (LogicalType::Tuple, LogicalType::Tuple) => true,
            _ => false,
        }
    }

    fn width(&self) -> (w: u8)
        ensures
            w as nat == self.spec_width(),
    {
        match self {
            LogicalType::Tinyint | LogicalType::UTinyint => 1,
            LogicalType::Smallint | LogicalType::USmallint => 2,
            LogicalType::Integer | LogicalType::UInteger => 3,
            LogicalType::Bigint | LogicalType::UBigint => 4,
            _ => 0,
        }
    }

    fn signed_of_width(w: u8) -> (t: LogicalType)
        ensures
            t == Self::spec_signed_of_width(w as nat),
    {
        if w <= 1 {
            LogicalType::Tinyint
        } else if w == 2 {
            LogicalType::Smallint
        } else if w == 3 {
            LogicalType::Integer
        } else if w == 4 {
            LogicalType::Bigint
        } else {
            LogicalType::Double
        }
    }

    pub fn is_signed_integer(&self) -> (r: bool)
        ensures
            r == self.spec_is_signed_integer(),
    {
        matches!(
            self,
            LogicalType::Tinyint | LogicalType::Smallint | LogicalType::Integer
                | LogicalType::Bigint
        )
    }

    pub fn is_unsigned_numeric(&self) -> (r: bool)
        ensures
            r == self.spec_is_unsigned_numeric(),
    {
        matches!(
            self,
            LogicalType::UTinyint | LogicalType::USmallint | LogicalType::UInteger
                | LogicalType::UBigint
        )
    }

    pub fn is_numeric(&self) -> (r: bool)
        ensures
            r == self.spec_is_numeric(),
    {
        self.is_signed_integer() || self.is_unsigned_numeric() || matches!(
            self,
            LogicalType::Float | LogicalType::Double | LogicalType::Decimal(_, _)
        )
    }

    /// The signed counterpart of an unsigned integer type; any other type
    /// unchanged.
    pub fn to_signed(&self) -> (t: LogicalType)
        ensures
            t == self.spec_to_signed(),
            !t.spec_is_unsigned_numeric(),
    {
        match self {
            LogicalType::UTinyint => LogicalType::Tinyint,
            LogicalType::USmallint => LogicalType::Smallint,
            LogicalType::UInteger => LogicalType::Integer,
            LogicalType::UBigint => LogicalType::Bigint,
            _ => *self,
        }
    }

    fn combine_numeric_types(left: &LogicalType, right: &LogicalType) -> (r: Option<LogicalType>)
        requires
            left.spec_is_numeric(),
            right.spec_is_numeric(),
        ensures
            r == Self::spec_combine_numeric(*left, *right),
    {
        if left.same(right) {
            return Some(*left);
        }
        let left_decimal = matches!(left, LogicalType::Decimal(_, _));
        let right_decimal = matches!(right, LogicalType::Decimal(_, _));
        if left_decimal {
            return if right_decimal {
                None
            } else {
                Some(*left)
            };
        }
        if right_decimal {
            return Some(*right);
        }
        if matches!(left, LogicalType::Double) || matches!(right, LogicalType::Double) {
            return Some(LogicalType::Double);
        }
        if matches!(left, LogicalType::Float) || matches!(right, LogicalType::Float) {
            return Some(LogicalType::Float);
        }
        if left.is_signed_integer() == right.is_signed_integer() {
            return if left.width() >= right.width() {
                Some(*left)
            } else {
                Some(*right)
            };
        }
        let (signed, unsigned) = if left.is_signed_integer() {
            (left, right)
        } else {
            (right, left)
        };
        if unsigned.width() < signed.width() {
            Some(*signed)
        } else {
            Some(Self::signed_of_width(unsigned.width() + 1))
        }
    }

    /// Joins two types under SQL promotion.
    ///
    /// Fails with `TypeMismatch`, carrying both types, exactly where the two
    /// have no common type.
    pub fn max_logical_type(left: &LogicalType, right: &LogicalType) -> (r: Result<
        LogicalType,
        DatabaseError,
    >)
        ensures
            match Self::spec_max_logical_type(*left, *right) {
                Some(t) => r == Ok::<LogicalType, DatabaseError>(t),
                None => r == Err::<LogicalType, DatabaseError>(
                    DatabaseError::TypeMismatch(*left, *right),
                ),
            },
    {
        if left.same(right) {
            return Ok(*left);
        }
        if matches!(left, LogicalType::SqlNull) {
            return Ok(*right);
        }
        if matches!(right, LogicalType::SqlNull) {
            return Ok(*left);
        }
        if left.is_numeric() && right.is_numeric() {
            return match Self::combine_numeric_types(left, right) {
                Some(t) => Ok(t),
                None => Err(DatabaseError::TypeMismatch(*left, *right)),
            };
        }
        match (left, right) {
            (LogicalType::Date, LogicalType::Varchar(_, _)) => Ok(LogicalType::Date),
            (LogicalType::Varchar(_, _), LogicalType::Date) => Ok(LogicalType::Date),
            (LogicalType::Date, LogicalType::DateTime) => Ok(LogicalType::DateTime),
            (LogicalType::DateTime, LogicalType::Date) => Ok(LogicalType::DateTime),
            (LogicalType::DateTime, LogicalType::Varchar(_, _)) => Ok(LogicalType::DateTime),
            (LogicalType::Varchar(_, _), LogicalType::DateTime) => Ok(LogicalType::DateTime),
            (LogicalType::Char(_, _), LogicalType::Varchar(_, _)) => Ok(*right),
            (LogicalType::Varchar(_, _), LogicalType::Char(_, _)) => Ok(*left),
            _ => Err(DatabaseError::TypeMismatch(*left, *right)),
        }
    }

    /// The name of the type as rendered expressions show it.
    pub fn to_string(&self) -> (r: String)
        ensures
            r@ == self.spec_name(),
    {
        let name = match self {
            LogicalType::Invalid => "Invalid",
            LogicalType::SqlNull => "SqlNull",
            LogicalType::Boolean => "Boolean",
            LogicalType::Tinyint => "Tinyint",
            LogicalType::UTinyint => "UTinyint",
            LogicalType::Smallint => "Smallint",
            LogicalType::USmallint => "USmallint",
            LogicalType::Integer => "Integer",
            LogicalType::UInteger => "UInteger",
            LogicalType::Bigint => "Bigint",
            LogicalType::UBigint => "UBigint",
            LogicalType::Float => "Float",
            LogicalType::Double => "Double",
            LogicalType::Char(_, _) => "Char",
            LogicalType::Varchar(_, _) => "Varchar",
            LogicalType::Date => "Date",
            LogicalType::DateTime => "DateTime",
            LogicalType::Time => "Time",
            LogicalType::Decimal(_, _) => "Decimal",
            LogicalType::Tuple => "Tuple",
        };
        String::from_str(name)
    }
}

/// Joining a type with itself gives that type.
pub proof fn lemma_max_logical_type_idempotent(t: LogicalType)
    ensures
        LogicalType::spec_max_logical_type(t, t) == Some(t),
{
}

/// The join of two types does not depend on their order.
pub proof fn lemma_max_logical_type_commutes(left: LogicalType, right: LogicalType)
    ensures
        LogicalType::spec_max_logical_type(left, right) == LogicalType::spec_max_logical_type(
            right,
            left,
        ),
{
}

/// The signed counterpart of a type is never unsigned, and a type that is
/// not unsigned is its own counterpart.
pub proof fn lemma_to_signed_is_signed(t: LogicalType)
    ensures
        !t.spec_to_signed().spec_is_unsigned_numeric(),
        !t.spec_is_unsigned_numeric() ==> t.spec_to_signed() == t,
{
}

} // verus!
