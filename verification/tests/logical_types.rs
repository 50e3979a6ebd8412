use scalar_expr::errors::DatabaseError;
use scalar_expr::types::{CharLengthUnits, LogicalType};

fn join(left: LogicalType, right: LogicalType) -> Result<LogicalType, DatabaseError> {
    LogicalType::max_logical_type(&left, &right)
}

const ALL: [LogicalType; 20] = [
    LogicalType::Invalid,
    LogicalType::SqlNull,
    LogicalType::Boolean,
    LogicalType::Tinyint,
    LogicalType::UTinyint,
    LogicalType::Smallint,
    LogicalType::USmallint,
    LogicalType::Integer,
    LogicalType::UInteger,
    LogicalType::Bigint,
    LogicalType::UBigint,
    LogicalType::Float,
    LogicalType::Double,
    LogicalType::Char(4, CharLengthUnits::Characters),
    LogicalType::Varchar(Some(8), CharLengthUnits::Octets),
    LogicalType::Date,
    LogicalType::DateTime,
    LogicalType::Time,
    LogicalType::Decimal(Some(10), Some(2)),
    LogicalType::Tuple,
];

#[test]
fn every_type_joins_with_itself() {
    for ty in ALL {
        assert_eq!(join(ty, ty), Ok(ty));
    }
}

#[test]
fn null_joins_to_the_other_type() {
    for ty in ALL {
        assert_eq!(join(LogicalType::SqlNull, ty), Ok(ty));
        assert_eq!(join(ty, LogicalType::SqlNull), Ok(ty));
    }
}

#[test]
fn integers_of_one_signedness_join_to_the_wider() {
    assert_eq!(join(LogicalType::Tinyint, LogicalType::Bigint), Ok(LogicalType::Bigint));
    assert_eq!(join(LogicalType::Integer, LogicalType::Smallint), Ok(LogicalType::Integer));
    assert_eq!(join(LogicalType::UTinyint, LogicalType::USmallint), Ok(LogicalType::USmallint));
    assert_eq!(join(LogicalType::UBigint, LogicalType::UInteger), Ok(LogicalType::UBigint));
}

#[test]
fn mixed_signedness_joins_to_a_signed_type_that_holds_both() {
    assert_eq!(join(LogicalType::UTinyint, LogicalType::Bigint), Ok(LogicalType::Bigint));
    assert_eq!(join(LogicalType::Integer, LogicalType::USmallint), Ok(LogicalType::Integer));
    assert_eq!(join(LogicalType::Tinyint, LogicalType::UTinyint), Ok(LogicalType::Smallint));
    assert_eq!(join(LogicalType::Smallint, LogicalType::USmallint), Ok(LogicalType::Integer));
    assert_eq!(join(LogicalType::Integer, LogicalType::UInteger), Ok(LogicalType::Bigint));
    assert_eq!(join(LogicalType::UInteger, LogicalType::Tinyint), Ok(LogicalType::Bigint));
    assert_eq!(join(LogicalType::Bigint, LogicalType::UBigint), Ok(LogicalType::Double));
    assert_eq!(join(LogicalType::UBigint, LogicalType::Smallint), Ok(LogicalType::Double));
}

#[test]
fn floating_and_decimal_types_absorb_integers() {
    let decimal = LogicalType::Decimal(Some(10), Some(2));
    assert_eq!(join(LogicalType::Float, LogicalType::Bigint), Ok(LogicalType::Float));
    assert_eq!(join(LogicalType::UInteger, LogicalType::Double), Ok(LogicalType::Double));
    assert_eq!(join(LogicalType::Float, LogicalType::Double), Ok(LogicalType::Double));
    assert_eq!(join(decimal, LogicalType::Double), Ok(decimal));
    assert_eq!(join(LogicalType::Tinyint, decimal), Ok(decimal));
    assert_eq!(
        join(decimal, LogicalType::Decimal(None, None)),
        Err(DatabaseError::TypeMismatch(decimal, LogicalType::Decimal(None, None)))
    );
}

#[test]
fn dates_and_strings_join() {
    let varchar = LogicalType::Varchar(Some(8), CharLengthUnits::Characters);
    let char4 = LogicalType::Char(4, CharLengthUnits::Characters);
    assert_eq!(join(LogicalType::Date, varchar), Ok(LogicalType::Date));
    assert_eq!(join(varchar, LogicalType::Date), Ok(LogicalType::Date));
    assert_eq!(join(LogicalType::Date, LogicalType::DateTime), Ok(LogicalType::DateTime));
    assert_eq!(join(LogicalType::DateTime, LogicalType::Date), Ok(LogicalType::DateTime));
    assert_eq!(join(LogicalType::DateTime, varchar), Ok(LogicalType::DateTime));
    assert_eq!(join(varchar, LogicalType::DateTime), Ok(LogicalType::DateTime));
    assert_eq!(join(char4, varchar), Ok(varchar));
    assert_eq!(join(varchar, char4), Ok(varchar));
}

#[test]
fn incompatible_types_fail_with_both_types() {
    let varchar = LogicalType::Varchar(None, CharLengthUnits::Characters);
    assert_eq!(
        join(LogicalType::Boolean, LogicalType::Integer),
        Err(DatabaseError::TypeMismatch(LogicalType::Boolean, LogicalType::Integer))
    );
    assert_eq!(
        join(LogicalType::Integer, varchar),
        Err(DatabaseError::TypeMismatch(LogicalType::Integer, varchar))
    );
    assert_eq!(
        join(LogicalType::Time, LogicalType::Date),
        Err(DatabaseError::TypeMismatch(LogicalType::Time, LogicalType::Date))
    );
    assert_eq!(
        join(LogicalType::Tuple, LogicalType::Invalid),
        Err(DatabaseError::TypeMismatch(LogicalType::Tuple, LogicalType::Invalid))
    );
    assert_eq!(
        join(
            LogicalType::Varchar(Some(1), CharLengthUnits::Characters),
            LogicalType::Varchar(Some(2), CharLengthUnits::Characters)
        ),
        Err(DatabaseError::TypeMismatch(
            LogicalType::Varchar(Some(1), CharLengthUnits::Characters),
            LogicalType::Varchar(Some(2), CharLengthUnits::Characters)
        ))
    );
}

#[test]
fn only_the_four_unsigned_integers_are_unsigned() {
    for ty in ALL {
        let unsigned = matches!(
            ty,
            LogicalType::UTinyint
                | LogicalType::USmallint
                | LogicalType::UInteger
                | LogicalType::UBigint
        );
        assert_eq!(ty.is_unsigned_numeric(), unsigned);
        assert!(!ty.to_signed().is_unsigned_numeric());
        if !unsigned {
            assert_eq!(ty.to_signed(), ty);
        }
    }
    assert_eq!(LogicalType::UTinyint.to_signed(), LogicalType::Tinyint);
    assert_eq!(LogicalType::USmallint.to_signed(), LogicalType::Smallint);
    assert_eq!(LogicalType::UInteger.to_signed(), LogicalType::Integer);
    assert_eq!(LogicalType::UBigint.to_signed(), LogicalType::Bigint);
}

#[test]
fn numeric_types_are_told_apart() {
    assert!(LogicalType::Tinyint.is_signed_integer());
    assert!(!LogicalType::UTinyint.is_signed_integer());
    assert!(!LogicalType::Double.is_signed_integer());
    assert!(LogicalType::Double.is_numeric());
    assert!(LogicalType::Decimal(None, None).is_numeric());
    assert!(LogicalType::UBigint.is_numeric());
    assert!(!LogicalType::Boolean.is_numeric());
    assert!(!LogicalType::Date.is_numeric());
}

#[test]
fn types_compare_with_their_parameters() {
    for (i, left) in ALL.iter().enumerate() {
        for (j, right) in ALL.iter().enumerate() {
            assert_eq!(left.same(right), i == j);
        }
    }
    assert!(!LogicalType::Char(4, CharLengthUnits::Characters)
        .same(&LogicalType::Char(4, CharLengthUnits::Octets)));
    assert!(!LogicalType::Decimal(Some(1), None).same(&LogicalType::Decimal(None, None)));
    assert!(CharLengthUnits::Octets.same(&CharLengthUnits::Octets));
    assert!(!CharLengthUnits::Octets.same(&CharLengthUnits::Characters));
}

#[test]
fn types_render_by_name() {
    let names = [
        "Invalid", "SqlNull", "Boolean", "Tinyint", "UTinyint", "Smallint", "USmallint", "Integer",
        "UInteger", "Bigint", "UBigint", "Float", "Double", "Char", "Varchar", "Date", "DateTime",
        "Time", "Decimal", "Tuple",
    ];
    for (ty, name) in ALL.iter().zip(names.iter()) {
        assert_eq!(ty.to_string(), *name);
    }
}

#[test]
fn the_join_does_not_depend_on_the_order() {
    for left in ALL {
        for right in ALL {
            let forth = join(left, right);
            let back = join(right, left);
            match (forth, back) {
                (Ok(a), Ok(b)) => assert_eq!(a, b),
                (Err(_), Err(_)) => {}
                other => panic!("{:?} and {:?} join one way only: {:?}", left, right, other),
            }
        }
    }
}
