use scalar_expr::catalog::{ColumnCatalog, ColumnDesc, ColumnSummary};
use scalar_expr::errors::DatabaseError;
use scalar_expr::operator::{BinaryOperator, UnaryOperator};
use scalar_expr::text::{digit, push_decimal, push_signed_decimal};
use scalar_expr::types::LogicalType;
use sqlparser::ast::BinaryOperator as SqlBinaryOperator;
use sqlparser::ast::UnaryOperator as SqlUnaryOperator;

#[test]
fn unary_operators_have_their_text() {
    assert_eq!(UnaryOperator::Plus.to_string(), "+");
    assert_eq!(UnaryOperator::Minus.to_string(), "-");
    assert_eq!(UnaryOperator::Not.to_string(), "!");
}

#[test]
fn binary_operators_have_their_text() {
    let cases = [
        (BinaryOperator::Plus, "+"),
        (BinaryOperator::Minus, "-"),
        (BinaryOperator::Multiply, "*"),
        (BinaryOperator::Divide, "/"),
        (BinaryOperator::Modulo, "mod"),
        (BinaryOperator::StringConcat, "&"),
        (BinaryOperator::Gt, ">"),
        (BinaryOperator::Lt, "<"),
        (BinaryOperator::GtEq, ">="),
        (BinaryOperator::LtEq, "<="),
        (BinaryOperator::Spaceship, "<=>"),
        (BinaryOperator::Eq, "="),
        (BinaryOperator::NotEq, "!="),
        (BinaryOperator::And, "&&"),
        (BinaryOperator::Or, "||"),
        (BinaryOperator::Xor, "^"),
        (BinaryOperator::Like(None), "like"),
        (BinaryOperator::NotLike(None), "not like"),
        (BinaryOperator::Like(Some('\\')), "like(escape: \\)"),
        (BinaryOperator::NotLike(Some('é')), "not like(escape: é)"),
    ];
    for (op, text) in cases {
        assert_eq!(op.to_string(), text);
    }
}

#[test]
fn supported_unary_tokens_map_to_operators() {
    assert_eq!(UnaryOperator::try_from_sql(&SqlUnaryOperator::Plus), Ok(UnaryOperator::Plus));
    assert_eq!(UnaryOperator::try_from_sql(&SqlUnaryOperator::Minus), Ok(UnaryOperator::Minus));
    assert_eq!(UnaryOperator::try_from_sql(&SqlUnaryOperator::Not), Ok(UnaryOperator::Not));
}

#[test]
fn other_unary_tokens_are_unsupported() {
    let others = [
        SqlUnaryOperator::PGBitwiseNot,
        SqlUnaryOperator::PGSquareRoot,
        SqlUnaryOperator::PGCubeRoot,
        SqlUnaryOperator::PGPostfixFactorial,
        SqlUnaryOperator::PGPrefixFactorial,
        SqlUnaryOperator::PGAbs,
    ];
    for token in others {
        assert_eq!(UnaryOperator::try_from_sql(&token), Err(DatabaseError::Unsupported));
    }
}

#[test]
fn supported_binary_tokens_map_to_operators() {
    let cases = [
        (SqlBinaryOperator::Plus, BinaryOperator::Plus),
        (SqlBinaryOperator::Minus, BinaryOperator::Minus),
        (SqlBinaryOperator::Multiply, BinaryOperator::Multiply),
        (SqlBinaryOperator::Divide, BinaryOperator::Divide),
        (SqlBinaryOperator::Modulo, BinaryOperator::Modulo),
        (SqlBinaryOperator::StringConcat, BinaryOperator::StringConcat),
        (SqlBinaryOperator::Gt, BinaryOperator::Gt),
        (SqlBinaryOperator::Lt, BinaryOperator::Lt),
        (SqlBinaryOperator::GtEq, BinaryOperator::GtEq),
        (SqlBinaryOperator::LtEq, BinaryOperator::LtEq),
        (SqlBinaryOperator::Spaceship, BinaryOperator::Spaceship),
        (SqlBinaryOperator::Eq, BinaryOperator::Eq),
        (SqlBinaryOperator::NotEq, BinaryOperator::NotEq),
        (SqlBinaryOperator::And, BinaryOperator::And),
        (SqlBinaryOperator::Or, BinaryOperator::Or),
        (SqlBinaryOperator::Xor, BinaryOperator::Xor),
    ];
    for (token, op) in cases {
        assert_eq!(BinaryOperator::try_from_sql(&token), Ok(op));
    }
}

#[test]
fn other_binary_tokens_are_unsupported() {
    let others = [
        SqlBinaryOperator::BitwiseOr,
        SqlBinaryOperator::BitwiseAnd,
        SqlBinaryOperator::BitwiseXor,
        SqlBinaryOperator::DuckIntegerDivide,
        SqlBinaryOperator::MyIntegerDivide,
        SqlBinaryOperator::Custom("+".to_string()),
        SqlBinaryOperator::PGExp,
        SqlBinaryOperator::PGRegexMatch,
        SqlBinaryOperator::PGCustomBinaryOperator(vec!["pg".to_string(), "+".to_string()]),
    ];
    for token in others {
        assert_eq!(BinaryOperator::try_from_sql(&token), Err(DatabaseError::Unsupported));
    }
}

#[test]
fn token_results_follow_what_was_found() {
    assert_eq!(UnaryOperator::from_token(Some(UnaryOperator::Not)), Ok(UnaryOperator::Not));
    assert_eq!(UnaryOperator::from_token(None), Err(DatabaseError::Unsupported));
    assert_eq!(
        BinaryOperator::from_token(Some(BinaryOperator::Plus), None, None),
        Ok(BinaryOperator::Plus)
    );
    assert_eq!(
        BinaryOperator::from_token(None, Some(BinaryOperator::Lt), None),
        Ok(BinaryOperator::Lt)
    );
    assert_eq!(
        BinaryOperator::from_token(None, None, Some(BinaryOperator::Or)),
        Ok(BinaryOperator::Or)
    );
    assert_eq!(
        BinaryOperator::from_token(Some(BinaryOperator::Plus), Some(BinaryOperator::Lt), None),
        Ok(BinaryOperator::Plus)
    );
    assert_eq!(BinaryOperator::from_token(None, None, None), Err(DatabaseError::Unsupported));
}

#[test]
fn operators_are_grouped_for_the_factory() {
    assert!(BinaryOperator::Gt.is_comparison());
    assert!(BinaryOperator::NotEq.is_comparison());
    assert!(!BinaryOperator::Spaceship.is_comparison());
    assert!(!BinaryOperator::Plus.is_comparison());
    assert!(BinaryOperator::Modulo.is_arithmetic());
    assert!(!BinaryOperator::StringConcat.is_arithmetic());
    assert!(!BinaryOperator::And.is_arithmetic());
}

#[test]
fn decimal_notation_has_no_leading_zeros() {
    let render = |n: u64| {
        let mut s = String::from("n=");
        push_decimal(&mut s, n);
        s
    };
    assert_eq!(render(0), "n=0");
    assert_eq!(render(7), "n=7");
    assert_eq!(render(10), "n=10");
    assert_eq!(render(1234567890), "n=1234567890");
    assert_eq!(render(u64::MAX), "n=18446744073709551615");
    let signed = |v: i64| {
        let mut s = String::new();
        push_signed_decimal(&mut s, v);
        s
    };
    assert_eq!(signed(0), "0");
    assert_eq!(signed(-1), "-1");
    assert_eq!(signed(-1000), "-1000");
    assert_eq!(signed(i64::MIN), "-9223372036854775808");
    for d in 0..10u8 {
        assert_eq!(digit(d), char::from(b'0' + d));
    }
}

#[test]
fn summaries_compare_by_all_their_parts() {
    let summary = |id: Option<u32>, name: &str, table: Option<&str>| ColumnSummary {
        id,
        name: name.to_string(),
        table_name: table.map(|t| t.to_string()),
    };
    let base = summary(Some(1), "a", Some("t"));
    assert!(base.same(&summary(Some(1), "a", Some("t"))));
    assert!(!base.same(&summary(Some(2), "a", Some("t"))));
    assert!(!base.same(&summary(None, "a", Some("t"))));
    assert!(!base.same(&summary(Some(1), "b", Some("t"))));
    assert!(!base.same(&summary(Some(1), "a", Some("u"))));
    assert!(!base.same(&summary(Some(1), "a", None)));
    let desc = ColumnDesc::new(LogicalType::Integer, true, false);
    let column = ColumnCatalog { summary: base, nullable: false, desc };
    let fresh = ColumnCatalog::new("a".to_string(), false, desc);
    assert!(!column.same_summary(&fresh));
    assert!(fresh.same_summary(&ColumnCatalog::new("a".to_string(), true, desc)));
    assert_eq!(column.full_name(), "t.a");
    assert_eq!(fresh.summary(), &summary(None, "a", None));
    assert!(desc.is_primary);
}
