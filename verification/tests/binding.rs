use scalar_expr::catalog::{ColumnCatalog, ColumnDesc, ColumnRef, ColumnSummary};
use scalar_expr::errors::DatabaseError;
use scalar_expr::evaluator::{BinaryEvaluator, EvaluatorFactory, UnaryEvaluator};
use scalar_expr::expression::{AliasType, ScalarExpression};
use scalar_expr::operator::{BinaryOperator, UnaryOperator};
use scalar_expr::types::{CharLengthUnits, LogicalType};
use scalar_expr::value::DataValue;
use std::sync::Arc;

fn column(name: &str, ty: LogicalType) -> ColumnRef {
    Arc::new(ColumnCatalog {
        summary: ColumnSummary { id: Some(1), name: name.to_string(), table_name: None },
        nullable: false,
        desc: ColumnDesc::new(ty, false, false),
    })
}

fn col(name: &str, ty: LogicalType) -> ScalarExpression {
    ScalarExpression::ColumnRef(column(name, ty))
}

fn num(v: i32) -> ScalarExpression {
    ScalarExpression::Constant(Arc::new(DataValue::Int32(v)))
}

fn boxed(e: ScalarExpression) -> Box<ScalarExpression> {
    Box::new(e)
}

fn cast(e: ScalarExpression, ty: LogicalType) -> ScalarExpression {
    ScalarExpression::TypeCast { expr: boxed(e), ty }
}

fn binary(
    op: BinaryOperator,
    left: ScalarExpression,
    right: ScalarExpression,
    evaluator: Option<LogicalType>,
    ty: LogicalType,
) -> ScalarExpression {
    ScalarExpression::Binary {
        op,
        left_expr: boxed(left),
        right_expr: boxed(right),
        evaluator: evaluator.map(|ty| BinaryEvaluator { ty, op }),
        ty,
    }
}

fn unary(
    op: UnaryOperator,
    operand: ScalarExpression,
    evaluator: Option<LogicalType>,
    ty: LogicalType,
) -> ScalarExpression {
    ScalarExpression::Unary {
        op,
        expr: boxed(operand),
        evaluator: evaluator.map(|ty| UnaryEvaluator { ty, op }),
        ty,
    }
}

#[test]
fn equal_operand_types_need_no_cast() {
    let mut expr =
        binary(BinaryOperator::Eq, col("a", LogicalType::Integer), num(1), None, LogicalType::Boolean);
    assert_eq!(expr.bind_evaluator(), Ok(()));
    let expected = binary(
        BinaryOperator::Eq,
        col("a", LogicalType::Integer),
        num(1),
        Some(LogicalType::Integer),
        LogicalType::Boolean,
    );
    assert_eq!(expr, expected);
    assert_eq!(expr.return_type(), LogicalType::Boolean);
}

#[test]
fn signed_and_unsigned_operands_are_both_cast() {
    let mut expr = binary(
        BinaryOperator::Plus,
        col("a", LogicalType::Integer),
        col("b", LogicalType::UInteger),
        None,
        LogicalType::Bigint,
    );
    assert_eq!(expr.bind_evaluator(), Ok(()));
    let expected = binary(
        BinaryOperator::Plus,
        cast(col("a", LogicalType::Integer), LogicalType::Bigint),
        cast(col("b", LogicalType::UInteger), LogicalType::Bigint),
        Some(LogicalType::Bigint),
        LogicalType::Bigint,
    );
    assert_eq!(expr, expected);
}

#[test]
fn binding_works_bottom_up() {
    let inner = binary(
        BinaryOperator::Plus,
        col("a", LogicalType::Tinyint),
        col("b", LogicalType::Smallint),
        None,
        LogicalType::Smallint,
    );
    let mut expr =
        binary(BinaryOperator::Lt, inner, col("c", LogicalType::Bigint), None, LogicalType::Boolean);
    assert_eq!(expr.bind_evaluator(), Ok(()));
    let bound_inner = binary(
        BinaryOperator::Plus,
        cast(col("a", LogicalType::Tinyint), LogicalType::Smallint),
        col("b", LogicalType::Smallint),
        Some(LogicalType::Smallint),
        LogicalType::Smallint,
    );
    let expected = binary(
        BinaryOperator::Lt,
        cast(bound_inner, LogicalType::Bigint),
        col("c", LogicalType::Bigint),
        Some(LogicalType::Bigint),
        LogicalType::Boolean,
    );
    assert_eq!(expr, expected);
}

#[test]
fn unary_on_signed_operand_needs_no_cast() {
    let mut expr = unary(UnaryOperator::Minus, col("a", LogicalType::Bigint), None, LogicalType::Bigint);
    assert_eq!(expr.bind_evaluator(), Ok(()));
    assert_eq!(
        expr,
        unary(
            UnaryOperator::Minus,
            col("a", LogicalType::Bigint),
            Some(LogicalType::Bigint),
            LogicalType::Bigint
        )
    );
    let mut negation =
        unary(UnaryOperator::Not, col("p", LogicalType::Boolean), None, LogicalType::Boolean);
    assert_eq!(negation.bind_evaluator(), Ok(()));
    assert_eq!(
        negation,
        unary(
            UnaryOperator::Not,
            col("p", LogicalType::Boolean),
            Some(LogicalType::Boolean),
            LogicalType::Boolean
        )
    );
}

#[test]
fn each_unsigned_type_is_cast_to_its_signed_type() {
    let cases = [
        (LogicalType::UTinyint, LogicalType::Tinyint),
        (LogicalType::USmallint, LogicalType::Smallint),
        (LogicalType::UInteger, LogicalType::Integer),
        (LogicalType::UBigint, LogicalType::Bigint),
    ];
    for (unsigned, signed) in cases {
        let mut expr = unary(UnaryOperator::Plus, col("a", unsigned), None, signed);
        assert_eq!(expr.bind_evaluator(), Ok(()));
        assert_eq!(
            expr,
            unary(UnaryOperator::Plus, cast(col("a", unsigned), signed), Some(signed), signed)
        );
    }
}

#[test]
fn incompatible_operands_fail_with_type_mismatch() {
    let mut expr = binary(
        BinaryOperator::Plus,
        col("p", LogicalType::Boolean),
        col("a", LogicalType::Integer),
        None,
        LogicalType::Integer,
    );
    assert_eq!(
        expr.bind_evaluator(),
        Err(DatabaseError::TypeMismatch(LogicalType::Boolean, LogicalType::Integer))
    );
}

#[test]
fn missing_binary_kernel_fails_with_unsupported_operator() {
    let mut expr = binary(
        BinaryOperator::And,
        col("a", LogicalType::Integer),
        col("b", LogicalType::Bigint),
        None,
        LogicalType::Boolean,
    );
    assert_eq!(
        expr.bind_evaluator(),
        Err(DatabaseError::UnsupportedBinaryOperator(LogicalType::Bigint, BinaryOperator::And))
    );
}

#[test]
fn missing_unary_kernel_fails_with_unsupported_operator() {
    let mut expr = unary(UnaryOperator::Not, col("a", LogicalType::UInteger), None, LogicalType::Boolean);
    assert_eq!(
        expr.bind_evaluator(),
        Err(DatabaseError::UnsupportedUnaryOperator(LogicalType::Integer, UnaryOperator::Not))
    );
}

#[test]
fn the_first_failing_node_decides_the_error() {
    let bad_left = binary(
        BinaryOperator::Plus,
        col("p", LogicalType::Boolean),
        col("d", LogicalType::Date),
        None,
        LogicalType::Integer,
    );
    let bad_right = unary(UnaryOperator::Not, col("a", LogicalType::Integer), None, LogicalType::Boolean);
    let mut expr = ScalarExpression::Tuple(vec![num(1), bad_left, bad_right]);
    assert_eq!(
        expr.bind_evaluator(),
        Err(DatabaseError::TypeMismatch(LogicalType::Boolean, LogicalType::Date))
    );
    let child = unary(UnaryOperator::Not, col("a", LogicalType::Integer), None, LogicalType::Boolean);
    let mut parent = binary(
        BinaryOperator::Plus,
        child,
        col("d", LogicalType::Date),
        None,
        LogicalType::Integer,
    );
    assert_eq!(
        parent.bind_evaluator(),
        Err(DatabaseError::UnsupportedUnaryOperator(LogicalType::Integer, UnaryOperator::Not))
    );
}

#[test]
fn binding_reaches_every_child_position() {
    let plus = |bound: bool| {
        binary(
            BinaryOperator::Plus,
            num(1),
            num(2),
            if bound { Some(LogicalType::Integer) } else { None },
            LogicalType::Integer,
        )
    };
    let tree = |bound: bool| ScalarExpression::CaseWhen {
        operand_expr: Some(boxed(plus(bound))),
        expr_pairs: vec![
            (plus(bound), ScalarExpression::IsNull { negated: false, expr: boxed(plus(bound)) }),
            (
                ScalarExpression::In { negated: true, expr: boxed(plus(bound)), args: vec![plus(bound)] },
                ScalarExpression::SubString {
                    expr: boxed(plus(bound)),
                    for_expr: Some(boxed(plus(bound))),
                    from_expr: Some(boxed(plus(bound))),
                },
            ),
        ],
        else_expr: Some(boxed(ScalarExpression::Alias {
            expr: boxed(ScalarExpression::Trim {
                expr: boxed(plus(bound)),
                trim_what_expr: Some(boxed(plus(bound))),
                trim_where: None,
            }),
            alias: AliasType::Name("t".to_string()),
        })),
        ty: LogicalType::Varchar(None, CharLengthUnits::Characters),
    };
    let mut expr = tree(false);
    assert_eq!(expr.bind_evaluator(), Ok(()));
    assert_eq!(expr, tree(true));
}

#[test]
fn binding_leaves_references_and_labels_alone() {
    let unbound = binary(BinaryOperator::Plus, num(1), num(2), None, LogicalType::Integer);
    let mut reference = ScalarExpression::Reference { expr: boxed(unbound.clone()), pos: 0 };
    assert_eq!(reference.bind_evaluator(), Ok(()));
    assert_eq!(reference, ScalarExpression::Reference { expr: boxed(unbound.clone()), pos: 0 });
    let mut labelled = ScalarExpression::Alias {
        expr: boxed(num(1)),
        alias: AliasType::Expr(boxed(unbound.clone())),
    };
    assert_eq!(labelled.bind_evaluator(), Ok(()));
    assert_eq!(
        labelled,
        ScalarExpression::Alias { expr: boxed(num(1)), alias: AliasType::Expr(boxed(unbound)) }
    );
}

#[test]
fn binding_twice_equals_binding_once() {
    let mut expr = binary(
        BinaryOperator::Gt,
        unary(UnaryOperator::Minus, col("a", LogicalType::USmallint), None, LogicalType::Smallint),
        binary(
            BinaryOperator::Multiply,
            col("b", LogicalType::Bigint),
            col("c", LogicalType::Tinyint),
            None,
            LogicalType::Bigint,
        ),
        None,
        LogicalType::Boolean,
    );
    assert_eq!(expr.bind_evaluator(), Ok(()));
    let once = expr.clone();
    assert_eq!(expr.bind_evaluator(), Ok(()));
    assert_eq!(expr, once);
}

#[test]
fn bound_operands_have_the_type_of_the_evaluator() {
    let mut expr = binary(
        BinaryOperator::Minus,
        col("a", LogicalType::UTinyint),
        col("b", LogicalType::Float),
        None,
        LogicalType::Float,
    );
    assert_eq!(expr.bind_evaluator(), Ok(()));
    match &expr {
        ScalarExpression::Binary { left_expr, right_expr, evaluator, .. } => {
            let found = evaluator.expect("a bound node has an evaluator");
            assert_eq!(found.ty, LogicalType::Float);
            assert_eq!(left_expr.return_type(), found.ty);
            assert_eq!(right_expr.return_type(), found.ty);
        }
        other => panic!("not a binary node: {:?}", other),
    }
    let mut negative = unary(UnaryOperator::Minus, col("a", LogicalType::UBigint), None, LogicalType::Bigint);
    assert_eq!(negative.bind_evaluator(), Ok(()));
    match &negative {
        ScalarExpression::Unary { expr, evaluator, .. } => {
            assert!(!expr.return_type().is_unsigned_numeric());
            assert_eq!(evaluator.expect("bound").ty, expr.return_type());
        }
        other => panic!("not a unary node: {:?}", other),
    }
}

#[test]
fn factory_knows_its_kernels() {
    assert_eq!(
        EvaluatorFactory::binary_create(LogicalType::Integer, BinaryOperator::Plus),
        Ok(BinaryEvaluator { ty: LogicalType::Integer, op: BinaryOperator::Plus })
    );
    assert_eq!(
        EvaluatorFactory::binary_create(LogicalType::Boolean, BinaryOperator::Or),
        Ok(BinaryEvaluator { ty: LogicalType::Boolean, op: BinaryOperator::Or })
    );
    assert_eq!(
        EvaluatorFactory::binary_create(LogicalType::Boolean, BinaryOperator::Plus),
        Err(DatabaseError::UnsupportedBinaryOperator(LogicalType::Boolean, BinaryOperator::Plus))
    );
    let varchar = LogicalType::Varchar(None, CharLengthUnits::Characters);
    assert!(EvaluatorFactory::binary_create(varchar, BinaryOperator::Like(None)).is_ok());
    assert!(EvaluatorFactory::binary_create(varchar, BinaryOperator::StringConcat).is_ok());
    assert!(EvaluatorFactory::binary_create(varchar, BinaryOperator::Minus).is_err());
    assert!(EvaluatorFactory::binary_create(LogicalType::Date, BinaryOperator::GtEq).is_ok());
    assert!(EvaluatorFactory::binary_create(LogicalType::Date, BinaryOperator::Multiply).is_err());
    assert!(EvaluatorFactory::binary_create(LogicalType::SqlNull, BinaryOperator::Xor).is_ok());
    assert!(EvaluatorFactory::binary_create(LogicalType::Invalid, BinaryOperator::Eq).is_err());
    assert!(EvaluatorFactory::binary_create(LogicalType::Tuple, BinaryOperator::Eq).is_ok());
    assert_eq!(
        EvaluatorFactory::unary_create(LogicalType::Double, UnaryOperator::Minus),
        Ok(UnaryEvaluator { ty: LogicalType::Double, op: UnaryOperator::Minus })
    );
    assert_eq!(
        EvaluatorFactory::unary_create(LogicalType::UInteger, UnaryOperator::Minus),
        Err(DatabaseError::UnsupportedUnaryOperator(LogicalType::UInteger, UnaryOperator::Minus))
    );
    assert!(EvaluatorFactory::unary_create(LogicalType::Boolean, UnaryOperator::Not).is_ok());
    assert!(EvaluatorFactory::unary_create(LogicalType::Boolean, UnaryOperator::Plus).is_err());
}
