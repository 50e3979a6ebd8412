use scalar_expr::agg::AggKind;
use scalar_expr::catalog::{ColumnCatalog, ColumnDesc, ColumnRef, ColumnSummary};
use scalar_expr::expression::{
    AliasType, FunctionSummary, ScalarExpression, ScalarFunction, ScalarFunctionInner,
    TableFunction, TableFunctionInner,
};
use scalar_expr::operator::{BinaryOperator, UnaryOperator};
use scalar_expr::types::{CharLengthUnits, LogicalType};
use scalar_expr::value::DataValue;
use std::sync::Arc;

fn column(id: u32, name: &str, ty: LogicalType) -> ColumnRef {
    Arc::new(ColumnCatalog {
        summary: ColumnSummary { id: Some(id), name: name.to_string(), table_name: None },
        nullable: false,
        desc: ColumnDesc::new(ty, false, false),
    })
}

fn col(id: u32, name: &str) -> ScalarExpression {
    ScalarExpression::ColumnRef(column(id, name, LogicalType::Integer))
}

fn num(v: i32) -> ScalarExpression {
    ScalarExpression::Constant(Arc::new(DataValue::Int32(v)))
}

fn boxed(e: ScalarExpression) -> Box<ScalarExpression> {
    Box::new(e)
}

fn binary(op: BinaryOperator, left: ScalarExpression, right: ScalarExpression) -> ScalarExpression {
    ScalarExpression::Binary {
        op,
        left_expr: boxed(left),
        right_expr: boxed(right),
        evaluator: None,
        ty: LogicalType::Integer,
    }
}

fn sum(arg: ScalarExpression) -> ScalarExpression {
    ScalarExpression::AggCall {
        distinct: false,
        kind: AggKind::Sum,
        args: vec![arg],
        ty: LogicalType::Integer,
    }
}

fn synthetic(name: &str, ty: LogicalType) -> ColumnRef {
    Arc::new(ColumnCatalog::new(name.to_string(), true, ColumnDesc::new(ty, false, false)))
}

#[test]
fn return_type_follows_the_variant() {
    let varchar = LogicalType::Varchar(None, CharLengthUnits::Characters);
    assert_eq!(num(1).return_type(), LogicalType::Integer);
    assert_eq!(
        ScalarExpression::Constant(Arc::new(DataValue::Utf8("x".to_string()))).return_type(),
        varchar
    );
    assert_eq!(
        ScalarExpression::ColumnRef(column(1, "a", LogicalType::Bigint)).return_type(),
        LogicalType::Bigint
    );
    let mut comparison = binary(BinaryOperator::Eq, col(1, "a"), num(1));
    if let ScalarExpression::Binary { ty, .. } = &mut comparison {
        *ty = LogicalType::Boolean;
    }
    assert_eq!(comparison.return_type(), LogicalType::Boolean);
    assert_eq!(
        ScalarExpression::TypeCast { expr: boxed(num(1)), ty: LogicalType::Double }.return_type(),
        LogicalType::Double
    );
    assert_eq!(
        ScalarExpression::IsNull { negated: false, expr: boxed(num(1)) }.return_type(),
        LogicalType::Boolean
    );
    assert_eq!(
        ScalarExpression::In { negated: false, expr: boxed(num(1)), args: vec![] }.return_type(),
        LogicalType::Boolean
    );
    assert_eq!(
        ScalarExpression::Between {
            negated: false,
            expr: boxed(num(1)),
            left_expr: boxed(num(0)),
            right_expr: boxed(num(2)),
        }
        .return_type(),
        LogicalType::Boolean
    );
    assert_eq!(
        ScalarExpression::SubString { expr: boxed(num(1)), for_expr: None, from_expr: None }
            .return_type(),
        varchar
    );
    assert_eq!(
        ScalarExpression::Trim { expr: boxed(num(1)), trim_what_expr: None, trim_where: None }
            .return_type(),
        varchar
    );
    assert_eq!(
        ScalarExpression::Position { expr: boxed(num(1)), in_expr: boxed(num(2)) }.return_type(),
        LogicalType::Integer
    );
    assert_eq!(ScalarExpression::Tuple(vec![num(1)]).return_type(), LogicalType::Tuple);
    let function = ScalarExpression::ScalaFunction(ScalarFunction {
        args: vec![],
        inner: ScalarFunctionInner {
            summary: FunctionSummary { name: "now".to_string() },
            return_type: LogicalType::DateTime,
        },
    });
    assert_eq!(function.return_type(), LogicalType::DateTime);
}

#[test]
fn return_type_looks_through_aliases_and_references() {
    let inner = ScalarExpression::ColumnRef(column(1, "a", LogicalType::Smallint));
    let alias = ScalarExpression::Alias {
        expr: boxed(inner.clone()),
        alias: AliasType::Expr(boxed(num(1))),
    };
    let reference = ScalarExpression::Reference { expr: boxed(alias.clone()), pos: 3 };
    assert_eq!(alias.return_type(), LogicalType::Smallint);
    assert_eq!(reference.return_type(), LogicalType::Smallint);
    assert!(reference.check_type());
    assert!(!ScalarExpression::Empty.check_type());
}

#[test]
fn has_agg_call_finds_an_aggregate_anywhere() {
    assert!(sum(col(1, "a")).has_agg_call());
    assert!(binary(BinaryOperator::Plus, num(1), sum(col(1, "a"))).has_agg_call());
    assert!(ScalarExpression::Tuple(vec![num(1), col(1, "a"), sum(num(1))]).has_agg_call());
    let case = ScalarExpression::CaseWhen {
        operand_expr: None,
        expr_pairs: vec![(col(1, "a"), num(1)), (col(2, "b"), sum(num(1)))],
        else_expr: None,
        ty: LogicalType::Integer,
    };
    assert!(case.has_agg_call());
    let in_else = ScalarExpression::CaseWhen {
        operand_expr: None,
        expr_pairs: vec![],
        else_expr: Some(boxed(sum(num(1)))),
        ty: LogicalType::Integer,
    };
    assert!(in_else.has_agg_call());
    let reference = ScalarExpression::Reference { expr: boxed(sum(num(1))), pos: 0 };
    assert!(reference.has_agg_call());
}

#[test]
fn has_agg_call_is_false_without_an_aggregate() {
    assert!(!num(1).has_agg_call());
    assert!(!col(1, "a").has_agg_call());
    assert!(!binary(BinaryOperator::Plus, num(1), col(1, "a")).has_agg_call());
    let labelled = ScalarExpression::Alias {
        expr: boxed(col(1, "a")),
        alias: AliasType::Expr(boxed(sum(num(1)))),
    };
    assert!(!labelled.has_agg_call());
    let substring = ScalarExpression::SubString {
        expr: boxed(col(1, "a")),
        for_expr: Some(boxed(num(1))),
        from_expr: None,
    };
    assert!(!substring.has_agg_call());
}

#[test]
fn has_count_star_needs_the_star_argument() {
    let count = |args| ScalarExpression::AggCall {
        distinct: false,
        kind: AggKind::Count,
        args,
        ty: LogicalType::Integer,
    };
    let star = || ScalarExpression::Constant(Arc::new(DataValue::Utf8("*".to_string())));
    assert!(count(vec![star()]).has_count_star());
    assert!(!count(vec![col(1, "a")]).has_count_star());
    assert!(!count(vec![star(), star()]).has_count_star());
    assert!(!count(vec![]).has_count_star());
    assert!(!sum(star()).has_count_star());
    assert!(!star().has_count_star());
    assert!(sum(count(vec![star()])).has_count_star());
    let unary = ScalarExpression::Unary {
        op: UnaryOperator::Minus,
        expr: boxed(count(vec![star()])),
        evaluator: None,
        ty: LogicalType::Integer,
    };
    assert!(unary.has_count_star());
}

#[test]
fn referenced_columns_lists_column_references_in_pre_order() {
    let a = column(1, "a", LogicalType::Integer);
    let b = column(2, "b", LogicalType::Integer);
    let expr = binary(
        BinaryOperator::Plus,
        binary(
            BinaryOperator::Multiply,
            ScalarExpression::ColumnRef(b.clone()),
            ScalarExpression::ColumnRef(a.clone()),
        ),
        ScalarExpression::In {
            negated: false,
            expr: boxed(ScalarExpression::ColumnRef(a.clone())),
            args: vec![num(1), ScalarExpression::ColumnRef(b.clone())],
        },
    );
    assert_eq!(expr.referenced_columns(true), vec![b.clone(), a.clone(), a, b]);
    assert_eq!(num(1).referenced_columns(true), Vec::<ColumnRef>::new());
}

#[test]
fn referenced_columns_adds_output_columns_on_request() {
    let a = column(1, "a", LogicalType::Integer);
    let expr = binary(BinaryOperator::Plus, ScalarExpression::ColumnRef(a.clone()), num(1));
    let expected = vec![
        synthetic("(a + 1)", LogicalType::Integer),
        a.clone(),
        a,
        synthetic("1", LogicalType::Integer),
    ];
    assert_eq!(expr.referenced_columns(false), expected);
}

#[test]
fn referenced_columns_walks_every_child_position() {
    let c = |id: u32| column(id, "c", LogicalType::Integer);
    let r = |id: u32| ScalarExpression::ColumnRef(c(id));
    let case = ScalarExpression::CaseWhen {
        operand_expr: Some(boxed(r(1))),
        expr_pairs: vec![(r(2), r(3)), (r(4), r(5))],
        else_expr: Some(boxed(r(6))),
        ty: LogicalType::Integer,
    };
    assert_eq!(case.referenced_columns(true), vec![c(1), c(2), c(3), c(4), c(5), c(6)]);
    let substring = ScalarExpression::SubString {
        expr: boxed(r(1)),
        for_expr: Some(boxed(r(2))),
        from_expr: Some(boxed(r(3))),
    };
    assert_eq!(substring.referenced_columns(true), vec![c(1), c(2), c(3)]);
    let table = ScalarExpression::TableFunction(TableFunction {
        args: vec![r(1), r(2)],
        inner: TableFunctionInner { summary: FunctionSummary { name: "f".to_string() } },
    });
    assert_eq!(table.referenced_columns(true), vec![c(1), c(2)]);
    let trim = ScalarExpression::Trim {
        expr: boxed(r(1)),
        trim_what_expr: Some(boxed(r(2))),
        trim_where: None,
    };
    assert_eq!(trim.referenced_columns(true), vec![c(1), c(2)]);
}

#[test]
fn unpack_alias_follows_the_label_of_an_expression_alias() {
    let labelled = ScalarExpression::Alias {
        expr: boxed(num(1)),
        alias: AliasType::Expr(boxed(ScalarExpression::Alias {
            expr: boxed(col(1, "a")),
            alias: AliasType::Name("x".to_string()),
        })),
    };
    assert_eq!(labelled.unpack_alias_ref(), &col(1, "a"));
    assert_eq!(labelled.unpack_alias(), col(1, "a"));
}

#[test]
fn unpack_alias_leaves_other_expressions_alone() {
    let expr = binary(BinaryOperator::Plus, col(1, "a"), num(1));
    assert_eq!(expr.unpack_alias_ref(), &expr);
    assert_eq!(expr.unpack_alias_ref().output_name(), expr.output_name());
    assert_eq!(expr.clone().unpack_alias(), expr);
    let named = ScalarExpression::Alias {
        expr: boxed(col(1, "a")),
        alias: AliasType::Name("x".to_string()),
    };
    assert_eq!(named.output_name(), "x");
    assert_eq!(named.unpack_alias_ref().output_name(), "a");
}

#[test]
fn checks_tell_complete_and_scalar_trees() {
    let good = binary(BinaryOperator::Plus, col(1, "a"), num(1));
    assert!(good.check_complete());
    assert!(good.check_scalar());
    assert!(good.check_bind_ready());
    assert!(good.check_column());
    let hole = binary(BinaryOperator::Plus, col(1, "a"), ScalarExpression::Empty);
    assert!(!hole.check_complete());
    assert!(!hole.check_scalar());
    assert!(!hole.check_bind_ready());
    assert!(!hole.check_column());
    let hidden = ScalarExpression::Alias {
        expr: boxed(num(1)),
        alias: AliasType::Expr(boxed(ScalarExpression::Empty)),
    };
    assert!(!hidden.check_complete());
    let table = ScalarExpression::TableFunction(TableFunction {
        args: vec![num(1)],
        inner: TableFunctionInner { summary: FunctionSummary { name: "f".to_string() } },
    });
    assert!(table.check_complete());
    assert!(!table.check_scalar());
    assert!(table.check_bind_ready());
    assert!(!table.check_column());
    let over_table = binary(BinaryOperator::Plus, table, num(1));
    assert!(!over_table.check_bind_ready());
    assert!(over_table.check_complete());
}

#[test]
fn child_list_follows_the_walk_order() {
    let case = ScalarExpression::CaseWhen {
        operand_expr: None,
        expr_pairs: vec![(num(1), num(2)), (num(3), num(4))],
        else_expr: Some(boxed(num(5))),
        ty: LogicalType::Integer,
    };
    let expected = [num(1), num(2), num(3), num(4), num(5)];
    let list = case.child_list();
    assert_eq!(list.len(), 5);
    for (found, wanted) in list.iter().zip(expected.iter()) {
        assert_eq!(*found, wanted);
    }
    assert!(num(1).child_list().is_empty());
    let within = ScalarExpression::In {
        negated: false,
        expr: boxed(num(0)),
        args: vec![num(1), num(2)],
    };
    assert_eq!(within.child_list(), vec![&num(0), &num(1), &num(2)]);
}

#[test]
fn clone_gives_an_equal_tree() {
    let expr = ScalarExpression::CaseWhen {
        operand_expr: Some(boxed(col(1, "a"))),
        expr_pairs: vec![(num(1), sum(col(2, "b")))],
        else_expr: Some(boxed(ScalarExpression::Alias {
            expr: boxed(num(2)),
            alias: AliasType::Expr(boxed(ScalarExpression::Tuple(vec![num(3), num(4)]))),
        })),
        ty: LogicalType::Integer,
    };
    assert_eq!(expr.clone(), expr);
    assert_eq!(expr.deep_copy(), expr);
}
