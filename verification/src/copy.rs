//! Copies of expression trees.

use crate::catalog::share;
use crate::expression::{
    AliasType, FunctionSummary, ScalarExpression, ScalarFunction, ScalarFunctionInner,
    TableFunction, TableFunctionInner,
};
use vstd::prelude::*;

verus! {

impl ScalarExpression {
    /// A copy of each expression of the list.
    fn copy_all(args: &Vec<ScalarExpression>) -> (r: Vec<ScalarExpression>)
        ensures
            r@.len() == args@.len(),
            forall|i: int| 0 <= i < args@.len() ==> (#[trigger] args@[i]).same_tree(&r@[i]),
        decreases args,
    {
        let mut copies: Vec<ScalarExpression> = Vec::new();
        let mut i: usize = 0;
        while i < args.len()
            invariant
                i <= args@.len(),
                copies@.len() == i,
                forall|j: int| 0 <= j < i ==> (#[trigger] args@[j]).same_tree(&copies@[j]),
            decreases args@.len() - i,
        {
            copies.push(args[i].deep_copy());
            i = i + 1;
        }
        copies
    }

    /// A copy of each pair.
    fn copy_pairs(pairs: &Vec<(ScalarExpression, ScalarExpression)>) -> (r: Vec<
        (ScalarExpression, ScalarExpression),
    >)
        ensures
            r@.len() == pairs@.len(),
            forall|i: int|
                0 <= i < pairs@.len() ==> (#[trigger] pairs@[i]).0.same_tree(&r@[i].0)
                    && pairs@[i].1.same_tree(&r@[i].1),
        decreases pairs,
    {
        let mut copies: Vec<(ScalarExpression, ScalarExpression)> = Vec::new();
        let mut i: usize = 0;
        while i < pairs.len()
            invariant
                i <= pairs@.len(),
                copies@.len() == i,
                forall|j: int|
                    0 <= j < i ==> (#[trigger] pairs@[j]).0.same_tree(&copies@[j].0)
                        && pairs@[j].1.same_tree(&copies@[j].1),
            decreases pairs@.len() - i,
        {
            let when = pairs[i].0.deep_copy();
            let then = pairs[i].1.deep_copy();
            copies.push((when, then));
            i = i + 1;
        }
        copies
    }

    /// A copy of the expression in an optional slot.
    fn copy_slot(slot: &Option<Box<ScalarExpression>>) -> (r: Option<Box<ScalarExpression>>)
        ensures
            match slot {
                Some(expr) => r matches Some(copy) && expr.same_tree(&*copy),
                None => r is None,
            },
        decreases slot,
    {
        match slot {
            Some(expr) => Some(Box::new(expr.deep_copy())),
            None => None,
        }
    }

    /// A copy of the tree, equal to it node by node. Columns and literals
    /// are shared, not copied.
    pub fn deep_copy(&self) -> (r: ScalarExpression)
        ensures
            self.same_tree(&r),
        decreases self,
    {
        let copy = match self {
            ScalarExpression::Constant(value) => ScalarExpression::Constant(share(value)),
            ScalarExpression::ColumnRef(col) => ScalarExpression::ColumnRef(share(col)),
            ScalarExpression::Alias { expr, alias } => ScalarExpression::Alias {
                expr: Box::new(expr.deep_copy()),
                alias: match alias {
                    AliasType::Name(name) => AliasType::Name(name.clone()),
                    AliasType::Expr(inner) => AliasType::Expr(Box::new(inner.deep_copy())),
                },
            },
            ScalarExpression::TypeCast { expr, ty } => ScalarExpression::TypeCast {
                expr: Box::new(expr.deep_copy()),
                ty: *ty,
            },
            ScalarExpression::IsNull { negated, expr } => ScalarExpression::IsNull {
                negated: *negated,
                expr: Box::new(expr.deep_copy()),
            },
            ScalarExpression::Unary { op, expr, evaluator, ty } => ScalarExpression::Unary {
                op: *op,
                expr: Box::new(expr.deep_copy()),
                evaluator: *evaluator,
                ty: *ty,
            },
            ScalarExpression::Binary { op, left_expr, right_expr, evaluator, ty } => {
                ScalarExpression::Binary {
                    op: *op,
                    left_expr: Box::new(left_expr.deep_copy()),
                    right_expr: Box::new(right_expr.deep_copy()),
                    evaluator: *evaluator,
                    ty: *ty,
                }
            },
            ScalarExpression::AggCall { distinct, kind, args, ty } => ScalarExpression::AggCall {
                distinct: *distinct,
                kind: *kind,
                args: Self::copy_all(args),
                ty: *ty,
            },
            ScalarExpression::In { negated, expr, args } => ScalarExpression::In {
                negated: *negated,
                expr: Box::new(expr.deep_copy()),
                args: Self::copy_all(args),
            },
            ScalarExpression::Between { negated, expr, left_expr, right_expr } => {
                ScalarExpression::Between {
                    negated: *negated,
                    expr: Box::new(expr.deep_copy()),
                    left_expr: Box::new(left_expr.deep_copy()),
                    right_expr: Box::new(right_expr.deep_copy()),
                }
            },
            ScalarExpression::SubString { expr, for_expr, from_expr } => {
                ScalarExpression::SubString {
                    expr: Box::new(expr.deep_copy()),
                    for_expr: Self::copy_slot(for_expr),
                    from_expr: Self::copy_slot(from_expr),
                }
            },
            ScalarExpression::Position { expr, in_expr } => ScalarExpression::Position {
                expr: Box::new(expr.deep_copy()),
                in_expr: Box::new(in_expr.deep_copy()),
            },
            ScalarExpression::Trim { expr, trim_what_expr, trim_where } => ScalarExpression::Trim {
                expr: Box::new(expr.deep_copy()),
                trim_what_expr: Self::copy_slot(trim_what_expr),
                trim_where: *trim_where,
            },
            ScalarExpression::Empty => ScalarExpression::Empty,
            ScalarExpression::Reference { expr, pos } => ScalarExpression::Reference {
                expr: Box::new(expr.deep_copy()),
                pos: *pos,
            },
            ScalarExpression::Tuple(args) => ScalarExpression::Tuple(Self::copy_all(args)),
            ScalarExpression::ScalaFunction(function) => ScalarExpression::ScalaFunction(
                ScalarFunction {
                    args: Self::copy_all(&function.args),
                    inner: ScalarFunctionInner {
                        summary: FunctionSummary { name: function.inner.summary.name.clone() },
                        return_type: function.inner.return_type,
                    },
                },
            ),
            ScalarExpression::TableFunction(function) => ScalarExpression::TableFunction(
                TableFunction {
                    args: Self::copy_all(&function.args),
                    inner: TableFunctionInner {
                        summary: FunctionSummary { name: function.inner.summary.name.clone() },
                    },
                },
            ),
            ScalarExpression::If { condition, left_expr, right_expr, ty } => ScalarExpression::If {
                condition: Box::new(condition.deep_copy()),
                left_expr: Box::new(left_expr.deep_copy()),
                right_expr: Box::new(right_expr.deep_copy()),
                ty: *ty,
            },
            ScalarExpression::IfNull { left_expr, right_expr, ty } => ScalarExpression::IfNull {
                left_expr: Box::new(left_expr.deep_copy()),
                right_expr: Box::new(right_expr.deep_copy()),
                ty: *ty,
            },
            ScalarExpression::NullIf { left_expr, right_expr, ty } => ScalarExpression::NullIf {
                left_expr: Box::new(left_expr.deep_copy()),
                right_expr: Box::new(right_expr.deep_copy()),
                ty: *ty,
            },
            ScalarExpression::Coalesce { exprs, ty } => ScalarExpression::Coalesce {
                exprs: Self::copy_all(exprs),
                ty: *ty,
            },
            ScalarExpression::CaseWhen { operand_expr, expr_pairs, else_expr, ty } => {
                ScalarExpression::CaseWhen {
                    operand_expr: Self::copy_slot(operand_expr),
                    expr_pairs: Self::copy_pairs(expr_pairs),
                    else_expr: Self::copy_slot(else_expr),
                    ty: *ty,
                }
            },
        };
        proof {
            self.lemma_children_shape();
            copy.lemma_children_shape();
            self.lemma_copy_is_same(&copy);
        }
        copy
    }

    /// A node of the same shell, whose label and children are equal to
    /// those of this node, is equal to it node by node.
    proof fn lemma_copy_is_same(&self, copy: &ScalarExpression)
        requires
            self.same_shell(copy),
            match self.label() {
                Some(inner) => copy.label() matches Some(inner2) && inner.same_tree(&inner2),
                None => copy.label() is None,
            },
            copy.children().len() == self.children().len(),
            forall|i: int|
                0 <= i < self.children().len() ==> (#[trigger] self.children()[i]).same_tree(
                    &copy.children()[i],
                ),
        ensures
            self.same_tree(copy),
    {
    }
}

impl Clone for ScalarExpression {
    fn clone(&self) -> (r: Self)
        ensures
            self.same_tree(&r),
    {
        self.deep_copy()
    }
}

} // verus!
