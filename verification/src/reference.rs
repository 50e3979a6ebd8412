//! The reference rewriter: sub-expressions that a child plan has already
//! computed become references to its outputs by position.

use crate::catalog::{ColumnRef, SummaryView};
use crate::expression::{AliasType, ScalarExpression};
use itertools::Itertools;
use vstd::prelude::*;

verus! {

/// Whether some key of the list is `key`.
pub open spec fn matched(keys: Seq<SummaryView>, key: SummaryView) -> bool {
    exists|i: int| 0 <= i < keys.len() && #[trigger] keys[i] == key
}

/// Whether `pos` is the first place of the list that holds `key`.
pub open spec fn first_match(keys: Seq<SummaryView>, key: SummaryView, pos: int) -> bool {
    &&& 0 <= pos < keys.len()
    &&& keys[pos] == key
    &&& forall|j: int| 0 <= j < pos ==> #[trigger] keys[j] != key
}

/// The identities of the columns behind a list of handles.
pub open spec fn column_keys(columns: Seq<ColumnRef>) -> Seq<SummaryView> {
    Seq::new(columns.len(), |i: int| columns[i]@.summary)
}

/// The identities of the output columns of a list of expressions.
pub open spec fn output_keys(outputs: Seq<ScalarExpression>) -> Seq<SummaryView> {
    Seq::new(outputs.len(), |i: int| outputs[i].spec_output_column().summary)
}

/// Trusted: `Itertools::find_position` over the columns, with the predicate
/// "has the identity of `target`". It returns the index of the first column
/// for which the predicate holds, and `None` where it holds for none.
#[verifier::external_body]
fn find_position(columns: &Vec<ColumnRef>, target: &ColumnRef) -> (r: Option<usize>)
    ensures
        match r {
            Some(pos) => first_match(column_keys(columns@), target@.summary, pos as int),
            None => !matched(column_keys(columns@), target@.summary),
        },
{
    columns.iter().find_position(|column| column.same_summary(target)).map(|(pos, _)| pos)
}

impl ScalarExpression {
    /// The nodes at which the rewriter and the binder stop: literals and
    /// columns have no child, and what a reference carries is kept as it
    /// was when the reference was made.
    pub open spec fn is_terminal(&self) -> bool {
        self is Constant || self is ColumnRef || self is Reference
    }

    /// Whether two nodes agree in everything but their children and their
    /// label: the same variant, the same fields, the same optional children
    /// present.
    pub open spec fn same_shell(&self, other: &ScalarExpression) -> bool {
        match (self, other) {
            (ScalarExpression::Constant(a), ScalarExpression::Constant(b)) => a == b,
            (ScalarExpression::ColumnRef(a), ScalarExpression::ColumnRef(b)) => a == b,
            (
                ScalarExpression::Alias { alias: AliasType::Name(a), .. },
                ScalarExpression::Alias { alias: AliasType::Name(b), .. },
            ) => a == b,
            (
                ScalarExpression::Alias { alias: AliasType::Expr(_), .. },
                ScalarExpression::Alias { alias: AliasType::Expr(_), .. },
            ) => true,
            (
                ScalarExpression::TypeCast { ty: a, .. },
                ScalarExpression::TypeCast { ty: b, .. },
            ) => a == b,
            (
                ScalarExpression::IsNull { negated: a, .. },
                ScalarExpression::IsNull { negated: b, .. },
            ) => a == b,
            (
                ScalarExpression::Unary { op: o1, evaluator: e1, ty: t1, .. },
                ScalarExpression::Unary { op: o2, evaluator: e2, ty: t2, .. },
            ) => o1 == o2 && e1 == e2 && t1 == t2,
            (
                ScalarExpression::Binary { op: o1, evaluator: e1, ty: t1, .. },
                ScalarExpression::Binary { op: o2, evaluator: e2, ty: t2, .. },
            ) => o1 == o2 && e1 == e2 && t1 == t2,
            (
                ScalarExpression::AggCall { distinct: d1, kind: k1, ty: t1, .. },
                ScalarExpression::AggCall { distinct: d2, kind: k2, ty: t2, .. },
            ) => d1 == d2 && k1 == k2 && t1 == t2,
            (ScalarExpression::In { negated: a, .. }, ScalarExpression::In { negated: b, .. }) =>
                a == b,
            (
                ScalarExpression::Between { negated: a, .. },
                ScalarExpression::Between { negated: b, .. },
            ) => a == b,
            (
                ScalarExpression::SubString { for_expr: f1, from_expr: r1, .. },
                ScalarExpression::SubString { for_expr: f2, from_expr: r2, .. },
            ) => (f1 is Some) == (f2 is Some) && (r1 is Some) == (r2 is Some),
            (ScalarExpression::Position { .. }, ScalarExpression::Position { .. }) => true,
            (
                ScalarExpression::Trim { trim_what_expr: w1, trim_where: p1, .. },
                ScalarExpression::Trim { trim_what_expr: w2, trim_where: p2, .. },
            ) => (w1 is Some) == (w2 is Some) && p1 == p2,
            (ScalarExpression::Empty, ScalarExpression::Empty) => true,
            (
                ScalarExpression::Reference { pos: a, .. },
                ScalarExpression::Reference { pos: b, .. },
            ) => a == b,
            (ScalarExpression::Tuple(_), ScalarExpression::Tuple(_)) => true,
            (ScalarExpression::ScalaFunction(f), ScalarExpression::ScalaFunction(g)) => f.inner
                == g.inner,
            (ScalarExpression::TableFunction(f), ScalarExpression::TableFunction(g)) => f.inner
                == g.inner,
            (ScalarExpression::If { ty: a, .. }, ScalarExpression::If { ty: b, .. }) => a == b,
            (ScalarExpression::IfNull { ty: a, .. }, ScalarExpression::IfNull { ty: b, .. }) => a
                == b,
            (ScalarExpression::NullIf { ty: a, .. }, ScalarExpression::NullIf { ty: b, .. }) => a
                == b,
            (
                ScalarExpression::Coalesce { ty: a, .. },
                ScalarExpression::Coalesce { ty: b, .. },
            ) => a == b,
            (
                ScalarExpression::CaseWhen { operand_expr: o1, else_expr: e1, ty: t1, .. },
                ScalarExpression::CaseWhen { operand_expr: o2, else_expr: e2, ty: t2, .. },
            ) => (o1 is Some) == (o2 is Some) && (e1 is Some) == (e2 is Some) && t1 == t2,
            _ => false,
        }
    }

    /// Whether `after` is this expression rewritten against the outputs
    /// whose column identities are `keys`.
    ///
    /// Where the identity of the expression's output column is among the
    /// keys, `after` is a reference that carries the expression unchanged
    /// and points at the first such key. Else a terminal node stays as it
    /// is, and any other node keeps its shell while each child is rewritten
    /// in the same way.
    pub open spec fn references_to(&self, after: &ScalarExpression, keys: Seq<SummaryView>) -> bool
        decreases self,
    {
        proof {
            self.lemma_parts_decrease();
        }
        let key = self.spec_output_column().summary;
        if matched(keys, key) {
            &&& after matches ScalarExpression::Reference { expr, pos }
            &&& **expr == *self
            &&& first_match(keys, key, *pos as int)
        } else if self.is_terminal() {
            *after == *self
        } else {
            &&& self.same_shell(after)
            &&& after.label() == self.label()
            &&& after.children().len() == self.children().len()
            &&& forall|i: int|
                0 <= i < self.children().len() ==> (#[trigger] self.children()[i]).references_to(
                    &after.children()[i],
                    keys,
                )
        }
    }

    /// The output columns of the expressions of a list.
    fn output_columns(output_exprs: &[ScalarExpression]) -> (r: Vec<ColumnRef>)
        requires
            forall|i: int|
                0 <= i < output_exprs@.len() ==> (#[trigger] output_exprs@[i]).column_defined(),
        ensures
            column_keys(r@) == output_keys(output_exprs@),
    {
        let mut columns: Vec<ColumnRef> = Vec::new();
        let mut i: usize = 0;
        while i < output_exprs.len()
            invariant
                i <= output_exprs@.len(),
                columns@.len() == i,
                forall|j: int|
                    0 <= j < output_exprs@.len() ==> (#[trigger] output_exprs@[j]).column_defined(),
                forall|j: int|
                    0 <= j < i ==> (#[trigger] columns@[j])@
                        == output_exprs@[j].spec_output_column(),
            decreases output_exprs@.len() - i,
        {
            columns.push(output_exprs[i].output_column());
            i = i + 1;
        }
        assert(column_keys(columns@) =~= output_keys(output_exprs@));
        columns
    }

    /// Rewrites every expression of the list.
    fn reference_all(args: &mut Vec<ScalarExpression>, columns: &Vec<ColumnRef>)
        requires
            forall|i: int| 0 <= i < old(args)@.len() ==> (#[trigger] old(args)@[i]).is_scalar(),
        ensures
            final(args)@.len() == old(args)@.len(),
            forall|i: int|
                0 <= i < old(args)@.len() ==> (#[trigger] old(args)@[i]).references_to(
                    &final(args)@[i],
                    column_keys(columns@),
                ),
        decreases *old(args),
    {
        let ghost before = args@;
        let n = args.len();
        let mut i: usize = 0;
        while i < n
            invariant
                i <= n,
                args@.len() == n,
                before.len() == n,
                forall|j: int| 0 <= j < n ==> (#[trigger] before[j]).is_scalar(),
                forall|j: int|
                    0 <= j < i ==> (#[trigger] before[j]).references_to(
                        &args@[j],
                        column_keys(columns@),
                    ),
                forall|j: int| i <= j < n ==> before[j] == args@[j],
                forall|j: int| 0 <= j < n ==> decreases_to!(*old(args) => #[trigger] before[j]),
            decreases n - i,
        {
            assert(args@[i as int] == before[i as int]);
            args[i].reference_in(columns);
            i = i + 1;
        }
    }

    /// Rewrites the `when` and the `then` of every pair.
    fn reference_pairs(
        pairs: &mut Vec<(ScalarExpression, ScalarExpression)>,
        columns: &Vec<ColumnRef>,
    )
        requires
            forall|i: int|
                0 <= i < old(pairs)@.len() ==> (#[trigger] old(pairs)@[i]).0.is_scalar() && old(
                    pairs,
                )@[i].1.is_scalar(),
        ensures
            final(pairs)@.len() == old(pairs)@.len(),
            forall|i: int|
                0 <= i < old(pairs)@.len() ==> (#[trigger] old(pairs)@[i]).0.references_to(
                    &final(pairs)@[i].0,
                    column_keys(columns@),
                ) && old(pairs)@[i].1.references_to(&final(pairs)@[i].1, column_keys(columns@)),
        decreases *old(pairs),
    {
        let ghost before = pairs@;
        let n = pairs.len();
        let mut i: usize = 0;
        while i < n
            invariant
                i <= n,
                pairs@.len() == n,
                before.len() == n,
                forall|j: int|
                    0 <= j < n ==> (#[trigger] before[j]).0.is_scalar() && before[j].1.is_scalar(),
                forall|j: int|
                    0 <= j < i ==> (#[trigger] before[j]).0.references_to(
                        &pairs@[j].0,
                        column_keys(columns@),
                    ) && before[j].1.references_to(&pairs@[j].1, column_keys(columns@)),
                forall|j: int| i <= j < n ==> before[j] == pairs@[j],
                forall|j: int| 0 <= j < n ==> decreases_to!(*old(pairs) => #[trigger] before[j]),
            decreases n - i,
        {
            assert(pairs@[i as int] == before[i as int]);
            pairs[i].0.reference_in(columns);
            pairs[i].1.reference_in(columns);
            i = i + 1;
        }
    }

    /// Rewrites the expression against the output columns of a child plan.
    #[verifier::rlimit(40)]
    fn reference_in(&mut self, columns: &Vec<ColumnRef>)
        requires
            old(self).is_scalar(),
        ensures
            old(self).references_to(final(self), column_keys(columns@)),
        decreases *old(self),
    {
        proof {
            old(self).lemma_scalar_column_defined();
            old(self).lemma_children_shape();
        }
        let self_column = self.output_column();
        if let Some(pos) = find_position(columns, &self_column) {
            let mut taken = ScalarExpression::Empty;
            std::mem::swap(self, &mut taken);
            *self = ScalarExpression::Reference { expr: Box::new(taken), pos };
            return ;
        }
        match self {
            ScalarExpression::Alias { expr, .. } => {
                expr.reference_in(columns);
            },
            ScalarExpression::TypeCast { expr, .. } => {
                expr.reference_in(columns);
            },
            ScalarExpression::IsNull { expr, .. } => {
                expr.reference_in(columns);
            },
            ScalarExpression::Unary { expr, .. } => {
                expr.reference_in(columns);
            },
            ScalarExpression::Binary { left_expr, right_expr, .. } => {
                left_expr.reference_in(columns);
                right_expr.reference_in(columns);
            },
            ScalarExpression::AggCall { args, .. } => {
                Self::reference_all(args, columns);
            },
            ScalarExpression::Coalesce { exprs, .. } => {
                Self::reference_all(exprs, columns);
            },
            ScalarExpression::Tuple(args) => {
                Self::reference_all(args, columns);
            },
            ScalarExpression::In { expr, args, .. } => {
                expr.reference_in(columns);
                Self::reference_all(args, columns);
            },
            ScalarExpression::Between { expr, left_expr, right_expr, .. } => {
                expr.reference_in(columns);
                left_expr.reference_in(columns);
                right_expr.reference_in(columns);
            },
            ScalarExpression::SubString { expr, for_expr, from_expr } => {
                expr.reference_in(columns);
                if let Some(expr) = for_expr {
                    expr.reference_in(columns);
                }
                if let Some(expr) = from_expr {
                    expr.reference_in(columns);
                }
            },
            ScalarExpression::Position { expr, in_expr } => {
                expr.reference_in(columns);
                in_expr.reference_in(columns);
            },
            ScalarExpression::Trim { expr, trim_what_expr, .. } => {
                expr.reference_in(columns);
                if let Some(trim_what_expr) = trim_what_expr {
                    trim_what_expr.reference_in(columns);
                }
            },
            ScalarExpression::Empty => {
                proof {
                    assert(false);
                }
            },
            ScalarExpression::Constant(_)
            | ScalarExpression::ColumnRef(_)
            | ScalarExpression::Reference { .. } => (),
            ScalarExpression::ScalaFunction(function) => {
                Self::reference_all(&mut function.args, columns);
            },
            ScalarExpression::TableFunction(function) => {
                Self::reference_all(&mut function.args, columns);
            },
            ScalarExpression::If { condition, left_expr, right_expr, .. } => {
                condition.reference_in(columns);
                left_expr.reference_in(columns);
                right_expr.reference_in(columns);
            },
            ScalarExpression::IfNull { left_expr, right_expr, .. } => {
                left_expr.reference_in(columns);
                right_expr.reference_in(columns);
            },
            ScalarExpression::NullIf { left_expr, right_expr, .. } => {
                left_expr.reference_in(columns);
                right_expr.reference_in(columns);
            },
            ScalarExpression::CaseWhen { operand_expr, expr_pairs, else_expr, .. } => {
                if let Some(expr) = operand_expr {
                    expr.reference_in(columns);
                }
                Self::reference_pairs(expr_pairs, columns);
                if let Some(expr) = else_expr {
                    expr.reference_in(columns);
                }
            },
        }
        proof {
            self.lemma_children_shape();
        }
    }

    /// Rewrites the expression so that every sub-expression which the
    /// child plan has already computed becomes a reference to that output
    /// by position.
    ///
    /// A sub-expression is taken for computed where its output column has
    /// the identity of the output column of some expression of
    /// `output_exprs`; the first such expression wins.
    pub fn try_reference(&mut self, output_exprs: &[ScalarExpression])
        requires
            old(self).is_scalar(),
            forall|i: int|
                0 <= i < output_exprs@.len() ==> (#[trigger] output_exprs@[i]).column_defined(),
        ensures
            old(self).references_to(final(self), output_keys(output_exprs@)),
            final(self).resolved(output_keys(output_exprs@)),
            final(self).spec_output_name() == old(self).spec_output_name(),
            final(self).is_scalar(),
    {
        let columns = Self::output_columns(output_exprs);
        self.reference_in(&columns);
        proof {
            old(self).lemma_reference_resolves(&*self, output_keys(output_exprs@));
            old(self).lemma_reference_keeps_name(&*self, output_keys(output_exprs@));
            old(self).lemma_reference_keeps_whole(&*self, output_keys(output_exprs@));
        }
    }
}

} // verus!
