//! The scalar expression algebra and the read-only walkers over it.

use crate::agg::AggKind;
use crate::catalog::{ColumnRef, ColumnView};
use crate::evaluator::{BinaryEvaluator, UnaryEvaluator};
pub use crate::operator::{BinaryOperator, UnaryOperator};
use crate::types::{CharLengthUnits, LogicalType};
use crate::value::ValueRef;
use vstd::prelude::*;

verus! {

/// Which side of a string `trim` strips.
#[derive(Debug, Clone, Copy, PartialEq, Eq, Hash)]
pub enum TrimWhereField {
    Both,
    Leading,
    Trailing,
}

/// What a function is called.
#[derive(Debug, Clone, PartialEq, Eq, Hash)]
pub struct FunctionSummary {
    pub name: String,
}

/// The descriptor of a scalar function: its summary and declared return
/// type.
#[derive(Debug, Clone, PartialEq, Eq, Hash)]
pub struct ScalarFunctionInner {
    pub summary: FunctionSummary,
    pub return_type: LogicalType,
}

/// The descriptor of a table function.
#[derive(Debug, Clone, PartialEq, Eq, Hash)]
pub struct TableFunctionInner {
    pub summary: FunctionSummary,
}

#[derive(Debug, Clone, PartialEq, Eq, Hash)]
pub struct ScalarFunction {
    pub args: Vec<ScalarExpression>,
    pub inner: ScalarFunctionInner,
}

#[derive(Debug, Clone, PartialEq, Eq, Hash)]
pub struct TableFunction {
    pub args: Vec<ScalarExpression>,
    pub inner: TableFunctionInner,
}

#[derive(Debug, Clone, PartialEq, Eq, Hash)]
pub enum AliasType {
    Name(String),
    Expr(Box<ScalarExpression>),
}

/// A scalar expression of SQL: a tree whose evaluation over a tuple yields
/// one value.
#[derive(Debug, PartialEq, Eq, Hash)]
pub enum ScalarExpression {
    Constant(ValueRef),
    ColumnRef(ColumnRef),
    Alias { expr: Box<ScalarExpression>, alias: AliasType },
    TypeCast { expr: Box<ScalarExpression>, ty: LogicalType },
    IsNull { negated: bool, expr: Box<ScalarExpression> },
    Unary {
        op: UnaryOperator,
        expr: Box<ScalarExpression>,
        evaluator: Option<UnaryEvaluator>,
        ty: LogicalType,
    },
    Binary {
        op: BinaryOperator,
        left_expr: Box<ScalarExpression>,
        right_expr: Box<ScalarExpression>,
        evaluator: Option<BinaryEvaluator>,
        ty: LogicalType,
    },
    AggCall { distinct: bool, kind: AggKind, args: Vec<ScalarExpression>, ty: LogicalType },
    In { negated: bool, expr: Box<ScalarExpression>, args: Vec<ScalarExpression> },
    Between {
        negated: bool,
        expr: Box<ScalarExpression>,
        left_expr: Box<ScalarExpression>,
        right_expr: Box<ScalarExpression>,
    },
    SubString {
        expr: Box<ScalarExpression>,
        for_expr: Option<Box<ScalarExpression>>,
        from_expr: Option<Box<ScalarExpression>>,
    },
    Position { expr: Box<ScalarExpression>, in_expr: Box<ScalarExpression> },
    Trim {
        expr: Box<ScalarExpression>,
        trim_what_expr: Option<Box<ScalarExpression>>,
        trim_where: Option<TrimWhereField>,
    },
    /// A placeholder that stands in a slot only while its content is being
    /// moved; no finished tree holds it.
    Empty,
    Reference { expr: Box<ScalarExpression>, pos: usize },
    Tuple(Vec<ScalarExpression>),
    ScalaFunction(ScalarFunction),
    TableFunction(TableFunction),
    If {
        condition: Box<ScalarExpression>,
        left_expr: Box<ScalarExpression>,
        right_expr: Box<ScalarExpression>,
        ty: LogicalType,
    },
    IfNull { left_expr: Box<ScalarExpression>, right_expr: Box<ScalarExpression>, ty: LogicalType },
    NullIf { left_expr: Box<ScalarExpression>, right_expr: Box<ScalarExpression>, ty: LogicalType },
    Coalesce { exprs: Vec<ScalarExpression>, ty: LogicalType },
    CaseWhen {
        operand_expr: Option<Box<ScalarExpression>>,
        expr_pairs: Vec<(ScalarExpression, ScalarExpression)>,
        else_expr: Option<Box<ScalarExpression>>,
        ty: LogicalType,
    },
}

/// The expression in an optional slot, as a sequence of none or one.
pub open spec fn optional(slot: Option<Box<ScalarExpression>>) -> Seq<ScalarExpression> {
    match slot {
        Some(expr) => seq![*expr],
        None => Seq::empty(),
    }
}

/// The `when` and `then` expressions of the pairs, in turn.
pub open spec fn interleaved(pairs: Seq<(ScalarExpression, ScalarExpression)>) -> Seq<
    ScalarExpression,
> {
    Seq::new(
        2 * pairs.len(),
        |i: int|
            if i % 2 == 0 {
                pairs[i / 2].0
            } else {
                pairs[i / 2].1
            },
    )
}

impl ScalarExpression {
    /// The direct sub-expressions that the walkers descend into, in the
    /// order in which they visit them. The expression of an expression
    /// alias is a label, not a child: see `label`.
    pub open spec fn children(&self) -> Seq<ScalarExpression> {
        match self {
            ScalarExpression::Constant(_) => Seq::empty(),
            ScalarExpression::ColumnRef(_) => Seq::empty(),
            ScalarExpression::Empty => Seq::empty(),
            ScalarExpression::Alias { expr, .. } => seq![**expr],
            ScalarExpression::TypeCast { expr, .. } => seq![**expr],
            ScalarExpression::IsNull { expr, .. } => seq![**expr],
            ScalarExpression::Unary { expr, .. } => seq![**expr],
            ScalarExpression::Reference { expr, .. } => seq![**expr],
            ScalarExpression::Binary { left_expr, right_expr, .. } => seq![
                **left_expr,
                **right_expr,
            ],
            ScalarExpression::IfNull { left_expr, right_expr, .. } => seq![
                **left_expr,
                **right_expr,
            ],
            ScalarExpression::NullIf { left_expr, right_expr, .. } => seq![
                **left_expr,
                **right_expr,
            ],
            ScalarExpression::Position { expr, in_expr } => seq![**expr, **in_expr],
            ScalarExpression::AggCall { args, .. } => args@,
            ScalarExpression::Coalesce { exprs, .. } => exprs@,
            ScalarExpression::Tuple(args) => args@,
            ScalarExpression::ScalaFunction(function) => function.args@,
            ScalarExpression::TableFunction(function) => function.args@,
            ScalarExpression::In { expr, args, .. } => seq![**expr] + args@,
            ScalarExpression::Between { expr, left_expr, right_expr, .. } => seq![
                **expr,
                **left_expr,
                **right_expr,
            ],
            ScalarExpression::If { condition, left_expr, right_expr, .. } => seq![
                **condition,
                **left_expr,
                **right_expr,
            ],
            ScalarExpression::SubString { expr, for_expr, from_expr } => seq![**expr] + optional(
                *for_expr,
            ) + optional(*from_expr),
            ScalarExpression::Trim { expr, trim_what_expr, .. } => seq![**expr] + optional(
                *trim_what_expr,
            ),
            ScalarExpression::CaseWhen { operand_expr, expr_pairs, else_expr, .. } => optional(
                *operand_expr,
            ) + interleaved(expr_pairs@) + optional(*else_expr),
        }
    }

    /// The expression that labels an expression alias.
    pub open spec fn label(&self) -> Option<ScalarExpression> {
        match self {
            ScalarExpression::Alias { alias: AliasType::Expr(inner), .. } => Some(**inner),
            _ => None,
        }
    }

    /// Children and label are parts of the expression, so recursion into
    /// them ends.
    pub proof fn lemma_parts_decrease(&self)
        ensures
            forall|i: int|
                0 <= i < self.children().len() ==> decreases_to!(*self => #[trigger] self.children()[i]),
            self.label() matches Some(inner) ==> decreases_to!(*self => inner),
    {
        match self {
            ScalarExpression::CaseWhen { operand_expr, expr_pairs, else_expr, .. } => {
                let head = optional(*operand_expr);
                let pairs = interleaved(expr_pairs@);
                assert forall|i: int| 0 <= i < self.children().len() implies decreases_to!(*self => #[trigger] self.children()[i]) by {
                    if i < head.len() {
                    } else if i < head.len() + pairs.len() {
                        let k = i - head.len();
                        assert(self.children()[i] == pairs[k]);
                        assert(0 <= k / 2 < expr_pairs@.len());
                        assert(decreases_to!(expr_pairs@ => expr_pairs@[k / 2]));
                    } else {
                    }
                }
            },
            _ => {},
        }
    }

    /// Where each field of a node stands among its children.
    pub proof fn lemma_children_shape(&self)
        ensures
            match self {
                ScalarExpression::In { expr, args, .. } => {
                    &&& self.children().len() == 1 + args@.len()
                    &&& self.children()[0] == **expr
                    &&& forall|i: int|
                        0 <= i < args@.len() ==> self.children()[i + 1] == #[trigger] args@[i]
                },
                ScalarExpression::SubString { expr, for_expr, from_expr } => {
                    let n = optional(*for_expr).len();
                    &&& self.children().len() == 1 + n + optional(*from_expr).len()
                    &&& self.children()[0] == **expr
                    &&& for_expr matches Some(e) ==> self.children()[1] == **e
                    &&& from_expr matches Some(e) ==> self.children()[1 + n as int] == **e
                },
                ScalarExpression::Trim { expr, trim_what_expr, .. } => {
                    &&& self.children().len() == 1 + optional(*trim_what_expr).len()
                    &&& self.children()[0] == **expr
                    &&& trim_what_expr matches Some(e) ==> self.children()[1] == **e
                },
                ScalarExpression::CaseWhen { operand_expr, expr_pairs, else_expr, .. } => {
                    let n = optional(*operand_expr).len();
                    let m = expr_pairs@.len();
                    &&& self.children().len() == n + 2 * m + optional(*else_expr).len()
                    &&& operand_expr matches Some(e) ==> self.children()[0] == **e
                    &&& forall|i: int|
                        0 <= i < m ==> self.children()[n + 2 * i] == (#[trigger] expr_pairs@[i]).0
                            && self.children()[n + 2 * i + 1] == expr_pairs@[i].1
                    &&& else_expr matches Some(e) ==> self.children()[(n + 2 * m) as int] == **e
                },
                _ => true,
            },
    {
        match self {
            ScalarExpression::CaseWhen { operand_expr, expr_pairs, else_expr, .. } => {
                let n = optional(*operand_expr).len();
                let m = expr_pairs@.len();
                let pairs = interleaved(expr_pairs@);
                assert forall|i: int| 0 <= i < m implies self.children()[n + 2 * i] == (
                #[trigger] expr_pairs@[i]).0 && self.children()[n + 2 * i + 1]
                    == expr_pairs@[i].1 by {
                    assert(pairs[2 * i] == expr_pairs@[i].0);
                    assert(pairs[2 * i + 1] == expr_pairs@[i].1);
                }
            },
            _ => {},
        }
    }

    /// No placeholder anywhere in the tree, labels included.
    pub open spec fn complete(&self) -> bool
        decreases self,
    {
        proof {
            self.lemma_parts_decrease();
        }
        &&& !(self is Empty)
        &&& forall|i: int|
            0 <= i < self.children().len() ==> (#[trigger] self.children()[i]).complete()
        &&& self.label() matches Some(inner) ==> inner.complete()
    }

    /// A complete tree without table functions, labels included.
    pub open spec fn is_scalar(&self) -> bool
        decreases self,
    {
        proof {
            self.lemma_parts_decrease();
        }
        &&& !(self is Empty)
        &&& !(self is TableFunction)
        &&& forall|i: int|
            0 <= i < self.children().len() ==> (#[trigger] self.children()[i]).is_scalar()
        &&& self.label() matches Some(inner) ==> inner.is_scalar()
    }

    /// Whether the expression has a return type: aliases and references
    /// have that of what they wrap, placeholders and table functions have
    /// none.
    pub open spec fn has_type(&self) -> bool
        decreases self,
    {
        match self {
            ScalarExpression::Empty | ScalarExpression::TableFunction(_) => false,
            ScalarExpression::Alias { expr, .. } | ScalarExpression::Reference { expr, .. } =>
                expr.has_type(),
            _ => true,
        }
    }

    /// The return type of an expression that has one.
    pub open spec fn spec_return_type(&self) -> LogicalType
        decreases self,
    {
        match self {
            ScalarExpression::Constant(v) => v.spec_logical_type(),
            ScalarExpression::ColumnRef(col) => col.desc.column_datatype,
            ScalarExpression::Binary { ty, .. }
            | ScalarExpression::Unary { ty, .. }
            | ScalarExpression::TypeCast { ty, .. }
            | ScalarExpression::AggCall { ty, .. }
            | ScalarExpression::If { ty, .. }
            | ScalarExpression::IfNull { ty, .. }
            | ScalarExpression::NullIf { ty, .. }
            | ScalarExpression::Coalesce { ty, .. }
            | ScalarExpression::CaseWhen { ty, .. } => *ty,
            ScalarExpression::IsNull { .. }
            | ScalarExpression::In { .. }
            | ScalarExpression::Between { .. } => LogicalType::Boolean,
            ScalarExpression::SubString { .. } | ScalarExpression::Trim { .. } =>
                LogicalType::Varchar(None, CharLengthUnits::Characters),
            ScalarExpression::Position { .. } => LogicalType::Integer,
            ScalarExpression::Alias { expr, .. } | ScalarExpression::Reference { expr, .. } =>
                expr.spec_return_type(),
            ScalarExpression::Tuple(_) => LogicalType::Tuple,
            ScalarExpression::ScalaFunction(function) => function.inner.return_type,
            ScalarExpression::Empty | ScalarExpression::TableFunction(_) => LogicalType::Invalid,
        }
    }

    /// A scalar tree is complete.
    pub proof fn lemma_scalar_is_complete(&self)
        requires
            self.is_scalar(),
        ensures
            self.complete(),
        decreases self,
    {
        self.lemma_parts_decrease();
        assert forall|i: int| 0 <= i < self.children().len() implies (
        #[trigger] self.children()[i]).complete() by {
            self.children()[i].lemma_scalar_is_complete();
        }
        if let Some(inner) = self.label() {
            inner.lemma_scalar_is_complete();
        }
    }

    /// A tree that holds neither a placeholder nor a table function has a
    /// return type.
    pub proof fn lemma_scalar_has_type(&self)
        requires
            self.is_scalar(),
        ensures
            self.has_type(),
        decreases self,
    {
        match self {
            ScalarExpression::Alias { expr, .. } | ScalarExpression::Reference { expr, .. } => {
                assert(self.children()[0] == **expr);
                expr.lemma_scalar_has_type();
            },
            _ => {},
        }
    }

    /// Whether the tree holds an aggregate call: the node is one, or a child
    /// holds one.
    pub open spec fn spec_has_agg_call(&self) -> bool
        decreases self,
    {
        proof {
            self.lemma_parts_decrease();
        }
        self is AggCall || exists|i: int|
            0 <= i < self.children().len() && (#[trigger] self.children()[i]).spec_has_agg_call()
    }

    /// Whether the node is the call `Count(*)`: a count whose one argument
    /// is the literal `*`.
    pub open spec fn is_count_star(&self) -> bool {
        match self {
            ScalarExpression::AggCall { kind, args, .. } => {
                &&& *kind is Count
                &&& args@.len() == 1
                &&& args@[0] matches ScalarExpression::Constant(v) && v.spec_is_star()
            },
            _ => false,
        }
    }

    /// Whether the tree holds the call `Count(*)`.
    pub open spec fn spec_has_count_star(&self) -> bool
        decreases self,
    {
        proof {
            self.lemma_parts_decrease();
        }
        self.is_count_star() || exists|i: int|
            0 <= i < self.children().len() && (#[trigger] self.children()[i]).spec_has_count_star()
    }

    /// The return type of the expression.
    pub fn return_type(&self) -> (r: LogicalType)
        requires
            self.has_type(),
        ensures
            r == self.spec_return_type(),
        decreases self,
    {
        match self {
            ScalarExpression::Constant(v) => v.logical_type(),
            ScalarExpression::ColumnRef(col) => *col.datatype(),
            ScalarExpression::Binary { ty: return_type, .. }
            | ScalarExpression::Unary { ty: return_type, .. }
            | ScalarExpression::TypeCast { ty: return_type, .. }
            | ScalarExpression::AggCall { ty: return_type, .. }
            | ScalarExpression::If { ty: return_type, .. }
            | ScalarExpression::IfNull { ty: return_type, .. }
            | ScalarExpression::NullIf { ty: return_type, .. }
            | ScalarExpression::Coalesce { ty: return_type, .. }
            | ScalarExpression::CaseWhen { ty: return_type, .. } => *return_type,
            ScalarExpression::IsNull { .. }
            | ScalarExpression::In { .. }
            | ScalarExpression::Between { .. } => LogicalType::Boolean,
            ScalarExpression::SubString { .. } => LogicalType::Varchar(
                None,
                CharLengthUnits::Characters,
            ),
            ScalarExpression::Position { .. } => LogicalType::Integer,
            ScalarExpression::Trim { .. } => LogicalType::Varchar(
                None,
                CharLengthUnits::Characters,
            ),
            ScalarExpression::Alias { expr, .. } | ScalarExpression::Reference { expr, .. } => {
                expr.return_type()
            },
            ScalarExpression::Empty | ScalarExpression::TableFunction(_) => {
                proof {
                    assert(false);
                }
                LogicalType::Invalid
            },
            ScalarExpression::Tuple(_) => LogicalType::Tuple,
            ScalarExpression::ScalaFunction(function) => function.inner.return_type,
        }
    }

    /// Whether some expression of the list holds an aggregate call.
    fn any_agg_call(args: &Vec<ScalarExpression>) -> (r: bool)
        requires
            forall|i: int| 0 <= i < args@.len() ==> (#[trigger] args@[i]).is_scalar(),
        ensures
            r == exists|i: int| 0 <= i < args@.len() && (#[trigger] args@[i]).spec_has_agg_call(),
        decreases args,
    {
        let mut i: usize = 0;
        while i < args.len()
            invariant
                i <= args@.len(),
                forall|j: int| 0 <= j < args@.len() ==> (#[trigger] args@[j]).is_scalar(),
                forall|j: int| 0 <= j < i ==> !(#[trigger] args@[j]).spec_has_agg_call(),
            decreases args@.len() - i,
        {
            if args[i].has_agg_call() {
                return true;
            }
            i = i + 1;
        }
        false
    }

    /// Whether a `when` or a `then` of some pair holds an aggregate call.
    fn any_pair_agg_call(pairs: &Vec<(ScalarExpression, ScalarExpression)>) -> (r: bool)
        requires
            forall|i: int|
                0 <= i < pairs@.len() ==> (#[trigger] pairs@[i]).0.is_scalar()
                    && pairs@[i].1.is_scalar(),
        ensures
            r == exists|i: int|
                0 <= i < pairs@.len() && ((#[trigger] pairs@[i]).0.spec_has_agg_call()
                    || pairs@[i].1.spec_has_agg_call()),
        decreases pairs,
    {
        let mut i: usize = 0;
        while i < pairs.len()
            invariant
                i <= pairs@.len(),
                forall|j: int|
                    0 <= j < pairs@.len() ==> (#[trigger] pairs@[j]).0.is_scalar()
                        && pairs@[j].1.is_scalar(),
                forall|j: int|
                    0 <= j < i ==> !(#[trigger] pairs@[j]).0.spec_has_agg_call()
                        && !pairs@[j].1.spec_has_agg_call(),
            decreases pairs@.len() - i,
        {
            if pairs[i].0.has_agg_call() || pairs[i].1.has_agg_call() {
                return true;
            }
            i = i + 1;
        }
        false
    }

    /// Whether the slot holds an expression with an aggregate call.
    fn slot_agg_call(slot: &Option<Box<ScalarExpression>>) -> (r: bool)
        requires
            slot matches Some(expr) ==> expr.is_scalar(),
        ensures
            r == (slot matches Some(expr) && expr.spec_has_agg_call()),
        decreases slot,
    {
        match slot {
            Some(expr) => expr.has_agg_call(),
            None => false,
        }
    }

    /// Whether the tree holds an aggregate call.
    pub fn has_agg_call(&self) -> (r: bool)
        requires
            self.is_scalar(),
        ensures
            r == self.spec_has_agg_call(),
        decreases self,
    {
        proof {
            self.lemma_children_shape();
        }
        match self {
            ScalarExpression::AggCall { .. } => true,
            ScalarExpression::Constant(_) => false,
            ScalarExpression::ColumnRef(_) => false,
            ScalarExpression::Alias { expr, .. } => expr.has_agg_call(),
            ScalarExpression::TypeCast { expr, .. } => expr.has_agg_call(),
            ScalarExpression::IsNull { expr, .. } => expr.has_agg_call(),
            ScalarExpression::Unary { expr, .. } => expr.has_agg_call(),
            ScalarExpression::Reference { expr, .. } => expr.has_agg_call(),
            ScalarExpression::Binary { left_expr, right_expr, .. } => left_expr.has_agg_call()
                || right_expr.has_agg_call(),
            ScalarExpression::In { expr, args, .. } => {
                let first = expr.has_agg_call();
                first || Self::any_agg_call(args)
            },
            ScalarExpression::Between { expr, left_expr, right_expr, .. } => expr.has_agg_call()
                || left_expr.has_agg_call() || right_expr.has_agg_call(),
            ScalarExpression::SubString { expr, for_expr, from_expr } => expr.has_agg_call()
                || Self::slot_agg_call(for_expr) || Self::slot_agg_call(from_expr),
            ScalarExpression::Position { expr, in_expr } => expr.has_agg_call()
                || in_expr.has_agg_call(),
            ScalarExpression::Trim { expr, trim_what_expr, .. } => expr.has_agg_call()
                || Self::slot_agg_call(trim_what_expr),
            ScalarExpression::Empty | ScalarExpression::TableFunction(_) => {
                proof {
                    assert(false);
                }
                false
            },
            ScalarExpression::Tuple(args) => Self::any_agg_call(args),
            ScalarExpression::ScalaFunction(function) => Self::any_agg_call(&function.args),
            ScalarExpression::Coalesce { exprs, .. } => Self::any_agg_call(exprs),
            ScalarExpression::If { condition, left_expr, right_expr, .. } => {
                condition.has_agg_call() || left_expr.has_agg_call() || right_expr.has_agg_call()
            },
            ScalarExpression::IfNull { left_expr, right_expr, .. }
            | ScalarExpression::NullIf { left_expr, right_expr, .. } => left_expr.has_agg_call()
                || right_expr.has_agg_call(),
            ScalarExpression::CaseWhen { operand_expr, expr_pairs, else_expr, .. } => {
                Self::slot_agg_call(operand_expr) || Self::any_pair_agg_call(expr_pairs)
                    || Self::slot_agg_call(else_expr)
            },
        }
    }

    /// Whether some expression of the list holds the call `Count(*)`.
    fn any_count_star(args: &Vec<ScalarExpression>) -> (r: bool)
        requires
            forall|i: int| 0 <= i < args@.len() ==> (#[trigger] args@[i]).is_scalar(),
        ensures
            r == exists|i: int| 0 <= i < args@.len() && (#[trigger] args@[i]).spec_has_count_star(),
        decreases args,
    {
        let mut i: usize = 0;
        while i < args.len()
            invariant
                i <= args@.len(),
                forall|j: int| 0 <= j < args@.len() ==> (#[trigger] args@[j]).is_scalar(),
                forall|j: int| 0 <= j < i ==> !(#[trigger] args@[j]).spec_has_count_star(),
            decreases args@.len() - i,
        {
            if args[i].has_count_star() {
                return true;
            }
            i = i + 1;
        }
        false
    }

    /// Whether a `when` or a `then` of some pair holds the call `Count(*)`.
    fn any_pair_count_star(pairs: &Vec<(ScalarExpression, ScalarExpression)>) -> (r: bool)
        requires
            forall|i: int|
                0 <= i < pairs@.len() ==> (#[trigger] pairs@[i]).0.is_scalar()
                    && pairs@[i].1.is_scalar(),
        ensures
            r == exists|i: int|
                0 <= i < pairs@.len() && ((#[trigger] pairs@[i]).0.spec_has_count_star()
                    || pairs@[i].1.spec_has_count_star()),
        decreases pairs,
    {
        let mut i: usize = 0;
        while i < pairs.len()
            invariant
                i <= pairs@.len(),
                forall|j: int|
                    0 <= j < pairs@.len() ==> (#[trigger] pairs@[j]).0.is_scalar()
                        && pairs@[j].1.is_scalar(),
                forall|j: int|
                    0 <= j < i ==> !(#[trigger] pairs@[j]).0.spec_has_count_star()
                        && !pairs@[j].1.spec_has_count_star(),
            decreases pairs@.len() - i,
        {
            if pairs[i].0.has_count_star() || pairs[i].1.has_count_star() {
                return true;
            }
            i = i + 1;
        }
        false
    }

    /// Whether the slot holds an expression with the call `Count(*)`.
    fn slot_count_star(slot: &Option<Box<ScalarExpression>>) -> (r: bool)
        requires
            slot matches Some(expr) ==> expr.is_scalar(),
        ensures
            r == (slot matches Some(expr) && expr.spec_has_count_star()),
        decreases slot,
    {
        match slot {
            Some(expr) => expr.has_count_star(),
            None => false,
        }
    }

    /// Whether the arguments of a count are the one literal `*`.
    fn is_star_argument(args: &Vec<ScalarExpression>) -> (r: bool)
        ensures
            r == (args@.len() == 1 && (args@[0] matches ScalarExpression::Constant(v)
                && v.spec_is_star())),
    {
        if args.len() != 1 {
            return false;
        }
        match &args[0] {
            ScalarExpression::Constant(v) => v.is_star(),
            _ => false,
        }
    }

    /// Whether the tree holds the call `Count(*)`.
    pub fn has_count_star(&self) -> (r: bool)
        requires
            self.is_scalar(),
        ensures
            r == self.spec_has_count_star(),
        decreases self,
    {
        proof {
            self.lemma_children_shape();
        }
        match self {
            ScalarExpression::Alias { expr, .. } => expr.has_count_star(),
            ScalarExpression::TypeCast { expr, .. } => expr.has_count_star(),
            ScalarExpression::IsNull { expr, .. } => expr.has_count_star(),
            ScalarExpression::Unary { expr, .. } => expr.has_count_star(),
            ScalarExpression::Binary { left_expr, right_expr, .. } => left_expr.has_count_star()
                || right_expr.has_count_star(),
            ScalarExpression::AggCall { kind, args, .. } => {
                let star = matches!(kind, AggKind::Count) && Self::is_star_argument(args);
                star || Self::any_count_star(args)
            },
            ScalarExpression::ScalaFunction(function) => Self::any_count_star(&function.args),
            ScalarExpression::Coalesce { exprs, .. } => Self::any_count_star(exprs),
            ScalarExpression::Empty | ScalarExpression::TableFunction(_) => {
                proof {
                    assert(false);
                }
                false
            },
            ScalarExpression::Constant(_) | ScalarExpression::ColumnRef(_) => false,
            ScalarExpression::In { expr, args, .. } => {
                let first = expr.has_count_star();
                first || Self::any_count_star(args)
            },
            ScalarExpression::Between { expr, left_expr, right_expr, .. } => {
                expr.has_count_star() || left_expr.has_count_star() || right_expr.has_count_star()
            },
            ScalarExpression::SubString { expr, for_expr, from_expr } => expr.has_count_star()
                || Self::slot_count_star(from_expr) || Self::slot_count_star(for_expr),
            ScalarExpression::Position { expr, in_expr } => expr.has_count_star()
                || in_expr.has_count_star(),
            ScalarExpression::Trim { expr, trim_what_expr, .. } => expr.has_count_star()
                || Self::slot_count_star(trim_what_expr),
            ScalarExpression::Reference { expr, .. } => expr.has_count_star(),
            ScalarExpression::Tuple(args) => Self::any_count_star(args),
            ScalarExpression::If { condition, left_expr, right_expr, .. } => {
                condition.has_count_star() || left_expr.has_count_star()
                    || right_expr.has_count_star()
            },
            ScalarExpression::IfNull { left_expr, right_expr, .. }
            | ScalarExpression::NullIf { left_expr, right_expr, .. } => left_expr.has_count_star()
                || right_expr.has_count_star(),
            ScalarExpression::CaseWhen { operand_expr, expr_pairs, else_expr, .. } => {
                Self::slot_count_star(operand_expr) || Self::any_pair_count_star(expr_pairs)
                    || Self::slot_count_star(else_expr)
            },
        }
    }

    /// The expression under every alias: an expression alias gives way to
    /// its label, a name alias to what it names.
    pub open spec fn spec_unpack_alias(&self) -> ScalarExpression
        decreases self,
    {
        match self {
            ScalarExpression::Alias { alias: AliasType::Expr(inner), .. } =>
                inner.spec_unpack_alias(),
            ScalarExpression::Alias { expr, .. } => expr.spec_unpack_alias(),
            _ => *self,
        }
    }

    /// Strips the alias wrappers and hands out the expression under them.
    pub fn unpack_alias(self) -> (r: ScalarExpression)
        ensures
            r == self.spec_unpack_alias(),
        decreases self,
    {
        match self {
            ScalarExpression::Alias { alias: AliasType::Expr(expr), .. } => (*expr).unpack_alias(),
            ScalarExpression::Alias { expr, .. } => (*expr).unpack_alias(),
            other => other,
        }
    }

    /// The expression under the alias wrappers, borrowed.
    pub fn unpack_alias_ref(&self) -> (r: &ScalarExpression)
        ensures
            *r == self.spec_unpack_alias(),
        decreases self,
    {
        match self {
            ScalarExpression::Alias { alias: AliasType::Expr(expr), .. } => expr.unpack_alias_ref(),
            ScalarExpression::Alias { expr, .. } => expr.unpack_alias_ref(),
            _ => self,
        }
    }
}

} // verus!
