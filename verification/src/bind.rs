//! The evaluator binder: resolves operand types bottom-up, inserts the
//! implicit casts, and attaches to each operator node its evaluator.

use crate::errors::DatabaseError;
use crate::evaluator::{BinaryEvaluator, EvaluatorFactory, UnaryEvaluator};
use crate::expression::{interleaved, optional, ScalarExpression};
use crate::types::LogicalType;
use vstd::prelude::*;

verus! {

impl ScalarExpression {
    /// Whether the binder can run on the tree: it meets no placeholder, and
    /// the operands of every operator node that it visits have a type.
    pub open spec fn bind_ready(&self) -> bool
        decreases self,
    {
        proof {
            self.lemma_parts_decrease();
        }
        &&& !(self is Empty)
        &&& (self is Binary || self is Unary) ==> forall|i: int|
            0 <= i < self.children().len() ==> (#[trigger] self.children()[i]).has_type()
        &&& self.is_terminal() || forall|i: int|
            0 <= i < self.children().len() ==> (#[trigger] self.children()[i]).bind_ready()
    }

    /// The failure of the node itself, once its operands are bound.
    ///
    /// A binary node fails with `TypeMismatch` where its operand types have
    /// no join, and with `UnsupportedBinaryOperator` where the factory has
    /// no kernel for the join and the operator. A unary node fails with
    /// `UnsupportedUnaryOperator` where the factory has no kernel for the
    /// signed counterpart of its operand type and the operator. No other
    /// node fails.
    pub open spec fn spec_own_error(&self) -> Option<DatabaseError> {
        match self {
            ScalarExpression::Binary { op, left_expr, right_expr, .. } => {
                let left = left_expr.spec_return_type();
                let right = right_expr.spec_return_type();
                match LogicalType::spec_max_logical_type(left, right) {
                    None => Some(DatabaseError::TypeMismatch(left, right)),
                    Some(t) => if EvaluatorFactory::spec_binary_supported(t, *op) {
                        None
                    } else {
                        Some(DatabaseError::UnsupportedBinaryOperator(t, *op))
                    },
                }
            },
            ScalarExpression::Unary { op, expr, .. } => {
                let t = expr.spec_return_type().spec_to_signed();
                if EvaluatorFactory::spec_unary_supported(t, *op) {
                    None
                } else {
                    Some(DatabaseError::UnsupportedUnaryOperator(t, *op))
                }
            },
            _ => None,
        }
    }

    /// Whether binding succeeds: at every node that the binder visits, the
    /// node itself does not fail.
    pub open spec fn bindable(&self) -> bool
        decreases self,
    {
        proof {
            self.lemma_parts_decrease();
        }
        self.is_terminal() || {
            &&& forall|i: int|
                0 <= i < self.children().len() ==> (#[trigger] self.children()[i]).bindable()
            &&& self.spec_own_error() is None
        }
    }

    /// Whether binding fails with `error`: the failure of the first child,
    /// in order, that cannot be bound, or else the failure of the node
    /// itself.
    pub open spec fn bind_fails_with(&self, error: DatabaseError) -> bool
        decreases self,
    {
        proof {
            self.lemma_parts_decrease();
        }
        !self.is_terminal() && {
            ||| exists|i: int|
                0 <= i < self.children().len() && (#[trigger] self.children()[i]).bind_fails_with(
                    error,
                ) && forall|j: int| 0 <= j < i ==> (#[trigger] self.children()[j]).bindable()
            ||| {
                &&& forall|i: int|
                    0 <= i < self.children().len() ==> (#[trigger] self.children()[i]).bindable()
                &&& self.spec_own_error() == Some(error)
            }
        }
    }

    /// Whether `after` is this expression bound.
    ///
    /// A binary node keeps operator and type, has the evaluator of the join
    /// of its operand types, and each operand bound and cast to the join. A
    /// unary node keeps operator and type, has the evaluator of the signed
    /// counterpart of its operand type, and its operand bound and cast to
    /// that counterpart. A terminal node stays as it is. Every other node
    /// keeps its shell and its label, with each child bound.
    pub open spec fn binds_to(&self, after: &ScalarExpression) -> bool
        decreases self, 0nat,
    {
        proof {
            self.lemma_parts_decrease();
        }
        match self {
            ScalarExpression::Binary { op, left_expr, right_expr, ty, .. } => {
                &&& after matches ScalarExpression::Binary {
                    op: op2,
                    left_expr: left2,
                    right_expr: right2,
                    evaluator,
                    ty: ty2,
                }
                &&& op2 == op
                &&& ty2 == ty
                &&& LogicalType::spec_max_logical_type(
                    left_expr.spec_return_type(),
                    right_expr.spec_return_type(),
                ) matches Some(t)
                &&& *evaluator == Some(BinaryEvaluator { ty: t, op: *op })
                &&& left_expr.binds_under_cast(left2, t)
                &&& right_expr.binds_under_cast(right2, t)
            },
            ScalarExpression::Unary { op, expr, ty, .. } => {
                let t = expr.spec_return_type().spec_to_signed();
                &&& after matches ScalarExpression::Unary { op: op2, expr: expr2, evaluator, ty: ty2 }
                &&& op2 == op
                &&& ty2 == ty
                &&& *evaluator == Some(UnaryEvaluator { ty: t, op: *op })
                &&& expr.binds_under_cast(expr2, t)
            },
            _ => if self.is_terminal() {
                *after == *self
            } else {
                &&& self.same_shell(after)
                &&& after.label() == self.label()
                &&& after.children().len() == self.children().len()
                &&& forall|i: int|
                    0 <= i < self.children().len() ==> (#[trigger] self.children()[i]).binds_to(
                        &after.children()[i],
                    )
            },
        }
    }

    /// Whether `after` is this operand bound and brought to the type
    /// `target`: bound as it is where it has that type, and else bound
    /// inside a cast to it.
    pub open spec fn binds_under_cast(&self, after: &ScalarExpression, target: LogicalType) -> bool
        decreases self, 1nat,
    {
        if self.spec_return_type() == target {
            self.binds_to(after)
        } else {
            &&& after matches ScalarExpression::TypeCast { expr, ty }
            &&& *ty == target
            &&& self.binds_to(expr)
        }
    }

    /// Binding changes neither whether an expression has a type nor which.
    pub proof fn lemma_bind_keeps_type(&self, after: &ScalarExpression)
        requires
            self.binds_to(after),
        ensures
            after.has_type() == self.has_type(),
            after.spec_return_type() == self.spec_return_type(),
        decreases self,
    {
        match self {
            ScalarExpression::Alias { expr, .. } => {
                assert(self.children()[0] == **expr);
                assert(self.children()[0].binds_to(&after.children()[0]));
                expr.lemma_bind_keeps_type(&after.children()[0]);
            },
            _ => {},
        }
    }

    /// Wraps the operand in a cast to `ty` unless it has that type.
    fn cast_to(expr: &mut ScalarExpression, ty: LogicalType)
        requires
            old(expr).has_type(),
        ensures
            *final(expr) == if old(expr).spec_return_type() == ty {
                *old(expr)
            } else {
                ScalarExpression::TypeCast { expr: Box::new(*old(expr)), ty }
            },
    {
        if !expr.return_type().same(&ty) {
            let mut taken = ScalarExpression::Empty;
            std::mem::swap(expr, &mut taken);
            *expr = ScalarExpression::TypeCast { expr: Box::new(taken), ty };
        }
    }

    /// Binds every expression of the list, in order, up to the first that
    /// fails.
    fn bind_all(args: &mut Vec<ScalarExpression>) -> (r: Result<(), DatabaseError>)
        requires
            forall|i: int| 0 <= i < old(args)@.len() ==> (#[trigger] old(args)@[i]).bind_ready(),
        ensures
            match r {
                Ok(()) => {
                    &&& final(args)@.len() == old(args)@.len()
                    &&& forall|i: int|
                        0 <= i < old(args)@.len() ==> (#[trigger] old(args)@[i]).bindable() && old(
                            args,
                        )@[i].binds_to(&final(args)@[i])
                },
                Err(error) => exists|i: int|
                    {
                        &&& 0 <= i < old(args)@.len()
                        &&& (#[trigger] old(args)@[i]).bind_fails_with(error)
                        &&& !old(args)@[i].bindable()
                        &&& forall|j: int| 0 <= j < i ==> (#[trigger] old(args)@[j]).bindable()
                    },
            },
        decreases *old(args), 2nat,
    {
        let ghost before = args@;
        let n = args.len();
        let mut i: usize = 0;
        while i < n
            invariant
                i <= n,
                args@.len() == n,
                before.len() == n,
                before == old(args)@,
                forall|j: int| 0 <= j < n ==> (#[trigger] before[j]).bind_ready(),
                forall|j: int|
                    0 <= j < i ==> (#[trigger] before[j]).bindable() && before[j].binds_to(
                        &args@[j],
                    ),
                forall|j: int| i <= j < n ==> before[j] == args@[j],
                forall|j: int| 0 <= j < n ==> decreases_to!(*old(args) => #[trigger] before[j]),
            decreases n - i,
        {
            assert(args@[i as int] == before[i as int]);
            match args[i].bind_evaluator() {
                Err(error) => {
                    assert(before[i as int].bind_fails_with(error));
                    return Err(error);
                },
                Ok(()) => {},
            }
            i = i + 1;
        }
        Ok(())
    }

    /// Binds the `when` and the `then` of every pair, in order, up to the
    /// first that fails.
    fn bind_pairs(pairs: &mut Vec<(ScalarExpression, ScalarExpression)>) -> (r: Result<
        (),
        DatabaseError,
    >)
        requires
            forall|i: int|
                0 <= i < old(pairs)@.len() ==> (#[trigger] old(pairs)@[i]).0.bind_ready() && old(
                    pairs,
                )@[i].1.bind_ready(),
        ensures
            match r {
                Ok(()) => {
                    &&& final(pairs)@.len() == old(pairs)@.len()
                    &&& forall|i: int|
                        0 <= i < old(pairs)@.len() ==> {
                            &&& (#[trigger] old(pairs)@[i]).0.bindable()
                            &&& old(pairs)@[i].1.bindable()
                            &&& old(pairs)@[i].0.binds_to(&final(pairs)@[i].0)
                            &&& old(pairs)@[i].1.binds_to(&final(pairs)@[i].1)
                        }
                },
                Err(error) => exists|k: int|
                    {
                        &&& 0 <= k < 2 * old(pairs)@.len()
                        &&& (#[trigger] interleaved(old(pairs)@)[k]).bind_fails_with(error)
                        &&& !interleaved(old(pairs)@)[k].bindable()
                        &&& forall|j: int|
                            0 <= j < k ==> (#[trigger] interleaved(old(pairs)@)[j]).bindable()
                    },
            },
        decreases *old(pairs), 2nat,
    {
        let ghost before = pairs@;
        let n = pairs.len();
        let mut i: usize = 0;
        while i < n
            invariant
                i <= n,
                pairs@.len() == n,
                before.len() == n,
                before == old(pairs)@,
                forall|j: int|
                    0 <= j < n ==> (#[trigger] before[j]).0.bind_ready()
                        && before[j].1.bind_ready(),
                forall|j: int|
                    0 <= j < i ==> {
                        &&& (#[trigger] before[j]).0.bindable()
                        &&& before[j].1.bindable()
                        &&& before[j].0.binds_to(&pairs@[j].0)
                        &&& before[j].1.binds_to(&pairs@[j].1)
                    },
                forall|j: int| i <= j < n ==> before[j] == pairs@[j],
                forall|j: int| 0 <= j < n ==> decreases_to!(*old(pairs) => #[trigger] before[j]),
            decreases n - i,
        {
            assert(pairs@[i as int] == before[i as int]);
            match pairs[i].0.bind_evaluator() {
                Err(error) => {
                    proof {
                        Self::lemma_pairs_fail(before, 2 * i, error);
                    }
                    return Err(error);
                },
                Ok(()) => {},
            }
            match pairs[i].1.bind_evaluator() {
                Err(error) => {
                    proof {
                        Self::lemma_pairs_fail(before, 2 * i + 1, error);
                    }
                    return Err(error);
                },
                Ok(()) => {},
            }
            i = i + 1;
        }
        Ok(())
    }

    /// Resolves the evaluators of the tree bottom-up and inserts the
    /// implicit casts.
    ///
    /// Succeeds exactly where no visited node fails; the tree is then the
    /// bound form of what it was. On failure the error is that of the first
    /// node, children before their parent and in order, that fails, and the
    /// tree is to be discarded.
    pub fn bind_evaluator(&mut self) -> (r: Result<(), DatabaseError>)
        requires
            old(self).bind_ready(),
        ensures
            match r {
                Ok(()) => {
                    &&& old(self).bindable()
                    &&& old(self).binds_to(final(self))
                    &&& final(self).is_bound()
                    &&& final(self).bind_ready()
                    &&& old(self).complete() ==> final(self).complete()
                    &&& old(self).is_scalar() ==> final(self).is_scalar()
                },
                Err(error) => !old(self).bindable() && old(self).bind_fails_with(error),
            },
        decreases *old(self), 1nat,
    {
        let r = if matches!(self, ScalarExpression::Binary { .. }) {
            self.bind_binary()
        } else if matches!(self, ScalarExpression::Unary { .. }) {
            self.bind_unary()
        } else {
            self.bind_children()
        };
        proof {
            if r is Ok {
                old(self).lemma_bind_binds(&*self);
                old(self).lemma_bind_keeps_whole(&*self);
                old(self).lemma_bind_fixpoint(&*self);
            }
        }
        r
    }

    /// Binds a binary node: both operands, then the node itself.
    fn bind_binary(&mut self) -> (r: Result<(), DatabaseError>)
        requires
            old(self).bind_ready(),
            *old(self) is Binary,
        ensures
            match r {
                Ok(()) => old(self).bindable() && old(self).binds_to(final(self)),
                Err(error) => !old(self).bindable() && old(self).bind_fails_with(error),
            },
        decreases *old(self), 0nat,
    {
        proof {
            old(self).lemma_children_shape();
        }
        match self {
            ScalarExpression::Binary { left_expr, right_expr, op, evaluator, .. } => {
                let ghost left = **left_expr;
                let ghost right = **right_expr;
                assert(old(self).children()[0] == left);
                assert(old(self).children()[1] == right);
                match left_expr.bind_evaluator() {
                    Err(error) => {
                        return Err(error);
                    },
                    Ok(()) => {},
                }
                match right_expr.bind_evaluator() {
                    Err(error) => {
                        return Err(error);
                    },
                    Ok(()) => {},
                }
                proof {
                    left.lemma_bind_keeps_type(&**left_expr);
                    right.lemma_bind_keeps_type(&**right_expr);
                }
                let ty = match LogicalType::max_logical_type(
                    &left_expr.return_type(),
                    &right_expr.return_type(),
                ) {
                    Err(error) => {
                        return Err(error);
                    },
                    Ok(ty) => ty,
                };
                let ghost bound_left = **left_expr;
                let ghost bound_right = **right_expr;
                Self::cast_to(left_expr, ty);
                Self::cast_to(right_expr, ty);
                proof {
                    assert(left.binds_to(&bound_left));
                    assert(right.binds_to(&bound_right));
                    assert(left.binds_under_cast(&**left_expr, ty));
                    assert(right.binds_under_cast(&**right_expr, ty));
                }
                match EvaluatorFactory::binary_create(ty, *op) {
                    Err(error) => {
                        return Err(error);
                    },
                    Ok(found) => {
                        *evaluator = Some(found);
                    },
                }
            },
            _ => {},
        }
        proof {
            self.lemma_children_shape();
        }
        Ok(())
    }

    /// Binds a unary node: the operand, then the node itself.
    fn bind_unary(&mut self) -> (r: Result<(), DatabaseError>)
        requires
            old(self).bind_ready(),
            *old(self) is Unary,
        ensures
            match r {
                Ok(()) => old(self).bindable() && old(self).binds_to(final(self)),
                Err(error) => !old(self).bindable() && old(self).bind_fails_with(error),
            },
        decreases *old(self), 0nat,
    {
        proof {
            old(self).lemma_children_shape();
        }
        match self {
            ScalarExpression::Unary { expr, op, evaluator, .. } => {
                let ghost operand = **expr;
                assert(old(self).children()[0] == operand);
                match expr.bind_evaluator() {
                    Err(error) => {
                        return Err(error);
                    },
                    Ok(()) => {},
                }
                proof {
                    operand.lemma_bind_keeps_type(&**expr);
                }
                let ty = expr.return_type().to_signed();
                let ghost bound = **expr;
                Self::cast_to(expr, ty);
                proof {
                    assert(operand.binds_to(&bound));
                    assert(operand.binds_under_cast(&**expr, ty));
                }
                match EvaluatorFactory::unary_create(ty, *op) {
                    Err(error) => {
                        return Err(error);
                    },
                    Ok(found) => {
                        *evaluator = Some(found);
                    },
                }
            },
            _ => {},
        }
        proof {
            self.lemma_children_shape();
        }
        Ok(())
    }

    /// Binds a node that has no evaluator of its own: each child in order.
    #[verifier::rlimit(50)]
    fn bind_children(&mut self) -> (r: Result<(), DatabaseError>)
        requires
            old(self).bind_ready(),
            !(*old(self) is Binary),
            !(*old(self) is Unary),
        ensures
            match r {
                Ok(()) => old(self).bindable() && old(self).binds_to(final(self)),
                Err(error) => !old(self).bindable() && old(self).bind_fails_with(error),
            },
        decreases *old(self), 0nat,
    {
        proof {
            old(self).lemma_children_shape();
        }
        match self {
            ScalarExpression::Alias { expr, .. } => {
                match expr.bind_evaluator() {
                    Err(error) => {
                        return Err(error);
                    },
                    Ok(()) => {},
                }
            },
            ScalarExpression::TypeCast { expr, .. } => {
                match expr.bind_evaluator() {
                    Err(error) => {
                        return Err(error);
                    },
                    Ok(()) => {},
                }
            },
            ScalarExpression::IsNull { expr, .. } => {
                match expr.bind_evaluator() {
                    Err(error) => {
                        return Err(error);
                    },
                    Ok(()) => {},
                }
            },
            ScalarExpression::AggCall { args, .. } => {
                match Self::bind_all(args) {
                    Err(error) => {
                        return Err(error);
                    },
                    Ok(()) => {},
                }
            },
            ScalarExpression::Coalesce { exprs, .. } => {
                match Self::bind_all(exprs) {
                    Err(error) => {
                        return Err(error);
                    },
                    Ok(()) => {},
                }
            },
            ScalarExpression::Tuple(args) => {
                match Self::bind_all(args) {
                    Err(error) => {
                        return Err(error);
                    },
                    Ok(()) => {},
                }
            },
            ScalarExpression::In { expr, args, .. } => {
                match expr.bind_evaluator() {
                    Err(error) => {
                        return Err(error);
                    },
                    Ok(()) => {},
                }
                match Self::bind_all(args) {
                    Err(error) => {
                        proof {
                            old(self).lemma_fails_in_list(error, 1, old(self)->In_args@);
                        }
                        return Err(error);
                    },
                    Ok(()) => {},
                }
            },
            ScalarExpression::Between { expr, left_expr, right_expr, .. } => {
                match expr.bind_evaluator() {
                    Err(error) => {
                        return Err(error);
                    },
                    Ok(()) => {},
                }
                match left_expr.bind_evaluator() {
                    Err(error) => {
                        return Err(error);
                    },
                    Ok(()) => {},
                }
                match right_expr.bind_evaluator() {
                    Err(error) => {
                        return Err(error);
                    },
                    Ok(()) => {},
                }
            },
            ScalarExpression::SubString { expr, for_expr, from_expr } => {
                match expr.bind_evaluator() {
                    Err(error) => {
                        return Err(error);
                    },
                    Ok(()) => {},
                }
                if let Some(expr) = for_expr {
                    match expr.bind_evaluator() {
                        Err(error) => {
                            return Err(error);
                        },
                        Ok(()) => {},
                    }
                }
                if let Some(expr) = from_expr {
                    match expr.bind_evaluator() {
                        Err(error) => {
                            return Err(error);
                        },
                        Ok(()) => {},
                    }
                }
            },
            ScalarExpression::Position { expr, in_expr } => {
                match expr.bind_evaluator() {
                    Err(error) => {
                        return Err(error);
                    },
                    Ok(()) => {},
                }
                match in_expr.bind_evaluator() {
                    Err(error) => {
                        return Err(error);
                    },
                    Ok(()) => {},
                }
            },
            ScalarExpression::Trim { expr, trim_what_expr, .. } => {
                match expr.bind_evaluator() {
                    Err(error) => {
                        return Err(error);
                    },
                    Ok(()) => {},
                }
                if let Some(trim_what_expr) = trim_what_expr {
                    match trim_what_expr.bind_evaluator() {
                        Err(error) => {
                            return Err(error);
                        },
                        Ok(()) => {},
                    }
                }
            },
            ScalarExpression::Empty => {
                proof {
                    assert(false);
                }
            },
            ScalarExpression::Constant(_)
            | ScalarExpression::ColumnRef(_)
            | ScalarExpression::Reference { .. } => (),
            ScalarExpression::ScalaFunction(function) => {
                match Self::bind_all(&mut function.args) {
                    Err(error) => {
                        return Err(error);
                    },
                    Ok(()) => {},
                }
            },
            ScalarExpression::TableFunction(function) => {
                match Self::bind_all(&mut function.args) {
                    Err(error) => {
                        return Err(error);
                    },
                    Ok(()) => {},
                }
            },
            ScalarExpression::If { condition, left_expr, right_expr, .. } => {
                match condition.bind_evaluator() {
                    Err(error) => {
                        return Err(error);
                    },
                    Ok(()) => {},
                }
                match left_expr.bind_evaluator() {
                    Err(error) => {
                        return Err(error);
                    },
                    Ok(()) => {},
                }
                match right_expr.bind_evaluator() {
                    Err(error) => {
                        return Err(error);
                    },
                    Ok(()) => {},
                }
            },
            ScalarExpression::IfNull { left_expr, right_expr, .. } => {
                match left_expr.bind_evaluator() {
                    Err(error) => {
                        return Err(error);
                    },
                    Ok(()) => {},
                }
                match right_expr.bind_evaluator() {
                    Err(error) => {
                        return Err(error);
                    },
                    Ok(()) => {},
                }
            },
            ScalarExpression::NullIf { left_expr, right_expr, .. } => {
                match left_expr.bind_evaluator() {
                    Err(error) => {
                        return Err(error);
                    },
                    Ok(()) => {},
                }
                match right_expr.bind_evaluator() {
                    Err(error) => {
                        return Err(error);
                    },
                    Ok(()) => {},
                }
            },
            ScalarExpression::CaseWhen { operand_expr, expr_pairs, else_expr, .. } => {
                if let Some(expr) = operand_expr {
                    match expr.bind_evaluator() {
                        Err(error) => {
                            return Err(error);
                        },
                        Ok(()) => {},
                    }
                }
                match Self::bind_pairs(expr_pairs) {
                    Err(error) => {
                        proof {
                            old(self).lemma_fails_in_list(
                                error,
                                optional(old(self)->operand_expr).len() as int,
                                interleaved(old(self)->expr_pairs@),
                            );
                        }
                        return Err(error);
                    },
                    Ok(()) => {},
                }
                if let Some(expr) = else_expr {
                    match expr.bind_evaluator() {
                        Err(error) => {
                            return Err(error);
                        },
                        Ok(()) => {},
                    }
                }
            },
            ScalarExpression::Binary { .. } | ScalarExpression::Unary { .. } => {},
        }
        proof {
            self.lemma_children_shape();
        }
        Ok(())
    }

    /// A failure among the children that start at `offset` is a failure of
    /// the node, where the children before `offset` can be bound.
    proof fn lemma_fails_in_list(
        &self,
        error: DatabaseError,
        offset: int,
        args: Seq<ScalarExpression>,
    )
        requires
            !self.is_terminal(),
            0 <= offset,
            offset + args.len() <= self.children().len(),
            forall|i: int| 0 <= i < args.len() ==> self.children()[offset + i] == #[trigger] args[i],
            forall|j: int| 0 <= j < offset ==> (#[trigger] self.children()[j]).bindable(),
            exists|i: int|
                {
                    &&& 0 <= i < args.len()
                    &&& (#[trigger] args[i]).bind_fails_with(error)
                    &&& !args[i].bindable()
                    &&& forall|j: int| 0 <= j < i ==> (#[trigger] args[j]).bindable()
                },
        ensures
            self.bind_fails_with(error),
            !self.bindable(),
    {
        let i = choose|i: int|
            {
                &&& 0 <= i < args.len()
                &&& (#[trigger] args[i]).bind_fails_with(error)
                &&& !args[i].bindable()
                &&& forall|j: int| 0 <= j < i ==> (#[trigger] args[j]).bindable()
            };
        let k = offset + i;
        assert(self.children()[k] == args[i]);
        assert forall|j: int| 0 <= j < k implies (#[trigger] self.children()[j]).bindable() by {
            if j >= offset {
                assert(self.children()[offset + (j - offset)] == args[j - offset]);
            }
        }
        assert(self.children()[k].bind_fails_with(error));
    }

    /// The first expression of the interleaved pairs that fails to bind,
    /// stated by its place in the interleaved list.
    proof fn lemma_pairs_fail(
        pairs: Seq<(ScalarExpression, ScalarExpression)>,
        k: int,
        error: DatabaseError,
    )
        requires
            0 <= k < 2 * pairs.len(),
            forall|j: int|
                0 <= j < k / 2 ==> (#[trigger] pairs[j]).0.bindable() && pairs[j].1.bindable(),
            k % 2 == 1 ==> pairs[k / 2].0.bindable(),
            interleaved(pairs)[k].bind_fails_with(error),
            !interleaved(pairs)[k].bindable(),
        ensures
            exists|i: int|
                {
                    &&& 0 <= i < 2 * pairs.len()
                    &&& (#[trigger] interleaved(pairs)[i]).bind_fails_with(error)
                    &&& !interleaved(pairs)[i].bindable()
                    &&& forall|j: int| 0 <= j < i ==> (#[trigger] interleaved(pairs)[j]).bindable()
                },
    {
        assert forall|j: int| 0 <= j < k implies (#[trigger] interleaved(pairs)[j]).bindable() by {
            let p = j / 2;
            if p < k / 2 {
                assert(pairs[p].0.bindable() && pairs[p].1.bindable());
            }
        }
    }
}

} // verus!
