//! What holds of the walkers on every expression.

use crate::catalog::{ColumnView, SummaryView};
use crate::expression::{AliasType, ScalarExpression};
use crate::reference::{first_match, matched};
use crate::types::LogicalType;
use vstd::prelude::*;

verus! {

impl ScalarExpression {
    /// Whether `sub` is the expression itself or lies in one of its
    /// children.
    pub open spec fn contains(&self, sub: ScalarExpression) -> bool
        decreases self,
    {
        proof {
            self.lemma_parts_decrease();
        }
        *self == sub || exists|i: int|
            0 <= i < self.children().len() && (#[trigger] self.children()[i]).contains(sub)
    }

    /// Whether the rewriter has left nothing to do: every node that it
    /// visits whose output column has a key of the list is a reference to
    /// the first such key.
    pub open spec fn resolved(&self, keys: Seq<SummaryView>) -> bool
        decreases self,
    {
        proof {
            self.lemma_parts_decrease();
        }
        let key = self.spec_output_column().summary;
        if matched(keys, key) {
            self matches ScalarExpression::Reference { pos, .. } && first_match(
                keys,
                key,
                *pos as int,
            )
        } else {
            self.is_terminal() || forall|i: int|
                0 <= i < self.children().len() ==> (#[trigger] self.children()[i]).resolved(keys)
        }
    }

    /// A tree has an aggregate call exactly where one of its nodes is one.
    pub proof fn lemma_agg_call_iff_node(&self)
        ensures
            self.spec_has_agg_call() <==> exists|sub: ScalarExpression|
                #[trigger] self.contains(sub) && sub is AggCall,
        decreases self,
    {
        self.lemma_parts_decrease();
        if self.spec_has_agg_call() {
            if self is AggCall {
                assert(self.contains(*self));
            } else {
                let i = choose|i: int|
                    0 <= i < self.children().len() && (
                    #[trigger] self.children()[i]).spec_has_agg_call();
                self.children()[i].lemma_agg_call_iff_node();
                let sub = choose|sub: ScalarExpression|
                    #[trigger] self.children()[i].contains(sub) && sub is AggCall;
                assert(self.contains(sub));
            }
        }
        if exists|sub: ScalarExpression| #[trigger] self.contains(sub) && sub is AggCall {
            let sub = choose|sub: ScalarExpression| #[trigger] self.contains(sub) && sub is AggCall;
            if *self != sub {
                let i = choose|i: int|
                    0 <= i < self.children().len() && (#[trigger] self.children()[i]).contains(sub);
                self.children()[i].lemma_agg_call_iff_node();
            }
        }
    }

    /// A tree has the call `Count(*)` exactly where one of its nodes is
    /// that call.
    pub proof fn lemma_count_star_iff_node(&self)
        ensures
            self.spec_has_count_star() <==> exists|sub: ScalarExpression|
                #[trigger] self.contains(sub) && sub.is_count_star(),
        decreases self,
    {
        self.lemma_parts_decrease();
        if self.spec_has_count_star() {
            if self.is_count_star() {
                assert(self.contains(*self));
            } else {
                let i = choose|i: int|
                    0 <= i < self.children().len() && (
                    #[trigger] self.children()[i]).spec_has_count_star();
                self.children()[i].lemma_count_star_iff_node();
                let sub = choose|sub: ScalarExpression|
                    #[trigger] self.children()[i].contains(sub) && sub.is_count_star();
                assert(self.contains(sub));
            }
        }
        if exists|sub: ScalarExpression| #[trigger] self.contains(sub) && sub.is_count_star() {
            let sub = choose|sub: ScalarExpression|
                #[trigger] self.contains(sub) && sub.is_count_star();
            if *self != sub {
                let i = choose|i: int|
                    0 <= i < self.children().len() && (#[trigger] self.children()[i]).contains(sub);
                self.children()[i].lemma_count_star_iff_node();
            }
        }
    }

    /// Whether `column` is the column of a column reference in the tree.
    pub open spec fn has_column_leaf(&self, column: ColumnView) -> bool {
        exists|sub: ScalarExpression|
            #[trigger] self.contains(sub) && (sub matches ScalarExpression::ColumnRef(col) && col@
                == column)
    }

    /// The columns of the first `n` children are those of each of them.
    proof fn lemma_child_columns_members(&self, n: nat, column: ColumnView)
        requires
            n <= self.children().len(),
        ensures
            self.child_columns(n, true).contains(column) <==> exists|i: int|
                0 <= i < n && (#[trigger] self.children()[i]).spec_referenced_columns(
                    true,
                ).contains(column),
        decreases n,
    {
        if n > 0 {
            self.lemma_child_columns_members((n - 1) as nat, column);
            let head = self.child_columns((n - 1) as nat, true);
            let last = self.children()[n - 1].spec_referenced_columns(true);
            assert(self.child_columns(n, true) == head + last);
            if (head + last).contains(column) {
                let k = choose|k: int| 0 <= k < (head + last).len() && (head + last)[k] == column;
                if k < head.len() {
                    assert(head[k] == column);
                    assert(head.contains(column));
                } else {
                    assert(last[k - head.len()] == column);
                    assert(last.contains(column));
                }
            }
            if head.contains(column) {
                let k = choose|k: int| 0 <= k < head.len() && head[k] == column;
                assert((head + last)[k] == column);
            }
            if last.contains(column) {
                let k = choose|k: int| 0 <= k < last.len() && last[k] == column;
                assert((head + last)[head.len() + k] == column);
            }
        }
    }

    /// Asked for column references only, the walker lists exactly the
    /// columns of the column references of the tree.
    pub proof fn lemma_referenced_columns_are_leaves(&self, column: ColumnView)
        ensures
            self.spec_referenced_columns(true).contains(column) <==> self.has_column_leaf(column),
        decreases self,
    {
        self.lemma_parts_decrease();
        let n = self.children().len();
        let own = self.own_columns(true);
        let below = self.child_columns(n, true);
        self.lemma_child_columns_members(n, column);
        assert(self.spec_referenced_columns(true) == own + below);
        if (own + below).contains(column) {
            let k = choose|k: int| 0 <= k < (own + below).len() && (own + below)[k] == column;
            if k < own.len() {
                assert(own[k] == column);
                assert(self.contains(*self));
            } else {
                assert(below[k - own.len()] == column);
                assert(below.contains(column));
                let i = choose|i: int|
                    0 <= i < n && (#[trigger] self.children()[i]).spec_referenced_columns(
                        true,
                    ).contains(column);
                self.children()[i].lemma_referenced_columns_are_leaves(column);
                let sub = choose|sub: ScalarExpression|
                    #[trigger] self.children()[i].contains(sub) && (
                    sub matches ScalarExpression::ColumnRef(col) && col@ == column);
                assert(self.contains(sub));
            }
        }
        if self.has_column_leaf(column) {
            let sub = choose|sub: ScalarExpression|
                #[trigger] self.contains(sub) && (sub matches ScalarExpression::ColumnRef(col)
                    && col@ == column);
            if *self == sub {
                assert(own[0] == column);
                assert((own + below)[0] == column);
            } else {
                let i = choose|i: int|
                    0 <= i < n && (#[trigger] self.children()[i]).contains(sub);
                self.children()[i].lemma_referenced_columns_are_leaves(column);
                assert(below.contains(column));
                let k = choose|k: int| 0 <= k < below.len() && below[k] == column;
                assert((own + below)[own.len() + k] == column);
            }
        }
    }

    /// Whether every alias wrapper at the top of the expression is a name
    /// alias.
    pub open spec fn only_name_aliases(&self) -> bool
        decreases self,
    {
        match self {
            ScalarExpression::Alias { alias: AliasType::Name(_), expr } => expr.only_name_aliases(),
            ScalarExpression::Alias { alias: AliasType::Expr(_), .. } => false,
            _ => true,
        }
    }

    /// Unpacking leaves an expression that is no alias as it is.
    pub proof fn lemma_unpack_alias_keeps_plain(&self)
        requires
            !(self is Alias),
        ensures
            self.spec_unpack_alias() == *self,
    {
    }

    /// Unpacking keeps the name of an expression without expression
    /// aliases at its top, unless a name alias there gives it another name
    /// than that of the expression under the aliases.
    pub proof fn lemma_unpack_alias_keeps_name(&self)
        requires
            self.only_name_aliases(),
            self matches ScalarExpression::Alias { alias: AliasType::Name(name), .. } ==> name@
                == self.spec_unpack_alias().spec_output_name(),
        ensures
            self.spec_unpack_alias().spec_output_name() == self.spec_output_name(),
    {
    }

    /// Unpacking strips every alias: what is left is no alias, and
    /// unpacking it again changes nothing.
    pub proof fn lemma_unpack_alias_reaches_core(&self)
        ensures
            !(self.spec_unpack_alias() is Alias),
            self.spec_unpack_alias().spec_unpack_alias() == self.spec_unpack_alias(),
        decreases self,
    {
        match self {
            ScalarExpression::Alias { alias: AliasType::Expr(inner), .. } => {
                inner.lemma_unpack_alias_reaches_core();
            },
            ScalarExpression::Alias { expr, .. } => {
                expr.lemma_unpack_alias_reaches_core();
            },
            _ => {},
        }
    }

    /// The set of the columns that the walker lists, asked for column
    /// references only, is the set of the columns of the column references
    /// of the tree.
    pub proof fn lemma_referenced_columns_set(&self)
        ensures
            self.spec_referenced_columns(true).to_set() == Set::new(
                |column: ColumnView| self.has_column_leaf(column),
            ),
    {
        assert forall|column: ColumnView|
            self.spec_referenced_columns(true).to_set().contains(column) == Set::new(
                |column: ColumnView| self.has_column_leaf(column),
            ).contains(column) by {
            self.lemma_referenced_columns_are_leaves(column);
        }
        assert(self.spec_referenced_columns(true).to_set() =~= Set::new(
            |column: ColumnView| self.has_column_leaf(column),
        ));
    }

    /// Nodes of one shell with as many children render alike.
    proof fn lemma_render_by_shell(
        &self,
        other: &ScalarExpression,
        names: Seq<Seq<char>>,
        label: Seq<char>,
    )
        requires
            self.same_shell(other),
            other.children().len() == self.children().len(),
        ensures
            other.render(names, label) == self.render(names, label),
    {
        match self {
            ScalarExpression::CaseWhen { .. } => {
                self.lemma_children_shape();
                other.lemma_children_shape();
            },
            _ => {},
        }
    }

    /// Rewriting changes no name: a reference has the name of what it
    /// carries.
    pub proof fn lemma_reference_keeps_name(&self, after: &ScalarExpression, keys: Seq<SummaryView>)
        requires
            self.references_to(after, keys),
        ensures
            after.spec_output_name() == self.spec_output_name(),
        decreases self,
    {
        self.lemma_parts_decrease();
        let key = self.spec_output_column().summary;
        if matched(keys, key) {
            assert(after.children()[0] == *self);
            assert(after.child_names()[0] == self.spec_output_name());
        } else if self.is_terminal() {
        } else {
            assert forall|i: int| 0 <= i < self.children().len() implies (
            #[trigger] after.children()[i]).spec_output_name()
                == self.children()[i].spec_output_name() by {
                self.children()[i].lemma_reference_keeps_name(&after.children()[i], keys);
            }
            assert(after.child_names() =~= self.child_names());
            assert(after.label() == self.label());
            let label = match self.label() {
                Some(inner) => inner.spec_output_name(),
                None => Seq::empty(),
            };
            self.lemma_render_by_shell(after, self.child_names(), label);
        }
    }

    /// Rewriting changes the identity of no output column.
    pub proof fn lemma_reference_keeps_key(&self, after: &ScalarExpression, keys: Seq<SummaryView>)
        requires
            self.references_to(after, keys),
        ensures
            after.spec_output_column().summary == self.spec_output_column().summary,
    {
        self.lemma_reference_keeps_name(after, keys);
    }

    /// After rewriting nothing is left to do: every node that the rewriter
    /// visits whose output column has the identity of the output column of
    /// one of the outputs is a reference to the first such output.
    pub proof fn lemma_reference_resolves(&self, after: &ScalarExpression, keys: Seq<SummaryView>)
        requires
            self.references_to(after, keys),
        ensures
            after.resolved(keys),
        decreases self,
    {
        self.lemma_parts_decrease();
        self.lemma_reference_keeps_key(after, keys);
        let key = self.spec_output_column().summary;
        if matched(keys, key) {
        } else if self.is_terminal() {
        } else {
            assert forall|i: int| 0 <= i < after.children().len() implies (
            #[trigger] after.children()[i]).resolved(keys) by {
                self.children()[i].lemma_reference_resolves(&after.children()[i], keys);
            }
        }
    }

    /// Whether every operator node that the binder visits is bound: it has
    /// an evaluator for its operator, its operands have the type of that
    /// evaluator, and the operand of a unary node is not unsigned.
    pub open spec fn is_bound(&self) -> bool
        decreases self,
    {
        proof {
            self.lemma_parts_decrease();
        }
        &&& self.is_terminal() || forall|i: int|
            0 <= i < self.children().len() ==> (#[trigger] self.children()[i]).is_bound()
        &&& match self {
            ScalarExpression::Binary { op, left_expr, right_expr, evaluator, .. } => {
                &&& evaluator matches Some(found)
                &&& found.op == *op
                &&& left_expr.spec_return_type() == found.ty
                &&& right_expr.spec_return_type() == found.ty
            },
            ScalarExpression::Unary { op, expr, evaluator, .. } => {
                &&& evaluator matches Some(found)
                &&& found.op == *op
                &&& expr.spec_return_type() == found.ty
                &&& !expr.spec_return_type().spec_is_unsigned_numeric()
            },
            _ => true,
        }
    }

    /// Whether two trees are equal node by node: the same shells, and the
    /// labels and the children equal in the same way.
    pub open spec fn same_tree(&self, other: &ScalarExpression) -> bool
        decreases self,
    {
        proof {
            self.lemma_parts_decrease();
        }
        &&& self.same_shell(other)
        &&& match self.label() {
            Some(inner) => other.label() matches Some(inner2) && inner.same_tree(&inner2),
            None => other.label() is None,
        }
        &&& other.children().len() == self.children().len()
        &&& forall|i: int|
            0 <= i < self.children().len() ==> (#[trigger] self.children()[i]).same_tree(
                &other.children()[i],
            )
    }

    /// An operand brought to a type has that type, and is bound.
    proof fn lemma_cast_operand_bound(&self, after: &ScalarExpression, target: LogicalType)
        requires
            self.binds_under_cast(after, target),
            forall|inner: ScalarExpression| #[trigger] self.binds_to(&inner) ==> inner.is_bound(),
        ensures
            after.spec_return_type() == target,
            after.is_bound(),
    {
        if self.spec_return_type() == target {
            self.lemma_bind_keeps_type(after);
        } else {
            let inner = after.children()[0];
            assert(self.binds_to(&inner));
            assert(after.children() =~= seq![inner]);
        }
    }

    /// After binding, every binary node that the binder visits has both
    /// operands of the type of its evaluator, and every unary node has an
    /// operand that is not unsigned.
    pub proof fn lemma_bind_binds(&self, after: &ScalarExpression)
        requires
            self.binds_to(after),
        ensures
            after.is_bound(),
        decreases self,
    {
        self.lemma_parts_decrease();
        match self {
            ScalarExpression::Binary { left_expr, right_expr, .. } => {
                let t = after->Binary_evaluator->Some_0.ty;
                assert forall|inner: ScalarExpression| #[trigger]
                    left_expr.binds_to(&inner) implies inner.is_bound() by {
                    left_expr.lemma_bind_binds(&inner);
                }
                assert forall|inner: ScalarExpression| #[trigger]
                    right_expr.binds_to(&inner) implies inner.is_bound() by {
                    right_expr.lemma_bind_binds(&inner);
                }
                left_expr.lemma_cast_operand_bound(&after.children()[0], t);
                right_expr.lemma_cast_operand_bound(&after.children()[1], t);
            },
            ScalarExpression::Unary { expr, .. } => {
                let t = after->Unary_evaluator->Some_0.ty;
                assert forall|inner: ScalarExpression| #[trigger]
                    expr.binds_to(&inner) implies inner.is_bound() by {
                    expr.lemma_bind_binds(&inner);
                }
                expr.lemma_cast_operand_bound(&after.children()[0], t);
            },
            _ => {
                if !self.is_terminal() {
                    assert forall|i: int| 0 <= i < after.children().len() implies (
                    #[trigger] after.children()[i]).is_bound() by {
                        self.children()[i].lemma_bind_binds(&after.children()[i]);
                    }
                }
            },
        }
    }

    /// Every tree is equal to itself node by node.
    pub proof fn lemma_same_tree_reflexive(&self)
        ensures
            self.same_tree(self),
        decreases self,
    {
        self.lemma_parts_decrease();
        assert forall|i: int| 0 <= i < self.children().len() implies (
        #[trigger] self.children()[i]).same_tree(&self.children()[i]) by {
            self.children()[i].lemma_same_tree_reflexive();
        }
        if let Some(inner) = self.label() {
            inner.lemma_same_tree_reflexive();
        }
    }

    /// A bound operand, under its cast, is its own bound form.
    proof fn lemma_cast_operand_fixpoint(&self, after: &ScalarExpression, target: LogicalType)
        requires
            self.binds_under_cast(after, target),
            forall|inner: ScalarExpression| #[trigger]
                self.binds_to(&inner) ==> inner.binds_to(&inner) && inner.bindable()
                    && (self.bind_ready() ==> inner.bind_ready()),
        ensures
            after.spec_return_type() == target,
            after.binds_under_cast(after, target),
            after.binds_to(after),
            after.bindable(),
            self.bind_ready() ==> after.bind_ready(),
            self.has_type() ==> after.has_type(),
    {
        if self.spec_return_type() == target {
            self.lemma_bind_keeps_type(after);
        } else {
            let inner = after.children()[0];
            assert(self.binds_to(&inner));
            assert(after.children() =~= seq![inner]);
        }
    }

    /// A bound tree is its own bound form, and binding it again succeeds.
    pub proof fn lemma_bind_fixpoint(&self, after: &ScalarExpression)
        requires
            self.bindable(),
            self.binds_to(after),
        ensures
            after.binds_to(after),
            after.bindable(),
            self.bind_ready() ==> after.bind_ready(),
        decreases self,
    {
        self.lemma_parts_decrease();
        match self {
            ScalarExpression::Binary { left_expr, right_expr, .. } => {
                let t = after->Binary_evaluator->Some_0.ty;
                assert(self.children()[0] == **left_expr);
                assert(self.children()[1] == **right_expr);
                assert forall|inner: ScalarExpression| #[trigger]
                    left_expr.binds_to(&inner) implies inner.binds_to(&inner) && inner.bindable()
                    && (left_expr.bind_ready() ==> inner.bind_ready()) by {
                    left_expr.lemma_bind_fixpoint(&inner);
                }
                assert forall|inner: ScalarExpression| #[trigger]
                    right_expr.binds_to(&inner) implies inner.binds_to(&inner) && inner.bindable()
                    && (right_expr.bind_ready() ==> inner.bind_ready()) by {
                    right_expr.lemma_bind_fixpoint(&inner);
                }
                left_expr.lemma_cast_operand_fixpoint(&after.children()[0], t);
                right_expr.lemma_cast_operand_fixpoint(&after.children()[1], t);
            },
            ScalarExpression::Unary { expr, .. } => {
                let t = after->Unary_evaluator->Some_0.ty;
                assert(self.children()[0] == **expr);
                assert forall|inner: ScalarExpression| #[trigger]
                    expr.binds_to(&inner) implies inner.binds_to(&inner) && inner.bindable() && (
                    expr.bind_ready() ==> inner.bind_ready()) by {
                    expr.lemma_bind_fixpoint(&inner);
                }
                expr.lemma_cast_operand_fixpoint(&after.children()[0], t);
            },
            _ => {
                if !self.is_terminal() {
                    assert forall|i: int| 0 <= i < after.children().len() implies {
                        &&& (#[trigger] after.children()[i]).binds_to(&after.children()[i])
                        &&& after.children()[i].bindable()
                        &&& self.children()[i].bind_ready() ==> after.children()[i].bind_ready()
                    } by {
                        self.children()[i].lemma_bind_fixpoint(&after.children()[i]);
                    }
                }
            },
        }
    }

    /// Two bound forms of one operand under one cast are equal node by
    /// node.
    proof fn lemma_cast_operand_functional(
        &self,
        first: &ScalarExpression,
        second: &ScalarExpression,
        target: LogicalType,
    )
        requires
            self.binds_under_cast(first, target),
            self.binds_under_cast(second, target),
            forall|x: ScalarExpression, y: ScalarExpression|
                self.binds_to(&x) && self.binds_to(&y) ==> #[trigger] x.same_tree(&y),
        ensures
            first.same_tree(second),
    {
        if self.spec_return_type() == target {
        } else {
            let x = first.children()[0];
            let y = second.children()[0];
            assert(self.binds_to(&x) && self.binds_to(&y));
            assert(x.same_tree(&y));
            assert(first.children() =~= seq![x]);
            assert(second.children() =~= seq![y]);
        }
    }

    /// Binding is a function: two bound forms of one tree are equal node by
    /// node.
    pub proof fn lemma_bind_functional(&self, first: &ScalarExpression, second: &ScalarExpression)
        requires
            self.binds_to(first),
            self.binds_to(second),
        ensures
            first.same_tree(second),
        decreases self,
    {
        self.lemma_parts_decrease();
        match self {
            ScalarExpression::Binary { left_expr, right_expr, .. } => {
                let t = first->Binary_evaluator->Some_0.ty;
                assert forall|x: ScalarExpression, y: ScalarExpression|
                    left_expr.binds_to(&x) && left_expr.binds_to(&y) implies #[trigger] x.same_tree(
                    &y,
                ) by {
                    left_expr.lemma_bind_functional(&x, &y);
                }
                assert forall|x: ScalarExpression, y: ScalarExpression|
                    right_expr.binds_to(&x) && right_expr.binds_to(
                        &y,
                    ) implies #[trigger] x.same_tree(&y) by {
                    right_expr.lemma_bind_functional(&x, &y);
                }
                left_expr.lemma_cast_operand_functional(
                    &first.children()[0],
                    &second.children()[0],
                    t,
                );
                right_expr.lemma_cast_operand_functional(
                    &first.children()[1],
                    &second.children()[1],
                    t,
                );
            },
            ScalarExpression::Unary { expr, .. } => {
                let t = first->Unary_evaluator->Some_0.ty;
                assert forall|x: ScalarExpression, y: ScalarExpression|
                    expr.binds_to(&x) && expr.binds_to(&y) implies #[trigger] x.same_tree(&y) by {
                    expr.lemma_bind_functional(&x, &y);
                }
                expr.lemma_cast_operand_functional(&first.children()[0], &second.children()[0], t);
            },
            _ => {
                if self.is_terminal() {
                    first.lemma_same_tree_reflexive();
                } else {
                    if let Some(inner) = self.label() {
                        inner.lemma_same_tree_reflexive();
                    }
                    assert forall|i: int| 0 <= i < first.children().len() implies (
                    #[trigger] first.children()[i]).same_tree(&second.children()[i]) by {
                        self.children()[i].lemma_bind_functional(
                            &first.children()[i],
                            &second.children()[i],
                        );
                    }
                }
            },
        }
    }

    /// Binding is idempotent: where a tree binds to `once`, binding `once`
    /// again is allowed, succeeds, and gives a tree equal to `once` node by
    /// node.
    pub proof fn lemma_bind_idempotent(&self, once: &ScalarExpression, twice: &ScalarExpression)
        requires
            self.bind_ready(),
            self.bindable(),
            self.binds_to(once),
            once.binds_to(twice),
        ensures
            once.bind_ready(),
            once.bindable(),
            twice.same_tree(once),
    {
        self.lemma_bind_fixpoint(once);
        once.lemma_bind_functional(twice, once);
    }

    /// Rewriting leaves no placeholder behind: a complete tree stays
    /// complete, a scalar tree scalar.
    pub proof fn lemma_reference_keeps_whole(
        &self,
        after: &ScalarExpression,
        keys: Seq<SummaryView>,
    )
        requires
            self.references_to(after, keys),
        ensures
            self.complete() ==> after.complete(),
            self.is_scalar() ==> after.is_scalar(),
        decreases self,
    {
        self.lemma_parts_decrease();
        let key = self.spec_output_column().summary;
        if matched(keys, key) {
            assert(after.children() =~= seq![*self]);
        } else if self.is_terminal() {
        } else {
            assert forall|i: int| 0 <= i < after.children().len() implies {
                &&& self.children()[i].complete() ==> (#[trigger] after.children()[i]).complete()
                &&& self.children()[i].is_scalar() ==> after.children()[i].is_scalar()
            } by {
                self.children()[i].lemma_reference_keeps_whole(&after.children()[i], keys);
            }
        }
    }

    /// An operand brought to a type is as whole as it was.
    proof fn lemma_cast_operand_whole(&self, after: &ScalarExpression, target: LogicalType)
        requires
            self.binds_under_cast(after, target),
            forall|inner: ScalarExpression| #[trigger]
                self.binds_to(&inner) ==> (self.complete() ==> inner.complete()) && (
                self.is_scalar() ==> inner.is_scalar()),
        ensures
            self.complete() ==> after.complete(),
            self.is_scalar() ==> after.is_scalar(),
    {
        if self.spec_return_type() == target {
            let bound = *after;
            assert(self.binds_to(&bound));
        } else {
            let inner = after.children()[0];
            assert(self.binds_to(&inner));
            assert(after.children() =~= seq![inner]);
            if self.complete() {
                assert forall|i: int| 0 <= i < after.children().len() implies (
                #[trigger] after.children()[i]).complete() by {}
            }
            if self.is_scalar() {
                assert forall|i: int| 0 <= i < after.children().len() implies (
                #[trigger] after.children()[i]).is_scalar() by {}
            }
        }
    }

    /// Binding leaves no placeholder behind: a complete tree stays
    /// complete, a scalar tree scalar.
    pub proof fn lemma_bind_keeps_whole(&self, after: &ScalarExpression)
        requires
            self.binds_to(after),
        ensures
            self.complete() ==> after.complete(),
            self.is_scalar() ==> after.is_scalar(),
        decreases self,
    {
        self.lemma_parts_decrease();
        match self {
            ScalarExpression::Binary { left_expr, right_expr, .. } => {
                let t = after->Binary_evaluator->Some_0.ty;
                assert(self.children()[0] == **left_expr);
                assert(self.children()[1] == **right_expr);
                assert forall|inner: ScalarExpression| #[trigger]
                    left_expr.binds_to(&inner) implies (left_expr.complete() ==> inner.complete())
                    && (left_expr.is_scalar() ==> inner.is_scalar()) by {
                    left_expr.lemma_bind_keeps_whole(&inner);
                }
                assert forall|inner: ScalarExpression| #[trigger]
                    right_expr.binds_to(&inner) implies (right_expr.complete() ==> inner.complete())
                    && (right_expr.is_scalar() ==> inner.is_scalar()) by {
                    right_expr.lemma_bind_keeps_whole(&inner);
                }
                left_expr.lemma_cast_operand_whole(&after.children()[0], t);
                right_expr.lemma_cast_operand_whole(&after.children()[1], t);
            },
            ScalarExpression::Unary { expr, .. } => {
                let t = after->Unary_evaluator->Some_0.ty;
                assert(self.children()[0] == **expr);
                assert forall|inner: ScalarExpression| #[trigger]
                    expr.binds_to(&inner) implies (expr.complete() ==> inner.complete()) && (
                    expr.is_scalar() ==> inner.is_scalar()) by {
                    expr.lemma_bind_keeps_whole(&inner);
                }
                expr.lemma_cast_operand_whole(&after.children()[0], t);
            },
            _ => {
                if !self.is_terminal() {
                    assert forall|i: int| 0 <= i < after.children().len() implies {
                        &&& self.children()[i].complete() ==> (
                        #[trigger] after.children()[i]).complete()
                        &&& self.children()[i].is_scalar() ==> after.children()[i].is_scalar()
                    } by {
                        self.children()[i].lemma_bind_keeps_whole(&after.children()[i]);
                    }
                }
            },
        }
    }
}

} // verus!
