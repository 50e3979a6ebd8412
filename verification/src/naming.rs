//! Canonical names and columns: the text that renders an expression, the
//! column that stands for it, and the columns that it refers to.

use crate::catalog::{share, ColumnCatalog, ColumnDesc, ColumnRef, ColumnView};
use crate::expression::{optional, AliasType, ScalarExpression, TrimWhereField};
use crate::text::{join, spec_join};
use std::sync::Arc;
use vstd::prelude::*;

verus! {

/// The text in front of the trimmed expression: which side is stripped, if
/// one is named, and of what.
pub open spec fn spec_trim_prefix(trim_where: Option<TrimWhereField>, what: Seq<char>) -> Seq<
    char,
> {
    match trim_where {
        Some(TrimWhereField::Both) => "both '"@ + what + "' from"@,
        Some(TrimWhereField::Leading) => "leading '"@ + what + "' from"@,
        Some(TrimWhereField::Trailing) => "trailing '"@ + what + "' from"@,
        None => if what.len() == 0 {
            Seq::empty()
        } else {
            "'"@ + what + "' from"@
        },
    }
}

/// One `when .. then ..` clause for each of `count` pairs of names that
/// start at `from`.
pub open spec fn spec_when_clauses(names: Seq<Seq<char>>, from: int, count: nat) -> Seq<
    Seq<char>,
> {
    Seq::new(
        count,
        |i: int| "when "@ + names[from + 2 * i] + " then "@ + names[from + 2 * i + 1],
    )
}

/// The views of the columns behind a list of handles.
pub open spec fn column_views(columns: Seq<ColumnRef>) -> Seq<ColumnView> {
    Seq::new(columns.len(), |i: int| columns[i]@)
}

impl ScalarExpression {
    /// The text of a node, given the names of its children and of its
    /// label.
    pub open spec fn render(&self, names: Seq<Seq<char>>, label: Seq<char>) -> Seq<char> {
        match self {
            ScalarExpression::Constant(value) => value.spec_text(),
            ScalarExpression::ColumnRef(col) => col@.summary.full_name(),
            ScalarExpression::Alias { alias, .. } => match alias {
                AliasType::Name(name) => name@,
                AliasType::Expr(_) => "("@ + names[0] + ") as ("@ + label + ")"@,
            },
            ScalarExpression::TypeCast { ty, .. } => "cast ("@ + names[0] + " as "@
                + ty.spec_name() + ")"@,
            ScalarExpression::IsNull { negated, .. } => names[0] + " "@ + (if *negated {
                "is not null"@
            } else {
                "is null"@
            }),
            ScalarExpression::Unary { op, .. } => op.spec_text() + names[0],
            ScalarExpression::Binary { op, .. } => "("@ + names[0] + " "@ + op.spec_text() + " "@
                + names[1] + ")"@,
            ScalarExpression::AggCall { kind, distinct, .. } => kind.spec_name() + "("@ + (if kind.spec_allow_distinct()
                && *distinct {
                "distinct "@
            } else {
                Seq::empty()
            }) + spec_join(names, ", "@) + ")"@,
            ScalarExpression::In { negated, .. } => names[0] + " "@ + (if *negated {
                "not in"@
            } else {
                "in"@
            }) + " ("@ + spec_join(names.skip(1), ", "@) + ")"@,
            ScalarExpression::Between { negated, .. } => names[0] + " "@ + (if *negated {
                "not between"@
            } else {
                "between"@
            }) + " ["@ + names[1] + ", "@ + names[2] + "]"@,
            ScalarExpression::SubString { for_expr, from_expr, .. } => "substring("@ + names[0]
                + (if from_expr is Some {
                ", from: "@ + names[1 + optional(*for_expr).len() as int]
            } else {
                Seq::empty()
            }) + (if for_expr is Some {
                ", for: "@ + names[1]
            } else {
                Seq::empty()
            }) + ")"@,
            ScalarExpression::Position { .. } => "position("@ + names[0] + " in "@ + names[1]
                + ")"@,
            ScalarExpression::Trim { trim_what_expr, trim_where, .. } => "trim("@
                + spec_trim_prefix(
                *trim_where,
                if trim_what_expr is Some {
                    names[1]
                } else {
                    " "@
                },
            ) + " "@ + names[0] + ")"@,
            ScalarExpression::Reference { .. } => names[0],
            ScalarExpression::Empty => Seq::empty(),
            ScalarExpression::Tuple(_) => "("@ + spec_join(names, ", "@) + ")"@,
            ScalarExpression::ScalaFunction(function) => function.inner.summary.name@ + "("@
                + spec_join(names, ", "@) + ")"@,
            ScalarExpression::TableFunction(function) => function.inner.summary.name@ + "("@
                + spec_join(names, ", "@) + ")"@,
            ScalarExpression::If { .. } => "if "@ + names[0] + " ("@ + names[1] + ", "@ + names[2]
                + ")"@,
            ScalarExpression::IfNull { .. } => "ifnull("@ + names[0] + ", "@ + names[1] + ")"@,
            ScalarExpression::NullIf { .. } => "nullif("@ + names[0] + ", "@ + names[1] + ")"@,
            ScalarExpression::Coalesce { .. } => "coalesce("@ + spec_join(names, ", "@) + ")"@,
            ScalarExpression::CaseWhen { operand_expr, expr_pairs, else_expr, .. } => {
                let n = optional(*operand_expr).len();
                let m = expr_pairs@.len();
                "case "@ + (if operand_expr is Some {
                    names[0] + " "@
                } else {
                    Seq::empty()
                }) + spec_join(spec_when_clauses(names, n as int, m), " "@) + " "@
                    + (if else_expr is Some {
                    "else "@ + names[(n + 2 * m) as int] + " "@
                } else {
                    Seq::empty()
                }) + "end"@
            },
        }
    }

    /// The names of the children, in their order.
    pub open spec fn child_names(&self) -> Seq<Seq<char>>
        decreases self, 0nat,
    {
        proof {
            self.lemma_parts_decrease();
        }
        Seq::new(
            self.children().len(),
            |i: int|
                if 0 <= i < self.children().len() {
                    self.children()[i].spec_output_name()
                } else {
                    Seq::empty()
                },
        )
    }

    /// The canonical name of the expression: its node rendered around the
    /// names of its children. A reference has the name of what it refers
    /// to, a name alias has its name.
    pub open spec fn spec_output_name(&self) -> Seq<char>
        decreases self, 1nat,
    {
        proof {
            self.lemma_parts_decrease();
        }
        self.render(
            self.child_names(),
            match self.label() {
                Some(inner) => inner.spec_output_name(),
                None => Seq::empty(),
            },
        )
    }

    /// Whether the expression has an output column: a column reference is
    /// its own, an expression alias and a reference have that of the
    /// expression they carry, and every other expression needs a name and a
    /// type.
    pub open spec fn column_defined(&self) -> bool
        decreases self,
    {
        match self {
            ScalarExpression::ColumnRef(_) => true,
            ScalarExpression::Alias { alias: AliasType::Expr(inner), .. } => inner.column_defined(),
            ScalarExpression::Reference { expr, .. } => expr.column_defined(),
            _ => self.complete() && self.has_type(),
        }
    }

    /// The column that stands for the expression upstream.
    pub open spec fn spec_output_column(&self) -> ColumnView
        decreases self,
    {
        match self {
            ScalarExpression::ColumnRef(col) => col@,
            ScalarExpression::Alias { alias: AliasType::Expr(inner), .. } =>
                inner.spec_output_column(),
            ScalarExpression::Reference { expr, .. } => expr.spec_output_column(),
            _ => ColumnView::synthetic(self.spec_output_name(), self.spec_return_type()),
        }
    }

    /// What a node itself adds to the referenced columns: its output column
    /// unless only column references are asked for, then the column of a
    /// column reference.
    pub open spec fn own_columns(&self, only_column_ref: bool) -> Seq<ColumnView> {
        (if only_column_ref {
            Seq::empty()
        } else {
            seq![self.spec_output_column()]
        }) + (match self {
            ScalarExpression::ColumnRef(col) => seq![col@],
            _ => Seq::empty(),
        })
    }

    /// The referenced columns of the first `n` children, in order.
    pub open spec fn child_columns(&self, n: nat, only_column_ref: bool) -> Seq<ColumnView>
        decreases self, n,
    {
        proof {
            self.lemma_parts_decrease();
        }
        if n == 0 || n > self.children().len() {
            Seq::empty()
        } else {
            self.child_columns((n - 1) as nat, only_column_ref) + self.children()[n
                - 1].spec_referenced_columns(only_column_ref)
        }
    }

    /// The columns that the tree refers to, in pre-order and with
    /// repetitions: what the node adds, then the columns of each child.
    pub open spec fn spec_referenced_columns(&self, only_column_ref: bool) -> Seq<ColumnView>
        decreases self, self.children().len() + 1,
    {
        self.own_columns(only_column_ref) + self.child_columns(
            self.children().len(),
            only_column_ref,
        )
    }

    /// The names of a list of expressions.
    fn output_names(args: &Vec<ScalarExpression>) -> (r: Vec<String>)
        requires
            forall|i: int| 0 <= i < args@.len() ==> (#[trigger] args@[i]).complete(),
        ensures
            r@.len() == args@.len(),
            forall|i: int| 0 <= i < args@.len() ==> (#[trigger] r@[i])@ == args@[i].spec_output_name(),
        decreases args,
    {
        let mut names: Vec<String> = Vec::new();
        let mut i: usize = 0;
        while i < args.len()
            invariant
                i <= args@.len(),
                names@.len() == i,
                forall|j: int| 0 <= j < args@.len() ==> (#[trigger] args@[j]).complete(),
                forall|j: int| 0 <= j < i ==> (#[trigger] names@[j])@ == args@[j].spec_output_name(),
            decreases args@.len() - i,
        {
            names.push(args[i].output_name());
            i = i + 1;
        }
        names
    }

    /// One `when .. then ..` clause for each pair.
    fn when_clauses(pairs: &Vec<(ScalarExpression, ScalarExpression)>) -> (r: Vec<String>)
        requires
            forall|i: int|
                0 <= i < pairs@.len() ==> (#[trigger] pairs@[i]).0.complete()
                    && pairs@[i].1.complete(),
        ensures
            r@.len() == pairs@.len(),
            forall|i: int|
                0 <= i < pairs@.len() ==> (#[trigger] r@[i])@ == "when "@
                    + pairs@[i].0.spec_output_name() + " then "@ + pairs@[i].1.spec_output_name(),
        decreases pairs,
    {
        let mut clauses: Vec<String> = Vec::new();
        let mut i: usize = 0;
        while i < pairs.len()
            invariant
                i <= pairs@.len(),
                clauses@.len() == i,
                forall|j: int|
                    0 <= j < pairs@.len() ==> (#[trigger] pairs@[j]).0.complete()
                        && pairs@[j].1.complete(),
                forall|j: int|
                    0 <= j < i ==> (#[trigger] clauses@[j])@ == "when "@
                        + pairs@[j].0.spec_output_name() + " then "@
                        + pairs@[j].1.spec_output_name(),
            decreases pairs@.len() - i,
        {
            let mut clause = String::from_str("when ");
            clause.append(pairs[i].0.output_name().as_str());
            clause.append(" then ");
            clause.append(pairs[i].1.output_name().as_str());
            clauses.push(clause);
            i = i + 1;
        }
        clauses
    }

    /// The text in front of the trimmed expression.
    fn trim_prefix(trim_where: &Option<TrimWhereField>, what: &str) -> (r: String)
        ensures
            r@ == spec_trim_prefix(*trim_where, what@),
    {
        let mut s = String::new();
        match trim_where {
            Some(TrimWhereField::Both) => {
                s.append("both '");
                s.append(what);
                s.append("' from");
                assert(s@ =~= "both '"@ + what@ + "' from"@);
            },
            Some(TrimWhereField::Leading) => {
                s.append("leading '");
                s.append(what);
                s.append("' from");
                assert(s@ =~= "leading '"@ + what@ + "' from"@);
            },
            Some(TrimWhereField::Trailing) => {
                s.append("trailing '");
                s.append(what);
                s.append("' from");
                assert(s@ =~= "trailing '"@ + what@ + "' from"@);
            },
            None => {
                if !what.is_empty() {
                    s.append("'");
                    s.append(what);
                    s.append("' from");
                    assert(s@ =~= "'"@ + what@ + "' from"@);
                }
            },
        }
        s
    }

    /// The canonical name of the expression.
    pub fn output_name(&self) -> (r: String)
        requires
            self.complete(),
        ensures
            r@ == self.spec_output_name(),
        decreases self,
    {
        proof {
            self.lemma_children_shape();
        }
        let ghost names = self.child_names();
        match self {
            ScalarExpression::Constant(value) => value.to_string(),
            ScalarExpression::ColumnRef(col) => col.full_name(),
            ScalarExpression::Alias { alias, expr } => match alias {
                AliasType::Name(alias) => alias.clone(),
                AliasType::Expr(alias_expr) => {
                    let mut s = String::from_str("(");
                    s.append(expr.output_name().as_str());
                    s.append(") as (");
                    s.append(alias_expr.output_name().as_str());
                    s.append(")");
                    s
                },
            },
            ScalarExpression::TypeCast { expr, ty } => {
                let mut s = String::from_str("cast (");
                s.append(expr.output_name().as_str());
                s.append(" as ");
                s.append(ty.to_string().as_str());
                s.append(")");
                s
            },
            ScalarExpression::IsNull { expr, negated } => {
                let suffix = if *negated {
                    "is not null"
                } else {
                    "is null"
                };
                let mut s = expr.output_name();
                s.append(" ");
                s.append(suffix);
                s
            },
            ScalarExpression::Unary { expr, op, .. } => {
                let mut s = op.to_string();
                s.append(expr.output_name().as_str());
                s
            },
            ScalarExpression::Binary { left_expr, right_expr, op, .. } => {
                let mut s = String::from_str("(");
                s.append(left_expr.output_name().as_str());
                s.append(" ");
                s.append(op.to_string().as_str());
                s.append(" ");
                s.append(right_expr.output_name().as_str());
                s.append(")");
                s
            },
            ScalarExpression::AggCall { args, kind, distinct, .. } => {
                let arg_names = Self::output_names(args);
                let args_str = join(&arg_names, ", ");
                proof {
                    assert(arg_names.deep_view() =~= names);
                }
                let mut s = kind.to_string();
                s.append("(");
                if kind.allow_distinct() && *distinct {
                    s.append("distinct ");
                } else {
                    assert(s@ + Seq::<char>::empty() =~= s@);
                }
                s.append(args_str.as_str());
                s.append(")");
                s
            },
            ScalarExpression::In { args, negated, expr } => {
                let arg_names = Self::output_names(args);
                let args_string = join(&arg_names, ", ");
                proof {
                    assert(arg_names.deep_view() =~= names.skip(1));
                }
                let op_string = if *negated {
                    "not in"
                } else {
                    "in"
                };
                let mut s = expr.output_name();
                s.append(" ");
                s.append(op_string);
                s.append(" (");
                s.append(args_string.as_str());
                s.append(")");
                s
            },
            ScalarExpression::Between { expr, left_expr, right_expr, negated } => {
                let op_string = if *negated {
                    "not between"
                } else {
                    "between"
                };
                let mut s = expr.output_name();
                s.append(" ");
                s.append(op_string);
                s.append(" [");
                s.append(left_expr.output_name().as_str());
                s.append(", ");
                s.append(right_expr.output_name().as_str());
                s.append("]");
                s
            },
            ScalarExpression::SubString { expr, for_expr, from_expr } => {
                let mut s = String::from_str("substring(");
                s.append(expr.output_name().as_str());
                let mut from_part = String::new();
                if let Some(from_expr) = from_expr {
                    from_part.append(", from: ");
                    from_part.append(from_expr.output_name().as_str());
                    assert(from_part@ =~= ", from: "@ + from_expr.spec_output_name());
                }
                s.append(from_part.as_str());
                let mut for_part = String::new();
                if let Some(for_expr) = for_expr {
                    for_part.append(", for: ");
                    for_part.append(for_expr.output_name().as_str());
                    assert(for_part@ =~= ", for: "@ + for_expr.spec_output_name());
                }
                s.append(for_part.as_str());
                s.append(")");
                s
            },
            ScalarExpression::Position { expr, in_expr } => {
                let mut s = String::from_str("position(");
                s.append(expr.output_name().as_str());
                s.append(" in ");
                s.append(in_expr.output_name().as_str());
                s.append(")");
                s
            },
            ScalarExpression::Trim { expr, trim_what_expr, trim_where } => {
                let trim_what_str = match trim_what_expr {
                    Some(what) => what.output_name(),
                    None => String::from_str(" "),
                };
                let trim_where_str = Self::trim_prefix(trim_where, trim_what_str.as_str());
                let mut s = String::from_str("trim(");
                s.append(trim_where_str.as_str());
                s.append(" ");
                s.append(expr.output_name().as_str());
                s.append(")");
                s
            },
            ScalarExpression::Reference { expr, .. } => expr.output_name(),
            ScalarExpression::Empty => {
                proof {
                    assert(false);
                }
                String::new()
            },
            ScalarExpression::Tuple(args) => {
                let arg_names = Self::output_names(args);
                let args_str = join(&arg_names, ", ");
                proof {
                    assert(arg_names.deep_view() =~= names);
                }
                let mut s = String::from_str("(");
                s.append(args_str.as_str());
                s.append(")");
                s
            },
            ScalarExpression::ScalaFunction(function) => {
                let arg_names = Self::output_names(&function.args);
                let args_str = join(&arg_names, ", ");
                proof {
                    assert(arg_names.deep_view() =~= names);
                }
                let mut s = function.inner.summary.name.clone();
                s.append("(");
                s.append(args_str.as_str());
                s.append(")");
                s
            },
            ScalarExpression::TableFunction(function) => {
                let arg_names = Self::output_names(&function.args);
                let args_str = join(&arg_names, ", ");
                proof {
                    assert(arg_names.deep_view() =~= names);
                }
                let mut s = function.inner.summary.name.clone();
                s.append("(");
                s.append(args_str.as_str());
                s.append(")");
                s
            },
            ScalarExpression::If { condition, left_expr, right_expr, .. } => {
                let mut s = String::from_str("if ");
                s.append(condition.output_name().as_str());
                s.append(" (");
                s.append(left_expr.output_name().as_str());
                s.append(", ");
                s.append(right_expr.output_name().as_str());
                s.append(")");
                s
            },
            ScalarExpression::IfNull { left_expr, right_expr, .. } => {
                let mut s = String::from_str("ifnull(");
                s.append(left_expr.output_name().as_str());
                s.append(", ");
                s.append(right_expr.output_name().as_str());
                s.append(")");
                s
            },
            ScalarExpression::NullIf { left_expr, right_expr, .. } => {
                let mut s = String::from_str("nullif(");
                s.append(left_expr.output_name().as_str());
                s.append(", ");
                s.append(right_expr.output_name().as_str());
                s.append(")");
                s
            },
            ScalarExpression::Coalesce { exprs, .. } => {
                let arg_names = Self::output_names(exprs);
                let exprs_str = join(&arg_names, ", ");
                proof {
                    assert(arg_names.deep_view() =~= names);
                }
                let mut s = String::from_str("coalesce(");
                s.append(exprs_str.as_str());
                s.append(")");
                s
            },
            ScalarExpression::CaseWhen { operand_expr, expr_pairs, else_expr, .. } => {
                let ghost n = optional(*operand_expr).len();
                let mut operand_part = String::new();
                if let Some(operand) = operand_expr {
                    operand_part.append(operand.output_name().as_str());
                    operand_part.append(" ");
                    assert(operand_part@ =~= operand.spec_output_name() + " "@);
                }
                let clauses = Self::when_clauses(expr_pairs);
                let expr_pairs_str = join(&clauses, " ");
                proof {
                    assert(clauses.deep_view() =~= spec_when_clauses(
                        names,
                        n as int,
                        expr_pairs@.len(),
                    ));
                }
                let mut else_part = String::new();
                if let Some(other) = else_expr {
                    else_part.append("else ");
                    else_part.append(other.output_name().as_str());
                    else_part.append(" ");
                    assert(else_part@ =~= "else "@ + other.spec_output_name() + " "@);
                }
                let mut s = String::from_str("case ");
                s.append(operand_part.as_str());
                s.append(expr_pairs_str.as_str());
                s.append(" ");
                s.append(else_part.as_str());
                s.append("end");
                s
            },
        }
    }

    /// The column that stands for the expression upstream.
    ///
    /// A column reference gives its own column. An expression alias gives
    /// the column of its label, a reference that of the expression it
    /// carries. Every other expression gives a new nullable column named
    /// after the expression, of its return type.
    pub fn output_column(&self) -> (r: ColumnRef)
        requires
            self.column_defined(),
        ensures
            r@ == self.spec_output_column(),
        decreases self,
    {
        match self {
            ScalarExpression::ColumnRef(col) => share(col),
            ScalarExpression::Alias { alias: AliasType::Expr(expr), .. } => expr.output_column(),
            ScalarExpression::Reference { expr, .. } => expr.output_column(),
            _ => Arc::new(
                ColumnCatalog::new(
                    self.output_name(),
                    true,
                    ColumnDesc::new(self.return_type(), false, false),
                ),
            ),
        }
    }

    /// A scalar tree has an output column.
    pub proof fn lemma_scalar_column_defined(&self)
        requires
            self.is_scalar(),
        ensures
            self.column_defined(),
        decreases self,
    {
        self.lemma_scalar_is_complete();
        self.lemma_scalar_has_type();
        match self {
            ScalarExpression::Alias { alias: AliasType::Expr(inner), .. } => {
                inner.lemma_scalar_column_defined();
            },
            ScalarExpression::Reference { expr, .. } => {
                assert(self.children()[0] == **expr);
                expr.lemma_scalar_column_defined();
            },
            _ => {},
        }
    }

    /// Appends the referenced columns of the child at `index` of `parent`.
    fn collect_child(
        child: &ScalarExpression,
        vec: &mut Vec<ColumnRef>,
        only_column_ref: bool,
        Ghost(parent): Ghost<ScalarExpression>,
        Ghost(index): Ghost<int>,
        Ghost(prefix): Ghost<Seq<ColumnView>>,
    )
        requires
            0 <= index < parent.children().len(),
            parent.children()[index] == *child,
            child.complete(),
            !only_column_ref ==> child.is_scalar(),
            column_views(old(vec)@) == prefix + parent.child_columns(index as nat, only_column_ref),
        ensures
            column_views(final(vec)@) == prefix + parent.child_columns(
                (index + 1) as nat,
                only_column_ref,
            ),
        decreases child, 1nat,
    {
        Self::columns_collect(child, vec, only_column_ref);
        assert(column_views(vec@) =~= prefix + parent.child_columns(
            (index + 1) as nat,
            only_column_ref,
        ));
    }

    /// Appends the referenced columns of an optional child at `index` of
    /// `parent`.
    fn collect_slot(
        slot: &Option<Box<ScalarExpression>>,
        vec: &mut Vec<ColumnRef>,
        only_column_ref: bool,
        Ghost(parent): Ghost<ScalarExpression>,
        Ghost(index): Ghost<int>,
        Ghost(prefix): Ghost<Seq<ColumnView>>,
    )
        requires
            0 <= index,
            slot matches Some(child) ==> {
                &&& index < parent.children().len()
                &&& parent.children()[index] == **child
                &&& child.complete()
                &&& !only_column_ref ==> child.is_scalar()
            },
            column_views(old(vec)@) == prefix + parent.child_columns(index as nat, only_column_ref),
        ensures
            column_views(final(vec)@) == prefix + parent.child_columns(
                (index + optional(*slot).len()) as nat,
                only_column_ref,
            ),
        decreases slot, 2nat,
    {
        if let Some(child) = slot {
            Self::collect_child(
                child,
                vec,
                only_column_ref,
                Ghost(parent),
                Ghost(index),
                Ghost(prefix),
            );
        }
    }

    /// Appends the referenced columns of the children of `parent` that
    /// start at `offset` and are the expressions of `args`.
    fn collect_all(
        args: &Vec<ScalarExpression>,
        vec: &mut Vec<ColumnRef>,
        only_column_ref: bool,
        Ghost(parent): Ghost<ScalarExpression>,
        Ghost(offset): Ghost<int>,
        Ghost(prefix): Ghost<Seq<ColumnView>>,
    )
        requires
            0 <= offset,
            offset + args@.len() <= parent.children().len(),
            forall|i: int|
                0 <= i < args@.len() ==> parent.children()[offset + i] == #[trigger] args@[i],
            forall|i: int| 0 <= i < args@.len() ==> (#[trigger] args@[i]).complete(),
            !only_column_ref ==> forall|i: int|
                0 <= i < args@.len() ==> (#[trigger] args@[i]).is_scalar(),
            column_views(old(vec)@) == prefix + parent.child_columns(offset as nat, only_column_ref),
        ensures
            column_views(final(vec)@) == prefix + parent.child_columns(
                (offset + args@.len()) as nat,
                only_column_ref,
            ),
        decreases args, 2nat,
    {
        let mut i: usize = 0;
        while i < args.len()
            invariant
                i <= args@.len(),
                0 <= offset,
                offset + args@.len() <= parent.children().len(),
                forall|j: int|
                    0 <= j < args@.len() ==> parent.children()[offset + j] == #[trigger] args@[j],
                forall|j: int| 0 <= j < args@.len() ==> (#[trigger] args@[j]).complete(),
                !only_column_ref ==> forall|j: int|
                    0 <= j < args@.len() ==> (#[trigger] args@[j]).is_scalar(),
                column_views(vec@) == prefix + parent.child_columns(
                    (offset + i) as nat,
                    only_column_ref,
                ),
            decreases args@.len() - i,
        {
            Self::collect_child(
                &args[i],
                vec,
                only_column_ref,
                Ghost(parent),
                Ghost(offset + i),
                Ghost(prefix),
            );
            i = i + 1;
        }
    }

    /// Appends the referenced columns of the `when` and `then` children of
    /// `parent`, which start at `offset`.
    fn collect_pairs(
        pairs: &Vec<(ScalarExpression, ScalarExpression)>,
        vec: &mut Vec<ColumnRef>,
        only_column_ref: bool,
        Ghost(parent): Ghost<ScalarExpression>,
        Ghost(offset): Ghost<int>,
        Ghost(prefix): Ghost<Seq<ColumnView>>,
    )
        requires
            0 <= offset,
            offset + 2 * pairs@.len() <= parent.children().len(),
            forall|i: int|
                0 <= i < pairs@.len() ==> parent.children()[offset + 2 * i] == (
                #[trigger] pairs@[i]).0 && parent.children()[offset + 2 * i + 1] == pairs@[i].1,
            forall|i: int|
                0 <= i < pairs@.len() ==> (#[trigger] pairs@[i]).0.complete()
                    && pairs@[i].1.complete(),
            !only_column_ref ==> forall|i: int|
                0 <= i < pairs@.len() ==> (#[trigger] pairs@[i]).0.is_scalar()
                    && pairs@[i].1.is_scalar(),
            column_views(old(vec)@) == prefix + parent.child_columns(offset as nat, only_column_ref),
        ensures
            column_views(final(vec)@) == prefix + parent.child_columns(
                (offset + 2 * pairs@.len()) as nat,
                only_column_ref,
            ),
        decreases pairs, 2nat,
    {
        let mut i: usize = 0;
        while i < pairs.len()
            invariant
                i <= pairs@.len(),
                0 <= offset,
                offset + 2 * pairs@.len() <= parent.children().len(),
                forall|j: int|
                    0 <= j < pairs@.len() ==> parent.children()[offset + 2 * j] == (
                    #[trigger] pairs@[j]).0 && parent.children()[offset + 2 * j + 1]
                        == pairs@[j].1,
                forall|j: int|
                    0 <= j < pairs@.len() ==> (#[trigger] pairs@[j]).0.complete()
                        && pairs@[j].1.complete(),
                !only_column_ref ==> forall|j: int|
                    0 <= j < pairs@.len() ==> (#[trigger] pairs@[j]).0.is_scalar()
                        && pairs@[j].1.is_scalar(),
                column_views(vec@) == prefix + parent.child_columns(
                    (offset + 2 * i) as nat,
                    only_column_ref,
                ),
            decreases pairs@.len() - i,
        {
            Self::collect_child(
                &pairs[i].0,
                vec,
                only_column_ref,
                Ghost(parent),
                Ghost(offset + 2 * i),
                Ghost(prefix),
            );
            Self::collect_child(
                &pairs[i].1,
                vec,
                only_column_ref,
                Ghost(parent),
                Ghost(offset + 2 * i + 1),
                Ghost(prefix),
            );
            i = i + 1;
        }
    }

    /// Appends the referenced columns of `expr` to `vec`.
    fn columns_collect(expr: &ScalarExpression, vec: &mut Vec<ColumnRef>, only_column_ref: bool)
        requires
            expr.complete(),
            !only_column_ref ==> expr.is_scalar(),
        ensures
            column_views(final(vec)@) == column_views(old(vec)@) + expr.spec_referenced_columns(
                only_column_ref,
            ),
        decreases expr, 0nat,
    {
        let ghost parent = *expr;
        let ghost prefix = column_views(vec@) + expr.own_columns(only_column_ref);
        proof {
            expr.lemma_children_shape();
        }
        // A composite expression is itself a column of a special kind.
        if !only_column_ref {
            proof {
                expr.lemma_scalar_column_defined();
            }
            vec.push(expr.output_column());
        }
        if let ScalarExpression::ColumnRef(col) = expr {
            vec.push(share(col));
        }
        assert(column_views(vec@) =~= prefix + parent.child_columns(0, only_column_ref));
        match expr {
            ScalarExpression::ColumnRef(_) => {},
            ScalarExpression::Constant(_) => {},
            ScalarExpression::Empty => {},
            ScalarExpression::Alias { expr, .. }
            | ScalarExpression::TypeCast { expr, .. }
            | ScalarExpression::IsNull { expr, .. }
            | ScalarExpression::Unary { expr, .. }
            | ScalarExpression::Reference { expr, .. } => {
                Self::collect_child(
                    expr,
                    vec,
                    only_column_ref,
                    Ghost(parent),
                    Ghost(0),
                    Ghost(prefix),
                );
            },
            ScalarExpression::Binary { left_expr, right_expr, .. }
            | ScalarExpression::IfNull { left_expr, right_expr, .. }
            | ScalarExpression::NullIf { left_expr, right_expr, .. } => {
                Self::collect_child(
                    left_expr,
                    vec,
                    only_column_ref,
                    Ghost(parent),
                    Ghost(0),
                    Ghost(prefix),
                );
                Self::collect_child(
                    right_expr,
                    vec,
                    only_column_ref,
                    Ghost(parent),
                    Ghost(1),
                    Ghost(prefix),
                );
            },
            ScalarExpression::Position { expr, in_expr } => {
                Self::collect_child(
                    expr,
                    vec,
                    only_column_ref,
                    Ghost(parent),
                    Ghost(0),
                    Ghost(prefix),
                );
                Self::collect_child(
                    in_expr,
                    vec,
                    only_column_ref,
                    Ghost(parent),
                    Ghost(1),
                    Ghost(prefix),
                );
            },
            ScalarExpression::AggCall { args, .. }
            | ScalarExpression::Tuple(args)
            | ScalarExpression::Coalesce { exprs: args, .. } => {
                Self::collect_all(
                    args,
                    vec,
                    only_column_ref,
                    Ghost(parent),
                    Ghost(0),
                    Ghost(prefix),
                );
            },
            ScalarExpression::ScalaFunction(function) => {
                Self::collect_all(
                    &function.args,
                    vec,
                    only_column_ref,
                    Ghost(parent),
                    Ghost(0),
                    Ghost(prefix),
                );
            },
            ScalarExpression::TableFunction(function) => {
                Self::collect_all(
                    &function.args,
                    vec,
                    only_column_ref,
                    Ghost(parent),
                    Ghost(0),
                    Ghost(prefix),
                );
            },
            ScalarExpression::In { expr, args, .. } => {
                Self::collect_child(
                    expr,
                    vec,
                    only_column_ref,
                    Ghost(parent),
                    Ghost(0),
                    Ghost(prefix),
                );
                Self::collect_all(
                    args,
                    vec,
                    only_column_ref,
                    Ghost(parent),
                    Ghost(1),
                    Ghost(prefix),
                );
            },
            ScalarExpression::Between { expr, left_expr, right_expr, .. }
            | ScalarExpression::If { condition: expr, left_expr, right_expr, .. } => {
                Self::collect_child(
                    expr,
                    vec,
                    only_column_ref,
                    Ghost(parent),
                    Ghost(0),
                    Ghost(prefix),
                );
                Self::collect_child(
                    left_expr,
                    vec,
                    only_column_ref,
                    Ghost(parent),
                    Ghost(1),
                    Ghost(prefix),
                );
                Self::collect_child(
                    right_expr,
                    vec,
                    only_column_ref,
                    Ghost(parent),
                    Ghost(2),
                    Ghost(prefix),
                );
            },
            ScalarExpression::SubString { expr, for_expr, from_expr } => {
                Self::collect_child(
                    expr,
                    vec,
                    only_column_ref,
                    Ghost(parent),
                    Ghost(0),
                    Ghost(prefix),
                );
                Self::collect_slot(
                    for_expr,
                    vec,
                    only_column_ref,
                    Ghost(parent),
                    Ghost(1),
                    Ghost(prefix),
                );
                Self::collect_slot(
                    from_expr,
                    vec,
                    only_column_ref,
                    Ghost(parent),
                    Ghost(1 + optional(*for_expr).len() as int),
                    Ghost(prefix),
                );
            },
            ScalarExpression::Trim { expr, trim_what_expr, .. } => {
                Self::collect_child(
                    expr,
                    vec,
                    only_column_ref,
                    Ghost(parent),
                    Ghost(0),
                    Ghost(prefix),
                );
                Self::collect_slot(
                    trim_what_expr,
                    vec,
                    only_column_ref,
                    Ghost(parent),
                    Ghost(1),
                    Ghost(prefix),
                );
            },
            ScalarExpression::CaseWhen { operand_expr, expr_pairs, else_expr, .. } => {
                let ghost n = optional(*operand_expr).len() as int;
                Self::collect_slot(
                    operand_expr,
                    vec,
                    only_column_ref,
                    Ghost(parent),
                    Ghost(0),
                    Ghost(prefix),
                );
                Self::collect_pairs(
                    expr_pairs,
                    vec,
                    only_column_ref,
                    Ghost(parent),
                    Ghost(n),
                    Ghost(prefix),
                );
                Self::collect_slot(
                    else_expr,
                    vec,
                    only_column_ref,
                    Ghost(parent),
                    Ghost(n + 2 * expr_pairs@.len()),
                    Ghost(prefix),
                );
            },
        }
        assert(column_views(vec@) =~= column_views(old(vec)@) + expr.spec_referenced_columns(
            only_column_ref,
        ));
    }

    /// The columns that the tree refers to, in pre-order; a column that
    /// occurs twice is listed twice.
    ///
    /// With `only_column_ref` these are the columns of the column
    /// references. Without it every node also contributes, before its
    /// column reference and its children, the output column that stands
    /// for it.
    pub fn referenced_columns(&self, only_column_ref: bool) -> (r: Vec<ColumnRef>)
        requires
            self.complete(),
            !only_column_ref ==> self.is_scalar(),
        ensures
            column_views(r@) == self.spec_referenced_columns(only_column_ref),
    {
        let mut exprs: Vec<ColumnRef> = Vec::new();
        Self::columns_collect(self, &mut exprs, only_column_ref);
        assert(column_views(exprs@) =~= self.spec_referenced_columns(only_column_ref));
        exprs
    }
}

} // verus!
