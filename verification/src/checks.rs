//! Run-time tests of what the walkers ask of a tree.

use crate::expression::{optional, AliasType, ScalarExpression};
use vstd::prelude::*;

verus! {

impl ScalarExpression {
    /// The children of the node, in the order in which the walkers visit
    /// them.
    pub fn child_list(&self) -> (r: Vec<&ScalarExpression>)
        ensures
            r@.len() == self.children().len(),
            forall|i: int| 0 <= i < r@.len() ==> *(#[trigger] r@[i]) == self.children()[i],
    {
        let mut list: Vec<&ScalarExpression> = Vec::new();
        proof {
            self.lemma_children_shape();
        }
        match self {
            ScalarExpression::Constant(_)
            | ScalarExpression::ColumnRef(_)
            | ScalarExpression::Empty => {},
            ScalarExpression::Alias { expr, .. }
            | ScalarExpression::TypeCast { expr, .. }
            | ScalarExpression::IsNull { expr, .. }
            | ScalarExpression::Unary { expr, .. }
            | ScalarExpression::Reference { expr, .. } => {
                list.push(&**expr);
            },
            ScalarExpression::Binary { left_expr, right_expr, .. }
            | ScalarExpression::IfNull { left_expr, right_expr, .. }
            | ScalarExpression::NullIf { left_expr, right_expr, .. } => {
                list.push(&**left_expr);
                list.push(&**right_expr);
            },
            ScalarExpression::Position { expr, in_expr } => {
                list.push(&**expr);
                list.push(&**in_expr);
            },
            ScalarExpression::AggCall { args, .. }
            | ScalarExpression::Coalesce { exprs: args, .. }
            | ScalarExpression::Tuple(args) => {
                Self::push_all(&mut list, args);
            },
            ScalarExpression::ScalaFunction(function) => {
                Self::push_all(&mut list, &function.args);
            },
            ScalarExpression::TableFunction(function) => {
                Self::push_all(&mut list, &function.args);
            },
            ScalarExpression::In { expr, args, .. } => {
                list.push(&**expr);
                Self::push_all(&mut list, args);
            },
            ScalarExpression::Between { expr, left_expr, right_expr, .. }
            | ScalarExpression::If { condition: expr, left_expr, right_expr, .. } => {
                list.push(&**expr);
                list.push(&**left_expr);
                list.push(&**right_expr);
            },
            ScalarExpression::SubString { expr, for_expr, from_expr } => {
                list.push(&**expr);
                if let Some(for_expr) = for_expr {
                    list.push(&**for_expr);
                }
                if let Some(from_expr) = from_expr {
                    list.push(&**from_expr);
                }
            },
            ScalarExpression::Trim { expr, trim_what_expr, .. } => {
                list.push(&**expr);
                if let Some(trim_what_expr) = trim_what_expr {
                    list.push(&**trim_what_expr);
                }
            },
            ScalarExpression::CaseWhen { operand_expr, expr_pairs, else_expr, .. } => {
                if let Some(operand_expr) = operand_expr {
                    list.push(&**operand_expr);
                }
                let ghost head = list@;
                let mut i: usize = 0;
                while i < expr_pairs.len()
                    invariant
                        i <= expr_pairs@.len(),
                        list@.len() == head.len() + 2 * i,
                        head.len() == optional(*operand_expr).len(),
                        operand_expr matches Some(e) ==> *head[0] == **e,
                        forall|j: int| 0 <= j < head.len() ==> list@[j] == head[j],
                        forall|j: int|
                            0 <= j < i ==> *list@[head.len() + 2 * j] == (
                            #[trigger] expr_pairs@[j]).0 && *list@[head.len() + 2 * j + 1]
                                == expr_pairs@[j].1,
                    decreases expr_pairs@.len() - i,
                {
                    list.push(&expr_pairs[i].0);
                    list.push(&expr_pairs[i].1);
                    i = i + 1;
                }
                let ghost body = list@;
                if let Some(else_expr) = else_expr {
                    list.push(&**else_expr);
                }
                proof {
                    let n = head.len() as int;
                    assert(forall|k: int| 0 <= k < body.len() ==> list@[k] == body[k]);
                    assert forall|k: int| 0 <= k < list@.len() implies *(#[trigger] list@[k])
                        == self.children()[k] by {
                        if n <= k < n + 2 * expr_pairs@.len() {
                            let j = (k - n) / 2;
                            assert(*list@[n + 2 * j] == expr_pairs@[j].0);
                            assert(*list@[n + 2 * j + 1] == expr_pairs@[j].1);
                            assert(k == n + 2 * j || k == n + 2 * j + 1);
                        }
                    }
                }
            },
        }
        list
    }

    /// Appends a reference to each expression of `args`.
    fn push_all<'a>(list: &mut Vec<&'a ScalarExpression>, args: &'a Vec<ScalarExpression>)
        ensures
            final(list)@.len() == old(list)@.len() + args@.len(),
            forall|j: int| 0 <= j < old(list)@.len() ==> final(list)@[j] == old(list)@[j],
            forall|j: int|
                0 <= j < args@.len() ==> *final(list)@[old(list)@.len() + j] == #[trigger] args@[j],
    {
        let mut i: usize = 0;
        while i < args.len()
            invariant
                i <= args@.len(),
                list@.len() == old(list)@.len() + i,
                forall|j: int| 0 <= j < old(list)@.len() ==> list@[j] == old(list)@[j],
                forall|j: int| 0 <= j < i ==> *list@[old(list)@.len() + j] == #[trigger] args@[j],
            decreases args@.len() - i,
        {
            list.push(&args[i]);
            i = i + 1;
        }
    }

    /// Whether the tree holds no placeholder, labels included.
    pub fn check_complete(&self) -> (r: bool)
        ensures
            r == self.complete(),
        decreases self,
    {
        proof {
            self.lemma_parts_decrease();
        }
        if let ScalarExpression::Empty = self {
            return false;
        }
        if let ScalarExpression::Alias { alias: AliasType::Expr(inner), .. } = self {
            if !inner.check_complete() {
                return false;
            }
        }
        let list = self.child_list();
        let mut i: usize = 0;
        while i < list.len()
            invariant
                i <= list@.len(),
                list@.len() == self.children().len(),
                forall|j: int| 0 <= j < list@.len() ==> *(#[trigger] list@[j]) == self.children()[j],
                forall|j: int|
                    0 <= j < list@.len() ==> decreases_to!(*self => #[trigger] self.children()[j]),
                forall|j: int| 0 <= j < i ==> (#[trigger] self.children()[j]).complete(),
            decreases list@.len() - i,
        {
            assert(*list@[i as int] == self.children()[i as int]);
            if !list[i].check_complete() {
                return false;
            }
            i = i + 1;
        }
        true
    }

    /// Whether the tree holds neither a placeholder nor a table function,
    /// labels included.
    pub fn check_scalar(&self) -> (r: bool)
        ensures
            r == self.is_scalar(),
        decreases self,
    {
        proof {
            self.lemma_parts_decrease();
        }
        if let ScalarExpression::Empty = self {
            return false;
        }
        if let ScalarExpression::TableFunction(_) = self {
            return false;
        }
        if let ScalarExpression::Alias { alias: AliasType::Expr(inner), .. } = self {
            if !inner.check_scalar() {
                return false;
            }
        }
        let list = self.child_list();
        let mut i: usize = 0;
        while i < list.len()
            invariant
                i <= list@.len(),
                list@.len() == self.children().len(),
                forall|j: int| 0 <= j < list@.len() ==> *(#[trigger] list@[j]) == self.children()[j],
                forall|j: int|
                    0 <= j < list@.len() ==> decreases_to!(*self => #[trigger] self.children()[j]),
                forall|j: int| 0 <= j < i ==> (#[trigger] self.children()[j]).is_scalar(),
            decreases list@.len() - i,
        {
            assert(*list@[i as int] == self.children()[i as int]);
            if !list[i].check_scalar() {
                return false;
            }
            i = i + 1;
        }
        true
    }

    /// Whether the expression has a return type.
    pub fn check_type(&self) -> (r: bool)
        ensures
            r == self.has_type(),
        decreases self,
    {
        match self {
            ScalarExpression::Empty | ScalarExpression::TableFunction(_) => false,
            ScalarExpression::Alias { expr, .. } | ScalarExpression::Reference { expr, .. } => {
                expr.check_type()
            },
            _ => true,
        }
    }

    /// Whether the expression has an output column.
    pub fn check_column(&self) -> (r: bool)
        ensures
            r == self.column_defined(),
        decreases self,
    {
        match self {
            ScalarExpression::ColumnRef(_) => true,
            ScalarExpression::Alias { alias: AliasType::Expr(inner), .. } => inner.check_column(),
            ScalarExpression::Reference { expr, .. } => expr.check_column(),
            _ => self.check_complete() && self.check_type(),
        }
    }

    /// Whether the binder can run on the tree.
    pub fn check_bind_ready(&self) -> (r: bool)
        ensures
            r == self.bind_ready(),
        decreases self,
    {
        proof {
            self.lemma_parts_decrease();
        }
        if let ScalarExpression::Empty = self {
            return false;
        }
        let operator = matches!(
            self,
            ScalarExpression::Binary { .. } | ScalarExpression::Unary { .. }
        );
        let terminal = matches!(
            self,
            ScalarExpression::Constant(_) | ScalarExpression::ColumnRef(_)
                | ScalarExpression::Reference { .. }
        );
        let list = self.child_list();
        let mut i: usize = 0;
        while i < list.len()
            invariant
                i <= list@.len(),
                operator == (self is Binary || self is Unary),
                terminal == self.is_terminal(),
                list@.len() == self.children().len(),
                forall|j: int| 0 <= j < list@.len() ==> *(#[trigger] list@[j]) == self.children()[j],
                forall|j: int|
                    0 <= j < list@.len() ==> decreases_to!(*self => #[trigger] self.children()[j]),
                operator ==> forall|j: int|
                    0 <= j < i ==> (#[trigger] self.children()[j]).has_type(),
                !terminal ==> forall|j: int|
                    0 <= j < i ==> (#[trigger] self.children()[j]).bind_ready(),
            decreases list@.len() - i,
        {
            assert(*list@[i as int] == self.children()[i as int]);
            if operator && !list[i].check_type() {
                return false;
            }
            if !terminal && !list[i].check_bind_ready() {
                return false;
            }
            i = i + 1;
        }
        true
    }

    /// The binder can run on every scalar tree.
    pub proof fn lemma_scalar_bind_ready(&self)
        requires
            self.is_scalar(),
        ensures
            self.bind_ready(),
        decreases self,
    {
        self.lemma_parts_decrease();
        assert forall|i: int| 0 <= i < self.children().len() implies (
        #[trigger] self.children()[i]).bind_ready() && self.children()[i].has_type() by {
            self.children()[i].lemma_scalar_bind_ready();
            self.children()[i].lemma_scalar_has_type();
        }
    }
}

} // verus!
