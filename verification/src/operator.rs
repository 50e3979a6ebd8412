//! Operator tokens: the closed sets of unary and binary operators, their
//! canonical text, and the mapping from the parser's tokens.

use crate::errors::DatabaseError;
use crate::text::push_char;
use sqlparser::ast::BinaryOperator as SqlBinaryOperator;
use sqlparser::ast::UnaryOperator as SqlUnaryOperator;
use vstd::prelude::*;

verus! {

#[derive(Debug, Clone, Copy, PartialEq, Eq, Hash)]
pub enum UnaryOperator {
    Plus,
    Minus,
    Not,
}

#[derive(Debug, Clone, Copy, PartialEq, Eq, Hash)]
pub enum BinaryOperator {
    Plus,
    Minus,
    Multiply,
    Divide,
    Modulo,
    StringConcat,
    Gt,
    Lt,
    GtEq,
    LtEq,
    Spaceship,
    Eq,
    NotEq,
    Like(Option<char>),
    NotLike(Option<char>),
    And,
    Or,
    Xor,
}

/// `sqlparser::ast::UnaryOperator`. The verifier reads the variants of the
/// enum from the parser crate itself, so nothing is assumed of it.
#[verifier::external_type_specification]
pub struct ExSqlUnaryOperator(SqlUnaryOperator);

/// `sqlparser::ast::BinaryOperator`. The verifier reads the variants of the
/// enum from the parser crate itself, so nothing is assumed of it.
#[verifier::external_type_specification]
pub struct ExSqlBinaryOperator(SqlBinaryOperator);

/// The unary operator that a parser token stands for: `Plus`, `Minus` and
/// `Not` stand for the operators of the same name, every other token for
/// none.
pub open spec fn spec_unary_token(value: SqlUnaryOperator) -> Option<UnaryOperator> {
    match value {
        SqlUnaryOperator::Plus => Some(UnaryOperator::Plus),
        SqlUnaryOperator::Minus => Some(UnaryOperator::Minus),
        SqlUnaryOperator::Not => Some(UnaryOperator::Not),
        _ => None,
    }
}

/// The arithmetic or string operator that a parser token stands for, if it
/// stands for one.
pub open spec fn spec_arithmetic_token(value: SqlBinaryOperator) -> Option<BinaryOperator> {
    match value {
        SqlBinaryOperator::Plus => Some(BinaryOperator::Plus),
        SqlBinaryOperator::Minus => Some(BinaryOperator::Minus),
        SqlBinaryOperator::Multiply => Some(BinaryOperator::Multiply),
        SqlBinaryOperator::Divide => Some(BinaryOperator::Divide),
        SqlBinaryOperator::Modulo => Some(BinaryOperator::Modulo),
        SqlBinaryOperator::StringConcat => Some(BinaryOperator::StringConcat),
        _ => None,
    }
}

/// The comparison operator that a parser token stands for, if it stands for
/// one.
pub open spec fn spec_comparison_token(value: SqlBinaryOperator) -> Option<BinaryOperator> {
    match value {
        SqlBinaryOperator::Gt => Some(BinaryOperator::Gt),
        SqlBinaryOperator::Lt => Some(BinaryOperator::Lt),
        SqlBinaryOperator::GtEq => Some(BinaryOperator::GtEq),
        SqlBinaryOperator::LtEq => Some(BinaryOperator::LtEq),
        SqlBinaryOperator::Spaceship => Some(BinaryOperator::Spaceship),
        SqlBinaryOperator::Eq => Some(BinaryOperator::Eq),
        SqlBinaryOperator::NotEq => Some(BinaryOperator::NotEq),
        _ => None,
    }
}

/// The logical connective that a parser token stands for, if it stands for
/// one.
pub open spec fn spec_logical_token(value: SqlBinaryOperator) -> Option<BinaryOperator> {
    match value {
        SqlBinaryOperator::And => Some(BinaryOperator::And),
        SqlBinaryOperator::Or => Some(BinaryOperator::Or),
        SqlBinaryOperator::Xor => Some(BinaryOperator::Xor),
        _ => None,
    }
}

/// The binary operator that a parser token stands for: each of the sixteen
/// tokens from `Plus` to `Xor` stands for the operator of the same name,
/// every other token for none.
pub open spec fn spec_binary_token(value: SqlBinaryOperator) -> Option<BinaryOperator> {
    match value {
        SqlBinaryOperator::Plus => Some(BinaryOperator::Plus),
        SqlBinaryOperator::Minus => Some(BinaryOperator::Minus),
        SqlBinaryOperator::Multiply => Some(BinaryOperator::Multiply),
        SqlBinaryOperator::Divide => Some(BinaryOperator::Divide),
        SqlBinaryOperator::Modulo => Some(BinaryOperator::Modulo),
        SqlBinaryOperator::StringConcat => Some(BinaryOperator::StringConcat),
        SqlBinaryOperator::Gt => Some(BinaryOperator::Gt),
        SqlBinaryOperator::Lt => Some(BinaryOperator::Lt),
        SqlBinaryOperator::GtEq => Some(BinaryOperator::GtEq),
        SqlBinaryOperator::LtEq => Some(BinaryOperator::LtEq),
        SqlBinaryOperator::Spaceship => Some(BinaryOperator::Spaceship),
        SqlBinaryOperator::Eq => Some(BinaryOperator::Eq),
        SqlBinaryOperator::NotEq => Some(BinaryOperator::NotEq),
        SqlBinaryOperator::And => Some(BinaryOperator::And),
        SqlBinaryOperator::Or => Some(BinaryOperator::Or),
        SqlBinaryOperator::Xor => Some(BinaryOperator::Xor),
        _ => None,
    }
}

/// Tells the unary tokens of the parser apart.
fn unary_token(value: &SqlUnaryOperator) -> (r: Option<UnaryOperator>)
    ensures
        r == spec_unary_token(*value),
{
    match value {
        SqlUnaryOperator::Plus => Some(UnaryOperator::Plus),
        SqlUnaryOperator::Minus => Some(UnaryOperator::Minus),
        SqlUnaryOperator::Not => Some(UnaryOperator::Not),
        _ => None,
    }
}

/// Tells the arithmetic and string tokens of the parser apart.
fn arithmetic_token(value: &SqlBinaryOperator) -> (r: Option<BinaryOperator>)
    ensures
        r == spec_arithmetic_token(*value),
{
    match value {
        SqlBinaryOperator::Plus => Some(BinaryOperator::Plus),
        SqlBinaryOperator::Minus => Some(BinaryOperator::Minus),
        SqlBinaryOperator::Multiply => Some(BinaryOperator::Multiply),
        SqlBinaryOperator::Divide => Some(BinaryOperator::Divide),
        SqlBinaryOperator::Modulo => Some(BinaryOperator::Modulo),
        SqlBinaryOperator::StringConcat => Some(BinaryOperator::StringConcat),
        _ => None,
    }
}

/// Tells the comparison tokens of the parser apart.
fn comparison_token(value: &SqlBinaryOperator) -> (r: Option<BinaryOperator>)
    ensures
        r == spec_comparison_token(*value),
{
    match value {
        SqlBinaryOperator::Gt => Some(BinaryOperator::Gt),
        SqlBinaryOperator::Lt => Some(BinaryOperator::Lt),
        SqlBinaryOperator::GtEq => Some(BinaryOperator::GtEq),
        SqlBinaryOperator::LtEq => Some(BinaryOperator::LtEq),
        SqlBinaryOperator::Spaceship => Some(BinaryOperator::Spaceship),
        SqlBinaryOperator::Eq => Some(BinaryOperator::Eq),
        SqlBinaryOperator::NotEq => Some(BinaryOperator::NotEq),
        _ => None,
    }
}

/// Tells the logical connectives of the parser apart.
fn logical_token(value: &SqlBinaryOperator) -> (r: Option<BinaryOperator>)
    ensures
        r == spec_logical_token(*value),
{
    match value {
        SqlBinaryOperator::And => Some(BinaryOperator::And),
        SqlBinaryOperator::Or => Some(BinaryOperator::Or),
        SqlBinaryOperator::Xor => Some(BinaryOperator::Xor),
        _ => None,
    }
}

/// What a token classifier found, as the result of the mapping: the operator,
/// or `Unsupported` where the token is outside the supported set.
pub open spec fn spec_token_result<T>(found: Option<T>) -> Result<T, DatabaseError> {
    match found {
        Some(op) => Ok(op),
        None => Err(DatabaseError::Unsupported),
    }
}

impl UnaryOperator {
    pub open spec fn spec_text(&self) -> Seq<char> {
        match self {
            UnaryOperator::Plus => "+"@,
            UnaryOperator::Minus => "-"@,
            UnaryOperator::Not => "!"@,
        }
    }

    /// The canonical text of the operator.
    pub fn to_string(&self) -> (r: String)
        ensures
            r@ == self.spec_text(),
    {
        match self {
            UnaryOperator::Plus => String::from_str("+"),
            UnaryOperator::Minus => String::from_str("-"),
            UnaryOperator::Not => String::from_str("!"),
        }
    }

    /// The operator for what the token classifier found.
    pub fn from_token(found: Option<UnaryOperator>) -> (r: Result<UnaryOperator, DatabaseError>)
        ensures
            r == spec_token_result(found),
    {
        match found {
            Some(op) => Ok(op),
            None => Err(DatabaseError::Unsupported),
        }
    }

    /// Maps a parser token to the operator it stands for; a token outside
    /// `Plus`, `Minus` and `Not` fails with `Unsupported`.
    pub fn try_from_sql(value: &SqlUnaryOperator) -> (r: Result<UnaryOperator, DatabaseError>)
        ensures
            r == spec_token_result(spec_unary_token(*value)),
    {
        Self::from_token(unary_token(value))
    }
}

impl BinaryOperator {
    /// The text that an escape character adds behind `like` and `not like`.
    pub open spec fn spec_escape_text(escape: Option<char>) -> Seq<char> {
        match escape {
            Some(c) => "(escape: "@.push(c) + ")"@,
            None => Seq::empty(),
        }
    }

    pub open spec fn spec_text(&self) -> Seq<char> {
        match self {
            BinaryOperator::Plus => "+"@,
            BinaryOperator::Minus => "-"@,
            BinaryOperator::Multiply => "*"@,
            BinaryOperator::Divide => "/"@,
            BinaryOperator::Modulo => "mod"@,
            BinaryOperator::StringConcat => "&"@,
            BinaryOperator::Gt => ">"@,
            BinaryOperator::Lt => "<"@,
            BinaryOperator::GtEq => ">="@,
            BinaryOperator::LtEq => "<="@,
            BinaryOperator::Spaceship => "<=>"@,
            BinaryOperator::Eq => "="@,
            BinaryOperator::NotEq => "!="@,
            BinaryOperator::And => "&&"@,
            BinaryOperator::Or => "||"@,
            BinaryOperator::Xor => "^"@,
            BinaryOperator::Like(escape) => "like"@ + Self::spec_escape_text(*escape),
            BinaryOperator::NotLike(escape) => "not like"@ + Self::spec_escape_text(*escape),
        }
    }

    fn push_escape(s: &mut String, escape: &Option<char>)
        ensures
            final(s)@ == old(s)@ + Self::spec_escape_text(*escape),
    {
        match escape {
            Some(c) => {
                s.append("(escape: ");
                push_char(s, *c);
                s.append(")");
                assert(s@ =~= old(s)@ + Self::spec_escape_text(*escape));
            },
            None => {
                assert(s@ =~= old(s)@ + Self::spec_escape_text(*escape));
            },
        }
    }

    /// The canonical text of the operator.
    pub fn to_string(&self) -> (r: String)
        ensures
            r@ == self.spec_text(),
    {
        match self {
            BinaryOperator::Plus => String::from_str("+"),
            BinaryOperator::Minus => String::from_str("-"),
            BinaryOperator::Multiply => String::from_str("*"),
            BinaryOperator::Divide => String::from_str("/"),
            BinaryOperator::Modulo => String::from_str("mod"),
            BinaryOperator::StringConcat => String::from_str("&"),
            BinaryOperator::Gt => String::from_str(">"),
            BinaryOperator::Lt => String::from_str("<"),
            BinaryOperator::GtEq => String::from_str(">="),
            BinaryOperator::LtEq => String::from_str("<="),
            BinaryOperator::Spaceship => String::from_str("<=>"),
            BinaryOperator::Eq => String::from_str("="),
            BinaryOperator::NotEq => String::from_str("!="),
            BinaryOperator::And => String::from_str("&&"),
            BinaryOperator::Or => String::from_str("||"),
            BinaryOperator::Xor => String::from_str("^"),
            BinaryOperator::Like(escape) => {
                let mut s = String::from_str("like");
                Self::push_escape(&mut s, escape);
                s
            },
            BinaryOperator::NotLike(escape) => {
                let mut s = String::from_str("not like");
                Self::push_escape(&mut s, escape);
                s
            },
        }
    }

    /// The operator for what the three token classifiers found, asked in the
    /// order arithmetic, comparison, logical.
    pub fn from_token(
        arithmetic: Option<BinaryOperator>,
        comparison: Option<BinaryOperator>,
        logical: Option<BinaryOperator>,
    ) -> (r: Result<BinaryOperator, DatabaseError>)
        ensures
            r == spec_token_result(
                if arithmetic is Some {
                    arithmetic
                } else if comparison is Some {
                    comparison
                } else {
                    logical
                },
            ),
    {
        match arithmetic {
            Some(op) => Ok(op),
            None => match comparison {
                Some(op) => Ok(op),
                None => match logical {
                    Some(op) => Ok(op),
                    None => Err(DatabaseError::Unsupported),
                },
            },
        }
    }

    /// Maps a parser token to the operator it stands for; a token outside
    /// the sixteen from `Plus` to `Xor` fails with `Unsupported`.
    pub fn try_from_sql(value: &SqlBinaryOperator) -> (r: Result<BinaryOperator, DatabaseError>)
        ensures
            r == spec_token_result(spec_binary_token(*value)),
    {
        Self::from_token(arithmetic_token(value), comparison_token(value), logical_token(value))
    }
}

} // verus!
