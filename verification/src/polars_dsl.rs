//! The trusted boundary toward polars' lazy expression API.
//!
//! Every item here either declares a polars type so that it can stand in
//! signatures, or wraps exactly one polars call. Each wrapped call is a
//! pure plan constructor: it builds its result from its arguments alone,
//! performing no execution and no I/O, so each result carries an
//! uninterpreted name, and the verified pipeline builder in
//! [`crate::column`] can state exactly which plan it records. What a
//! recorded plan computes on materialization is the engine's side of the
//! boundary, checked by the tests that collect it. The boundary table,
//! the column names and the label texts handed to these calls all stand
//! in verified code.

use vstd::prelude::*;

verus! {

#[verifier::external_type_specification]
#[verifier::external_body]
pub struct ExLazyFrame(polars::prelude::LazyFrame);

#[verifier::external_type_specification]
#[verifier::external_body]
pub struct ExExpr(polars::prelude::Expr);

/// The expression `col` builds from a column name.
pub uninterp spec fn column_of(name: Seq<char>) -> polars::prelude::Expr;

/// The expression `lit` builds from a `u32` constant.
pub uninterp spec fn unsigned_lit_of(value: u32) -> polars::prelude::Expr;

/// The expression `lit` builds from an owned text constant.
pub uninterp spec fn text_lit_of(text: Seq<char>) -> polars::prelude::Expr;

/// The expression `Rem` for `Expr` builds from its operands.
pub uninterp spec fn rem_of(
    left: polars::prelude::Expr,
    right: polars::prelude::Expr,
) -> polars::prelude::Expr;

/// The expression `Div` for `Expr` builds from its operands.
pub uninterp spec fn div_of(
    left: polars::prelude::Expr,
    right: polars::prelude::Expr,
) -> polars::prelude::Expr;

/// The expression `Expr::lt_eq` builds from its operands.
pub uninterp spec fn lt_eq_of(
    left: polars::prelude::Expr,
    right: polars::prelude::Expr,
) -> polars::prelude::Expr;

/// The expression `Expr::alias` builds from an expression and a column name.
pub uninterp spec fn alias_of(
    expr: polars::prelude::Expr,
    name: Seq<char>,
) -> polars::prelude::Expr;

/// The conditional expression `ternary_expr` builds from condition, value
/// and fallback.
pub uninterp spec fn ternary_of(
    condition: polars::prelude::Expr,
    value: polars::prelude::Expr,
    fallback: polars::prelude::Expr,
) -> polars::prelude::Expr;

/// The plan `LazyFrame::with_column` builds from a plan and an expression.
pub uninterp spec fn with_column_of(
    frame: polars::prelude::LazyFrame,
    expr: polars::prelude::Expr,
) -> polars::prelude::LazyFrame;

/// Relies on polars' `col`: the expression that selects the named column,
/// built from the name alone.
#[verifier::external_body]
pub(crate) fn col_expr(name: &str) -> (e: polars::prelude::Expr)
    ensures
        e == column_of(name@),
{
    polars::prelude::col(name)
}

/// Relies on polars' `lit` on `u32`: the expression holding that constant,
/// built from the value alone.
#[verifier::external_body]
pub(crate) fn lit_unsigned(value: u32) -> (e: polars::prelude::Expr)
    ensures
        e == unsigned_lit_of(value),
{
    polars::prelude::lit(value)
}

/// Relies on polars' `lit` on `String`: the expression holding that text,
/// built from the text alone.
#[verifier::external_body]
pub(crate) fn lit_text(value: String) -> (e: polars::prelude::Expr)
    ensures
        e == text_lit_of(value@),
{
    polars::prelude::lit(value)
}

/// Relies on `Rem` for `Expr`: the elementwise-remainder expression,
/// built from the operands alone.
#[verifier::external_body]
pub(crate) fn expr_rem(
    left: polars::prelude::Expr,
    right: polars::prelude::Expr,
) -> (e: polars::prelude::Expr)
    ensures
        e == rem_of(left, right),
{
    left % right
}

/// Relies on `Div` for `Expr`: the elementwise-quotient expression (the
/// columns here are integers, so no fraction arises), built from the
/// operands alone.
#[verifier::external_body]
pub(crate) fn expr_div(
    left: polars::prelude::Expr,
    right: polars::prelude::Expr,
) -> (e: polars::prelude::Expr)
    ensures
        e == div_of(left, right),
{
    left / right
}

/// Relies on `Expr::lt_eq`: the elementwise `<=` expression, built from
/// the operands alone.
#[verifier::external_body]
pub(crate) fn expr_lt_eq(
    left: polars::prelude::Expr,
    right: polars::prelude::Expr,
) -> (e: polars::prelude::Expr)
    ensures
        e == lt_eq_of(left, right),
{
    left.lt_eq(right)
}

/// Relies on `Expr::alias`: the same expression under the given column
/// name, built from the two alone.
#[verifier::external_body]
pub(crate) fn expr_alias(expr: polars::prelude::Expr, name: &str) -> (e: polars::prelude::Expr)
    ensures
        e == alias_of(expr, name@),
{
    expr.alias(name)
}

/// Relies on polars' `ternary_expr`: the elementwise conditional
/// `if condition { value } else { fallback }` — the expression that the
/// public `when`-chain builders lower to, one ternary per condition —
/// built from the three operands alone.
#[verifier::external_body]
pub(crate) fn ternary(
    condition: polars::prelude::Expr,
    value: polars::prelude::Expr,
    fallback: polars::prelude::Expr,
) -> (e: polars::prelude::Expr)
    ensures
        e == ternary_of(condition, value, fallback),
{
    polars::prelude::ternary_expr(condition, value, fallback)
}

/// Relies on `Clone` for `LazyFrame`, which clones every field: a plan
/// equal to the given one.
#[verifier::external_body]
pub(crate) fn lazyframe_clone(
    frame: &polars::prelude::LazyFrame,
) -> (r: polars::prelude::LazyFrame)
    ensures
        r == *frame,
{
    frame.clone()
}

/// Relies on `LazyFrame::with_column`: the plan extended so that, on
/// materialization, the expression's column is added, overwriting any
/// existing column of the same name; built from the plan and the
/// expression alone.
#[verifier::external_body]
pub(crate) fn lazyframe_with_column(
    frame: polars::prelude::LazyFrame,
    expr: polars::prelude::Expr,
) -> (r: polars::prelude::LazyFrame)
    ensures
        r == with_column_of(frame, expr),
{
    frame.with_column(expr)
}

} // verus!
