//! The columnar annotator: the classification rule recorded as a lazy,
//! vectorized conditional-expression pipeline over a polars `LazyFrame`.
//!
//! The pipeline is not written out by hand a second time: it is folded
//! from the same boundary table that the scalar rule is proved against
//! ([`crate::session::session_boundaries`]), with the fallback unified to
//! the scalar `Undefined` label, so the two evaluation paths cannot drift.
//! Polars chains `when/then` conditions into exactly this nest of ternary
//! expressions, evaluated last-in first-out; folding the table from its
//! last entry to its first therefore records the table's first match.
//!
//! Which plan the annotator records is a proved contract: the recorded
//! expression is [`session_expr_spec`], the boundary table's threshold
//! chain over the hour of the `time` column, named column by column
//! through the trusted plan constructors in [`crate::polars_dsl`]. Per
//! row, that chain assigns the label [`table_session`] describes, which
//! [`crate::laws::lemma_scalar_columnar_agreement`] proves equal to the
//! scalar rule on every hour of a day.

use vstd::prelude::*;

use polars::prelude::Expr;
use polars::prelude::LazyFrame;

use crate::polars_dsl::alias_of;
use crate::polars_dsl::col_expr;
use crate::polars_dsl::column_of;
use crate::polars_dsl::div_of;
use crate::polars_dsl::expr_alias;
use crate::polars_dsl::expr_div;
use crate::polars_dsl::expr_lt_eq;
use crate::polars_dsl::expr_rem;
use crate::polars_dsl::lazyframe_clone;
use crate::polars_dsl::lazyframe_with_column;
use crate::polars_dsl::lit_text;
use crate::polars_dsl::lit_unsigned;
use crate::polars_dsl::lt_eq_of;
use crate::polars_dsl::rem_of;
use crate::polars_dsl::ternary;
use crate::polars_dsl::ternary_of;
use crate::polars_dsl::text_lit_of;
use crate::polars_dsl::unsigned_lit_of;
use crate::polars_dsl::with_column_of;
use crate::session::SECONDS_PER_DAY;
use crate::session::SECONDS_PER_HOUR;
use crate::session::SessionLabel;
use crate::session::label_text;
use crate::session::session_boundaries;
use crate::session::session_table_spec;

verus! {

/// What the recorded pipeline computes for one row's hour: the label an
/// ascending-threshold chain assigns — the first entry whose bound the
/// hour does not exceed wins, and an hour above every bound falls to the
/// `Undefined` fallback. [`crate::laws::lemma_scalar_columnar_agreement`]
/// proves this fold equal to the scalar rule on every hour of a day.
pub open spec fn table_session(
    table: Seq<(u32, SessionLabel)>,
    hour: int,
) -> SessionLabel
    decreases table.len(),
{
    if table.len() == 0 {
        SessionLabel::Undefined
    } else if hour <= table[0].0 {
        table[0].1
    } else {
        table_session(table.drop_first(), hour)
    }
}

/// The hour-of-day expression over the `time` column:
/// `(time mod 86400) div 3600`, elementwise.
pub open spec fn hour_expr_spec() -> Expr {
    div_of(
        rem_of(column_of("time"@), unsigned_lit_of(SECONDS_PER_DAY)),
        unsigned_lit_of(SECONDS_PER_HOUR),
    )
}

/// The threshold chain over a boundary table, as the expression the
/// pipeline records: one ternary per entry, first entry outermost, the
/// `Undefined` text as the innermost fallback.
pub open spec fn chain_expr_spec(table: Seq<(u32, SessionLabel)>) -> Expr
    decreases table.len(),
{
    if table.len() == 0 {
        text_lit_of(label_text(SessionLabel::Undefined))
    } else {
        ternary_of(
            lt_eq_of(hour_expr_spec(), unsigned_lit_of(table[0].0)),
            text_lit_of(label_text(table[0].1)),
            chain_expr_spec(table.drop_first()),
        )
    }
}

/// The whole recorded expression: the boundary table's threshold chain,
/// under the column name `Session`.
pub open spec fn session_expr_spec() -> Expr {
    alias_of(chain_expr_spec(session_table_spec()), "Session"@)
}

/// The hour-of-day expression, built through the trusted constructors.
fn hour_of_day_expr() -> (e: Expr)
    ensures
        e == hour_expr_spec(),
{
    expr_div(
        expr_rem(col_expr("time"), lit_unsigned(SECONDS_PER_DAY)),
        lit_unsigned(SECONDS_PER_HOUR),
    )
}

/// The whole rule as one column expression named `Session`: the boundary
/// table folded, last entry first, into nested ternaries around the
/// `Undefined` fallback.
fn session_column_expr() -> (e: Expr)
    ensures
        e == session_expr_spec(),
{
    let table = session_boundaries();
    let mut labelled: Expr = lit_text(SessionLabel::Undefined.to_text());
    let mut i: usize = table.len();
    proof {
        assert(table@.skip(i as int) =~= Seq::<(u32, SessionLabel)>::empty());
    }
    while i > 0
        invariant
            i <= table@.len(),
            table@ == session_table_spec(),
            labelled == chain_expr_spec(table@.skip(i as int)),
        decreases i,
    {
        i = i - 1;
        let bound = table[i].0;
        let label = table[i].1;
        let condition = expr_lt_eq(hour_of_day_expr(), lit_unsigned(bound));
        labelled = ternary(condition, lit_text(label.to_text()), labelled);
        proof {
            assert(table@.skip(i as int).drop_first() =~= table@.skip(i as int + 1));
            assert(table@.skip(i as int)[0] == table@[i as int]);
        }
    }
    proof {
        assert(table@.skip(0) =~= table@);
    }
    expr_alias(labelled, "Session")
}

/// Adds a `Session` column to a `LazyFrame` from the Unix-seconds
/// timestamps in its `time` column.
pub struct SessionColumn {
    pub lazyframe: LazyFrame,
}

impl SessionColumn {
    /// An annotator over the given lazy frame.
    pub fn new(lazyframe: LazyFrame) -> (r: SessionColumn)
        ensures
            r.lazyframe == lazyframe,
    {
        SessionColumn { lazyframe }
    }

    /// Records the session pipeline against the held frame: afterwards the
    /// held plan is exactly the old plan extended with the expression
    /// [`session_expr_spec`] — the boundary table's threshold chain over
    /// the hour of the `time` column, under the name `Session`. The work
    /// is deferred: the caller observes the column — one label per row,
    /// overwriting any earlier `Session` column — on materializing the
    /// frame, and a frame without an integer `time` column fails there,
    /// with polars' own error.
    pub fn apply_session_column(&mut self)
        ensures
            final(self).lazyframe == with_column_of(old(self).lazyframe, session_expr_spec()),
    {
        let expr = session_column_expr();
        let frame = lazyframe_clone(&self.lazyframe);
        self.lazyframe = lazyframe_with_column(frame, expr);
    }
}

} // verus!
