//! The properties the classification rule is held to, stated and proved.
//!
//! The boundary table exists once, as [`session_table_spec`]; the threshold
//! chain that the columnar annotator records reads it as the fold
//! [`table_session`]. The agreement lemma below ties that fold back to the
//! scalar rule [`session_of_hour`], so the two evaluation paths cannot
//! drift. The columnar fallback label is deliberately unified with the
//! scalar one: both paths name hours outside the table `Undefined`.

use vstd::prelude::*;

use crate::column::table_session;
use crate::session::SessionLabel;
use crate::session::classify_spec;
use crate::session::hour_of_day_spec;
use crate::session::label_text;
use crate::session::session_of_hour;
use crate::session::session_table_spec;

verus! {

/// Agreement law: on every hour of a day, the ascending-threshold chain
/// over the boundary table assigns exactly the label of the scalar rule.
/// This holds on all 24 hours, 22 and 23 included, because the chain's
/// fallback label is unified with the scalar `Undefined`.
pub proof fn lemma_scalar_columnar_agreement(hour: int)
    requires
        0 <= hour < 24,
    ensures
        table_session(session_table_spec(), hour) == session_of_hour(hour),
{
    reveal_with_fuel(table_session, 7);
}

/// Range law: each documented hour range classifies to its documented
/// label, for every timestamp whose hour falls in the range.
pub proof fn lemma_classification_by_range(unix_timestamp: u32)
    ensures
        hour_of_day_spec(unix_timestamp) <= 6 ==> classify_spec(unix_timestamp)
            == SessionLabel::Tokyo,
        7 <= hour_of_day_spec(unix_timestamp) <= 8 ==> classify_spec(unix_timestamp)
            == SessionLabel::TokyoLondon,
        9 <= hour_of_day_spec(unix_timestamp) <= 12 ==> classify_spec(unix_timestamp)
            == SessionLabel::London,
        13 <= hour_of_day_spec(unix_timestamp) <= 15 ==> classify_spec(unix_timestamp)
            == SessionLabel::LondonNewYork,
        16 <= hour_of_day_spec(unix_timestamp) <= 21 ==> classify_spec(unix_timestamp)
            == SessionLabel::NewYork,
        22 <= hour_of_day_spec(unix_timestamp) ==> classify_spec(unix_timestamp)
            == SessionLabel::Undefined,
{
}

/// Day-periodicity law: only the time of day matters, so shifting a
/// timestamp by whole days never changes its classification.
pub proof fn lemma_day_periodicity(unix_timestamp: u32, days: u32)
    requires
        unix_timestamp + days * 86_400 <= u32::MAX,
    ensures
        classify_spec((unix_timestamp + days * 86_400) as u32) == classify_spec(unix_timestamp),
{
    vstd::arithmetic::div_mod::lemma_mod_multiples_vanish(
        days as int,
        unix_timestamp as int,
        86_400,
    );
}

/// A columnar dataset reduced to what the annotator reads and writes:
/// the `time` column and the `Session` column.
#[verifier::ext_equal]
pub struct FrameModel {
    pub times: Seq<u32>,
    pub session: Seq<Seq<char>>,
}

/// Annotation on the model: the `Session` column is overwritten with the
/// classification of each `time` value; the `time` column is untouched.
pub open spec fn annotate_model(m: FrameModel) -> FrameModel {
    FrameModel {
        times: m.times,
        session: m.times.map_values(|t: u32| label_text(classify_spec(t))),
    }
}

/// Idempotence law: annotating twice leaves the `Session` column exactly
/// as one application does, since the column is overwritten from the
/// unchanged `time` column, never accumulated.
pub proof fn lemma_annotate_idempotent(m: FrameModel)
    ensures
        annotate_model(annotate_model(m)) == annotate_model(m),
{
    assert(annotate_model(annotate_model(m)) =~~= annotate_model(m));
}

} // verus!
