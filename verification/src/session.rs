//! The trading-session classification rule and its scalar evaluators.
//!
//! A Unix-seconds timestamp is reduced to its UTC hour of day, and the hour
//! is mapped to a session label through a fixed table of ascending,
//! inclusive upper bounds. All timestamps are taken as UTC; daylight-saving
//! time is deliberately not considered.

use vstd::prelude::*;

verus! {

/// Seconds in one day.
pub const SECONDS_PER_DAY: u32 = 86_400;

/// Seconds in one hour.
pub const SECONDS_PER_HOUR: u32 = 3_600;

/// The closed set of trading-session labels.
#[derive(Clone, Copy, PartialEq, Eq, Structural, Debug)]
pub enum SessionLabel {
    Tokyo,
    TokyoLondon,
    London,
    LondonNewYork,
    NewYork,
    Undefined,
}

/// UTC hour of day of a Unix-seconds timestamp: `(ts mod 86400) div 3600`.
pub open spec fn hour_of_day_spec(unix_timestamp: u32) -> int {
    ((unix_timestamp as int) % (SECONDS_PER_DAY as int)) / (SECONDS_PER_HOUR as int)
}

/// The single classification rule: ascending inclusive upper bounds,
/// first match wins, every hour outside the named ranges is `Undefined`.
pub open spec fn session_of_hour(hour: int) -> SessionLabel {
    if hour <= 6 {
        SessionLabel::Tokyo
    } else if hour <= 8 {
        SessionLabel::TokyoLondon
    } else if hour <= 12 {
        SessionLabel::London
    } else if hour <= 15 {
        SessionLabel::LondonNewYork
    } else if hour <= 21 {
        SessionLabel::NewYork
    } else {
        SessionLabel::Undefined
    }
}

/// The label a timestamp classifies to.
pub open spec fn classify_spec(unix_timestamp: u32) -> SessionLabel {
    session_of_hour(hour_of_day_spec(unix_timestamp))
}

/// The boundary table — the one statement of the rule as data: ascending
/// inclusive upper bounds, each with the label of the hours at or below
/// it (and above the bound before it). Hours above every bound fall to
/// `Undefined`.
pub open spec fn session_table_spec() -> Seq<(u32, SessionLabel)> {
    seq![
        (6u32, SessionLabel::Tokyo),
        (8u32, SessionLabel::TokyoLondon),
        (12u32, SessionLabel::London),
        (15u32, SessionLabel::LondonNewYork),
        (21u32, SessionLabel::NewYork),
    ]
}

/// The boundary table as an executable vector. Both evaluation paths fold
/// over this one table: the scalar [`classify_hour`] walks it first entry
/// first, and the columnar pipeline in [`crate::column`] is built from it.
pub fn session_boundaries() -> (table: Vec<(u32, SessionLabel)>)
    ensures
        table@ == session_table_spec(),
{
    let mut table: Vec<(u32, SessionLabel)> = Vec::new();
    table.push((6, SessionLabel::Tokyo));
    table.push((8, SessionLabel::TokyoLondon));
    table.push((12, SessionLabel::London));
    table.push((15, SessionLabel::LondonNewYork));
    table.push((21, SessionLabel::NewYork));
    proof {
        assert(table@ =~= session_table_spec());
    }
    table
}

/// The display text of each label.
pub open spec fn label_text(label: SessionLabel) -> Seq<char> {
    match label {
        SessionLabel::Tokyo => "Tokyo"@,
        SessionLabel::TokyoLondon => "Tokyo_London"@,
        SessionLabel::London => "London"@,
        SessionLabel::LondonNewYork => "London_NewYork"@,
        SessionLabel::NewYork => "NewYork"@,
        SessionLabel::Undefined => "Undefined"@,
    }
}

impl SessionLabel {
    /// The display text of this label, as an owned string.
    pub fn to_text(self) -> (s: String)
        ensures
            s@ == label_text(self),
    {
        match self {
            SessionLabel::Tokyo => "Tokyo".to_owned(),
            SessionLabel::TokyoLondon => "Tokyo_London".to_owned(),
            SessionLabel::London => "London".to_owned(),
            SessionLabel::LondonNewYork => "London_NewYork".to_owned(),
            SessionLabel::NewYork => "NewYork".to_owned(),
            SessionLabel::Undefined => "Undefined".to_owned(),
        }
    }
}

/// UTC hour of day of a Unix-seconds timestamp.
pub fn hour_of_day(unix_timestamp: u32) -> (hour: u32)
    ensures
        hour as int == hour_of_day_spec(unix_timestamp),
        hour < 24,
{
    (unix_timestamp % SECONDS_PER_DAY) / SECONDS_PER_HOUR
}

/// Map an hour of day to its session label: the first boundary-table
/// entry whose bound the hour does not exceed wins, and an hour above
/// every bound is `Undefined`.
pub fn classify_hour(hour: u32) -> (label: SessionLabel)
    ensures
        label == session_of_hour(hour as int),
{
    let table = session_boundaries();
    let mut i: usize = 0;
    while i < table.len()
        invariant
            i <= table@.len(),
            table@ == session_table_spec(),
            forall|j: int| 0 <= j < i ==> hour > #[trigger] table@[j].0,
        decreases table@.len() - i,
    {
        if hour <= table[i].0 {
            proof {
                let t = session_table_spec();
                assert(t[0].0 == 6 && t[1].0 == 8 && t[2].0 == 12 && t[3].0 == 15
                    && t[4].0 == 21);
                assert(t[0].1 == SessionLabel::Tokyo && t[1].1 == SessionLabel::TokyoLondon
                    && t[2].1 == SessionLabel::London && t[3].1 == SessionLabel::LondonNewYork
                    && t[4].1 == SessionLabel::NewYork);
                assert(forall|j: int| 0 <= j < i ==> hour > #[trigger] t[j].0);
            }
            return table[i].1;
        }
        i = i + 1;
    }
    proof {
        assert(hour > session_table_spec()[4].0);
    }
    SessionLabel::Undefined
}

/// Identifies the trading session of a stored Unix-seconds timestamp.
pub struct IdentifyTradingSession {
    pub unix_timestamp: u32,
}

impl IdentifyTradingSession {
    /// A classifier for the given Unix-seconds timestamp.
    pub fn new(unix_timestamp: u32) -> (r: Self)
        ensures
            r.unix_timestamp == unix_timestamp,
    {
        IdentifyTradingSession { unix_timestamp }
    }

    /// The session label of the stored timestamp, as display text.
    pub fn identify_trading_session(&self) -> (s: String)
        ensures
            s@ == label_text(classify_spec(self.unix_timestamp)),
    {
        let hour = hour_of_day(self.unix_timestamp);
        let label = classify_hour(hour);
        label.to_text()
    }
}

/// Verifies a claimed session label against a timestamp's classification.
pub struct SessionVerification {
    pub unix_timestamp: u32,
    pub session: String,
}

impl SessionVerification {
    /// A verifier for the given timestamp and claimed label text.
    pub fn new(unix_timestamp: u32, session: String) -> (r: Self)
        ensures
            r.unix_timestamp == unix_timestamp,
            r.session == session,
    {
        SessionVerification { unix_timestamp, session }
    }

    /// True exactly when the claimed text equals the classified label's text.
    ///
    /// This delegates to [`IdentifyTradingSession`]; it holds no boundary
    /// logic of its own.
    pub fn verify(&self) -> (r: bool)
        ensures
            r == (self.session@ == label_text(classify_spec(self.unix_timestamp))),
    {
        let identifier = IdentifyTradingSession::new(self.unix_timestamp);
        let identified = identifier.identify_trading_session();
        self.session == identified
    }
}

} // verus!
