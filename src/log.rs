//! Lines of the server's event log.
use crate::timestamp::{utc_now, CalendarTime};
use vstd::prelude::*;

verus! {

/// What `str::to_uppercase` gives for a string.
pub uninterp spec fn upper_of(s: Seq<char>) -> Seq<char>;

/// Relies on str::to_uppercase: the result depends on the characters alone.
#[verifier::external_body]
fn to_upper(s: &str) -> (r: String)
    ensures
        r@ == upper_of(s@),
{
    s.to_uppercase()
}

/// `[LEVEL] | message`, as shown on the console.
pub open spec fn statement_spec(level: Seq<char>, msg: Seq<char>) -> Seq<char> {
    "["@ + upper_of(level) + "] | "@ + msg
}

/// `[LEVEL] | message` for an event of `level`.
pub fn statement(level: &str, msg: &str) -> (r: String)
    ensures
        r@ == statement_spec(level@, msg@),
{
    let mut s = "[".to_owned();
    let up = to_upper(level);
    s.append(up.as_str());
    s.append("] | ");
    s.append(msg);
    s
}

/// `timestamp [LEVEL] | message` and a line end, as kept in the log file.
pub fn log_line(when: &CalendarTime, level: &str, msg: &str) -> (r: String)
    ensures
        r@ == when.stamp_spec() + " "@ + statement_spec(level@, msg@) + "\n"@,
{
    let mut s = when.stamp();
    s.append(" ");
    let st = statement(level, msg);
    s.append(st.as_str());
    s.append("\n");
    s
}

/// The log line for an event of `level` happening now, by the UTC clock.
pub fn log_line_now(level: &str, msg: &str) -> (r: String)
    ensures
        exists|t: CalendarTime|
            t.wf() && r@ == #[trigger] t.stamp_spec() + " "@ + statement_spec(level@, msg@) + "\n"@,
{
    let now = utc_now();
    log_line(&now, level, msg)
}

} // verus!
