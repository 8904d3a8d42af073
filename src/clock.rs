use vstd::prelude::*;

verus! {

/// Relies on uuid's `Uuid::new_v4` for a random identifier and on its
/// `Display`, which writes the hyphenated form: 32 hex digits and 4 hyphens.
#[verifier::external_body]
pub(crate) fn new_id() -> (r: String)
    ensures
        r@.len() == 36,
{
    uuid::Uuid::new_v4().to_string()
}

/// Relies on chrono's `Local::now` and `DateTime::to_rfc3339`: the current
/// local time as an RFC 3339 string. Nothing is promised of its value.
#[verifier::external_body]
pub(crate) fn now_rfc3339() -> (r: String) {
    chrono::Local::now().to_rfc3339()
}


/// Whether chrono's RFC 3339 parser accepts a string.
pub uninterp spec fn rfc3339_accepts(s: Seq<char>) -> bool;

/// The shape of a time written by the pattern `%Y-%m-%d %H:%M:%S`: at least
/// 19 characters, ending in `-MM-DD HH:MM:SS` (the year has at least four).
pub open spec fn local_stamp_shape(t: Seq<char>) -> bool {
    &&& t.len() >= 19
    &&& t[t.len() - 3] == ':'
    &&& t[t.len() - 6] == ':'
    &&& t[t.len() - 9] == ' '
    &&& t[t.len() - 12] == '-'
    &&& t[t.len() - 15] == '-'
}

/// Relies on chrono's `DateTime::parse_from_rfc3339`, then
/// `with_timezone(&Local)` and `format("%Y-%m-%d %H:%M:%S")`: the stamp
/// shown in local time, or `None` where the parser refuses it. chrono's
/// strftime table writes `%Y` with at least four digits and `%m %d %H %M %S`
/// zero-padded to two; the pattern is fixed because an unknown specifier
/// would make `to_string` panic.
#[verifier::external_body]
pub(crate) fn local_display(stamp: &str, pattern: &str) -> (r: Option<String>)
    requires
        pattern@ == "%Y-%m-%d %H:%M:%S"@,
    ensures
        r is Some <==> rfc3339_accepts(stamp@),
        r matches Some(t) ==> local_stamp_shape(t@),
{
    match chrono::DateTime::parse_from_rfc3339(stamp) {
        Ok(dt) => Some(dt.with_timezone(&chrono::Local).format(pattern).to_string()),
        Err(_) => None,
    }
}

} // verus!
