use vstd::prelude::*;

verus! {

/// The HTTP-date (IMF-fixdate, as in `Fri, 15 May 2015 15:34:21 GMT`) of
/// the instant that lies the given number of seconds after the Unix epoch.
pub uninterp spec fn http_date_text(unix_seconds: u64) -> Seq<char>;

/// The first instant, in seconds after the Unix epoch, that has no
/// HTTP-date: the start of the year 10000.
pub const HTTP_DATE_END: u64 = 253_402_300_800;

/// `httpdate::fmt_http_date`: the HTTP-date of the instant `unix_seconds`
/// after the epoch. The outside function panics from the year 10000 on.
#[verifier::external_body]
pub(crate) fn fmt_http_date(unix_seconds: u64) -> (text: String)
    requires
        unix_seconds < HTTP_DATE_END,
    ensures
        text@ == http_date_text(unix_seconds),
{
    httpdate::fmt_http_date(std::time::UNIX_EPOCH + std::time::Duration::from_secs(unix_seconds))
}

/// The value of a `Date` header for the instant `unix_seconds` after the
/// Unix epoch, or `None` where the instant lies beyond the year 9999.
pub fn http_date(unix_seconds: u64) -> (r: Option<String>)
    ensures
        r is Some <==> unix_seconds < HTTP_DATE_END,
        r matches Some(text) ==> text@ == http_date_text(unix_seconds),
{
    if unix_seconds < HTTP_DATE_END {
        Some(fmt_http_date(unix_seconds))
    } else {
        None
    }
}

} // verus!
