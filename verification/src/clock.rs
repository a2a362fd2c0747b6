//! Reading the clock for a token's expiry.
use vstd::prelude::*;
use crate::claims::EXPIRY_SPAN_LIMIT;

verus! {

/// An expiry time read from the clock: the RFC 3339 text of the current time
/// plus `offset` seconds, where `offset` is the number of seconds it was
/// read for. Only `expiration_after` makes one.
pub struct Expiry {
    text: String,
    offset: Ghost<i64>,
}

impl View for Expiry {
    type V = Seq<char>;

    closed spec fn view(&self) -> Seq<char> {
        self.text@
    }
}

impl Expiry {
    /// The number of seconds after the current time this expiry was read for.
    pub closed spec fn offset(&self) -> i64 {
        self.offset@
    }

    /// The RFC 3339 text of the expiry.
    pub fn text(&self) -> (r: String)
        ensures
            r@ == self@,
    {
        self.text.clone()
    }
}

/// `Utc::now().checked_add_signed(Duration::seconds(seconds))` as an RFC 3339
/// text, or nothing on overflow; the expiry records the `seconds` it was read
/// for. It reads the clock, so nothing is stated of the text. Dates run from
/// year -262143 to 262142, less than `EXPIRY_SPAN_LIMIT` seconds in all, so a
/// longer offset overflows from any date. `Duration::seconds` panics beyond
/// `i64::MAX / 1000` seconds either way, so such values are left out.
#[verifier::external_body]
pub(crate) fn expiration_after(seconds: i64) -> (r: Option<Expiry>)
    requires
        -(i64::MAX / 1000) <= seconds <= i64::MAX / 1000,
    ensures
        seconds > EXPIRY_SPAN_LIMIT || seconds < -EXPIRY_SPAN_LIMIT ==> r is None,
        r matches Some(e) ==> e.offset() == seconds,
{
    chrono::Utc::now()
        .checked_add_signed(chrono::Duration::seconds(seconds))
        .map(|t| Expiry { text: t.to_rfc3339(), offset: Ghost(seconds) })
}

} // verus!
