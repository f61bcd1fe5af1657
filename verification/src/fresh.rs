//! Values that only the random generator and the clock hand out: a `FreshNonce` is
//! made only by drawing from `rand`, a `ClockTime` only by reading `chrono`'s UTC
//! clock. Their contents are private to this module, so code elsewhere can neither
//! make one up nor learn more of it than what the drawing functions state.

use rand::RngExt;
use vstd::prelude::*;

use crate::wsse::{is_utc_created, CREATED_FORMAT};

verus! {

/// 16 bytes drawn from the thread-local random generator.
pub struct FreshNonce {
    bytes: Vec<u8>,
}

impl FreshNonce {
    /// The drawn bytes.
    pub closed spec fn bytes(&self) -> Seq<u8> {
        self.bytes@
    }

    /// The drawn bytes.
    pub fn as_slice(&self) -> (r: &[u8])
        ensures
            r@ == self.bytes(),
    {
        self.bytes.as_slice()
    }
}

/// The UTC time read from the clock, written `YYYY-MM-DDThh:mm:ssZ`.
pub struct ClockTime {
    text: String,
}

impl ClockTime {
    /// The text of the reading.
    pub closed spec fn text(&self) -> Seq<char> {
        self.text@
    }

    /// The text of the reading.
    pub fn as_str(&self) -> (r: &str)
        ensures
            r@ == self.text(),
    {
        self.text.as_str()
    }
}

/// Draws 16 bytes from `rand::rng()` (the thread-local generator) with
/// `RngExt::random::<[u8; 16]>`. Claimed: only that 16 bytes come back; which ones
/// is chance. The generator panics if the operating system refuses it entropy.
#[verifier::external_body]
pub(crate) fn random_nonce() -> (r: FreshNonce)
    ensures
        r.bytes().len() == 16,
{
    FreshNonce { bytes: rand::rng().random::<[u8; 16]>().to_vec() }
}

/// Formats `chrono::Utc::now()` with `DateTime::format` and the given pattern.
/// Which instant is written depends on the clock; claimed is only the shape that
/// every instant takes under the pattern: `%Y` writes a year from 1970 on (`now`
/// panics on a clock before the Unix epoch) as four digits, or with `+` and at least
/// five digits past 9999; `%m %d %H %M %S` write two digits each. The pattern is held
/// to the library's one pattern, which `chrono` accepts (an invalid one would make
/// `to_string` panic).
#[verifier::external_body]
pub(crate) fn utc_now_text(pattern: &str) -> (r: ClockTime)
    requires
        pattern@ == CREATED_FORMAT@,
    ensures
        is_utc_created(r.text()),
{
    ClockTime { text: chrono::Utc::now().format(pattern).to_string() }
}

} // verus!
