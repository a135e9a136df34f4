use vstd::prelude::*;

verus! {

/// A session, by the 128-bit value of its identifier.
pub type SessionId = u128;

/// The text of an identifier: its value in lower-case hexadecimal, grouped by hyphens.
pub uninterp spec fn id_text(id: u128) -> Seq<char>;

/// `uuid::Uuid::to_string` on the identifier with that 128-bit value: the
/// hyphenated lower-case text. It depends on the value alone.
#[verifier::external_body]
pub(crate) fn id_to_text(id: u128) -> (r: String)
    ensures
        r@ == id_text(id),
{
    uuid::Uuid::from_u128(id).to_string()
}

/// The bits of an identifier that hold its version and its variant.
pub const VERSION_AND_VARIANT_BITS: u128 = 0x0000_0000_0000_f000_c000_0000_0000_0000;

/// Those bits in a random identifier: version 4, variant 1.
pub const RANDOM_VERSION_AND_VARIANT: u128 = 0x0000_0000_0000_4000_8000_0000_0000_0000;

/// `uuid::Uuid::new_v4`: a random identifier, as its 128-bit value. Of the
/// value only the version and variant bits are known. The call does not
/// return where the system hands out no random bytes.
#[verifier::external_body]
pub(crate) fn fresh_id() -> (r: u128)
    ensures
        r & VERSION_AND_VARIANT_BITS == RANDOM_VERSION_AND_VARIANT,
{
    uuid::Uuid::new_v4().as_u128()
}

/// `chrono::Utc::now`: the time of the call, in whole seconds since the
/// epoch. Nothing is promised of the value; the call does not return on a
/// machine whose clock stands before the epoch.
#[verifier::external_body]
pub(crate) fn now_seconds() -> (r: i64)
{
    chrono::Utc::now().timestamp()
}

} // verus!
