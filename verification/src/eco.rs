use vstd::prelude::*;
use ecow::EcoString;

verus! {

#[verifier::external_type_specification]
#[verifier::external_body]
pub struct ExEcoString(ecow::EcoString);

/// The characters that an `EcoString` holds, in order.
pub uninterp spec fn eco_chars(s: EcoString) -> Seq<char>;

/// The most characters that the strings built here may hold: far below the
/// point where `EcoString`'s buffer growth would overflow its capacity.
pub open spec fn eco_len_limit() -> nat {
    0x100_0000
}

/// Calls `<EcoString as From<&str>>::from`, which copies the bytes of `s`:
/// the new string holds exactly the characters of `s`.
#[verifier::external_body]
pub(crate) fn eco_from_str(s: &str) -> (r: EcoString)
    ensures
        eco_chars(r) == s@,
{
    EcoString::from(s)
}

/// Calls `EcoString::push_str`, which appends the bytes of `t`: afterwards
/// the string holds its old characters followed by those of `t`. The call
/// panics only when the buffer would outgrow `isize::MAX` bytes, which the
/// length bound rules out.
#[verifier::external_body]
pub(crate) fn eco_push_str(s: &mut EcoString, t: &str)
    requires
        eco_chars(*old(s)).len() + t@.len() <= eco_len_limit(),
    ensures
        eco_chars(*final(s)) == eco_chars(*old(s)) + t@,
{
    s.push_str(t)
}

/// Calls `EcoString::as_str`, which gives the string's contents as a slice.
#[verifier::external_body]
pub(crate) fn eco_as_str<'a>(s: &'a EcoString) -> (r: &'a str)
    ensures
        r@ == eco_chars(*s),
{
    s.as_str()
}

} // verus!
