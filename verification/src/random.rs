//! The operating system's random source.
use vstd::prelude::*;
use vstd::string::to_string_from_display_ensures;

verus! {

/// The failure of the random source (`getrandom::Error`), carried through
/// unopened.
#[verifier::external_type_specification]
#[verifier::external_body]
pub struct ExRandomError(getrandom::Error);

/// Fills a buffer with random bytes (`getrandom::fill`). Which bytes come back,
/// and whether the source is available, is chance: nothing is claimed of either.
#[verifier::external_body]
fn fill<const N: usize>() -> (r: Result<[u8; N], getrandom::Error>) {
    let mut buf = [0u8; N];
    getrandom::fill(&mut buf)?;
    Ok(buf)
}

/// Whether bytes are a draw of `N` from the random source, rather than any others.
pub closed spec fn drawn<const N: usize>(bytes: Seq<u8>) -> bool {
    exists|buf: [u8; N]| buf@ == bytes && #[trigger] call_ensures(fill::<N>, (), Ok(buf))
}

/// Whether the random source may fail so to give `N` bytes.
pub closed spec fn failed<const N: usize>(e: getrandom::Error) -> bool {
    call_ensures(fill::<N>, (), Err(e))
}

/// Whether the random source failed to give `N` bytes.
pub open spec fn unavailable<const N: usize>() -> bool {
    exists|e: getrandom::Error| #[trigger] failed::<N>(e)
}

/// Whether a text is what the failure of the random source to give `N` bytes says of
/// itself.
pub open spec fn unavailable_saying<const N: usize>(text: String) -> bool {
    exists|e: getrandom::Error| #[trigger]
        failed::<N>(e) && to_string_from_display_ensures(&e, text)
}

/// Draws `N` random bytes.
pub(crate) fn random_bytes<const N: usize>() -> (r: Result<[u8; N], getrandom::Error>)
    ensures
        r is Ok ==> drawn::<N>(r->Ok_0@),
        r is Err ==> failed::<N>(r->Err_0),
{
    match fill::<N>() {
        Ok(buf) => {
            proof {
                assert(drawn::<N>(buf@));
            }
            Ok(buf)
        },
        Err(e) => Err(e),
    }
}

} // verus!
