use vstd::prelude::*;

verus! {

/// What `str::to_lowercase` returns for a given sequence of characters: a
/// function of the characters alone, left unspecified here.
pub uninterp spec fn lower_of(s: Seq<char>) -> Seq<char>;

/// The denomination derived at instantiation: the lower-cased
/// `<subunit>-<contract address>`, unique per deployment even when the same
/// subunit is reused.
pub open spec fn denom_of(subunit: Seq<char>, address: Seq<char>) -> Seq<char> {
    lower_of(subunit + "-"@ + address)
}

/// Relies on `str::to_lowercase` from std: the lowercase equivalent of the
/// string, determined by its characters alone.
#[verifier::external_body]
fn to_lower(s: &str) -> (r: String)
    ensures
        r@ == lower_of(s@),
{
    s.to_lowercase()
}

/// Builds the per-deployment denomination from the subunit and the
/// contract's own address.
pub fn make_denom(subunit: &str, address: &str) -> (r: String)
    ensures
        r@ == denom_of(subunit@, address@),
{
    let joined = String::from_str(subunit).concat("-").concat(address);
    to_lower(joined.as_str())
}

} // verus!
