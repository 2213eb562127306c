use vstd::prelude::*;

verus! {

/// The lowercase form of a character sequence. The mapping is pinned down
/// only as far as the callers need: it is a function of the characters
/// alone, applied by the one trusted wrapper below.
pub uninterp spec fn lower_of(s: Seq<char>) -> Seq<char>;

/// Relies on str::to_lowercase: the result is the Unicode lowercase mapping
/// of the input, a function of the input characters alone; an empty input
/// gives an empty result.
#[verifier::external_body]
fn to_lowercase_str(s: &str) -> (r: String)
    ensures
        r@ == lower_of(s@),
        s@.len() == 0 ==> r@.len() == 0,
{
    s.to_lowercase()
}

/// An administrative request to register token metadata, as the request
/// layer hands it over. The accessors normalize every textual field to
/// lowercase, so that chain and token lookups are case-insensitive.
#[derive(Clone, Debug)]
pub struct AddMetadataRequest {
    pub chain: String,
    pub currency: String,
    pub contract_address: String,
    pub exponent: i32,
    pub token_type: String,
    pub name: String,
}

impl AddMetadataRequest {
    pub fn get_chain(&self) -> (r: String)
        ensures
            r@ == lower_of(self.chain@),
    {
        to_lowercase_str(self.chain.as_str())
    }

    pub fn get_currency(&self) -> (r: String)
        ensures
            r@ == lower_of(self.currency@),
    {
        to_lowercase_str(self.currency.as_str())
    }

    pub fn get_contract_address(&self) -> (r: String)
        ensures
            r@ == lower_of(self.contract_address@),
    {
        to_lowercase_str(self.contract_address.as_str())
    }

    pub fn get_exponent(&self) -> (r: i32)
        ensures
            r == self.exponent,
    {
        self.exponent
    }

    pub fn get_token_type(&self) -> (r: String)
        ensures
            r@ == lower_of(self.token_type@),
    {
        to_lowercase_str(self.token_type.as_str())
    }

    pub fn get_name(&self) -> (r: String)
        ensures
            r@ == lower_of(self.name@),
    {
        to_lowercase_str(self.name.as_str())
    }
}

} // verus!
