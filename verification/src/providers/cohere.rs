//! The shape of a Cohere chat response and the extraction of its
//! generated text.

use vstd::prelude::*;

verus! {

/// Token accounting reported with a generation.
pub struct TokenCount {
    pub prompt_tokens: u32,
    pub response_tokens: u32,
    pub total_tokens: u32,
    pub billed_tokens: u32,
}

/// The API version a response was served under.
pub struct ApiVersion {
    pub version: String,
}

/// Billed input and output volume.
pub struct BilledUnits {
    pub input_tokens: u32,
    pub output_tokens: u32,
}

/// Response metadata.
pub struct Meta {
    pub api_version: ApiVersion,
    pub billed_units: BilledUnits,
}

/// A whole chat response; the generated text sits directly in `text`.
pub struct CohereResponse {
    pub response_id: String,
    pub text: String,
    pub generation_id: String,
    pub token_count: TokenCount,
    pub meta: Meta,
}

/// The generated text of a response, verbatim.
pub fn extract_text(resp: &CohereResponse) -> (r: String)
    ensures
        r@ == resp.text@,
{
    resp.text.clone()
}

} // verus!
