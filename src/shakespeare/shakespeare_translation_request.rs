use vstd::prelude::*;

verus! {

/// The body posted to the translator: the text to rewrite.
pub struct ShakespeareTranslationRequest {
    pub text: String,
}

impl ShakespeareTranslationRequest {
    pub fn new(text: String) -> (r: Self)
        ensures
            r.text@ == text@,
    {
        ShakespeareTranslationRequest { text }
    }
}

} // verus!
