use vstd::prelude::*;
use vstd::string::StringExecFns;

verus! {

/// Why a translation failed.
#[derive(Debug, Clone, Copy, PartialEq, Eq, Structural)]
pub enum ShakespeareClientException {
    /// The translator has no translation for the text.
    TranslationNotFound,
    /// The translator could not be reached, or answered unexpectedly.
    ShakespeareClientWentWrong,
}

impl ShakespeareClientException {
    pub open spec fn spec_message(self) -> Seq<char> {
        match self {
            ShakespeareClientException::TranslationNotFound => "Translation not found"@,
            ShakespeareClientException::ShakespeareClientWentWrong => "Unable to process the request"@,
        }
    }

    pub open spec fn spec_name(self) -> Seq<char> {
        match self {
            ShakespeareClientException::TranslationNotFound => "TranslationNotFound"@,
            ShakespeareClientException::ShakespeareClientWentWrong => "ShakespeareClientWentWrong"@,
        }
    }

    /// A human-readable sentence for the error.
    pub fn message(&self) -> (r: String)
        ensures
            r@ == self.spec_message(),
    {
        match self {
            ShakespeareClientException::TranslationNotFound => String::from_str(
                "Translation not found",
            ),
            ShakespeareClientException::ShakespeareClientWentWrong => String::from_str(
                "Unable to process the request",
            ),
        }
    }

    /// The variant's name, as it appears in a serialised error.
    pub fn name(&self) -> (r: String)
        ensures
            r@ == self.spec_name(),
    {
        match self {
            ShakespeareClientException::TranslationNotFound => String::from_str(
                "TranslationNotFound",
            ),
            ShakespeareClientException::ShakespeareClientWentWrong => String::from_str(
                "ShakespeareClientWentWrong",
            ),
        }
    }
}

} // verus!
