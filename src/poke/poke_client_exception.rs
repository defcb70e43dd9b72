use vstd::prelude::*;
use vstd::string::StringExecFns;

verus! {

/// Why a description lookup failed.
#[derive(Debug, Clone, Copy, PartialEq, Eq, Structural)]
pub enum PokeClientException {
    /// The lookup service does not know the name.
    PokemonNotFound,
    /// The entry exists but holds no English description.
    PokemonDescriptionNotFound,
    /// The lookup service could not be reached, or answered unexpectedly.
    PokeClientWentWrong,
}

impl PokeClientException {
    pub open spec fn spec_message(self) -> Seq<char> {
        match self {
            PokeClientException::PokemonNotFound => "Pokemon Not Found"@,
            PokeClientException::PokemonDescriptionNotFound => "Pokemon Description Not Found"@,
            PokeClientException::PokeClientWentWrong => "Unable to process the request"@,
        }
    }

    pub open spec fn spec_name(self) -> Seq<char> {
        match self {
            PokeClientException::PokemonNotFound => "PokemonNotFound"@,
            PokeClientException::PokemonDescriptionNotFound => "PokemonDescriptionNotFound"@,
            PokeClientException::PokeClientWentWrong => "PokeClientWentWrong"@,
        }
    }

    /// A human-readable sentence for the error.
    pub fn message(&self) -> (r: String)
        ensures
            r@ == self.spec_message(),
    {
        match self {
            PokeClientException::PokemonNotFound => String::from_str("Pokemon Not Found"),
            PokeClientException::PokemonDescriptionNotFound => String::from_str(
                "Pokemon Description Not Found",
            ),
            PokeClientException::PokeClientWentWrong => String::from_str(
                "Unable to process the request",
            ),
        }
    }

    /// The variant's name, as it appears in a serialised error.
    pub fn name(&self) -> (r: String)
        ensures
            r@ == self.spec_name(),
    {
        match self {
            PokeClientException::PokemonNotFound => String::from_str("PokemonNotFound"),
            PokeClientException::PokemonDescriptionNotFound => String::from_str(
                "PokemonDescriptionNotFound",
            ),
            PokeClientException::PokeClientWentWrong => String::from_str("PokeClientWentWrong"),
        }
    }
}

} // verus!
