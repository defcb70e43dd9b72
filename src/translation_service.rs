use vstd::prelude::*;
use vstd::string::StringExecFns;

use crate::poke::poke_client::{
    get_pokemon_description, poke_species_url, pokemon_description_outcome,
    spec_poke_species_url,
};
use crate::poke::poke_client_exception::PokeClientException;
use crate::poke::poke_species_response::PokeSpeciesResponse;
use crate::settings::Application;
use crate::shakespeare::shakespeare_client::{
    get_shakespearean_translation, shakespearean_translation_outcome,
};
use crate::shakespeare::shakespeare_client_exception::ShakespeareClientException;
use crate::shakespeare::shakespeare_translation_request::ShakespeareTranslationRequest;
use crate::shakespeare::shakespeare_translation_response::ShakespeareTranslationResponse;
use crate::upstream::{STATUS_INTERNAL_SERVER_ERROR, STATUS_NOT_FOUND, STATUS_OK, UpstreamReply};

verus! {

/// A failure of a request, tagged with the stage it came from: the lookup of
/// the description or its translation.
#[derive(Debug, Clone, Copy, PartialEq, Eq, Structural)]
pub enum ShakespearemonException {
    PokeClientException(PokeClientException),
    ShakespeareClientException(ShakespeareClientException),
}

/// The content type of every body this service answers with.
pub open spec fn spec_json_content_type() -> Seq<char> {
    "application/json; charset=utf-8"@
}

/// An error as it goes out: its status, content type and body.
pub struct ErrorResponse {
    pub status: u16,
    pub content_type: String,
    pub body: String,
}

impl ShakespearemonException {
    /// The status each error maps to: "not found" for an unknown name, a
    /// missing English description or a missing translation; an internal
    /// error when either upstream failed.
    pub open spec fn spec_status_code(self) -> u16 {
        match self {
            ShakespearemonException::PokeClientException(e) => match e {
                PokeClientException::PokemonNotFound => STATUS_NOT_FOUND,
                PokeClientException::PokemonDescriptionNotFound => STATUS_NOT_FOUND,
                PokeClientException::PokeClientWentWrong => STATUS_INTERNAL_SERVER_ERROR,
            },
            ShakespearemonException::ShakespeareClientException(e) => match e {
                ShakespeareClientException::TranslationNotFound => STATUS_NOT_FOUND,
                ShakespeareClientException::ShakespeareClientWentWrong => STATUS_INTERNAL_SERVER_ERROR,
            },
        }
    }

    pub open spec fn spec_stage_name(self) -> Seq<char> {
        match self {
            ShakespearemonException::PokeClientException(_) => "PokeClientException"@,
            ShakespearemonException::ShakespeareClientException(_) => "ShakespeareClientException"@,
        }
    }

    pub open spec fn spec_kind_name(self) -> Seq<char> {
        match self {
            ShakespearemonException::PokeClientException(e) => e.spec_name(),
            ShakespearemonException::ShakespeareClientException(e) => e.spec_name(),
        }
    }

    /// The error as a JSON object whose one key is the stage and whose value
    /// is the kind, e.g. `{"PokeClientException":"PokemonNotFound"}`.
    pub open spec fn spec_error_body(self) -> Seq<char> {
        "{\""@ + self.spec_stage_name() + "\":\""@ + self.spec_kind_name() + "\"}"@
    }

    pub open spec fn spec_message(self) -> Seq<char> {
        match self {
            ShakespearemonException::PokeClientException(e) => e.spec_message(),
            ShakespearemonException::ShakespeareClientException(e) => e.spec_message(),
        }
    }

    pub fn status_code(&self) -> (r: u16)
        ensures
            r == self.spec_status_code(),
    {
        match self {
            ShakespearemonException::PokeClientException(e) => match e {
                PokeClientException::PokemonNotFound => STATUS_NOT_FOUND,
                PokeClientException::PokemonDescriptionNotFound => STATUS_NOT_FOUND,
                PokeClientException::PokeClientWentWrong => STATUS_INTERNAL_SERVER_ERROR,
            },
            ShakespearemonException::ShakespeareClientException(e) => match e {
                ShakespeareClientException::TranslationNotFound => STATUS_NOT_FOUND,
                ShakespeareClientException::ShakespeareClientWentWrong => STATUS_INTERNAL_SERVER_ERROR,
            },
        }
    }

    /// A human-readable sentence for the error.
    pub fn message(&self) -> (r: String)
        ensures
            r@ == self.spec_message(),
    {
        match self {
            ShakespearemonException::PokeClientException(e) => e.message(),
            ShakespearemonException::ShakespeareClientException(e) => e.message(),
        }
    }

    /// The JSON body that describes the error.
    pub fn error_body(&self) -> (r: String)
        ensures
            r@ == self.spec_error_body(),
    {
        let (stage, kind) = match self {
            ShakespearemonException::PokeClientException(e) => (
                String::from_str("PokeClientException"),
                e.name(),
            ),
            ShakespearemonException::ShakespeareClientException(e) => (
                String::from_str("ShakespeareClientException"),
                e.name(),
            ),
        };
        let mut body = String::from_str("{\"");
        body.append(stage.as_str());
        body.append("\":\"");
        body.append(kind.as_str());
        body.append("\"}");
        body
    }

    /// The response that reports the error: its mapped status, a JSON content
    /// type and the JSON body.
    pub fn error_response(&self) -> (r: ErrorResponse)
        ensures
            r.status == self.spec_status_code(),
            r.content_type@ == spec_json_content_type(),
            r.body@ == self.spec_error_body(),
    {
        ErrorResponse {
            status: self.status_code(),
            content_type: String::from_str("application/json; charset=utf-8"),
            body: self.error_body(),
        }
    }
}

/// The answer to a successful request: the name exactly as the caller gave
/// it, and the translated description.
pub struct ShakespearemonResponse {
    pub name: String,
    pub description: String,
}

/// The call to make to the translator: where to post, and what.
pub struct TranslationCall {
    pub url: String,
    pub request: ShakespeareTranslationRequest,
}

/// What the lookup stage yields: the description, or the error tagged as
/// coming from the lookup.
pub open spec fn lookup_stage(
    reply: UpstreamReply<PokeSpeciesResponse>,
) -> Result<Seq<char>, ShakespearemonException> {
    match pokemon_description_outcome(reply) {
        Ok(text) => Ok(text),
        Err(e) => Err(ShakespearemonException::PokeClientException(e)),
    }
}

/// What the translation stage yields: the translated text, or the error
/// tagged as coming from the translation.
pub open spec fn translation_stage(
    reply: UpstreamReply<ShakespeareTranslationResponse>,
) -> Result<Seq<char>, ShakespearemonException> {
    match shakespearean_translation_outcome(reply) {
        Ok(text) => Ok(text),
        Err(e) => Err(ShakespearemonException::ShakespeareClientException(e)),
    }
}

/// The whole request for `name`, given the lookup's reply and the reply the
/// translator would give: the pair (name, description) when both succeed,
/// otherwise the first error. The translator's reply matters only when the
/// lookup succeeded.
pub open spec fn shakespearemon_outcome(
    name: Seq<char>,
    lookup: UpstreamReply<PokeSpeciesResponse>,
    translation: UpstreamReply<ShakespeareTranslationResponse>,
) -> Result<(Seq<char>, Seq<char>), ShakespearemonException> {
    match lookup_stage(lookup) {
        Err(e) => Err(e),
        Ok(_) => match translation_stage(translation) {
            Err(e) => Err(e),
            Ok(description) => Ok((name, description)),
        },
    }
}

/// The name and description of a response, with the error left as it is.
pub open spec fn response_view(
    r: Result<ShakespearemonResponse, ShakespearemonException>,
) -> Result<(Seq<char>, Seq<char>), ShakespearemonException> {
    match r {
        Ok(resp) => Ok((resp.name@, resp.description@)),
        Err(e) => Err(e),
    }
}

/// The status a request's result is answered with: `200` on success, the
/// error's mapped status otherwise.
pub open spec fn spec_outcome_status<T>(r: Result<T, ShakespearemonException>) -> u16 {
    match r {
        Ok(_) => STATUS_OK,
        Err(e) => e.spec_status_code(),
    }
}

/// The address of the description of `name` at the lookup service.
pub fn description_url(application: &Application, name: &str) -> (r: String)
    ensures
        r@ == spec_poke_species_url(application.poke_api_base_url@, name@),
{
    poke_species_url(application.poke_api_base_url.as_str(), name)
}

/// Decides, from the lookup's reply, either the call to make to the
/// translator (with the description found) or the error that ends the
/// request, in which case the translator is not called.
pub fn plan_translation(
    application: &Application,
    reply: UpstreamReply<PokeSpeciesResponse>,
) -> (r: Result<TranslationCall, ShakespearemonException>)
    ensures
        match lookup_stage(reply) {
            Ok(text) => {
                &&& r is Ok
                &&& r->Ok_0.url@ == application.shakespeare_translator_api_base_url@
                &&& r->Ok_0.request.text@ == text
            },
            Err(e) => r == Err::<TranslationCall, ShakespearemonException>(e),
        },
{
    match get_pokemon_description(reply) {
        Ok(text) => Ok(
            TranslationCall {
                url: application.shakespeare_translator_api_base_url.clone(),
                request: ShakespeareTranslationRequest::new(text),
            },
        ),
        Err(e) => Err(ShakespearemonException::PokeClientException(e)),
    }
}

/// Decides, from the translator's reply, the answer to the request for
/// `name`: the name unchanged with the translated description, or the error
/// tagged as coming from the translation.
pub fn compose_response(
    name: String,
    reply: UpstreamReply<ShakespeareTranslationResponse>,
) -> (r: Result<ShakespearemonResponse, ShakespearemonException>)
    ensures
        response_view(r) == match translation_stage(reply) {
            Ok(description) => Ok((name@, description)),
            Err(e) => Err(e),
        },
{
    match get_shakespearean_translation(reply) {
        Ok(description) => Ok(ShakespearemonResponse { name, description }),
        Err(e) => Err(ShakespearemonException::ShakespeareClientException(e)),
    }
}

/// The status the result of a request is answered with.
pub fn response_status(
    result: &Result<ShakespearemonResponse, ShakespearemonException>,
) -> (r: u16)
    ensures
        r == spec_outcome_status(*result),
{
    match result {
        Ok(_) => STATUS_OK,
        Err(e) => e.status_code(),
    }
}

} // verus!
