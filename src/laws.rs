//! Properties of a whole request, stated over the stages' meanings that the
//! executable steps are proved against.
use vstd::prelude::*;

use crate::poke::poke_client::{english_flavor_text, is_english, is_first_english};
use crate::poke::poke_client_exception::PokeClientException;
use crate::poke::poke_species_response::PokeSpeciesResponse;
use crate::shakespeare::shakespeare_client_exception::ShakespeareClientException;
use crate::shakespeare::shakespeare_translation_response::ShakespeareTranslationResponse;
use crate::translation_service::{
    lookup_stage, shakespearemon_outcome, spec_outcome_status, translation_stage,
    ShakespearemonException,
};
use crate::upstream::UpstreamReply;

verus! {

/// When the lookup service answers `404`, the request fails with
/// `PokemonNotFound` and status `404`, whatever the name and whatever the
/// translator would say.
pub proof fn lemma_unknown_name_is_not_found(
    name: Seq<char>,
    body: Option<PokeSpeciesResponse>,
    translation: UpstreamReply<ShakespeareTranslationResponse>,
)
    ensures
        shakespearemon_outcome(name, UpstreamReply::Replied { status: 404, body }, translation)
            == Err::<(Seq<char>, Seq<char>), ShakespearemonException>(
            ShakespearemonException::PokeClientException(PokeClientException::PokemonNotFound),
        ),
        spec_outcome_status(
            shakespearemon_outcome(name, UpstreamReply::Replied { status: 404, body }, translation),
        ) == 404,
{
}

/// When the lookup's payload decodes but holds no entry in English, the
/// request fails with `PokemonDescriptionNotFound` and status `404`, and the
/// lookup stage itself fails, so no call to the translator is planned.
pub proof fn lemma_no_english_entry_is_description_not_found(
    name: Seq<char>,
    payload: PokeSpeciesResponse,
    translation: UpstreamReply<ShakespeareTranslationResponse>,
)
    requires
        forall|i: int|
            0 <= i < payload.flavor_text_entries@.len() ==> !is_english(
                #[trigger] payload.flavor_text_entries@[i],
            ),
    ensures
        lookup_stage(UpstreamReply::Replied { status: 200, body: Some(payload) })
            == Err::<Seq<char>, ShakespearemonException>(
            ShakespearemonException::PokeClientException(
                PokeClientException::PokemonDescriptionNotFound,
            ),
        ),
        shakespearemon_outcome(
            name,
            UpstreamReply::Replied { status: 200, body: Some(payload) },
            translation,
        ) == Err::<(Seq<char>, Seq<char>), ShakespearemonException>(
            ShakespearemonException::PokeClientException(
                PokeClientException::PokemonDescriptionNotFound,
            ),
        ),
        spec_outcome_status(
            shakespearemon_outcome(
                name,
                UpstreamReply::Replied { status: 200, body: Some(payload) },
                translation,
            ),
        ) == 404,
{
    let entries = payload.flavor_text_entries@;
    assert forall|c: int| !is_first_english(entries, c) by {
        if 0 <= c < entries.len() {
            assert(!is_english(entries[c]));
        }
    }
    assert(english_flavor_text(entries) is None);
}

/// When the lookup succeeds and the translator answers `200` with a payload
/// that decodes, the request succeeds with status `200`: the name is the one
/// asked for, verbatim, and the description is the payload's translated text.
pub proof fn lemma_translated_description(
    name: Seq<char>,
    lookup: UpstreamReply<PokeSpeciesResponse>,
    payload: ShakespeareTranslationResponse,
)
    requires
        lookup_stage(lookup) is Ok,
    ensures
        shakespearemon_outcome(
            name,
            lookup,
            UpstreamReply::Replied { status: 200, body: Some(payload) },
        ) == Ok::<(Seq<char>, Seq<char>), ShakespearemonException>(
            (name, payload.contents.translated@),
        ),
        spec_outcome_status(
            shakespearemon_outcome(
                name,
                lookup,
                UpstreamReply::Replied { status: 200, body: Some(payload) },
            ),
        ) == 200,
{
}

/// When the lookup succeeds and the translator answers `400` or `404`, the
/// request fails with `TranslationNotFound` and status `404`.
pub proof fn lemma_rejected_translation_is_not_found(
    name: Seq<char>,
    lookup: UpstreamReply<PokeSpeciesResponse>,
    status: u16,
    body: Option<ShakespeareTranslationResponse>,
)
    requires
        lookup_stage(lookup) is Ok,
        status == 400 || status == 404,
    ensures
        shakespearemon_outcome(name, lookup, UpstreamReply::Replied { status, body })
            == Err::<(Seq<char>, Seq<char>), ShakespearemonException>(
            ShakespearemonException::ShakespeareClientException(
                ShakespeareClientException::TranslationNotFound,
            ),
        ),
        spec_outcome_status(
            shakespearemon_outcome(name, lookup, UpstreamReply::Replied { status, body }),
        ) == 404,
{
}

/// When the lookup service answers `200` with a body that does not decode, the
/// request fails with `PokeClientWentWrong` and status `500`.
pub proof fn lemma_malformed_lookup_payload_is_internal_error(
    name: Seq<char>,
    translation: UpstreamReply<ShakespeareTranslationResponse>,
)
    ensures
        shakespearemon_outcome(
            name,
            UpstreamReply::Replied { status: 200, body: None },
            translation,
        ) == Err::<(Seq<char>, Seq<char>), ShakespearemonException>(
            ShakespearemonException::PokeClientException(PokeClientException::PokeClientWentWrong),
        ),
        spec_outcome_status(
            shakespearemon_outcome(
                name,
                UpstreamReply::Replied { status: 200, body: None },
                translation,
            ),
        ) == 500,
{
}

/// When the lookup succeeds and the translator answers `200` with a body that
/// does not decode, the request fails with `ShakespeareClientWentWrong` and
/// status `500`.
pub proof fn lemma_malformed_translation_payload_is_internal_error(
    name: Seq<char>,
    lookup: UpstreamReply<PokeSpeciesResponse>,
)
    requires
        lookup_stage(lookup) is Ok,
    ensures
        shakespearemon_outcome(name, lookup, UpstreamReply::Replied { status: 200, body: None })
            == Err::<(Seq<char>, Seq<char>), ShakespearemonException>(
            ShakespearemonException::ShakespeareClientException(
                ShakespeareClientException::ShakespeareClientWentWrong,
            ),
        ),
        spec_outcome_status(
            shakespearemon_outcome(
                name,
                lookup,
                UpstreamReply::Replied { status: 200, body: None },
            ),
        ) == 500,
{
}

} // verus!
