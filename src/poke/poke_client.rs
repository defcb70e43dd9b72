use vstd::prelude::*;
use vstd::string::StringExecFns;

use crate::poke::poke_client_exception::PokeClientException;
use crate::poke::poke_species_response::{PokeSpeciesResponse, TextFlavorEntry};
use crate::upstream::{STATUS_NOT_FOUND, STATUS_OK, UpstreamReply};

verus! {

/// Whether an entry is written in English: its language code is exactly `en`.
pub open spec fn is_english(entry: TextFlavorEntry) -> bool {
    entry.language.name@ == "en"@
}

/// Whether `i` is the position of the first English entry.
pub open spec fn is_first_english(entries: Seq<TextFlavorEntry>, i: int) -> bool {
    &&& 0 <= i < entries.len()
    &&& is_english(entries[i])
    &&& forall|j: int| 0 <= j < i ==> !is_english(#[trigger] entries[j])
}

/// The text of the first English entry, in the order given; `None` when no
/// entry is English.
pub open spec fn english_flavor_text(entries: Seq<TextFlavorEntry>) -> Option<Seq<char>> {
    if exists|i: int| is_first_english(entries, i) {
        Some(entries[choose|i: int| is_first_english(entries, i)].flavor_text@)
    } else {
        None
    }
}

/// Where the description of `name` is looked up: `base_url`, a slash, then
/// `name` as given.
pub open spec fn spec_poke_species_url(base_url: Seq<char>, name: Seq<char>) -> Seq<char> {
    base_url + "/"@ + name
}

/// What a reply of the lookup service means.
pub open spec fn pokemon_description_outcome(
    reply: UpstreamReply<PokeSpeciesResponse>,
) -> Result<Seq<char>, PokeClientException> {
    match reply {
        UpstreamReply::Unreachable => Err(PokeClientException::PokeClientWentWrong),
        UpstreamReply::Replied { status, body } => {
            if status == STATUS_OK {
                match body {
                    None => Err(PokeClientException::PokeClientWentWrong),
                    Some(payload) => match english_flavor_text(payload.flavor_text_entries@) {
                        Some(text) => Ok(text),
                        None => Err(PokeClientException::PokemonDescriptionNotFound),
                    },
                }
            } else if status == STATUS_NOT_FOUND {
                Err(PokeClientException::PokemonNotFound)
            } else {
                Err(PokeClientException::PokeClientWentWrong)
            }
        },
    }
}

/// Two first English entries are the same entry.
proof fn lemma_first_english_unique(entries: Seq<TextFlavorEntry>, i: int, k: int)
    requires
        is_first_english(entries, i),
        is_first_english(entries, k),
    ensures
        i == k,
{
    if i < k {
        assert(!is_english(entries[i]));
    } else if k < i {
        assert(!is_english(entries[k]));
    }
}

/// The address of the species document for `name`.
pub fn poke_species_url(base_url: &str, name: &str) -> (r: String)
    ensures
        r@ == spec_poke_species_url(base_url@, name@),
{
    let mut url = base_url.to_owned();
    url.append("/");
    url.append(name);
    url
}

/// The text of the first entry, in the service's order, whose language code is
/// `en`; `None` when there is none.
pub fn extract_english_flavor_text_from_poke_species_response(
    response: PokeSpeciesResponse,
) -> (r: Option<String>)
    ensures
        match r {
            Some(text) => english_flavor_text(response.flavor_text_entries@) == Some(text@),
            None => english_flavor_text(response.flavor_text_entries@) is None,
        },
{
    let ghost entries = response.flavor_text_entries@;
    let english = String::from_str("en");
    let n = response.flavor_text_entries.len();
    let mut i: usize = 0;
    while i < n
        invariant
            entries == response.flavor_text_entries@,
            n == entries.len(),
            english@ == "en"@,
            0 <= i <= n,
            forall|j: int| 0 <= j < i ==> !is_english(#[trigger] entries[j]),
        decreases n - i,
    {
        let entry = &response.flavor_text_entries[i];
        if entry.language.name == english {
            proof {
                assert(is_first_english(entries, i as int));
                let c = choose|c: int| is_first_english(entries, c);
                lemma_first_english_unique(entries, i as int, c);
            }
            return Some(entry.flavor_text.clone());
        }
        i = i + 1;
    }
    proof {
        assert forall|c: int| !is_first_english(entries, c) by {
            if 0 <= c < entries.len() {
                assert(!is_english(entries[c]));
            }
        }
    }
    None
}

/// Decides what a reply of the lookup service means: the English description
/// on a `200` reply whose payload decoded and holds one; `PokemonNotFound` on
/// `404`; `PokemonDescriptionNotFound` on a decoded payload without English
/// text; `PokeClientWentWrong` otherwise.
pub fn get_pokemon_description(
    reply: UpstreamReply<PokeSpeciesResponse>,
) -> (r: Result<String, PokeClientException>)
    ensures
        crate::upstream::text_result(r) == pokemon_description_outcome(reply),
{
    match reply {
        UpstreamReply::Unreachable => Err(PokeClientException::PokeClientWentWrong),
        UpstreamReply::Replied { status, body } => {
            if status == STATUS_OK {
                match body {
                    None => Err(PokeClientException::PokeClientWentWrong),
                    Some(payload) => {
                        match extract_english_flavor_text_from_poke_species_response(payload) {
                            Some(text) => Ok(text),
                            None => Err(PokeClientException::PokemonDescriptionNotFound),
                        }
                    },
                }
            } else if status == STATUS_NOT_FOUND {
                Err(PokeClientException::PokemonNotFound)
            } else {
                Err(PokeClientException::PokeClientWentWrong)
            }
        },
    }
}

} // verus!
