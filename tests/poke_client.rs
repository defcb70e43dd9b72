use shakespearemon::poke::poke_client::{
    extract_english_flavor_text_from_poke_species_response, get_pokemon_description,
    poke_species_url,
};
use shakespearemon::poke::poke_client_exception::PokeClientException;
use shakespearemon::poke::poke_species_response::{PokeSpeciesResponse, TextFlavorEntry};
use shakespearemon::upstream::{body_expected, UpstreamReply};

fn generate_poke_species_response(language_name: String) -> PokeSpeciesResponse {
    let flavor_text = "Flavor text".to_owned();
    let flavor_text = vec![TextFlavorEntry::new(flavor_text, language_name)];
    let id = 16;
    let name = "pikachu".to_owned();
    PokeSpeciesResponse::new(id, name, flavor_text)
}

fn entry(text: &str, language: &str) -> TextFlavorEntry {
    TextFlavorEntry::new(text.to_owned(), language.to_owned())
}

#[test]
fn should_return_none_if_there_is_not_any_english_flavor_text() {
    let language_name = "qwerty".to_owned();
    let response = generate_poke_species_response(language_name);
    let result = extract_english_flavor_text_from_poke_species_response(response);

    assert_eq!(result, None);
}

#[test]
fn should_return_some_description_if_there_is_an_english_flavor_text() {
    let language_name = "en".to_owned();
    let response = generate_poke_species_response(language_name);
    let result = extract_english_flavor_text_from_poke_species_response(response);

    assert_eq!(result, Some("Flavor text".to_owned()));
}

#[test]
fn throw_pokemon_not_found_error() {
    let pokemon_name = "ozer";
    assert_eq!(poke_species_url("http://127.0.0.1:1234", pokemon_name), "http://127.0.0.1:1234/ozer");

    let reply = UpstreamReply::Replied { status: 404, body: None };
    assert_eq!(get_pokemon_description(reply), Err(PokeClientException::PokemonNotFound));
}

#[test]
fn should_throw_poke_client_failed_if_request_returns_too_many_requests() {
    let reply = UpstreamReply::Replied { status: 429, body: None };
    assert_eq!(get_pokemon_description(reply), Err(PokeClientException::PokeClientWentWrong));
}

#[test]
fn returns_pokemon_name() {
    let language_name = "en".to_owned();
    let response = generate_poke_species_response(language_name);
    let reply = UpstreamReply::Replied { status: 200, body: Some(response) };

    let result = get_pokemon_description(reply).unwrap();
    assert_eq!(result, "Flavor text");
}

#[test]
fn first_english_entry_wins() {
    let entries = vec![
        entry("Texte", "fr"),
        entry("First", "en"),
        entry("Second", "en"),
    ];
    let response = PokeSpeciesResponse::new(25, "pikachu".to_owned(), entries);
    assert_eq!(
        extract_english_flavor_text_from_poke_species_response(response),
        Some("First".to_owned())
    );
}

#[test]
fn language_code_must_be_exactly_en() {
    let entries = vec![entry("Upper", "EN"), entry("Region", "en-GB"), entry("Blank", "")];
    let response = PokeSpeciesResponse::new(25, "pikachu".to_owned(), entries);
    assert_eq!(extract_english_flavor_text_from_poke_species_response(response), None);
}

#[test]
fn no_entries_gives_no_description() {
    let response = PokeSpeciesResponse::new(1, "bulbasaur".to_owned(), vec![]);
    assert_eq!(extract_english_flavor_text_from_poke_species_response(response), None);
}

#[test]
fn payload_without_english_is_description_not_found() {
    let response = generate_poke_species_response("ja".to_owned());
    let reply = UpstreamReply::Replied { status: 200, body: Some(response) };
    assert_eq!(
        get_pokemon_description(reply),
        Err(PokeClientException::PokemonDescriptionNotFound)
    );
}

#[test]
fn undecodable_lookup_payload_went_wrong() {
    let reply = UpstreamReply::Replied { status: 200, body: None };
    assert_eq!(get_pokemon_description(reply), Err(PokeClientException::PokeClientWentWrong));
}

#[test]
fn unreachable_lookup_service_went_wrong() {
    let reply: UpstreamReply<PokeSpeciesResponse> = UpstreamReply::Unreachable;
    assert_eq!(get_pokemon_description(reply), Err(PokeClientException::PokeClientWentWrong));
}

#[test]
fn server_error_from_lookup_went_wrong() {
    let response = generate_poke_species_response("en".to_owned());
    let reply = UpstreamReply::Replied { status: 503, body: Some(response) };
    assert_eq!(get_pokemon_description(reply), Err(PokeClientException::PokeClientWentWrong));
}

#[test]
fn species_url_keeps_name_verbatim() {
    assert_eq!(poke_species_url("https://pokeapi.co/api/v2/pokemon-species", "Mr. Mime"),
        "https://pokeapi.co/api/v2/pokemon-species/Mr. Mime");
    assert_eq!(poke_species_url("", ""), "/");
}

#[test]
fn only_ok_replies_have_their_body_read() {
    assert!(body_expected(200));
    assert!(!body_expected(404));
    assert!(!body_expected(201));
}

#[test]
fn lookup_error_messages() {
    assert_eq!(PokeClientException::PokemonNotFound.message(), "Pokemon Not Found");
    assert_eq!(
        PokeClientException::PokemonDescriptionNotFound.message(),
        "Pokemon Description Not Found"
    );
    assert_eq!(PokeClientException::PokeClientWentWrong.message(), "Unable to process the request");
    assert_eq!(PokeClientException::PokemonNotFound.name(), "PokemonNotFound");
}
