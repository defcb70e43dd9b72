use shakespearemon::shakespeare::shakespeare_client::get_shakespearean_translation;
use shakespearemon::shakespeare::shakespeare_client_exception::ShakespeareClientException;
use shakespearemon::shakespeare::shakespeare_translation_request::ShakespeareTranslationRequest;
use shakespearemon::shakespeare::shakespeare_translation_response::ShakespeareTranslationResponse;
use shakespearemon::upstream::UpstreamReply;

#[test]
fn should_throw_translation_not_found_error_if_request_returns_not_found() {
    let reply = UpstreamReply::Replied { status: 404, body: None };
    assert_eq!(
        get_shakespearean_translation(reply),
        Err(ShakespeareClientException::TranslationNotFound)
    );
}

#[test]
fn should_throw_shakespeare_client_failed_if_request_returns_too_many_requests() {
    let reply = UpstreamReply::Replied { status: 429, body: None };
    assert_eq!(
        get_shakespearean_translation(reply),
        Err(ShakespeareClientException::ShakespeareClientWentWrong)
    );
}

#[test]
fn should_return_translated_string() {
    let translation = ShakespeareTranslationResponse::new(
        String::from("translated"),
        String::from("text"),
        String::from("translation"),
    );
    let reply = UpstreamReply::Replied { status: 200, body: Some(translation) };

    let translated = get_shakespearean_translation(reply).unwrap();
    assert_eq!(translated, "translated");
}

#[test]
fn bad_request_means_no_translation() {
    let reply = UpstreamReply::Replied { status: 400, body: None };
    assert_eq!(
        get_shakespearean_translation(reply),
        Err(ShakespeareClientException::TranslationNotFound)
    );
}

#[test]
fn undecodable_translation_went_wrong() {
    let reply = UpstreamReply::Replied { status: 200, body: None };
    assert_eq!(
        get_shakespearean_translation(reply),
        Err(ShakespeareClientException::ShakespeareClientWentWrong)
    );
}

#[test]
fn unreachable_translator_went_wrong() {
    let reply: UpstreamReply<ShakespeareTranslationResponse> = UpstreamReply::Unreachable;
    assert_eq!(
        get_shakespearean_translation(reply),
        Err(ShakespeareClientException::ShakespeareClientWentWrong)
    );
}

#[test]
fn translator_server_error_went_wrong() {
    let reply = UpstreamReply::Replied { status: 500, body: None };
    assert_eq!(
        get_shakespearean_translation(reply),
        Err(ShakespeareClientException::ShakespeareClientWentWrong)
    );
}

#[test]
fn translation_response_holds_its_fields() {
    let response = ShakespeareTranslationResponse::new(
        String::from("translated"),
        String::from("text"),
        String::from("translation"),
    );
    assert_eq!(response.success.total, 1);
    assert_eq!(response.contents.translated, "translated");
    assert_eq!(response.contents.text, "text");
    assert_eq!(response.contents.translation, "translation");
}

#[test]
fn translation_request_holds_text() {
    assert_eq!(ShakespeareTranslationRequest::new("Flavor text".to_owned()).text, "Flavor text");
}

#[test]
fn translation_error_messages() {
    assert_eq!(ShakespeareClientException::TranslationNotFound.message(), "Translation not found");
    assert_eq!(
        ShakespeareClientException::ShakespeareClientWentWrong.message(),
        "Unable to process the request"
    );
    assert_eq!(ShakespeareClientException::TranslationNotFound.name(), "TranslationNotFound");
}
