use vstd::prelude::*;

use crate::shakespeare::shakespeare_client_exception::ShakespeareClientException;
use crate::shakespeare::shakespeare_translation_response::ShakespeareTranslationResponse;
use crate::upstream::{STATUS_BAD_REQUEST, STATUS_NOT_FOUND, STATUS_OK, UpstreamReply};

verus! {

/// What a reply of the translator means.
pub open spec fn shakespearean_translation_outcome(
    reply: UpstreamReply<ShakespeareTranslationResponse>,
) -> Result<Seq<char>, ShakespeareClientException> {
    match reply {
        UpstreamReply::Unreachable => Err(ShakespeareClientException::ShakespeareClientWentWrong),
        UpstreamReply::Replied { status, body } => {
            if status == STATUS_OK {
                match body {
                    None => Err(ShakespeareClientException::ShakespeareClientWentWrong),
                    Some(payload) => Ok(payload.contents.translated@),
                }
            } else if status == STATUS_BAD_REQUEST || status == STATUS_NOT_FOUND {
                Err(ShakespeareClientException::TranslationNotFound)
            } else {
                Err(ShakespeareClientException::ShakespeareClientWentWrong)
            }
        },
    }
}

/// Decides what a reply of the translator means: the translated text on a
/// `200` reply whose payload decoded; `TranslationNotFound` on `400` or `404`;
/// `ShakespeareClientWentWrong` otherwise.
pub fn get_shakespearean_translation(
    reply: UpstreamReply<ShakespeareTranslationResponse>,
) -> (r: Result<String, ShakespeareClientException>)
    ensures
        crate::upstream::text_result(r) == shakespearean_translation_outcome(reply),
{
    match reply {
        UpstreamReply::Unreachable => Err(ShakespeareClientException::ShakespeareClientWentWrong),
        UpstreamReply::Replied { status, body } => {
            if status == STATUS_OK {
                match body {
                    None => Err(ShakespeareClientException::ShakespeareClientWentWrong),
                    Some(payload) => Ok(payload.contents.translated),
                }
            } else if status == STATUS_BAD_REQUEST || status == STATUS_NOT_FOUND {
                Err(ShakespeareClientException::TranslationNotFound)
            } else {
                Err(ShakespeareClientException::ShakespeareClientWentWrong)
            }
        },
    }
}

} // verus!
