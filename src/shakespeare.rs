pub mod shakespeare_client;
pub mod shakespeare_client_exception;
pub mod shakespeare_translation_request;
pub mod shakespeare_translation_response;
