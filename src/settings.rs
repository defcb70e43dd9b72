use vstd::prelude::*;

verus! {

/// Where the service listens and where its two upstream services are.
pub struct Application {
    pub host: String,
    pub port: u16,
    pub poke_api_base_url: String,
    pub shakespeare_translator_api_base_url: String,
}

/// The configuration, read once at start-up and shared unchanged by every
/// request.
pub struct Settings {
    pub application: Application,
}

} // verus!
