pub mod poke_client;
pub mod poke_client_exception;
pub mod poke_species_response;
