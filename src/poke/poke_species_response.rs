use vstd::prelude::*;

verus! {

/// The language tag of a flavor text entry.
pub struct TextFlavorEntryLanguage {
    pub name: String,
}

/// One description of a species, in one language.
pub struct TextFlavorEntry {
    pub flavor_text: String,
    pub language: TextFlavorEntryLanguage,
}

/// The part of the lookup service's species document that is read: the
/// entries keep the order in which the service listed them.
pub struct PokeSpeciesResponse {
    pub id: u16,
    pub name: String,
    pub flavor_text_entries: Vec<TextFlavorEntry>,
}

impl TextFlavorEntry {
    pub fn new(flavor_text: String, language_name: String) -> (r: Self)
        ensures
            r.flavor_text@ == flavor_text@,
            r.language.name@ == language_name@,
    {
        let language = TextFlavorEntryLanguage { name: language_name };
        TextFlavorEntry { flavor_text, language }
    }
}

impl PokeSpeciesResponse {
    pub fn new(id: u16, name: String, flavor_text_entries: Vec<TextFlavorEntry>) -> (r: Self)
        ensures
            r.id == id,
            r.name@ == name@,
            r.flavor_text_entries@ == flavor_text_entries@,
    {
        PokeSpeciesResponse { id, name, flavor_text_entries }
    }
}

} // verus!
