use vstd::prelude::*;

verus! {

/// The translator's count of translated texts.
pub struct Success {
    pub total: i32,
}

/// The translator's result: the rewritten text, the source text, and the name
/// of the dialect.
pub struct Content {
    pub translated: String,
    pub text: String,
    pub translation: String,
}

/// The translator's reply document.
pub struct ShakespeareTranslationResponse {
    pub success: Success,
    pub contents: Content,
}

impl ShakespeareTranslationResponse {
    /// A reply for one translated text.
    pub fn new(translated: String, text: String, translation: String) -> (r: Self)
        ensures
            r.success.total == 1,
            r.contents.translated@ == translated@,
            r.contents.text@ == text@,
            r.contents.translation@ == translation@,
    {
        let success = Success { total: 1 };
        let contents = Content { translation, text, translated };
        ShakespeareTranslationResponse { success, contents }
    }
}

} // verus!
