use vstd::prelude::*;
use vstd::string::*;

verus! {

/// The site code of a language name: two letters, or nothing for a language
/// the site does not serve.
pub open spec fn language_code(language: Seq<char>) -> Seq<char> {
    if language == "french"@ {
        "fr"@
    } else if language == "italian"@ {
        "it"@
    } else if language == "english"@ {
        "en"@
    } else if language == "spanish"@ {
        "es"@
    } else {
        Seq::empty()
    }
}

/// Maps a language name to the code the site uses for it. The result is empty
/// where the language is not supported.
pub fn map_language(language: String) -> (code: String)
    ensures
        code@ == language_code(language@),
{
    if language == "french".to_owned() {
        "fr".to_owned()
    } else if language == "italian".to_owned() {
        "it".to_owned()
    } else if language == "english".to_owned() {
        "en".to_owned()
    } else if language == "spanish".to_owned() {
        "es".to_owned()
    } else {
        String::new()
    }
}

/// The address of the page of definitions of a word, from one language into
/// another.
pub open spec fn definition_address(
    from_language: Seq<char>,
    to_language: Seq<char>,
    word: Seq<char>,
) -> Seq<char> {
    "https://www.wordreference.com"@ + "/"@ + language_code(from_language) + language_code(
        to_language,
    ) + "/"@ + word
}

/// The address of the page of conjugations of a verb.
pub open spec fn conjugation_address(language: Seq<char>, verb: Seq<char>) -> Seq<char> {
    "https://www.wordreference.com"@ + "/conj/"@ + language_code(language) + "verbs.aspx?v="@
        + verb
}

/// Whether the site serves the language.
pub open spec fn supported(language: Seq<char>) -> bool {
    language_code(language).len() > 0
}

/// The address at which the site defines `word` of `from_language` in
/// `to_language`.
pub fn definition_url(from_language: String, to_language: String, word: String) -> (url: String)
    ensures
        url@ == definition_address(from_language@, to_language@, word@),
{
    let mut url = "https://www.wordreference.com".to_owned();
    url.append("/");
    url.append(map_language(from_language).as_str());
    url.append(map_language(to_language).as_str());
    url.append("/");
    url.append(word.as_str());
    url
}

/// The address at which the site conjugates `verb` in `language`.
pub fn conjugation_url(language: String, verb: String) -> (url: String)
    ensures
        url@ == conjugation_address(language@, verb@),
{
    let mut url = "https://www.wordreference.com".to_owned();
    url.append("/conj/");
    url.append(map_language(language).as_str());
    url.append("verbs.aspx?v=");
    url.append(verb.as_str());
    url
}

/// Tells whether the site serves the language.
pub fn is_supported(language: &str) -> (yes: bool)
    ensures
        yes == supported(language@),
{
    map_language(language.to_owned()).as_str().unicode_len() > 0
}

/// A supported language has a code of two letters, and only the four known
/// names are supported.
pub proof fn lemma_language_codes(language: Seq<char>)
    ensures
        supported(language) <==> (language == "french"@ || language == "italian"@ || language
            == "english"@ || language == "spanish"@),
        supported(language) ==> language_code(language).len() == 2,
        language_code("french"@) == "fr"@,
        language_code("italian"@) == "it"@,
        language_code("spanish"@) == "es"@,
        language_code("english"@) == "en"@,
{
    reveal_strlit("french");
    reveal_strlit("italian");
    reveal_strlit("english");
    reveal_strlit("spanish");
    reveal_strlit("fr");
    reveal_strlit("it");
    reveal_strlit("en");
    reveal_strlit("es");
    assert("french"@[0] == 'f' && "italian"@[0] == 'i' && "english"@[0] == 'e' && "spanish"@[0]
        == 's');
}

} // verus!
