use vstd::prelude::*;
use vstd::string::*;
use crate::language::Language;

verus! {

/// The phrase that opens a greeting (`is_greeting`) or a farewell.
pub open spec fn base_phrase(language: Language, is_greeting: bool) -> Seq<char> {
    if is_greeting {
        match language {
            Language::En => "Hello"@,
            Language::Fr => "Bonjour"@,
            Language::Es => "Hola"@,
            Language::De => "Hallo"@,
            Language::It => "Ciao"@,
        }
    } else {
        match language {
            Language::En => "Goodbye"@,
            Language::Fr => "Au revoir"@,
            Language::Es => "Adiós"@,
            Language::De => "Auf Wiedersehen"@,
            Language::It => "Arrivederci"@,
        }
    }
}

/// The message as spoken: `"<phrase> <name>!"`.
pub open spec fn plain_message(name: Seq<char>, language: Language, is_greeting: bool) -> Seq<char> {
    base_phrase(language, is_greeting) + " "@ + name + "!"@
}

/// What `str::to_uppercase` makes of a text.
pub uninterp spec fn upper_of(s: Seq<char>) -> Seq<char>;

/// The message as printed: spoken, or shouted in capitals when `scream` is set.
pub open spec fn message(name: Seq<char>, language: Language, scream: bool, is_greeting: bool) -> Seq<char> {
    if scream {
        upper_of(plain_message(name, language, is_greeting))
    } else {
        plain_message(name, language, is_greeting)
    }
}

/// Relies on `str::to_uppercase`: Unicode uppercase mapping, independent of
/// locale, so its result depends on the characters alone.
#[verifier::external_body]
fn uppercase(s: &str) -> (r: String)
    ensures
        r@ == upper_of(s@),
{
    s.to_uppercase()
}

/// The opening phrase of a greeting or a farewell in `language`.
pub fn get_base_phrase(language: Language, is_greeting: bool) -> (r: &'static str)
    ensures
        r@ == base_phrase(language, is_greeting),
{
    if is_greeting {
        match language {
            Language::En => "Hello",
            Language::Fr => "Bonjour",
            Language::Es => "Hola",
            Language::De => "Hallo",
            Language::It => "Ciao",
        }
    } else {
        match language {
            Language::En => "Goodbye",
            Language::Fr => "Au revoir",
            Language::Es => "Adiós",
            Language::De => "Auf Wiedersehen",
            Language::It => "Arrivederci",
        }
    }
}

/// Greets (`is_greeting`) or bids farewell to `name` in `language`, in
/// capitals when `scream` is set.
pub fn generate_message(name: &str, language: Language, scream: bool, is_greeting: bool) -> (r: String)
    ensures
        r@ == message(name@, language, scream, is_greeting),
        !scream ==> r@ == base_phrase(language, is_greeting) + " "@ + name@ + "!"@,
        scream ==> r@ == upper_of(base_phrase(language, is_greeting) + " "@ + name@ + "!"@),
{
    let mut text = String::from_str(get_base_phrase(language, is_greeting));
    text.append(" ");
    text.append(name);
    text.append("!");
    if scream {
        uppercase(text.as_str())
    } else {
        text
    }
}

/// Shouting a message is exactly putting the spoken message in capitals.
pub proof fn lemma_scream_is_uppercase(name: Seq<char>, language: Language, is_greeting: bool)
    ensures
        message(name, language, true, is_greeting) == upper_of(
            message(name, language, false, is_greeting),
        ),
{
}

} // verus!
