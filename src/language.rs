use vstd::prelude::*;
use vstd::string::*;

verus! {

/// The languages a message can be written in, in the order they are listed.
#[derive(Clone, Copy, Debug, PartialEq, Eq, Structural)]
pub enum Language {
    En,
    Fr,
    Es,
    De,
    It,
}

/// Every language, in declaration order.
pub open spec fn all_languages() -> Seq<Language> {
    seq![Language::En, Language::Fr, Language::Es, Language::De, Language::It]
}

/// The two-letter lowercase code of a language.
pub open spec fn code_of(language: Language) -> Seq<char> {
    match language {
        Language::En => "en"@,
        Language::Fr => "fr"@,
        Language::Es => "es"@,
        Language::De => "de"@,
        Language::It => "it"@,
    }
}

/// The English name of a language.
pub open spec fn name_of(language: Language) -> Seq<char> {
    match language {
        Language::En => "English"@,
        Language::Fr => "French"@,
        Language::Es => "Spanish"@,
        Language::De => "German"@,
        Language::It => "Italian"@,
    }
}

/// The language used when none is asked for.
pub open spec fn default_language() -> Language {
    Language::En
}

/// The language whose code is exactly `code`, if there is one.
pub open spec fn language_of_code(code: Seq<char>) -> Option<Language> {
    if code == "en"@ {
        Some(Language::En)
    } else if code == "fr"@ {
        Some(Language::Fr)
    } else if code == "es"@ {
        Some(Language::Es)
    } else if code == "de"@ {
        Some(Language::De)
    } else if code == "it"@ {
        Some(Language::It)
    } else {
        None
    }
}

/// What `str::to_lowercase` makes of a text.
pub uninterp spec fn lower_of(s: Seq<char>) -> Seq<char>;

/// Relies on `str::to_lowercase`: its result depends on the characters alone.
#[verifier::external_body]
fn lowercase(s: &str) -> (r: String)
    ensures
        r@ == lower_of(s@),
{
    s.to_lowercase()
}

/// The message given for a code that names no language.
pub open spec fn unknown_language_message(input: Seq<char>) -> Seq<char> {
    "Unknown language: "@ + input
}

/// `r` is what parsing `input`, whose case-folded form is `folded`, yields:
/// the language with that code, or an error that quotes `input`.
pub open spec fn parse_outcome(r: Result<Language, String>, folded: Seq<char>, input: Seq<char>) -> bool {
    match language_of_code(folded) {
        Some(language) => r == Ok::<Language, String>(language),
        None => r matches Err(e) && e@ == unknown_language_message(input),
    }
}

/// Whether two texts hold the same characters.
fn same_text(a: &str, b: &str) -> (r: bool)
    ensures
        r == (a@ == b@),
{
    let n = a.unicode_len();
    if n != b.unicode_len() {
        return false;
    }
    let mut i: usize = 0;
    while i < n
        invariant
            n == a@.len(),
            n == b@.len(),
            i <= n,
            a@.subrange(0, i as int) == b@.subrange(0, i as int),
        decreases n - i,
    {
        if a.get_char(i) != b.get_char(i) {
            assert(a@[i as int] != b@[i as int]);
            return false;
        }
        assert(a@.subrange(0, i + 1) =~= a@.subrange(0, i as int).push(a@[i as int]));
        assert(b@.subrange(0, i + 1) =~= b@.subrange(0, i as int).push(b@[i as int]));
        i = i + 1;
    }
    assert(a@ =~= a@.subrange(0, n as int));
    assert(b@ =~= b@.subrange(0, n as int));
    true
}

/// The marker that the listing puts after the default language.
pub open spec fn default_marker() -> Seq<char> {
    " (default)"@
}

/// One line of the language listing: `"  <code> - <name>"`, with the
/// default marker after English alone.
pub open spec fn entry_line(language: Language) -> Seq<char> {
    "  "@ + code_of(language) + " - "@ + name_of(language) + if language == Language::En {
        default_marker()
    } else {
        ""@
    }
}

/// Whether a listing line ends with the default marker.
pub open spec fn has_default_marker(line: Seq<char>) -> bool {
    line.len() >= default_marker().len() && line.subrange(
        line.len() - default_marker().len(),
        line.len() as int,
    ) == default_marker()
}

impl Language {
    /// The two-letter lowercase code, as written on the command line.
    pub fn code(&self) -> (r: &'static str)
        ensures
            r@ == code_of(*self),
    {
        match self {
            Language::En => "en",
            Language::Fr => "fr",
            Language::Es => "es",
            Language::De => "de",
            Language::It => "it",
        }
    }

    /// The English name of the language.
    pub fn get_name(&self) -> (r: &'static str)
        ensures
            r@ == name_of(*self),
    {
        match self {
            Language::En => "English",
            Language::Fr => "French",
            Language::Es => "Spanish",
            Language::De => "German",
            Language::It => "Italian",
        }
    }

    /// Reads a language from its code once the code has been case-folded:
    /// `folded` is the folded form of `input`, which the error quotes.
    pub fn from_folded(folded: &str, input: &str) -> (r: Result<Language, String>)
        ensures
            parse_outcome(r, folded@, input@),
    {
        let codes = Language::all();
        let mut i: usize = 0;
        while i < codes.len()
            invariant
                codes@ == all_languages(),
                i <= codes@.len(),
                forall|j: int| 0 <= j < i ==> folded@ != code_of(#[trigger] codes@[j]),
            decreases codes@.len() - i,
        {
            let language = codes[i];
            if same_text(folded, language.code()) {
                return Ok(language);
            }
            i = i + 1;
        }
        let mut message = String::from_str("Unknown language: ");
        message.append(input);
        Err(message)
    }

    /// Reads a language from its code, in any letter case.
    pub fn parse(s: &str) -> (r: Result<Language, String>)
        ensures
            parse_outcome(r, lower_of(s@), s@),
    {
        let folded = lowercase(s);
        Language::from_folded(folded.as_str(), s)
    }

    /// The line that lists this language.
    pub fn entry(&self) -> (r: String)
        ensures
            r@ == entry_line(*self),
    {
        let mut line = String::from_str("  ");
        line.append(self.code());
        line.append(" - ");
        line.append(self.get_name());
        if *self == Language::En {
            line.append(" (default)");
        }
        proof {
            reveal_strlit("");
        }
        assert(line@ =~= entry_line(*self));
        line
    }

    /// Every language, in declaration order.
    pub fn all() -> (r: Vec<Language>)
        ensures
            r@ == all_languages(),
    {
        let r = vec![Language::En, Language::Fr, Language::Es, Language::De, Language::It];
        assert(r@ =~= all_languages());
        r
    }
}

/// The listing of the languages: one line per language, in declaration order.
pub fn language_entries() -> (r: Vec<String>)
    ensures
        r@.len() == all_languages().len(),
        forall|i: int| 0 <= i < r@.len() ==> r@[i]@ == entry_line(#[trigger] all_languages()[i]),
{
    let languages = Language::all();
    let mut lines: Vec<String> = Vec::new();
    let mut i: usize = 0;
    while i < languages.len()
        invariant
            languages@ == all_languages(),
            i <= languages@.len(),
            lines@.len() == i,
            forall|j: int| 0 <= j < i ==> lines@[j]@ == entry_line(#[trigger] all_languages()[j]),
        decreases languages@.len() - i,
    {
        lines.push(languages[i].entry());
        i = i + 1;
    }
    lines
}

/// The listing names exactly the five languages, English first, and only the
/// English line carries the default marker.
pub proof fn lemma_listing_marks_only_default()
    ensures
        all_languages().len() == 5,
        all_languages()[0] == default_language(),
        forall|i: int|
            0 <= i < all_languages().len() ==> (has_default_marker(entry_line(#[trigger] all_languages()[i]))
                <==> i == 0),
{
    reveal_strlit(" (default)");
    reveal_strlit("");
    reveal_strlit("French");
    reveal_strlit("Spanish");
    reveal_strlit("German");
    reveal_strlit("Italian");
    let marker = default_marker();
    let en = entry_line(Language::En);
    assert(en.subrange(en.len() - marker.len(), en.len() as int) =~= marker);
    assert forall|i: int| 1 <= i < 5 implies !has_default_marker(
        entry_line(#[trigger] all_languages()[i]),
    ) by {
        let language = all_languages()[i];
        let line = entry_line(language);
        let name = name_of(language);
        assert(line =~= "  "@ + code_of(language) + " - "@ + name);
        assert(line[line.len() - 1] == name[name.len() - 1]);
        if has_default_marker(line) {
            let tail = line.subrange(line.len() - marker.len(), line.len() as int);
            assert(tail[marker.len() - 1] == line[line.len() - 1]);
        }
    }
}

/// Each language's code reads back as that language.
pub proof fn lemma_code_round_trip(language: Language)
    ensures
        language_of_code(code_of(language)) == Some(language),
{
    reveal_strlit("en");
    reveal_strlit("fr");
    reveal_strlit("es");
    reveal_strlit("de");
    reveal_strlit("it");
    assert("fr"@[0] != "en"@[0]);
    assert("es"@[1] != "en"@[1]);
    assert("es"@[0] != "fr"@[0]);
    assert("de"@[0] != "en"@[0]);
    assert("de"@[0] != "fr"@[0]);
    assert("de"@[0] != "es"@[0]);
    assert("it"@[0] != "en"@[0]);
    assert("it"@[0] != "fr"@[0]);
    assert("it"@[0] != "es"@[0]);
    assert("it"@[0] != "de"@[0]);
}

/// Leaving the language out is the same as asking for the code `en`: the
/// default language is English, and its folded code reads back as it.
pub proof fn lemma_default_is_english_code()
    ensures
        default_language() == Language::En,
        code_of(default_language()) == "en"@,
        language_of_code("en"@) == Some(default_language()),
{
}

impl Default for Language {
    fn default() -> (r: Language)
        ensures
            r == default_language(),
    {
        Language::En
    }
}

impl std::str::FromStr for Language {
    type Err = String;

    fn from_str(s: &str) -> (r: Result<Language, String>)
        ensures
            parse_outcome(r, lower_of(s@), s@),
    {
        Language::parse(s)
    }
}

} // verus!
