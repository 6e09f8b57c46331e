use greet::command::{run, AvailableShells, Commands, GenerateCompletionsArgs, Outcome};
use greet::language::{language_entries, Language};
use greet::message::{generate_message, get_base_phrase};

const ALL: [Language; 5] = [Language::En, Language::Fr, Language::Es, Language::De, Language::It];

fn printed(outcome: Outcome) -> Vec<String> {
    match outcome {
        Outcome::Print(lines) => lines,
        Outcome::Completions(_) => panic!("expected lines to print"),
    }
}

#[test]
fn greeting_in_english() {
    assert_eq!(generate_message("World", Language::En, false, true), "Hello World!");
}

#[test]
fn screamed_greeting_in_english() {
    assert_eq!(generate_message("World", Language::En, true, true), "HELLO WORLD!");
}

#[test]
fn farewell_in_french() {
    assert_eq!(generate_message("Marie", Language::Fr, false, false), "Au revoir Marie!");
}

#[test]
fn screamed_greeting_in_spanish() {
    assert_eq!(generate_message("Ana", Language::Es, true, true), "HOLA ANA!");
}

#[test]
fn spoken_messages_follow_the_table() {
    let greetings = ["Hello", "Bonjour", "Hola", "Hallo", "Ciao"];
    let farewells = ["Goodbye", "Au revoir", "Adiós", "Auf Wiedersehen", "Arrivederci"];
    for (i, language) in ALL.iter().enumerate() {
        assert_eq!(get_base_phrase(*language, true), greetings[i]);
        assert_eq!(get_base_phrase(*language, false), farewells[i]);
        assert_eq!(generate_message("Kim", *language, false, true), format!("{} Kim!", greetings[i]));
        assert_eq!(generate_message("Kim", *language, false, false), format!("{} Kim!", farewells[i]));
    }
}

#[test]
fn screaming_uppercases_the_spoken_message() {
    for language in ALL.iter() {
        for is_greeting in [true, false] {
            let spoken = generate_message("Zoë", *language, false, is_greeting);
            let shouted = generate_message("Zoë", *language, true, is_greeting);
            assert_eq!(shouted, spoken.to_uppercase());
            assert_ne!(shouted, spoken);
        }
    }
}

#[test]
fn screaming_uppercases_accented_letters() {
    assert_eq!(generate_message("José", Language::Es, true, false), "ADIÓS JOSÉ!");
}

#[test]
fn empty_name_keeps_space_and_mark() {
    assert_eq!(generate_message("", Language::De, false, false), "Auf Wiedersehen !");
}

#[test]
fn language_codes_parse_in_any_case() {
    for text in ["FR", "fr", "Fr", "fR"] {
        assert_eq!(Language::parse(text), Ok(Language::Fr));
        assert_eq!(text.parse::<Language>(), Ok(Language::Fr));
    }
    assert_eq!(Language::parse("IT"), Ok(Language::It));
}

#[test]
fn unknown_language_code_is_named_in_error() {
    let err = Language::parse("xx").unwrap_err();
    assert!(err.contains("xx"));
    assert_eq!(err, "Unknown language: xx");
    assert_eq!(Language::parse("").unwrap_err(), "Unknown language: ");
    assert_eq!(Language::parse("eng").unwrap_err(), "Unknown language: eng");
}

#[test]
fn folded_code_reads_back_and_error_quotes_input() {
    assert_eq!(Language::from_folded("de", "DE"), Ok(Language::De));
    assert_eq!(Language::from_folded("xx", "XX"), Err(String::from("Unknown language: XX")));
}

#[test]
fn codes_read_back_as_their_language() {
    for language in ALL.iter() {
        assert_eq!(Language::parse(language.code()), Ok(*language));
    }
}

#[test]
fn default_language_is_english() {
    assert_eq!(Language::default(), Language::En);
    assert_eq!(Language::parse("en"), Ok(Language::default()));
    assert_eq!(
        generate_message("Sam", Language::default(), false, true),
        generate_message("Sam", Language::parse("en").unwrap(), false, true)
    );
}

#[test]
fn languages_are_listed_in_declaration_order() {
    assert_eq!(Language::all(), ALL.to_vec());
    let codes: Vec<&str> = Language::all().iter().map(|l| l.code()).collect();
    assert_eq!(codes, vec!["en", "fr", "es", "de", "it"]);
    let names: Vec<&str> = Language::all().iter().map(|l| l.get_name()).collect();
    assert_eq!(names, vec!["English", "French", "Spanish", "German", "Italian"]);
}

#[test]
fn listing_marks_only_english_as_default() {
    let lines = language_entries();
    assert_eq!(
        lines,
        vec![
            "  en - English (default)",
            "  fr - French",
            "  es - Spanish",
            "  de - German",
            "  it - Italian",
        ]
    );
    assert_eq!(lines.iter().filter(|l| l.ends_with(" (default)")).count(), 1);
}

#[test]
fn languages_command_prints_heading_and_entries() {
    let lines = printed(run(&Commands::Languages));
    assert_eq!(lines.len(), 6);
    assert_eq!(lines[0], "Available languages:");
    assert_eq!(lines[1], "  en - English (default)");
    assert_eq!(lines[5], "  it - Italian");
}

#[test]
fn hie_and_bye_commands_print_one_message() {
    let hie = Commands::Hie { name: String::from("World"), language: Language::En, scream: false };
    assert_eq!(printed(run(&hie)), vec!["Hello World!"]);
    let bye = Commands::Bye { name: String::from("Hans"), language: Language::De, scream: true };
    assert_eq!(printed(run(&bye)), vec!["AUF WIEDERSEHEN HANS!"]);
}

#[test]
fn completion_command_names_its_shell() {
    for shell in [AvailableShells::Bash, AvailableShells::Fish, AvailableShells::Zsh] {
        let command = Commands::GenerateCompletions(GenerateCompletionsArgs { shell });
        assert!(matches!(run(&command), Outcome::Completions(s) if s == shell));
    }
}
