use vstd::prelude::*;
use vstd::string::*;
use crate::language::{Language, all_languages, entry_line, language_entries};
use crate::message::{generate_message, message};

verus! {

/// The shells a completion script can be written for.
#[derive(Clone, Copy, Debug, PartialEq, Eq, PartialOrd, Ord, Structural)]
pub enum AvailableShells {
    Bash,
    Fish,
    Zsh,
}

/// The options of the completion command.
#[derive(Clone, Copy, Debug, PartialEq, Eq, Structural)]
pub struct GenerateCompletionsArgs {
    /// The shell the script is for.
    pub shell: AvailableShells,
}

/// What the user asked for.
#[derive(Debug)]
pub enum Commands {
    /// Greet someone.
    Hie { name: String, language: Language, scream: bool },
    /// Bid someone farewell.
    Bye { name: String, language: Language, scream: bool },
    /// List the languages.
    Languages,
    /// Write a completion script.
    GenerateCompletions(GenerateCompletionsArgs),
}

/// What a command comes to: lines of text to print, or a completion script
/// to write for a shell.
#[derive(Debug)]
pub enum Outcome {
    Print(Vec<String>),
    Completions(AvailableShells),
}

/// The heading above the language listing.
pub open spec fn languages_heading() -> Seq<char> {
    "Available languages:"@
}

/// The lines that a command prints, or `None` for the completion command.
pub open spec fn printed_lines(command: Commands) -> Option<Seq<Seq<char>>> {
    match command {
        Commands::Hie { name, language, scream } => Some(seq![message(name@, language, scream, true)]),
        Commands::Bye { name, language, scream } => Some(seq![message(name@, language, scream, false)]),
        Commands::Languages => Some(
            seq![languages_heading()] + all_languages().map_values(|l: Language| entry_line(l)),
        ),
        Commands::GenerateCompletions(_) => None,
    }
}

/// Works out what `command` comes to.
pub fn run(command: &Commands) -> (r: Outcome)
    ensures
        match printed_lines(*command) {
            Some(lines) => r matches Outcome::Print(out) && out@.map_values(|s: String| s@) == lines,
            None => r == Outcome::Completions(command->GenerateCompletions_0.shell),
        },
{
    match command {
        Commands::Hie { name, language, scream } => {
            let line = generate_message(name.as_str(), *language, *scream, true);
            let out = vec![line];
            assert(out@.map_values(|s: String| s@) =~= seq![message(name@, *language, *scream, true)]);
            Outcome::Print(out)
        },
        Commands::Bye { name, language, scream } => {
            let line = generate_message(name.as_str(), *language, *scream, false);
            let out = vec![line];
            assert(out@.map_values(|s: String| s@) =~= seq![message(name@, *language, *scream, false)]);
            Outcome::Print(out)
        },
        Commands::Languages => {
            let mut out = vec![String::from_str("Available languages:")];
            let mut entries = language_entries();
            out.append(&mut entries);
            assert(out@.map_values(|s: String| s@) =~= seq![languages_heading()]
                + all_languages().map_values(|l: Language| entry_line(l)));
            Outcome::Print(out)
        },
        Commands::GenerateCompletions(args) => Outcome::Completions(args.shell),
    }
}

} // verus!
