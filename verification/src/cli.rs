//! Reading the command line.

use crate::model::{select_model, selection_of, Selection};
use crate::text::same_text;
use vstd::prelude::*;

verus! {

/// What one run of the dispatcher is asked to do with a file.
#[derive(Clone, Debug, PartialEq, Eq)]
pub struct Invocation {
    /// The path of the text file.
    pub path: String,
    /// The model chosen, and whether a warning is owed.
    pub selection: Selection,
    /// The prompt given with `-p`, if any.
    pub prompt_override: Option<String>,
    /// Whether the raw reply is to be shown.
    pub raw: bool,
}

/// What a command line asks for.
#[derive(Clone, Debug, PartialEq, Eq)]
pub enum Command {
    /// Too few words: show how the program is used.
    Usage,
    /// Store a new default parent prompt.
    Setup,
    /// Show the stored parent prompt.
    Current,
    /// Send a file to the model.
    Run(Invocation),
}

/// What an `Invocation` stands for.
pub struct InvocationView {
    pub path: Seq<char>,
    pub selection: Selection,
    pub prompt_override: Option<Seq<char>>,
    pub raw: bool,
}

/// What a `Command` stands for.
pub enum CommandView {
    Usage,
    Setup,
    Current,
    Run(InvocationView),
}

impl View for Invocation {
    type V = InvocationView;

    open spec fn view(&self) -> InvocationView {
        InvocationView {
            path: self.path@,
            selection: self.selection,
            prompt_override: match self.prompt_override {
                Some(prompt) => Some(prompt@),
                None => None,
            },
            raw: self.raw,
        }
    }
}

impl View for Command {
    type V = CommandView;

    open spec fn view(&self) -> CommandView {
        match self {
            Command::Usage => CommandView::Usage,
            Command::Setup => CommandView::Setup,
            Command::Current => CommandView::Current,
            Command::Run(invocation) => CommandView::Run(invocation@),
        }
    }
}

/// The words of a command line, each as its characters.
pub open spec fn words(args: Seq<String>) -> Seq<Seq<char>> {
    Seq::new(args.len(), |i: int| args[i]@)
}

/// The prompt that follows the first `-p` at or after position `from`, the
/// program's name and the last word not being looked at as a flag.
pub open spec fn override_from(line: Seq<Seq<char>>, from: int) -> Option<Seq<char>>
    decreases line.len() - from,
{
    if from < 1 || from + 1 >= line.len() {
        None
    } else if line[from] == "-p"@ {
        Some(line[from + 1])
    } else {
        override_from(line, from + 1)
    }
}

/// The prompt given on a command line with `-p`, if any.
pub open spec fn prompt_override(line: Seq<Seq<char>>) -> Option<Seq<char>> {
    override_from(line, 1)
}

/// Whether a command line asks for the raw reply.
pub open spec fn wants_raw(line: Seq<Seq<char>>) -> bool {
    line.contains("--raw"@)
}

/// The selector word of a command line: its third word, if there is one.
pub open spec fn selector_word(line: Seq<Seq<char>>) -> Option<Seq<char>> {
    if line.len() > 2 {
        Some(line[2])
    } else {
        None
    }
}

/// What a command line asks for. The first word is the program's name. With
/// nothing after it the usage is shown; `setup` and `current` as the second
/// word are the two subcommands; any other second word is the path of the
/// file to send.
pub open spec fn command_of(line: Seq<Seq<char>>) -> CommandView {
    if line.len() < 2 {
        CommandView::Usage
    } else if line[1] == "setup"@ {
        CommandView::Setup
    } else if line[1] == "current"@ {
        CommandView::Current
    } else {
        CommandView::Run(
            InvocationView {
                path: line[1],
                selection: selection_of(selector_word(line)),
                prompt_override: prompt_override(line),
                raw: wants_raw(line),
            },
        )
    }
}

/// The `-p` that counts is the first one after the program's name that has a
/// word behind it, and the prompt is that word; with no such `-p` there is no
/// prompt.
pub proof fn lemma_override_is_first_flag(line: Seq<Seq<char>>, from: int)
    requires
        1 <= from,
    ensures
        match override_from(line, from) {
            Some(prompt) => exists|i: int|
                {
                    &&& from <= i < line.len() - 1
                    &&& #[trigger] line[i] == "-p"@
                    &&& prompt == line[i + 1]
                    &&& forall|j: int| from <= j < i ==> #[trigger] line[j] != "-p"@
                },
            None => forall|i: int| from <= i < line.len() - 1 ==> #[trigger] line[i] != "-p"@,
        },
    decreases line.len() - from,
{
    if from + 1 >= line.len() {
    } else if line[from] == "-p"@ {
        assert(forall|j: int| from <= j < from ==> #[trigger] line[j] != "-p"@);
    } else {
        lemma_override_is_first_flag(line, from + 1);
        match override_from(line, from + 1) {
            Some(prompt) => {
                let i = choose|i: int|
                    {
                        &&& from + 1 <= i < line.len() - 1
                        &&& #[trigger] line[i] == "-p"@
                        &&& prompt == line[i + 1]
                        &&& forall|j: int| from + 1 <= j < i ==> #[trigger] line[j] != "-p"@
                    };
                assert(forall|j: int| from <= j < i ==> #[trigger] line[j] != "-p"@);
            },
            None => {},
        }
    }
}

/// Finds the prompt given with `-p`.
pub fn find_prompt_override(args: &Vec<String>) -> (prompt: Option<String>)
    ensures
        match prompt {
            Some(found) => prompt_override(words(args@)) == Some(found@),
            None => prompt_override(words(args@)).is_none(),
        },
{
    let ghost line = words(args@);
    if args.len() < 2 {
        return None;
    }
    let last: usize = args.len() - 1;
    let mut i: usize = 1;
    while i < last
        invariant
            1 <= i,
            last + 1 == args.len(),
            line == words(args@),
            prompt_override(line) == override_from(line, i as int),
        decreases last - i,
    {
        if same_text(args[i].as_str(), "-p") {
            return Some(args[i + 1].clone());
        }
        i += 1;
    }
    None
}

/// Tells whether `--raw` is among the words.
pub fn has_raw_flag(args: &Vec<String>) -> (raw: bool)
    ensures
        raw == wants_raw(words(args@)),
{
    let ghost line = words(args@);
    let mut i: usize = 0;
    while i < args.len()
        invariant
            i <= args.len(),
            line == words(args@),
            forall|k: int| 0 <= k < i ==> line[k] != "--raw"@,
        decreases args.len() - i,
    {
        if same_text(args[i].as_str(), "--raw") {
            assert(line[i as int] == "--raw"@);
            return true;
        }
        i += 1;
    }
    false
}

/// Reads a command line, the program's name first.
pub fn parse_command(args: &Vec<String>) -> (command: Command)
    ensures
        command@ == command_of(words(args@)),
{
    let ghost line = words(args@);
    if args.len() < 2 {
        return Command::Usage;
    }
    assert(line[1] == args@[1]@);
    if same_text(args[1].as_str(), "setup") {
        return Command::Setup;
    }
    if same_text(args[1].as_str(), "current") {
        return Command::Current;
    }
    let selection = if args.len() > 2 {
        assert(line[2] == args@[2]@);
        select_model(Some(args[2].as_str()))
    } else {
        select_model(None)
    };
    Command::Run(
        Invocation {
            path: args[1].clone(),
            selection,
            prompt_override: find_prompt_override(args),
            raw: has_raw_flag(args),
        },
    )
}

} // verus!
