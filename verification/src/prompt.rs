//! The parent prompt: where it comes from and how it is stored.

use vstd::prelude::*;

verus! {

/// The persisted settings: the user's own default parent prompt.
#[derive(Clone, Debug, PartialEq, Eq)]
pub struct Config {
    pub parent_prompt: String,
}

impl View for Config {
    type V = Seq<char>;

    /// A configuration stands for the prompt it holds.
    open spec fn view(&self) -> Seq<char> {
        self.parent_prompt@
    }
}

/// The built-in parent prompt.
pub open spec fn default_prompt() -> Seq<char> {
    "Summarise the following in 300 tokens or less. Give your best attempt."@
}

/// The parent prompt in force: the one given on the command line, else the
/// persisted one, else the built-in one.
pub open spec fn resolved_prompt(given: Option<Seq<char>>, persisted: Option<Seq<char>>) -> Seq<
    char,
> {
    match given {
        Some(prompt) => prompt,
        None => match persisted {
            Some(prompt) => prompt,
            None => default_prompt(),
        },
    }
}

/// Returns the built-in parent prompt.
pub fn default_parent_prompt() -> (prompt: &'static str)
    ensures
        prompt@ == default_prompt(),
{
    "Summarise the following in 300 tokens or less. Give your best attempt."
}

/// The character content of an optional string.
pub open spec fn text_of(word: Option<String>) -> Option<Seq<char>> {
    match word {
        Some(s) => Some(s@),
        None => None,
    }
}

/// The prompt of an optional configuration.
pub open spec fn prompt_of(persisted: Option<Config>) -> Option<Seq<char>> {
    match persisted {
        Some(config) => Some(config@),
        None => None,
    }
}

/// Picks the parent prompt in force.
pub fn resolve_parent_prompt(given: Option<String>, persisted: Option<Config>) -> (prompt: String)
    ensures
        prompt@ == resolved_prompt(text_of(given), prompt_of(persisted)),
{
    match given {
        Some(prompt) => prompt,
        None => match persisted {
            Some(config) => config.parent_prompt,
            None => String::from_str(default_parent_prompt()),
        },
    }
}

/// A prompt given on the command line is the prompt in force, whatever is
/// persisted.
pub proof fn lemma_given_prompt_wins(given: Seq<char>, persisted: Option<Seq<char>>)
    ensures
        resolved_prompt(Some(given), persisted) == given,
{
}

/// With no prompt given and none persisted, the built-in prompt is in force.
pub proof fn lemma_default_prompt_when_unset()
    ensures
        resolved_prompt(None, None) == default_prompt(),
{
}

/// Whether a character is white space (the Unicode property `White_Space`).
pub open spec fn is_space(c: char) -> bool {
    let n = c as u32;
    ||| 0x09 <= n <= 0x0D
    ||| n == 0x20
    ||| n == 0x85
    ||| n == 0xA0
    ||| n == 0x1680
    ||| 0x2000 <= n <= 0x200A
    ||| n == 0x2028
    ||| n == 0x2029
    ||| n == 0x202F
    ||| n == 0x205F
    ||| n == 0x3000
}

/// The length of a text once its trailing white space is gone.
pub open spec fn trimmed_len(text: Seq<char>) -> nat
    decreases text.len(),
{
    if text.len() == 0 {
        0
    } else if is_space(text.last()) {
        trimmed_len(text.drop_last())
    } else {
        text.len()
    }
}

/// A text without its trailing white space.
pub open spec fn trim_trailing(text: Seq<char>) -> Seq<char> {
    text.subrange(0, trimmed_len(text) as int)
}

/// Tells whether a character is white space.
pub fn char_is_space(c: char) -> (space: bool)
    ensures
        space == is_space(c),
{
    let n: u32 = c as u32;
    (0x09 <= n && n <= 0x0D) || n == 0x20 || n == 0x85 || n == 0xA0 || n == 0x1680 || (0x2000 <= n
        && n <= 0x200A) || n == 0x2028 || n == 0x2029 || n == 0x202F || n == 0x205F || n == 0x3000
}

/// What trimming does, said directly: the result is the start of the text,
/// all that was cut is white space, and the result does not end in white
/// space.
pub proof fn lemma_trim_trailing(text: Seq<char>)
    ensures
        trimmed_len(text) <= text.len(),
        forall|i: int| trimmed_len(text) <= i < text.len() ==> is_space(#[trigger] text[i]),
        trimmed_len(text) > 0 ==> !is_space(text[trimmed_len(text) - 1]),
    decreases text.len(),
{
    if text.len() > 0 && is_space(text.last()) {
        let head = text.drop_last();
        lemma_trim_trailing(head);
        assert forall|i: int| trimmed_len(text) <= i < text.len() implies is_space(
            #[trigger] text[i],
        ) by {
            if i < head.len() {
                assert(text[i] == head[i]);
            }
        }
    }
}

/// Cleans a line of interactive input: the trailing line end and any other
/// trailing white space are dropped.
pub fn trim_prompt_input(line: &str) -> (prompt: String)
    ensures
        prompt@ == trim_trailing(line@),
{
    let len: usize = line.unicode_len();
    let mut end: usize = len;
    proof {
        assert(line@.subrange(0, len as int) =~= line@);
    }
    loop
        invariant
            len == line@.len(),
            end <= len,
            trimmed_len(line@) == trimmed_len(line@.subrange(0, end as int)),
        ensures
            end == 0 || !is_space(line@[end - 1]),
        decreases end,
    {
        if end == 0 {
            break ;
        }
        let c = line.get_char(end - 1);
        let ghost head = line@.subrange(0, end as int);
        if !char_is_space(c) {
            proof {
                assert(head.last() == c);
            }
            break ;
        }
        proof {
            assert(head.last() == c);
            assert(head.drop_last() =~= line@.subrange(0, end - 1));
        }
        end -= 1;
    }
    proof {
        let head = line@.subrange(0, end as int);
        if end > 0 {
            assert(head.last() == line@[end - 1]);
        }
        assert(trimmed_len(head) == end);
    }
    String::from_str(line.substring_char(0, end))
}

/// The line shown for the persisted prompt: the prompt itself, or a notice
/// that none is set.
pub open spec fn current_prompt_line(persisted: Option<Seq<char>>) -> Seq<char> {
    match persisted {
        Some(prompt) => prompt,
        None => "No custom parent prompt set. Using default parent prompt."@,
    }
}

/// Returns the line to show for the persisted prompt.
pub fn show_current_parent_prompt(persisted: Option<Config>) -> (line: String)
    ensures
        line@ == current_prompt_line(prompt_of(persisted)),
{
    match persisted {
        Some(config) => config.parent_prompt,
        None => String::from_str("No custom parent prompt set. Using default parent prompt."),
    }
}

} // verus!
