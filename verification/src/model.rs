//! The chat models a request can be addressed to, and their token ceilings.

use crate::text::same_text;
use vstd::prelude::*;

verus! {

/// A chat model known to the dispatcher.
#[derive(Clone, Copy, Debug, PartialEq, Eq, Structural)]
pub enum Model {
    /// `gpt-4`, selected by `g4` and by default.
    Gpt4,
    /// `gpt-4-32k`, selected by `g4-32`.
    Gpt4Wide,
    /// `gpt-3.5-turbo`, selected by `g3`.
    Gpt35Turbo,
}

/// The outcome of reading a model selector: the model to use, and whether
/// the user is owed a warning that the default was taken.
#[derive(Clone, Copy, Debug, PartialEq, Eq, Structural)]
pub struct Selection {
    pub model: Model,
    pub warn: bool,
}

/// The model that a selector word names, if it names one.
pub open spec fn named_model(selector: Seq<char>) -> Option<Model> {
    if selector == "g4"@ {
        Some(Model::Gpt4)
    } else if selector == "g4-32"@ {
        Some(Model::Gpt4Wide)
    } else if selector == "g3"@ {
        Some(Model::Gpt35Turbo)
    } else {
        None
    }
}

/// The selection made from an optional selector word: a recognised word picks
/// its model silently, a missing word picks the default silently, and any
/// other word picks the default with a warning.
pub open spec fn selection_of(selector: Option<Seq<char>>) -> Selection {
    match selector {
        None => Selection { model: Model::Gpt4, warn: false },
        Some(word) => match named_model(word) {
            Some(model) => Selection { model, warn: false },
            None => Selection { model: Model::Gpt4, warn: true },
        },
    }
}

impl Model {
    /// The identifier sent on the wire.
    pub open spec fn name(self) -> Seq<char> {
        match self {
            Model::Gpt4 => "gpt-4"@,
            Model::Gpt4Wide => "gpt-4-32k"@,
            Model::Gpt35Turbo => "gpt-3.5-turbo"@,
        }
    }

    /// The largest combined token count the model accepts.
    pub open spec fn ceiling(self) -> nat {
        match self {
            Model::Gpt4 => 8192,
            Model::Gpt4Wide => 32768,
            Model::Gpt35Turbo => 4096,
        }
    }

    /// Returns the identifier sent on the wire.
    pub fn identifier(self) -> (name: &'static str)
        ensures
            name@ == self.name(),
    {
        match self {
            Model::Gpt4 => "gpt-4",
            Model::Gpt4Wide => "gpt-4-32k",
            Model::Gpt35Turbo => "gpt-3.5-turbo",
        }
    }

    /// Returns the largest combined token count the model accepts.
    pub fn token_ceiling(self) -> (ceiling: u64)
        ensures
            ceiling == self.ceiling(),
    {
        match self {
            Model::Gpt4 => 8192,
            Model::Gpt4Wide => 32768,
            Model::Gpt35Turbo => 4096,
        }
    }

    /// Reads a selector word: `g4`, `g4-32` or `g3`.
    pub fn from_selector(selector: &str) -> (model: Option<Model>)
        ensures
            model == named_model(selector@),
    {
        if same_text(selector, "g4") {
            Some(Model::Gpt4)
        } else if same_text(selector, "g4-32") {
            Some(Model::Gpt4Wide)
        } else if same_text(selector, "g3") {
            Some(Model::Gpt35Turbo)
        } else {
            None
        }
    }
}

/// Chooses the model for an invocation from its optional selector word.
pub fn select_model(selector: Option<&str>) -> (selection: Selection)
    ensures
        selection == selection_of(
            match selector {
                Some(word) => Some(word@),
                None => None,
            },
        ),
{
    match selector {
        None => Selection { model: Model::Gpt4, warn: false },
        Some(word) => match Model::from_selector(word) {
            Some(model) => Selection { model, warn: false },
            None => Selection { model: Model::Gpt4, warn: true },
        },
    }
}

/// Every selector word leads to the ceiling of the model it names: 8192 for
/// `g4`, 32768 for `g4-32`, 4096 for `g3`; any other word leads to the
/// ceiling of `g4`, 8192, together with a warning.
pub proof fn lemma_selector_ceiling(word: Seq<char>)
    ensures
        word == "g4"@ ==> selection_of(Some(word)).model.ceiling() == 8192 && !selection_of(
            Some(word),
        ).warn,
        word == "g4-32"@ ==> selection_of(Some(word)).model.ceiling() == 32768 && !selection_of(
            Some(word),
        ).warn,
        word == "g3"@ ==> selection_of(Some(word)).model.ceiling() == 4096 && !selection_of(
            Some(word),
        ).warn,
        word != "g4"@ && word != "g4-32"@ && word != "g3"@ ==> selection_of(
            Some(word),
        ).model.ceiling() == 8192 && selection_of(Some(word)).warn,
{
    reveal_strlit("g4");
    reveal_strlit("g4-32");
    reveal_strlit("g3");
    assert("g4"@.len() == 2 && "g4-32"@.len() == 5 && "g3"@.len() == 2);
    assert("g4"@[1] == '4' && "g3"@[1] == '3');
}

} // verus!
