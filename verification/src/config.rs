//! The settings of the program and the rules of its startup: which
//! credential counts, how the question for one is answered, and which time
//! window a keyword names.

use vstd::prelude::*;
use crate::models::Key;
use crate::text::{trim_text, trimmed, views};

verus! {

/// The settings that the configuration files give.
#[derive(Debug)]
pub struct Settings {
    pub gemini_model: String,
    pub gemini_api_key: Option<String>,
    pub prompt_for_api_key: bool,
    pub custom_prompt_path: Option<String>,
    pub lang: Option<String>,
}

/// The text of an optional string.
pub open spec fn text_of(value: Option<String>) -> Option<Seq<char>> {
    match value {
        Some(text) => Some(text@),
        None => None,
    }
}

/// The credential that counts: the configured one unless it is missing or
/// empty, else the one from the environment.
pub open spec fn chosen_key(configured: Option<Seq<char>>, from_env: Option<Seq<char>>) -> Option<
    Seq<char>,
> {
    match configured {
        Some(key) => if key.len() > 0 {
            Some(key)
        } else {
            from_env
        },
        None => from_env,
    }
}

impl Settings {
    /// The credential to use, given the one that the environment holds.
    pub fn api_key(&self, from_env: Option<String>) -> (key: Option<String>)
        ensures
            text_of(key) == chosen_key(text_of(self.gemini_api_key), text_of(from_env)),
    {
        match &self.gemini_api_key {
            Some(key) => {
                if key.as_str().unicode_len() > 0 {
                    Some(key.clone())
                } else {
                    from_env
                }
            },
            None => from_env,
        }
    }

    /// Whether the user is asked for a credential at startup: only where
    /// none was found and the settings allow the question.
    pub fn asks_for_key(&self, key: &Option<String>) -> (asks: bool)
        ensures
            asks == (key is None && self.prompt_for_api_key),
    {
        key.is_none() && self.prompt_for_api_key
    }
}

/// The keys of the blueprint that the user's configuration lacks, in the
/// order of the blueprint: the entries that are copied into the user's
/// file.
pub open spec fn missing(blueprint: Seq<Seq<char>>, user: Seq<Seq<char>>) -> Seq<Seq<char>> {
    blueprint.filter(|key: Seq<char>| !user.contains(key))
}

/// The keys of the blueprint that the user's configuration lacks.
pub fn missing_keys(blueprint: &Vec<String>, user: &Vec<String>) -> (keys: Vec<String>)
    ensures
        views(keys@) == missing(views(blueprint@), views(user@)),
{
    let ghost lacking = |key: Seq<char>| !views(user@).contains(key);
    let mut keys: Vec<String> = Vec::new();
    let mut i: usize = 0;
    assert(views(blueprint@).take(0).filter(lacking) =~= Seq::<Seq<char>>::empty()) by {
        reveal(Seq::filter);
    }
    assert(views(keys@) =~= Seq::<Seq<char>>::empty());
    while i < blueprint.len()
        invariant
            i <= blueprint.len(),
            lacking == |key: Seq<char>| !views(user@).contains(key),
            views(keys@) == views(blueprint@).take(i as int).filter(lacking),
        decreases blueprint.len() - i,
    {
        let key = &blueprint[i];
        let mut found = false;
        let mut j: usize = 0;
        while j < user.len()
            invariant
                j <= user.len(),
                found == exists|n: int| 0 <= n < j && #[trigger] views(user@)[n] == key@,
            decreases user.len() - j,
        {
            assert(views(user@)[j as int] == user@[j as int]@);
            if user[j] == *key {
                found = true;
            }
            j = j + 1;
        }
        proof {
            assert(found == views(user@).contains(key@));
            assert(views(blueprint@)[i as int] == key@);
            assert(views(blueprint@).take(i as int + 1) == views(blueprint@).take(i as int).push(
                key@,
            ));
            crate::active::lemma_filter_push(views(blueprint@).take(i as int), lacking, key@);
        }
        if !found {
            let ghost before = keys@;
            keys.push(key.clone());
            assert(views(keys@) =~= views(before).push(key@));
        }
        i = i + 1;
    }
    assert(views(blueprint@).take(blueprint.len() as int) == views(blueprint@));
    keys
}

/// An answer to the question whether a credential is to be entered now.
#[derive(Clone, Copy, PartialEq, Eq, Debug)]
pub enum KeyChoice {
    Yes,
    Skip,
    Never,
}

/// How the question goes on after a key.
#[derive(Clone, Copy, PartialEq, Eq, Debug)]
pub enum PromptStep {
    /// The question stays, with this answer highlighted.
    Stay(KeyChoice),
    /// The highlighted answer was given.
    Chosen(KeyChoice),
    /// The question was called off: no credential is entered.
    Cancelled,
}

/// The answer to the left, going round.
pub open spec fn choice_left(choice: KeyChoice) -> KeyChoice {
    match choice {
        KeyChoice::Yes => KeyChoice::Never,
        KeyChoice::Skip => KeyChoice::Yes,
        KeyChoice::Never => KeyChoice::Skip,
    }
}

/// The answer to the right, going round.
pub open spec fn choice_right(choice: KeyChoice) -> KeyChoice {
    match choice {
        KeyChoice::Yes => KeyChoice::Skip,
        KeyChoice::Skip => KeyChoice::Never,
        KeyChoice::Never => KeyChoice::Yes,
    }
}

/// How the question goes on after a key: the arrows move the highlight,
/// Enter gives the highlighted answer, `q` and Escape call the question
/// off, and every other key leaves it as it is.
pub open spec fn prompt_after(choice: KeyChoice, key: Key) -> PromptStep {
    match key {
        Key::Left => PromptStep::Stay(choice_left(choice)),
        Key::Right => PromptStep::Stay(choice_right(choice)),
        Key::Enter => PromptStep::Chosen(choice),
        Key::Esc => PromptStep::Cancelled,
        Key::Char(c) => if c == 'q' {
            PromptStep::Cancelled
        } else {
            PromptStep::Stay(choice)
        },
        _ => PromptStep::Stay(choice),
    }
}

/// How the question for a credential goes on after a key.
pub fn key_prompt_step(choice: KeyChoice, key: Key) -> (step: PromptStep)
    ensures
        step == prompt_after(choice, key),
{
    match key {
        Key::Left => PromptStep::Stay(
            match choice {
                KeyChoice::Yes => KeyChoice::Never,
                KeyChoice::Skip => KeyChoice::Yes,
                KeyChoice::Never => KeyChoice::Skip,
            },
        ),
        Key::Right => PromptStep::Stay(
            match choice {
                KeyChoice::Yes => KeyChoice::Skip,
                KeyChoice::Skip => KeyChoice::Never,
                KeyChoice::Never => KeyChoice::Yes,
            },
        ),
        Key::Enter => PromptStep::Chosen(choice),
        Key::Esc => PromptStep::Cancelled,
        Key::Char(c) => {
            if c == 'q' {
                PromptStep::Cancelled
            } else {
                PromptStep::Stay(choice)
            }
        },
        _ => PromptStep::Stay(choice),
    }
}

/// The credential that a line of input holds: the line without the white
/// space around it, or none where nothing is left.
pub fn entered_key(line: &str) -> (key: Option<String>)
    ensures
        key is Some <==> trimmed(line@).len() > 0,
        key matches Some(text) ==> text@ == trimmed(line@),
{
    let text = trim_text(line);
    if text.as_str().unicode_len() > 0 {
        Some(text)
    } else {
        None
    }
}

} // verus!
