//! The command-line grammar: which command a list of arguments selects.
//!
//! The arguments are those of the process, so the first one is the name of the
//! program and the verb comes second.

use crate::decimal::{parse_id, parse_id_spec};
use vstd::prelude::*;

verus! {

/// What a command is, with a title as a sequence of characters.
pub enum CommandView {
    Help,
    Add(Seq<char>),
    List,
    Done(nat),
    Remove(nat),
    InvalidId,
    Unknown,
}

/// What the arguments of one invocation ask for.
#[derive(Debug, PartialEq, Eq)]
pub enum Command {
    /// No verb was given: the usage text is due.
    Help,
    /// Add a task with this title.
    Add(String),
    /// Show the tasks.
    List,
    /// Mark the task with this number as done.
    Done(usize),
    /// Remove the task with this number.
    Remove(usize),
    /// `done` or `remove` with one argument that is no identifier.
    InvalidId,
    /// Anything else: an unknown verb, or a known one with the wrong number of
    /// arguments.
    Unknown,
}

impl View for Command {
    type V = CommandView;

    open spec fn view(&self) -> CommandView {
        match self {
            Command::Help => CommandView::Help,
            Command::Add(title) => CommandView::Add(title@),
            Command::List => CommandView::List,
            Command::Done(id) => CommandView::Done(*id as nat),
            Command::Remove(id) => CommandView::Remove(*id as nat),
            Command::InvalidId => CommandView::InvalidId,
            Command::Unknown => CommandView::Unknown,
        }
    }
}

/// The words joined into one text, with a single space between neighbours.
pub open spec fn join_words(words: Seq<Seq<char>>) -> Seq<char>
    decreases words.len(),
{
    if words.len() == 0 {
        Seq::empty()
    } else if words.len() == 1 {
        words[0]
    } else {
        join_words(words.drop_last()) + seq![' '] + words.last()
    }
}

/// The command that `args` selects.
///
/// - With no verb: the usage text.
/// - `add` and at least one word: add a task titled with the words, joined by
///   single spaces.
/// - `list`, whatever follows it: show the tasks.
/// - `done` or `remove` and exactly one argument: the command on that
///   identifier, or an invalid identifier where the argument is none.
/// - Anything else is unknown.
pub open spec fn command_of(args: Seq<Seq<char>>) -> CommandView {
    if args.len() < 2 {
        CommandView::Help
    } else if args[1] == "add"@ && args.len() >= 3 {
        CommandView::Add(join_words(args.skip(2)))
    } else if args[1] == "list"@ {
        CommandView::List
    } else if args[1] == "done"@ && args.len() == 3 {
        match parse_id_spec(args[2]) {
            Some(id) => CommandView::Done(id as nat),
            None => CommandView::InvalidId,
        }
    } else if args[1] == "remove"@ && args.len() == 3 {
        match parse_id_spec(args[2]) {
            Some(id) => CommandView::Remove(id as nat),
            None => CommandView::InvalidId,
        }
    } else {
        CommandView::Unknown
    }
}

/// Whether `text` is exactly `word`.
fn is_word(text: &String, word: &str) -> (same: bool)
    ensures
        same == (text@ == word@),
{
    *text == word.to_owned()
}

/// Joins the arguments from position `start` on with single spaces.
fn join_from(args: &Vec<String>, start: usize) -> (joined: String)
    requires
        start < args.len(),
    ensures
        joined@ == join_words(args.deep_view().skip(start as int)),
{
    let ghost words = args.deep_view();
    let n = args.len();
    let mut joined = args[start].clone();
    let mut i: usize = start + 1;
    proof {
        assert(words.subrange(start as int, i as int) =~= seq![words[start as int]]);
    }
    while i < n
        invariant
            n == args.len(),
            words == args.deep_view(),
            start < i <= n,
            joined@ == join_words(words.subrange(start as int, i as int)),
        decreases n - i,
    {
        joined.append(" ");
        joined.append(args[i].as_str());
        proof {
            reveal_strlit(" ");
            let longer = words.subrange(start as int, i + 1);
            assert(longer.drop_last() =~= words.subrange(start as int, i as int));
            assert(longer.last() == words[i as int]);
            assert(" "@ =~= seq![' ']);
        }
        i = i + 1;
    }
    proof {
        assert(words.subrange(start as int, n as int) =~= words.skip(start as int));
    }
    joined
}

impl Command {
    /// Reads the command that the arguments of the process select: see
    /// [`command_of`].
    pub fn parse(args: &Vec<String>) -> (command: Command)
        ensures
            command@ == command_of(args.deep_view()),
    {
        let n = args.len();
        if n < 2 {
            return Command::Help;
        }
        let verb = &args[1];
        if is_word(verb, "add") && n >= 3 {
            Command::Add(join_from(args, 2))
        } else if is_word(verb, "list") {
            Command::List
        } else if is_word(verb, "done") && n == 3 {
            match parse_id(args[2].as_str()) {
                Some(id) => Command::Done(id),
                None => Command::InvalidId,
            }
        } else if is_word(verb, "remove") && n == 3 {
            match parse_id(args[2].as_str()) {
                Some(id) => Command::Remove(id),
                None => Command::InvalidId,
            }
        } else {
            Command::Unknown
        }
    }
}

} // verus!
