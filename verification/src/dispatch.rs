//! Command-line dispatch.
//!
//! One invocation of the journal performs exactly one action, chosen by the
//! first argument alone: create a note, list a category, show help, or report
//! a usage problem. The table lives in `spec_dispatch`; `dispatch` is proved
//! to follow it.

use vstd::prelude::*;

verus! {

/// The action that one invocation of the journal performs. The string fields
/// are taken verbatim from the argument vector.
pub enum Action {
    /// No arguments at all: print a short usage hint.
    UsageHint,
    /// `-n` alone: ask for a title and/or category.
    MissingTitleOrCategory,
    /// `-n` with a title and an optional category: create that note.
    CreateNote { title: String, category: String },
    /// `-h` or `-help`: print the help text.
    Help,
    /// `-c` alone: report that arguments are missing.
    NotEnoughArguments,
    /// `-c` with a category: list that category's notes and offer to open one.
    ListCategory { category: String },
    /// A recognized flag followed by too many tokens.
    InvalidArguments,
    /// An unrecognized first token.
    UnrecognizedArguments,
}

/// The same action over mathematical strings, for contracts.
pub enum SpecAction {
    UsageHint,
    MissingTitleOrCategory,
    CreateNote { title: Seq<char>, category: Seq<char> },
    Help,
    NotEnoughArguments,
    ListCategory { category: Seq<char> },
    InvalidArguments,
    UnrecognizedArguments,
}

impl View for Action {
    type V = SpecAction;

    open spec fn view(&self) -> SpecAction {
        match self {
            Action::UsageHint => SpecAction::UsageHint,
            Action::MissingTitleOrCategory => SpecAction::MissingTitleOrCategory,
            Action::CreateNote { title, category } => SpecAction::CreateNote {
                title: title@,
                category: category@,
            },
            Action::Help => SpecAction::Help,
            Action::NotEnoughArguments => SpecAction::NotEnoughArguments,
            Action::ListCategory { category } => SpecAction::ListCategory { category: category@ },
            Action::InvalidArguments => SpecAction::InvalidArguments,
            Action::UnrecognizedArguments => SpecAction::UnrecognizedArguments,
        }
    }
}

/// The dispatch table over the argument vector, program name excluded. The
/// first token fully determines the action; a note created without a category
/// token falls into the category `misc`.
pub open spec fn spec_dispatch(args: Seq<Seq<char>>) -> SpecAction {
    if args.len() == 0 {
        SpecAction::UsageHint
    } else if args[0] == "-n"@ {
        if args.len() == 1 {
            SpecAction::MissingTitleOrCategory
        } else if args.len() == 2 {
            SpecAction::CreateNote { title: args[1], category: "misc"@ }
        } else if args.len() == 3 {
            SpecAction::CreateNote { title: args[1], category: args[2] }
        } else {
            SpecAction::InvalidArguments
        }
    } else if args[0] == "-h"@ || args[0] == "-help"@ {
        SpecAction::Help
    } else if args[0] == "-c"@ {
        if args.len() == 1 {
            SpecAction::NotEnoughArguments
        } else if args.len() == 2 {
            SpecAction::ListCategory { category: args[1] }
        } else {
            SpecAction::InvalidArguments
        }
    } else {
        SpecAction::UnrecognizedArguments
    }
}

/// String equality by contents.
fn str_eq(a: &str, b: &str) -> (r: bool)
    ensures
        r == (a@ == b@),
{
    let sa = a.to_owned();
    let sb = b.to_owned();
    sa == sb
}

/// Chooses the action for an argument vector, program name excluded.
pub fn dispatch(args: &Vec<String>) -> (r: Action)
    ensures
        r@ == spec_dispatch(args.deep_view()),
{
    let ghost dv = args.deep_view();
    proof {
        assert(forall|i: int| 0 <= i < args@.len() ==> dv[i] == args@[i]@);
    }
    if args.len() == 0 {
        return Action::UsageHint;
    }
    let first = &args[0];
    if str_eq(first.as_str(), "-n") {
        if args.len() == 1 {
            Action::MissingTitleOrCategory
        } else if args.len() == 2 {
            Action::CreateNote { title: args[1].clone(), category: "misc".to_owned() }
        } else if args.len() == 3 {
            Action::CreateNote { title: args[1].clone(), category: args[2].clone() }
        } else {
            Action::InvalidArguments
        }
    } else if str_eq(first.as_str(), "-h") || str_eq(first.as_str(), "-help") {
        Action::Help
    } else if str_eq(first.as_str(), "-c") {
        if args.len() == 1 {
            Action::NotEnoughArguments
        } else if args.len() == 2 {
            Action::ListCategory { category: args[1].clone() }
        } else {
            Action::InvalidArguments
        }
    } else {
        Action::UnrecognizedArguments
    }
}

} // verus!
