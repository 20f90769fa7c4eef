//! The persisted editor preference.
//!
//! The journal remembers which external editor to launch as a single decimal
//! numeral in a configuration file: 1 for vim, 2 for nano. This module decides
//! what a file's contents mean, models the interactive selector prompt, and
//! encodes a valid choice back into the numeral that is persisted.

use crate::numerals::all_digits;
use crate::numerals::digit_value;
use crate::numerals::digits_value;
use crate::numerals::parse_i16;
use crate::numerals::parse_int;
use crate::numerals::spec_parse_i16;
use vstd::prelude::*;

verus! {

/// The editor preference that selects vim.
pub const VIM: i16 = 1;

/// The editor preference that selects nano.
pub const NANO: i16 = 2;

/// True of the two supported editor choices.
pub open spec fn is_valid_editor(e: i16) -> bool {
    e == VIM || e == NANO
}

/// Checks whether a preference value is one of the supported editors. A
/// loaded preference must pass this check before any note is opened with it.
pub fn is_supported_editor(e: i16) -> (r: bool)
    ensures
        r == is_valid_editor(e),
{
    e == VIM || e == NANO
}

/// What loading the configuration file decides.
#[derive(PartialEq, Eq, Structural, Debug)]
pub enum LoadOutcome {
    /// The file held a numeral; its value is taken as found, valid or not.
    Loaded(i16),
    /// The file could not be opened: fall back to the interactive selector.
    NeedsSelection,
    /// The file opened but held no numeral: the program must abort.
    Fatal,
}

/// The meaning of what was found in the configuration file: an unreadable
/// file defers to the selector, a numeral is loaded as it stands, and any
/// other contents are a fatal error.
pub open spec fn spec_load_outcome(contents: Option<Seq<char>>) -> LoadOutcome {
    match contents {
        None => LoadOutcome::NeedsSelection,
        Some(s) => match spec_parse_i16(s) {
            Some(v) => LoadOutcome::Loaded(v),
            None => LoadOutcome::Fatal,
        },
    }
}

/// Decides what the configuration file's contents mean. `None` stands for a
/// file that could not be opened, `Some` for the text that was read from it.
pub fn load_editor_from(contents: Option<&String>) -> (r: LoadOutcome)
    ensures
        r == spec_load_outcome(
            match contents {
                Some(s) => Some(s@),
                None => None,
            },
        ),
{
    match contents {
        None => LoadOutcome::NeedsSelection,
        Some(s) => match parse_i16(s.as_str()) {
            Some(v) => LoadOutcome::Loaded(v),
            None => LoadOutcome::Fatal,
        },
    }
}

/// What one round of the selector prompt does with one input token: the token
/// is accepted exactly when it denotes a supported editor choice.
pub open spec fn spec_select_step(s: Seq<char>) -> Option<i16> {
    match spec_parse_i16(s) {
        Some(v) => if is_valid_editor(v) {
            Some(v)
        } else {
            None
        },
        None => None,
    }
}

/// One round of the selector prompt. A rejected token leaves the prompt
/// looping; an accepted one ends it.
pub fn select_step(input: &str) -> (r: Option<i16>)
    ensures
        r == spec_select_step(input@),
{
    match parse_i16(input) {
        Some(v) => if is_supported_editor(v) {
            Some(v)
        } else {
            None
        },
        None => None,
    }
}

/// Runs the selector prompt over a sequence of input tokens. The result names
/// the position of the first accepted token, which is also how many tokens
/// were rejected before it, and the choice it denotes; every earlier token
/// was rejected. `None` means every token was rejected and the prompt is
/// still waiting.
pub fn select_editor_from(inputs: &Vec<String>) -> (r: Option<(usize, i16)>)
    ensures
        match r {
            Some(p) => {
                &&& p.0 < inputs@.len()
                &&& spec_select_step(inputs@[p.0 as int]@) == Some(p.1)
                &&& is_valid_editor(p.1)
                &&& forall|j: int| 0 <= j < p.0 ==> spec_select_step(inputs@[j]@) is None
            },
            None => forall|j: int| 0 <= j < inputs@.len() ==> spec_select_step(inputs@[j]@) is None,
        },
{
    let mut i: usize = 0;
    while i < inputs.len()
        invariant
            i <= inputs@.len(),
            forall|j: int| 0 <= j < i ==> spec_select_step(inputs@[j]@) is None,
        decreases inputs@.len() - i,
    {
        match select_step(inputs[i].as_str()) {
            Some(v) => {
                return Some((i, v));
            },
            None => {},
        }
        i = i + 1;
    }
    None
}

/// The numeral persisted for a valid editor choice.
pub open spec fn spec_encode_editor(v: i16) -> Seq<char> {
    if v == VIM {
        "1"@
    } else {
        "2"@
    }
}

/// Encodes a valid editor choice as the text written to the configuration
/// file.
pub fn encode_editor(v: i16) -> (r: String)
    requires
        is_valid_editor(v),
    ensures
        r@ == spec_encode_editor(v),
{
    if v == VIM {
        "1".to_owned()
    } else {
        "2".to_owned()
    }
}

/// Law: a configuration file that cannot be opened defers to the interactive
/// selector; it is never a fatal error.
pub proof fn lemma_missing_file_needs_selection()
    ensures
        spec_load_outcome(None) == LoadOutcome::NeedsSelection,
{
}

/// Law: a configuration file whose contents denote no integer is a fatal
/// error, whatever those contents are.
pub proof fn lemma_unparseable_file_is_fatal(s: Seq<char>)
    requires
        spec_parse_i16(s) is None,
    ensures
        spec_load_outcome(Some(s)) == LoadOutcome::Fatal,
{
}

/// The executable that a preference value launches: `vim` or `nano` for the
/// two supported choices, and nothing for any other value.
pub open spec fn spec_editor_program(e: i16) -> Option<Seq<char>> {
    if e == VIM {
        Some("vim"@)
    } else if e == NANO {
        Some("nano"@)
    } else {
        None
    }
}

/// Names the executable to launch for an editor preference. `None` means the
/// preference is unsupported and no note may be opened with it.
pub fn editor_program(e: i16) -> (r: Option<String>)
    ensures
        r.deep_view() == spec_editor_program(e),
        r is Some <==> is_valid_editor(e),
{
    if e == VIM {
        Some("vim".to_owned())
    } else if e == NANO {
        Some("nano".to_owned())
    } else {
        None
    }
}

/// Law: persisting a valid editor choice and loading the configuration file
/// back yields that same choice.
pub proof fn lemma_editor_round_trip(v: i16)
    requires
        is_valid_editor(v),
    ensures
        spec_load_outcome(Some(spec_encode_editor(v))) == LoadOutcome::Loaded(v),
{
    reveal_strlit("1");
    reveal_strlit("2");
    let s = spec_encode_editor(v);
    assert(s.len() == 1);
    assert(s.drop_last() =~= Seq::<char>::empty());
    assert(digits_value(s) == digits_value(s.drop_last()) * 10 + digit_value(s.last()));
    assert(all_digits(s));
    assert(parse_int(s) == Some(v as int));
}

} // verus!
