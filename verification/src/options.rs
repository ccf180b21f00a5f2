//! Declaration options for a store: the one-time, offline boundary at which
//! a state-object declaration is configured and malformed input is rejected
//! outright, before any runtime store exists.
//!
//! The option list is a comma-separated run of words; the single recognized
//! word, `Clone`, declares that the state object supports independent
//! duplication even when that cannot be seen from the declaration itself.
//! Which cell strategy a store uses follows from these options together with
//! what the declaration derives: copy-on-write exactly when the type
//! supports duplication, in-place otherwise.

use vstd::prelude::*;
use crate::cow::CowStore;
use crate::field::Duplicable;
use crate::inplace::InPlaceStore;

verus! {

/// One token of a store declaration's option list.
pub enum OptionToken {
    /// An identifier.
    Word(String),
    /// A separating comma.
    Comma,
}

/// The parsed options of a store declaration.
#[derive(Clone, Copy, Debug, PartialEq, Eq, Structural)]
pub struct StoreOptions {
    /// The `Clone` option: the state object is declared to support
    /// independent duplication.
    pub clone_declared: bool,
}

/// Why an option list was rejected. Rejection happens once, at the
/// declaration boundary; no runtime store is ever built from a malformed
/// declaration.
#[derive(Clone, Copy, Debug, PartialEq, Eq, Structural)]
pub enum OptionsError {
    /// `Clone` was given more than once.
    DuplicateClone,
    /// A word other than `Clone` was given.
    UnexpectedWord,
    /// The option list ends with a comma.
    TrailingComma,
    /// Two words follow each other with no comma between them.
    MissingComma,
    /// A comma stands where a word was expected.
    MisplacedComma,
}

impl OptionsError {
    /// A diagnostic naming the rejected shape.
    pub fn describe(&self) -> (r: &'static str)
        ensures
            *self == OptionsError::DuplicateClone ==> r@ == "duplicate 'Clone' attribute"@,
            *self == OptionsError::UnexpectedWord ==> r@
                == "unexpected attribute: expected 'Clone'"@,
            *self == OptionsError::TrailingComma ==> r@ == "trailing comma not allowed"@,
            *self == OptionsError::MissingComma ==> r@ == "expected a comma between attributes"@,
            *self == OptionsError::MisplacedComma ==> r@
                == "expected an attribute, found a comma"@,
    {
        match self {
            OptionsError::DuplicateClone => "duplicate 'Clone' attribute",
            OptionsError::UnexpectedWord => "unexpected attribute: expected 'Clone'",
            OptionsError::TrailingComma => "trailing comma not allowed",
            OptionsError::MissingComma => "expected a comma between attributes",
            OptionsError::MisplacedComma => "expected an attribute, found a comma",
        }
    }
}

/// What parsing the option list `ts` yields, scanning left to right with
/// `seen_clone` recording whether `Clone` was already taken: either the
/// final `Clone` flag or the first rejection.
pub open spec fn spec_parse_options(ts: Seq<OptionToken>, seen_clone: bool) -> Result<
    bool,
    OptionsError,
>
    decreases ts.len(),
{
    if ts.len() == 0 {
        Ok(seen_clone)
    } else {
        match ts[0] {
            OptionToken::Comma => Err(OptionsError::MisplacedComma),
            OptionToken::Word(w) => {
                if w@ != "Clone"@ {
                    Err(OptionsError::UnexpectedWord)
                } else if seen_clone {
                    Err(OptionsError::DuplicateClone)
                } else if ts.len() == 1 {
                    Ok(true)
                } else {
                    match ts[1] {
                        OptionToken::Word(_) => Err(OptionsError::MissingComma),
                        OptionToken::Comma => {
                            if ts.len() == 2 {
                                Err(OptionsError::TrailingComma)
                            } else {
                                spec_parse_options(ts.skip(2), true)
                            }
                        },
                    }
                }
            },
        }
    }
}

/// With `Clone` already taken, only an empty remainder still parses: a
/// further `Clone` is a duplicate, any other word is unknown, and a comma
/// is misplaced.
proof fn lemma_after_clone_only_empty(ts: Seq<OptionToken>)
    ensures
        spec_parse_options(ts, true) is Ok ==> ts.len() == 0,
{
}

/// The option list that is exactly the single word `Clone`.
pub open spec fn is_single_clone(ts: Seq<OptionToken>) -> bool {
    ts.len() == 1 && (ts[0] matches OptionToken::Word(w) && w@ == "Clone"@)
}

/// The well-formed option lists are exactly the empty list and the single
/// word `Clone`: everything else is rejected.
pub proof fn lemma_options_accepted(ts: Seq<OptionToken>)
    ensures
        spec_parse_options(ts, false) is Ok <==> (ts.len() == 0 || is_single_clone(ts)),
{
    if ts.len() >= 3 {
        lemma_after_clone_only_empty(ts.skip(2));
    }
}

/// Whether `w` is the word `Clone`.
fn is_clone_word(w: &String) -> (r: bool)
    ensures
        r == (w@ == "Clone"@),
{
    let clone_word: String = "Clone".to_owned();
    *w == clone_word
}

/// Parse a store declaration's option list, rejecting malformed input:
/// an unknown word, a duplicated `Clone`, a missing, trailing or misplaced
/// comma. Exactly the well-formed lists are accepted, and the result is
/// precisely what [`spec_parse_options`] says.
pub fn parse_options(tokens: &Vec<OptionToken>) -> (r: Result<StoreOptions, OptionsError>)
    ensures
        r matches Ok(o) ==> spec_parse_options(tokens@, false) == Ok::<bool, OptionsError>(
            o.clone_declared,
        ),
        r matches Err(e) ==> spec_parse_options(tokens@, false) == Err::<bool, OptionsError>(e),
{
    let mut i: usize = 0;
    let mut seen_clone: bool = false;
    proof {
        assert(tokens@.skip(0) =~= tokens@);
    }
    loop
        invariant
            i <= tokens@.len(),
            spec_parse_options(tokens@, false) == spec_parse_options(tokens@.skip(i as int), seen_clone),
        decreases tokens@.len() - i,
    {
        if i >= tokens.len() {
            return Ok(StoreOptions { clone_declared: seen_clone });
        }
        proof {
            assert(tokens@.skip(i as int)[0] == tokens@[i as int]);
        }
        match &tokens[i] {
            OptionToken::Comma => {
                return Err(OptionsError::MisplacedComma);
            },
            OptionToken::Word(w) => {
                if !is_clone_word(w) {
                    return Err(OptionsError::UnexpectedWord);
                }
                if seen_clone {
                    return Err(OptionsError::DuplicateClone);
                }
                if i + 1 == tokens.len() {
                    return Ok(StoreOptions { clone_declared: true });
                }
                proof {
                    assert(tokens@.skip(i as int)[1] == tokens@[i + 1]);
                }
                match &tokens[i + 1] {
                    OptionToken::Word(_) => {
                        return Err(OptionsError::MissingComma);
                    },
                    OptionToken::Comma => {
                        if i + 2 == tokens.len() {
                            return Err(OptionsError::TrailingComma);
                        }
                        proof {
                            assert(tokens@.skip(i as int).skip(2) =~= tokens@.skip(i + 2));
                        }
                        i = i + 2;
                        seen_clone = true;
                    },
                }
            },
        }
    }
}

/// Whether a declaration's derive list grants the duplication capability:
/// true exactly when some derived name is `Clone`. Together with the parsed
/// options this decides the cell strategy — writing the option before the
/// derive is declared, or deriving without the option, both count.
pub fn derive_list_declares_clone(derives: &Vec<String>) -> (r: bool)
    ensures
        r == exists|i: int| 0 <= i < derives@.len() && derives@[i]@ == "Clone"@,
{
    let mut i: usize = 0;
    loop
        invariant
            i <= derives@.len(),
            forall|j: int| 0 <= j < i ==> derives@[j]@ != "Clone"@,
        decreases derives@.len() - i,
    {
        if i >= derives.len() {
            return false;
        }
        if is_clone_word(&derives[i]) {
            return true;
        }
        i = i + 1;
    }
}

/// The two mutation strategies a store cell can use.
#[derive(Clone, Copy, Debug, PartialEq, Eq, Structural)]
pub enum CellVariant {
    /// Mutation replaces the whole instance by an atomic snapshot swap.
    CopyOnWrite,
    /// Mutation happens on the one live instance under the lock.
    InPlace,
}

/// The cell strategy chosen for a state object: copy-on-write exactly when
/// the object supports independent duplication — declared in its options or
/// visible as a derived duplication capability — and in-place otherwise.
pub fn choose_variant(options: &StoreOptions, derives_duplication: bool) -> (v: CellVariant)
    ensures
        v == CellVariant::CopyOnWrite <==> (options.clone_declared || derives_duplication),
{
    if options.clone_declared || derives_duplication {
        CellVariant::CopyOnWrite
    } else {
        CellVariant::InPlace
    }
}

/// A store wired per the chosen strategy, over one state-object type that
/// supports duplication: the concrete outcome of the declaration boundary.
#[verifier::reject_recursive_types(S)]
pub enum WiredStore<S> {
    /// The copy-on-write wiring.
    CopyOnWrite(CowStore<S>),
    /// The in-place wiring.
    InPlace(InPlaceStore<S>),
}

/// Build the store a declaration asks for: the chosen variant holds `init`
/// as its first committed value, with no committed-value invariant.
pub fn wire_store<S: Duplicable>(variant: CellVariant, init: S) -> (store: WiredStore<S>)
    ensures
        variant == CellVariant::CopyOnWrite ==> (store matches WiredStore::CopyOnWrite(c)
            && forall|s: S| #[trigger] (c.inv())(s)),
        variant == CellVariant::InPlace ==> (store matches WiredStore::InPlace(c) && forall|s: S|
            #[trigger] (c.inv())(s)),
{
    match variant {
        CellVariant::CopyOnWrite => WiredStore::CopyOnWrite(CowStore::new(init)),
        CellVariant::InPlace => WiredStore::InPlace(InPlaceStore::new(init)),
    }
}

} // verus!
