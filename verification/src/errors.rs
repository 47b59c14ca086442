//! Non-fatal diagnostics and the batch collector they accumulate in.
//!
//! Every rule violation found while resolving a declaration is recorded as a
//! [`ParseError`] and appended to a shared [`ParseErrors`] collector; no
//! violation ever aborts resolution of the declaration it belongs to or of
//! its siblings in a batch.

use vstd::prelude::*;

verus! {

/// One diagnostic, attributable to a single declaration.
#[derive(Clone, Debug, PartialEq)]
pub enum ParseError {
    /// The `swift_repr` annotation literal is neither `"class"` nor
    /// `"struct"`; carries the offending literal verbatim.
    StructInvalidSwiftRepr { struct_ident: String, swift_repr_attr_value: String },
    /// A declaration with at least one field supplied no `swift_repr`
    /// annotation.
    StructMissingSwiftRepr { struct_ident: String },
    /// A declaration with no fields explicitly requested the class
    /// representation, which carries no benefit for an empty type.
    EmptyStructHasSwiftReprClass { struct_ident: String, swift_repr_attr_value: String },
    /// An annotation key outside the recognized set; carries the key.
    StructUnknownAttr { struct_ident: String, attr_key: String },
}

/// Ghost model of a [`ParseError`]: the same variants over character
/// sequences.
pub enum SpecParseError {
    StructInvalidSwiftRepr { struct_ident: Seq<char>, swift_repr_attr_value: Seq<char> },
    StructMissingSwiftRepr { struct_ident: Seq<char> },
    EmptyStructHasSwiftReprClass { struct_ident: Seq<char>, swift_repr_attr_value: Seq<char> },
    StructUnknownAttr { struct_ident: Seq<char>, attr_key: Seq<char> },
}

impl View for ParseError {
    type V = SpecParseError;

    open spec fn view(&self) -> SpecParseError {
        match self {
            ParseError::StructInvalidSwiftRepr { struct_ident, swift_repr_attr_value } => {
                SpecParseError::StructInvalidSwiftRepr {
                    struct_ident: struct_ident@,
                    swift_repr_attr_value: swift_repr_attr_value@,
                }
            },
            ParseError::StructMissingSwiftRepr { struct_ident } => {
                SpecParseError::StructMissingSwiftRepr { struct_ident: struct_ident@ }
            },
            ParseError::EmptyStructHasSwiftReprClass { struct_ident, swift_repr_attr_value } => {
                SpecParseError::EmptyStructHasSwiftReprClass {
                    struct_ident: struct_ident@,
                    swift_repr_attr_value: swift_repr_attr_value@,
                }
            },
            ParseError::StructUnknownAttr { struct_ident, attr_key } => {
                SpecParseError::StructUnknownAttr {
                    struct_ident: struct_ident@,
                    attr_key: attr_key@,
                }
            },
        }
    }
}

/// Append-only collector of diagnostics for one batch of declarations.
///
/// Created once per batch, appended to while each declaration is resolved,
/// and drained by the caller after the whole batch completes.
#[derive(Debug)]
pub struct ParseErrors {
    errors: Vec<ParseError>,
}

impl View for ParseErrors {
    type V = Seq<SpecParseError>;

    closed spec fn view(&self) -> Seq<SpecParseError> {
        self.errors@.map_values(|e: ParseError| e@)
    }
}

impl ParseErrors {
    /// An empty collector for a fresh batch.
    pub fn new() -> (r: ParseErrors)
        ensures
            r@ == Seq::<SpecParseError>::empty(),
    {
        let r = ParseErrors { errors: Vec::new() };
        proof {
            assert(r@ =~= Seq::<SpecParseError>::empty());
        }
        r
    }

    /// Record one diagnostic; never fails and never reorders earlier ones.
    pub fn push(&mut self, error: ParseError)
        ensures
            final(self)@ == old(self)@.push(error@),
    {
        let ghost before = self@;
        let ghost e = error@;
        self.errors.push(error);
        proof {
            assert(self@ =~= before.push(e));
        }
    }

    /// How many diagnostics the batch has produced so far.
    pub fn len(&self) -> (n: usize)
        ensures
            n == self@.len(),
    {
        self.errors.len()
    }

    /// The `i`-th diagnostic, in the order the batch produced them.
    pub fn get(&self, i: usize) -> (r: &ParseError)
        requires
            i < self@.len(),
        ensures
            r@ == self@[i as int],
    {
        &self.errors[i]
    }
}

} // verus!
