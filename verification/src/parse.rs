//! The annotation parser and the declaration resolver.
//!
//! Annotations arrive as plain `key = "literal"` pairs, one [`crate::AttrPair`]
//! each; the parser classifies each pair in isolation, and the resolver
//! applies the representation-selection rules to the accumulated settings and
//! the declaration's fields.

use vstd::prelude::*;

use crate::errors::{ParseError, ParseErrors, SpecParseError};
use crate::{Declaration, SharedStruct, SpecAttrPair, SpecDeclaration, SpecSharedStruct,
    StructField, StructSwiftRepr};

verus! {

/// Why a single annotation could not be turned into a setting.
#[derive(Clone, Debug, PartialEq)]
pub enum StructAttrParseError {
    /// The `swift_repr` literal is neither `"class"` nor `"struct"`; carries
    /// the offending literal verbatim.
    InvalidSwiftRepr(String),
    /// The key is outside the recognized set; carries the key.
    UnknownAttr(String),
}

/// The tagged result of parsing one annotation: a recognized setting, or an
/// error placeholder carrying enough context for a later diagnostic.
#[derive(Clone, Debug, PartialEq)]
pub enum StructAttr {
    /// A recognized `swift_repr` setting, paired with the raw literal that
    /// produced it (kept for diagnostics).
    SwiftRepr(StructSwiftRepr, String),
    /// A recognized `swift_name` override, taken verbatim.
    SwiftName(String),
    /// A placeholder for a pair that parsed structurally but violated a rule.
    Error(StructAttrParseError),
}

/// Ghost model of a [`StructAttrParseError`].
pub enum SpecStructAttrParseError {
    InvalidSwiftRepr(Seq<char>),
    UnknownAttr(Seq<char>),
}

/// Ghost model of a [`StructAttr`].
pub enum SpecStructAttr {
    SwiftRepr(StructSwiftRepr, Seq<char>),
    SwiftName(Seq<char>),
    Error(SpecStructAttrParseError),
}

impl View for StructAttr {
    type V = SpecStructAttr;

    open spec fn view(&self) -> SpecStructAttr {
        match self {
            StructAttr::SwiftRepr(repr, lit) => SpecStructAttr::SwiftRepr(*repr, lit@),
            StructAttr::SwiftName(name) => SpecStructAttr::SwiftName(name@),
            StructAttr::Error(StructAttrParseError::InvalidSwiftRepr(lit)) => {
                SpecStructAttr::Error(SpecStructAttrParseError::InvalidSwiftRepr(lit@))
            },
            StructAttr::Error(StructAttrParseError::UnknownAttr(key)) => {
                SpecStructAttr::Error(SpecStructAttrParseError::UnknownAttr(key@))
            },
        }
    }
}

/// What parsing one `key = "literal"` pair yields: the `swift_repr` key
/// demands the exact literal `"class"` or `"struct"` (case-sensitive, no
/// trimming) and otherwise yields an error placeholder with the literal; the
/// `swift_name` key accepts any literal verbatim; any other key yields an
/// unknown-key placeholder.
pub open spec fn spec_parse_attr(key: Seq<char>, value: Seq<char>) -> SpecStructAttr {
    if key == "swift_repr"@ {
        if value == "class"@ {
            SpecStructAttr::SwiftRepr(StructSwiftRepr::Class, value)
        } else if value == "struct"@ {
            SpecStructAttr::SwiftRepr(StructSwiftRepr::Structure, value)
        } else {
            SpecStructAttr::Error(SpecStructAttrParseError::InvalidSwiftRepr(value))
        }
    } else if key == "swift_name"@ {
        SpecStructAttr::SwiftName(value)
    } else {
        SpecStructAttr::Error(SpecStructAttrParseError::UnknownAttr(key))
    }
}

impl StructAttr {
    /// Parse one annotation pair. Pure: reads nothing but the two arguments,
    /// and classifies the pair exactly as [`spec_parse_attr`] states.
    pub fn parse(key: &String, value: &String) -> (r: StructAttr)
        ensures
            r@ == spec_parse_attr(key@, value@),
    {
        let repr_key: String = "swift_repr".to_owned();
        let name_key: String = "swift_name".to_owned();
        if *key == repr_key {
            let class_lit: String = "class".to_owned();
            let struct_lit: String = "struct".to_owned();
            if *value == class_lit {
                StructAttr::SwiftRepr(StructSwiftRepr::Class, value.clone())
            } else if *value == struct_lit {
                StructAttr::SwiftRepr(StructSwiftRepr::Structure, value.clone())
            } else {
                StructAttr::Error(StructAttrParseError::InvalidSwiftRepr(value.clone()))
            }
        } else if *key == name_key {
            StructAttr::SwiftName(value.clone())
        } else {
            StructAttr::Error(StructAttrParseError::UnknownAttr(key.clone()))
        }
    }
}

/// The settings accumulated from a declaration's annotations while it is
/// being resolved; built incrementally, last write wins for a repeated key.
pub struct StructAttribs {
    pub swift_repr: Option<(StructSwiftRepr, String)>,
    pub swift_name: Option<String>,
}

/// Ghost model of [`StructAttribs`].
pub struct SpecStructAttribs {
    pub swift_repr: Option<(StructSwiftRepr, Seq<char>)>,
    pub swift_name: Option<Seq<char>>,
}

impl View for StructAttribs {
    type V = SpecStructAttribs;

    open spec fn view(&self) -> SpecStructAttribs {
        SpecStructAttribs {
            swift_repr: match self.swift_repr {
                Some((repr, lit)) => Some((repr, lit@)),
                None => None,
            },
            swift_name: match self.swift_name {
                Some(n) => Some(n@),
                None => None,
            },
        }
    }
}

/// How one parsed annotation updates the accumulated settings: a recognized
/// setting overwrites its key; an invalid `swift_repr` literal records the
/// value representation together with the offending literal; an unknown key
/// changes nothing.
pub open spec fn spec_apply_attr(attribs: SpecStructAttribs, attr: SpecStructAttr) -> SpecStructAttribs {
    match attr {
        SpecStructAttr::SwiftRepr(repr, lit) => SpecStructAttribs {
            swift_repr: Some((repr, lit)),
            swift_name: attribs.swift_name,
        },
        SpecStructAttr::SwiftName(name) => SpecStructAttribs {
            swift_repr: attribs.swift_repr,
            swift_name: Some(name),
        },
        SpecStructAttr::Error(SpecStructAttrParseError::InvalidSwiftRepr(lit)) => SpecStructAttribs {
            swift_repr: Some((StructSwiftRepr::Structure, lit)),
            swift_name: attribs.swift_name,
        },
        SpecStructAttr::Error(SpecStructAttrParseError::UnknownAttr(_)) => attribs,
    }
}

/// The settings a declaration's annotation list accumulates to, processed in
/// source order.
pub open spec fn spec_attribs(attrs: Seq<SpecAttrPair>) -> SpecStructAttribs
    decreases attrs.len(),
{
    if attrs.len() == 0 {
        SpecStructAttribs { swift_repr: None, swift_name: None }
    } else {
        spec_apply_attr(
            spec_attribs(attrs.drop_last()),
            spec_parse_attr(attrs.last().key, attrs.last().value),
        )
    }
}

/// The diagnostics one parsed annotation contributes: an error placeholder
/// becomes one diagnostic naming the declaration, a recognized setting none.
pub open spec fn spec_attr_diags_one(ident: Seq<char>, attr: SpecStructAttr) -> Seq<SpecParseError> {
    match attr {
        SpecStructAttr::Error(SpecStructAttrParseError::InvalidSwiftRepr(lit)) => seq![
            SpecParseError::StructInvalidSwiftRepr {
                struct_ident: ident,
                swift_repr_attr_value: lit,
            },
        ],
        SpecStructAttr::Error(SpecStructAttrParseError::UnknownAttr(key)) => seq![
            SpecParseError::StructUnknownAttr { struct_ident: ident, attr_key: key },
        ],
        _ => Seq::<SpecParseError>::empty(),
    }
}

/// The diagnostics a declaration's annotation list produces, in source order.
pub open spec fn spec_attr_diags(ident: Seq<char>, attrs: Seq<SpecAttrPair>) -> Seq<SpecParseError>
    decreases attrs.len(),
{
    if attrs.len() == 0 {
        Seq::<SpecParseError>::empty()
    } else {
        spec_attr_diags(ident, attrs.drop_last()) + spec_attr_diags_one(
            ident,
            spec_parse_attr(attrs.last().key, attrs.last().value),
        )
    }
}

/// The final representation of a declaration. Field emptiness dominates: a
/// declaration with no fields is always a value struct; otherwise an explicit
/// setting is used verbatim, and a missing one defaults to a value struct.
pub open spec fn spec_repr(d: SpecDeclaration) -> StructSwiftRepr {
    if d.fields.len() == 0 {
        StructSwiftRepr::Structure
    } else {
        match spec_attribs(d.attrs).swift_repr {
            Some((repr, _)) => repr,
            None => StructSwiftRepr::Structure,
        }
    }
}

/// The diagnostics the representation rules themselves produce, after the
/// per-annotation ones: an empty declaration that explicitly requested the
/// class representation, or a non-empty declaration with no representation.
pub open spec fn spec_repr_diags(d: SpecDeclaration) -> Seq<SpecParseError> {
    if d.fields.len() == 0 {
        match spec_attribs(d.attrs).swift_repr {
            Some((repr, lit)) => if repr == StructSwiftRepr::Class {
                seq![
                    SpecParseError::EmptyStructHasSwiftReprClass {
                        struct_ident: d.name,
                        swift_repr_attr_value: lit,
                    },
                ]
            } else {
                Seq::<SpecParseError>::empty()
            },
            None => Seq::<SpecParseError>::empty(),
        }
    } else {
        match spec_attribs(d.attrs).swift_repr {
            Some(_) => Seq::<SpecParseError>::empty(),
            None => seq![SpecParseError::StructMissingSwiftRepr { struct_ident: d.name }],
        }
    }
}

/// The IR node a declaration resolves to: identifier, shape and fields are
/// carried over unchanged, the representation follows [`spec_repr`], and the
/// exposed name is the accumulated `swift_name` setting.
pub open spec fn spec_resolve(d: SpecDeclaration) -> SpecSharedStruct {
    SpecSharedStruct {
        name: d.name,
        swift_repr: spec_repr(d),
        fields: d.fields,
        swift_name: spec_attribs(d.attrs).swift_name,
        fields_format: d.fields_format,
    }
}

/// All diagnostics one declaration produces, in order: the per-annotation
/// ones first, then the representation-rule ones.
pub open spec fn spec_diags(d: SpecDeclaration) -> Seq<SpecParseError> {
    spec_attr_diags(d.name, d.attrs) + spec_repr_diags(d)
}

/// Resolve one declaration: parse its annotations in order, apply the
/// representation rules, copy its fields unchanged, and append this
/// declaration's diagnostics — and nothing else — to the collector.
/// Construction cannot fail; a complete IR node is always returned.
pub fn resolve_declaration(declaration: &Declaration, errors: &mut ParseErrors) -> (r: SharedStruct)
    ensures
        r@ == spec_resolve(declaration@),
        final(errors)@ == old(errors)@ + spec_diags(declaration@),
{
    let ghost d = declaration@;
    let ghost errors0 = errors@;

    let mut attribs = StructAttribs { swift_repr: None, swift_name: None };
    let mut i: usize = 0;
    while i < declaration.attrs.len()
        invariant
            i <= declaration.attrs.len(),
            d == declaration@,
            errors0 == old(errors)@,
            attribs@ == spec_attribs(d.attrs.take(i as int)),
            errors@ == errors0 + spec_attr_diags(d.name, d.attrs.take(i as int)),
        decreases declaration.attrs.len() - i,
    {
        let pair = &declaration.attrs[i];
        let attr = StructAttr::parse(&pair.key, &pair.value);
        proof {
            assert(d.attrs[i as int] == pair@);
            assert(d.attrs.take(i + 1).drop_last() =~= d.attrs.take(i as int));
            assert(d.attrs.take(i + 1).last() == d.attrs[i as int]);
        }
        match attr {
            StructAttr::SwiftRepr(repr, lit_str) => {
                attribs.swift_repr = Some((repr, lit_str));
            },
            StructAttr::SwiftName(name) => {
                attribs.swift_name = Some(name);
            },
            StructAttr::Error(StructAttrParseError::InvalidSwiftRepr(val)) => {
                errors.push(ParseError::StructInvalidSwiftRepr {
                    struct_ident: declaration.name.clone(),
                    swift_repr_attr_value: val.clone(),
                });
                attribs.swift_repr = Some((StructSwiftRepr::Structure, val));
                proof {
                    assert(errors@ =~= errors0 + spec_attr_diags(d.name, d.attrs.take(i + 1)));
                }
            },
            StructAttr::Error(StructAttrParseError::UnknownAttr(key)) => {
                errors.push(ParseError::StructUnknownAttr {
                    struct_ident: declaration.name.clone(),
                    attr_key: key,
                });
                proof {
                    assert(errors@ =~= errors0 + spec_attr_diags(d.name, d.attrs.take(i + 1)));
                }
            },
        }
        i += 1;
    }
    proof {
        assert(d.attrs.take(d.attrs.len() as int) =~= d.attrs);
    }

    let swift_repr: StructSwiftRepr;
    if declaration.fields.len() == 0 {
        match &attribs.swift_repr {
            Some(pair) => {
                if pair.0 == StructSwiftRepr::Class {
                    errors.push(ParseError::EmptyStructHasSwiftReprClass {
                        struct_ident: declaration.name.clone(),
                        swift_repr_attr_value: pair.1.clone(),
                    });
                }
            },
            None => {},
        }
        swift_repr = StructSwiftRepr::Structure;
    } else {
        match &attribs.swift_repr {
            Some(pair) => {
                swift_repr = pair.0;
            },
            None => {
                errors.push(ParseError::StructMissingSwiftRepr {
                    struct_ident: declaration.name.clone(),
                });
                swift_repr = StructSwiftRepr::Structure;
            },
        }
    }
    proof {
        assert(errors@ =~= errors0 + spec_diags(d));
    }

    let mut fields: Vec<StructField> = Vec::new();
    let mut j: usize = 0;
    while j < declaration.fields.len()
        invariant
            j <= declaration.fields.len(),
            d == declaration@,
            fields@.len() == j,
            forall|k: int| 0 <= k < j ==> (#[trigger] fields@[k])@ == d.fields[k],
        decreases declaration.fields.len() - j,
    {
        let field = &declaration.fields[j];
        let name = match &field.name {
            Some(n) => Some(n.clone()),
            None => None,
        };
        let copied = StructField { name, ty: field.ty.clone() };
        proof {
            assert(copied@ == field@);
            assert(d.fields[j as int] == field@);
        }
        fields.push(copied);
        j += 1;
    }
    proof {
        assert(fields@.map_values(|f: StructField| f@) =~= d.fields);
    }

    let shared_struct = SharedStruct {
        name: declaration.name.clone(),
        swift_repr,
        fields,
        swift_name: attribs.swift_name,
        fields_format: declaration.fields_format,
    };
    shared_struct
}

/// Resolver for one declaration, held together with the declaration it will
/// resolve.
pub struct SharedStructParser {
    pub item_struct: Declaration,
}

impl SharedStructParser {
    /// Resolve the held declaration; see [`resolve_declaration`].
    pub fn parse(self, errors: &mut ParseErrors) -> (r: SharedStruct)
        ensures
            r@ == spec_resolve(self.item_struct@),
            final(errors)@ == old(errors)@ + spec_diags(self.item_struct@),
    {
        resolve_declaration(&self.item_struct, errors)
    }
}

/// All diagnostics a batch of declarations produces, in declaration order.
pub open spec fn spec_batch_diags(ds: Seq<Declaration>) -> Seq<SpecParseError>
    decreases ds.len(),
{
    if ds.len() == 0 {
        Seq::<SpecParseError>::empty()
    } else {
        spec_batch_diags(ds.drop_last()) + spec_diags(ds.last()@)
    }
}

/// Resolve a whole batch: one IR node per declaration, always present, in
/// input order, and every declaration's diagnostics appended in declaration
/// order to the shared collector.
pub fn parse_batch(declarations: &Vec<Declaration>, errors: &mut ParseErrors) -> (r: Vec<
    SharedStruct,
>)
    ensures
        r@.len() == declarations@.len(),
        forall|i: int|
            0 <= i < declarations@.len() ==> r@[i]@ == spec_resolve(declarations@[i]@),
        final(errors)@ == old(errors)@ + spec_batch_diags(declarations@),
{
    let ghost errors0 = errors@;
    let mut resolved: Vec<SharedStruct> = Vec::new();
    let mut i: usize = 0;
    while i < declarations.len()
        invariant
            i <= declarations.len(),
            errors0 == old(errors)@,
            resolved@.len() == i,
            forall|k: int| 0 <= k < i ==> resolved@[k]@ == spec_resolve(declarations@[k]@),
            errors@ == errors0 + spec_batch_diags(declarations@.take(i as int)),
        decreases declarations.len() - i,
    {
        let shared_struct = resolve_declaration(&declarations[i], errors);
        resolved.push(shared_struct);
        proof {
            assert(declarations@.take(i + 1).drop_last() =~= declarations@.take(i as int));
            assert(declarations@.take(i + 1).last() == declarations@[i as int]);
            assert(errors@ =~= errors0 + spec_batch_diags(declarations@.take(i + 1)));
        }
        i += 1;
    }
    proof {
        assert(declarations@.take(declarations@.len() as int) =~= declarations@);
    }
    resolved
}

proof fn lemma_no_repr_key_no_setting(attrs: Seq<SpecAttrPair>)
    requires
        forall|i: int| 0 <= i < attrs.len() ==> (#[trigger] attrs[i]).key != "swift_repr"@,
    ensures
        spec_attribs(attrs).swift_repr is None,
    decreases attrs.len(),
{
    if attrs.len() > 0 {
        assert forall|i: int|
            0 <= i < attrs.drop_last().len() implies (#[trigger] attrs.drop_last()[i]).key
            != "swift_repr"@ by {
            assert(attrs.drop_last()[i] == attrs[i]);
        }
        lemma_no_repr_key_no_setting(attrs.drop_last());
    }
}

proof fn lemma_attr_diags_shape(ident: Seq<char>, attrs: Seq<SpecAttrPair>)
    ensures
        forall|i: int|
            0 <= i < spec_attr_diags(ident, attrs).len() ==> ((
            #[trigger] spec_attr_diags(ident, attrs)[i]) is StructInvalidSwiftRepr
                || spec_attr_diags(ident, attrs)[i] is StructUnknownAttr),
    decreases attrs.len(),
{
    if attrs.len() > 0 {
        lemma_attr_diags_shape(ident, attrs.drop_last());
    }
}

proof fn lemma_attribs_swift_name(attrs: Seq<SpecAttrPair>, k: int)
    requires
        0 <= k < attrs.len(),
        attrs[k].key == "swift_name"@,
        forall|j: int| k < j < attrs.len() ==> (#[trigger] attrs[j]).key != "swift_name"@,
    ensures
        spec_attribs(attrs).swift_name == Some(attrs[k].value),
    decreases attrs.len(),
{
    reveal_strlit("swift_repr");
    reveal_strlit("swift_name");
    assert("swift_repr"@[6] == 'r');
    assert("swift_name"@[6] == 'n');
    assert("swift_repr"@ != "swift_name"@);
    if k < attrs.len() - 1 {
        assert forall|j: int|
            k < j < attrs.drop_last().len() implies (#[trigger] attrs.drop_last()[j]).key
            != "swift_name"@ by {
            assert(attrs.drop_last()[j] == attrs[j]);
        }
        assert(attrs.drop_last()[k] == attrs[k]);
        lemma_attribs_swift_name(attrs.drop_last(), k);
    }
}

/// Law: a declaration with no fields and no annotations resolves to the
/// value representation and produces no diagnostics.
pub proof fn lemma_empty_declaration_defaults(d: SpecDeclaration)
    requires
        d.fields.len() == 0,
        d.attrs.len() == 0,
    ensures
        spec_resolve(d).swift_repr == StructSwiftRepr::Structure,
        spec_diags(d) == Seq::<SpecParseError>::empty(),
{
    assert(spec_diags(d) =~= Seq::<SpecParseError>::empty());
}

/// Law: a declaration with at least one field and no representation
/// annotation defaults to the value representation, and its diagnostics are
/// its per-annotation ones — none of which concerns a missing representation
/// — followed by exactly one missing-representation diagnostic naming the
/// declaration.
pub proof fn lemma_missing_representation(d: SpecDeclaration)
    requires
        d.fields.len() >= 1,
        forall|i: int| 0 <= i < d.attrs.len() ==> (#[trigger] d.attrs[i]).key != "swift_repr"@,
    ensures
        spec_resolve(d).swift_repr == StructSwiftRepr::Structure,
        spec_diags(d) == spec_attr_diags(d.name, d.attrs) + seq![
            SpecParseError::StructMissingSwiftRepr { struct_ident: d.name },
        ],
        forall|i: int|
            0 <= i < spec_attr_diags(d.name, d.attrs).len() ==> !((
            #[trigger] spec_attr_diags(d.name, d.attrs)[i]) is StructMissingSwiftRepr),
{
    lemma_no_repr_key_no_setting(d.attrs);
    lemma_attr_diags_shape(d.name, d.attrs);
}

/// Law: an unrecognized representation literal on a declaration with at
/// least one field produces exactly one invalid-representation diagnostic
/// carrying the literal verbatim, and resolution still succeeds with the
/// value representation.
pub proof fn lemma_invalid_representation(d: SpecDeclaration, lit: Seq<char>)
    requires
        d.fields.len() >= 1,
        d.attrs == seq![SpecAttrPair { key: "swift_repr"@, value: lit }],
        lit != "class"@,
        lit != "struct"@,
    ensures
        spec_resolve(d).swift_repr == StructSwiftRepr::Structure,
        spec_diags(d) == seq![
            SpecParseError::StructInvalidSwiftRepr {
                struct_ident: d.name,
                swift_repr_attr_value: lit,
            },
        ],
{
    reveal_with_fuel(spec_attr_diags, 2);
    reveal_with_fuel(spec_attribs, 2);
    assert(d.attrs.drop_last() =~= Seq::<SpecAttrPair>::empty());
    assert(d.attrs.last() == SpecAttrPair { key: "swift_repr"@, value: lit });
    assert(spec_diags(d) =~= seq![
        SpecParseError::StructInvalidSwiftRepr {
            struct_ident: d.name,
            swift_repr_attr_value: lit,
        },
    ]);
}

/// Law: a declaration with no fields that explicitly requests the class
/// representation still resolves to the value representation — field
/// emptiness dominates — and produces exactly one diagnostic naming the
/// declaration and the literal that requested the class.
pub proof fn lemma_empty_declaration_requests_class(d: SpecDeclaration)
    requires
        d.fields.len() == 0,
        d.attrs == seq![SpecAttrPair { key: "swift_repr"@, value: "class"@ }],
    ensures
        spec_resolve(d).swift_repr == StructSwiftRepr::Structure,
        spec_diags(d) == seq![
            SpecParseError::EmptyStructHasSwiftReprClass {
                struct_ident: d.name,
                swift_repr_attr_value: "class"@,
            },
        ],
{
    reveal_with_fuel(spec_attr_diags, 2);
    reveal_with_fuel(spec_attribs, 2);
    assert(d.attrs.drop_last() =~= Seq::<SpecAttrPair>::empty());
    assert(d.attrs.last() == SpecAttrPair { key: "swift_repr"@, value: "class"@ });
    assert(spec_diags(d) =~= seq![
        SpecParseError::EmptyStructHasSwiftReprClass {
            struct_ident: d.name,
            swift_repr_attr_value: "class"@,
        },
    ]);
}

/// Law: the exposed-name override round-trips. If a declaration carries a
/// `swift_name` annotation, the resolved override is the literal of the last
/// such annotation, verbatim, independent of the representation rules and of
/// the declaration's fields.
pub proof fn lemma_swift_name_round_trip(d: SpecDeclaration, k: int)
    requires
        0 <= k < d.attrs.len(),
        d.attrs[k].key == "swift_name"@,
        forall|j: int| k < j < d.attrs.len() ==> (#[trigger] d.attrs[j]).key != "swift_name"@,
    ensures
        spec_resolve(d).swift_name == Some(d.attrs[k].value),
{
    lemma_attribs_swift_name(d.attrs, k);
}

/// Law: resolution is a pure function of the declaration. Equal declarations
/// resolve to equal IR nodes and produce equal diagnostics, whatever the
/// collector already holds, so resolving the same declaration twice yields
/// identical results both times.
pub proof fn lemma_resolution_deterministic(d1: SpecDeclaration, d2: SpecDeclaration)
    requires
        d1 == d2,
    ensures
        spec_resolve(d1) == spec_resolve(d2),
        spec_diags(d1) == spec_diags(d2),
{
}

} // verus!

