//! Declaration-to-IR stage of a cross-language binding generator.
//!
//! The crate consumes a structured description of one data type — a
//! [`Declaration`] carrying an identifier, a field list and a list of
//! key/value annotations — and produces a fully resolved IR node, a
//! [`SharedStruct`], together with non-fatal diagnostics collected in a
//! [`errors::ParseErrors`] batch collector.

use vstd::prelude::*;

pub mod errors;
pub mod parse;

verus! {

/// The physical representation a shared struct receives on the Swift side
/// of the language boundary: a reference (class) type or a value type.
#[derive(Clone, Copy, Debug, PartialEq, Eq, Structural)]
pub enum StructSwiftRepr {
    Class,
    Structure,
}

/// Whether a declaration's fields are named, positional, or absent.
#[derive(Clone, Copy, Debug, PartialEq, Eq, Structural)]
pub enum FieldsFormat {
    Named,
    Unnamed,
    Unit,
}

/// One field of a declaration and of the resolved IR node: an optional name
/// (absent for positional and unit shapes) and the rendered type expression.
#[derive(Clone, Debug, PartialEq)]
pub struct StructField {
    pub name: Option<String>,
    pub ty: String,
}

/// Ghost model of a [`StructField`]: the same data over character sequences.
pub struct SpecStructField {
    pub name: Option<Seq<char>>,
    pub ty: Seq<char>,
}

impl View for StructField {
    type V = SpecStructField;

    open spec fn view(&self) -> SpecStructField {
        SpecStructField {
            name: match self.name {
                Some(n) => Some(n@),
                None => None,
            },
            ty: self.ty@,
        }
    }
}

/// One raw annotation, a `key = "literal"` entry of a declaration's
/// comma-separated annotation group, already reduced to plain strings by the
/// surrounding syntax-parsing collaborator.
#[derive(Clone, Debug, PartialEq)]
pub struct AttrPair {
    pub key: String,
    pub value: String,
}

/// Ghost model of an [`AttrPair`].
pub struct SpecAttrPair {
    pub key: Seq<char>,
    pub value: Seq<char>,
}

impl View for AttrPair {
    type V = SpecAttrPair;

    open spec fn view(&self) -> SpecAttrPair {
        SpecAttrPair { key: self.key@, value: self.value@ }
    }
}

/// The input description of one data type to be bridged: its identifier, the
/// syntax-level shape of its fields, the ordered raw fields themselves, and
/// its raw annotations in source order. Immutable once handed to this crate.
#[derive(Clone, Debug, PartialEq)]
pub struct Declaration {
    pub name: String,
    pub fields_format: FieldsFormat,
    pub fields: Vec<StructField>,
    pub attrs: Vec<AttrPair>,
}

/// Ghost model of a [`Declaration`].
pub struct SpecDeclaration {
    pub name: Seq<char>,
    pub fields_format: FieldsFormat,
    pub fields: Seq<SpecStructField>,
    pub attrs: Seq<SpecAttrPair>,
}

impl View for Declaration {
    type V = SpecDeclaration;

    open spec fn view(&self) -> SpecDeclaration {
        SpecDeclaration {
            name: self.name@,
            fields_format: self.fields_format,
            fields: self.fields@.map_values(|f: StructField| f@),
            attrs: self.attrs@.map_values(|a: AttrPair| a@),
        }
    }
}

/// The resolved IR node for one declaration: identifier, the final
/// representation tag, the optional exposed-name override, the ordered field
/// list (one-to-one with the declaration's raw fields) and the fields shape.
/// Immutable once constructed; handed whole to the renderer.
#[derive(Clone, Debug, PartialEq)]
pub struct SharedStruct {
    pub name: String,
    pub swift_repr: StructSwiftRepr,
    pub fields: Vec<StructField>,
    pub swift_name: Option<String>,
    pub fields_format: FieldsFormat,
}

/// Ghost model of a [`SharedStruct`].
pub struct SpecSharedStruct {
    pub name: Seq<char>,
    pub swift_repr: StructSwiftRepr,
    pub fields: Seq<SpecStructField>,
    pub swift_name: Option<Seq<char>>,
    pub fields_format: FieldsFormat,
}

impl View for SharedStruct {
    type V = SpecSharedStruct;

    open spec fn view(&self) -> SpecSharedStruct {
        SpecSharedStruct {
            name: self.name@,
            swift_repr: self.swift_repr,
            fields: self.fields@.map_values(|f: StructField| f@),
            swift_name: match self.swift_name {
                Some(n) => Some(n@),
                None => None,
            },
            fields_format: self.fields_format,
        }
    }
}

} // verus!
