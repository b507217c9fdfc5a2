//! The input descriptor: the normalized structural view of a user-declared
//! record type, and its extraction from the raw item description.

use vstd::prelude::*;
use vstd::string::*;

verus! {

/// Declaration-site locator for diagnostics; carried through opaquely.
#[verifier::external_type_specification]
#[verifier::external_body]
pub struct ExSpan(proc_macro2::Span);

/// A declared visibility, propagated verbatim from the source item.
/// `Restricted` holds the path text of a `pub(...)` restriction,
/// e.g. `"crate"` or `"super"`.
#[derive(Debug, PartialEq, Eq)]
pub enum Vis {
    Inherited,
    Pub,
    Restricted(String),
}

impl Vis {
    /// An equal copy, written out so that verified code can rely on the
    /// copy being equal to the original.
    pub fn dup(&self) -> (r: Vis)
        ensures
            r == *self,
    {
        match self {
            Vis::Inherited => Vis::Inherited,
            Vis::Pub => Vis::Pub,
            Vis::Restricted(p) => Vis::Restricted(p.clone()),
        }
    }
}

/// One field of a record with a source name.
#[derive(Debug, PartialEq, Eq)]
pub struct NamedField {
    pub vis: Vis,
    pub name: String,
    /// The field's declared type, as opaque text.
    pub ty: String,
}

/// One field of a record addressed by position.
#[derive(Debug, PartialEq, Eq)]
pub struct PosField {
    pub vis: Vis,
    /// The field's declared type, as opaque text.
    pub ty: String,
}

/// The three structural shapes a record's field list can take.
#[derive(Debug, PartialEq, Eq)]
pub enum FieldsDesc {
    Unit,
    Named(Vec<NamedField>),
    Positional(Vec<PosField>),
}

impl FieldsDesc {
    /// Number of fields, whatever the shape.
    pub open spec fn count(&self) -> nat {
        match self {
            FieldsDesc::Unit => 0,
            FieldsDesc::Named(fs) => fs@.len(),
            FieldsDesc::Positional(fs) => fs@.len(),
        }
    }
}

/// The normalized input descriptor the derivation stages operate on.
#[derive(Debug, PartialEq, Eq)]
pub struct Input {
    pub vis: Vis,
    pub name: String,
    pub fields: FieldsDesc,
}

/// The raw item description handed in by the host-language front end.
pub enum RawData {
    Struct(FieldsDesc),
    /// A sum type, with the locator of its declaring keyword.
    Enum(proc_macro2::Span),
    /// A raw-memory union, with the locator of its declaring keyword.
    Union(proc_macro2::Span),
}

pub struct RawItem {
    pub vis: Vis,
    pub name: String,
    pub data: RawData,
}

/// Which unsupported shape was encountered.
#[derive(Debug, Clone, Copy, PartialEq, Eq)]
pub enum UnsupportedKind {
    Enum,
    Union,
}

/// A user-facing compile diagnostic: an unsupported shape, anchored at the
/// offending declaration's site.
pub struct Diagnostic {
    pub site: proc_macro2::Span,
    pub kind: UnsupportedKind,
    pub message: String,
}

impl Diagnostic {
    /// The kind as the short text used in the rendered error.
    pub fn kind_text(&self) -> (r: &'static str)
        ensures
            self.kind is Enum ==> r@ == "enum"@,
            self.kind is Union ==> r@ == "union"@,
    {
        match self.kind {
            UnsupportedKind::Enum => "enum",
            UnsupportedKind::Union => "union",
        }
    }
}

impl Input {
    /// Descriptor extraction: accepts exactly the plain records, and rejects
    /// sum types and unions with a diagnostic anchored at their declaration.
    pub fn from_derive_input(raw: RawItem) -> (r: Result<Input, Diagnostic>)
        ensures
            r is Ok <==> raw.data is Struct,
            raw.data matches RawData::Struct(fields) ==> r == Ok::<Input, Diagnostic>(
                Input { vis: raw.vis, name: raw.name, fields },
            ),
            r matches Err(d) ==> {
                &&& d.message@ == "only structs are supported"@
                &&& match raw.data {
                    RawData::Struct(_) => false,
                    RawData::Enum(site) => d.kind is Enum && d.site == site,
                    RawData::Union(site) => d.kind is Union && d.site == site,
                }
            },
    {
        match raw.data {
            RawData::Struct(fields) => Ok(Input { vis: raw.vis, name: raw.name, fields }),
            RawData::Enum(site) => Err(
                Diagnostic {
                    site,
                    kind: UnsupportedKind::Enum,
                    message: String::from_str("only structs are supported"),
                },
            ),
            RawData::Union(site) => Err(
                Diagnostic {
                    site,
                    kind: UnsupportedKind::Union,
                    message: String::from_str("only structs are supported"),
                },
            ),
        }
    }
}

} // verus!
