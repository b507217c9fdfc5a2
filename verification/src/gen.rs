//! Descriptors for the generated declarations: the derived struct types,
//! their field lists, and the derived method set. These are structural
//! descriptions only; a separate rendering layer turns them into source text.

use vstd::prelude::*;
use crate::parse::{FieldsDesc, Vis};

verus! {

/// A type expression occurring in a generated declaration. Field types of
/// the original record are carried as opaque text; everything else is one
/// shallow shape around such text or a derived type name.
#[derive(Debug, PartialEq, Eq)]
pub enum GenTy {
    /// A plain type name, e.g. the original type or a derived view type.
    Named(String),
    /// A growable sequence of the original field type.
    VecOf(String),
    /// A reference to the original field type, bound to the one shared
    /// borrow lifetime of the view types.
    RefTo { mutable: bool, ty: String },
    /// A borrowed slice of the original field type.
    SliceOf { mutable: bool, ty: String },
    /// An optional value of the named type.
    OptionOf(String),
    SelfTy,
    Usize,
    Bool,
}

/// One generated named struct field.
#[derive(Debug, PartialEq, Eq)]
pub struct GenNamedField {
    pub vis: Vis,
    pub name: String,
    pub ty: GenTy,
}

/// One generated positional struct field.
#[derive(Debug, PartialEq, Eq)]
pub struct GenPosField {
    pub vis: Vis,
    pub ty: GenTy,
}

/// The field list of a generated struct, mirroring the input's shape.
#[derive(Debug, PartialEq, Eq)]
pub enum GenFields {
    Unit,
    Named(Vec<GenNamedField>),
    Positional(Vec<GenPosField>),
}

/// A generated struct declaration.
#[derive(Debug, PartialEq, Eq)]
pub struct GenStruct {
    pub vis: Vis,
    pub name: String,
    /// Whether the struct takes the shared borrow lifetime as a parameter.
    pub has_lifetime: bool,
    pub fields: GenFields,
}

/// How a generated expression or statement refers to one field of the
/// container: by name for named fields, by numeric index for positional ones.
#[derive(Debug, PartialEq, Eq)]
pub enum FieldKey {
    Name(String),
    Index(usize),
}

/// A per-field initializer inside a generated struct literal.
#[derive(Debug, PartialEq, Eq)]
pub enum InitExpr {
    /// An empty sequence.
    VecNew,
    /// An empty sequence with storage reserved for the `capacity` parameter.
    VecWithCapacity,
    /// A borrow of the element at the `index` parameter in one column.
    BorrowAt { mutable: bool, column: FieldKey },
    /// A shifting removal at the `index` parameter from one column.
    RemoveAt { column: FieldKey },
    /// A swap-based removal at the `index` parameter from one column.
    SwapRemoveAt { column: FieldKey },
    /// A removal of the last element of one column, propagating emptiness.
    PopFrom { column: FieldKey },
}

/// A named-field initializer: `field: init`.
#[derive(Debug, PartialEq, Eq)]
pub struct NamedInit {
    pub field: String,
    pub init: InitExpr,
}

/// What a generated struct literal constructs.
#[derive(Debug, PartialEq, Eq)]
pub enum CtorKind {
    /// The container's own constructor: `Self`.
    SelfCtor,
    /// A plain named type.
    Plain(String),
    /// The named type wrapped in a present optional value.
    SomeWrapped(String),
}

/// The initializer list of a generated struct literal, in field order,
/// mirroring the input's shape.
#[derive(Debug, PartialEq, Eq)]
pub enum InitList {
    Unit,
    Named(Vec<NamedInit>),
    Positional(Vec<InitExpr>),
}

/// One generated statement in a method body.
#[derive(Debug, PartialEq, Eq)]
pub enum GenStmt {
    /// `let name = &value.name;` for a named field.
    BindNamed { local: String, field: String },
    /// `let placeholder = value.index;` for a positional field.
    BindPositional { local: String, index: usize },
    /// Append the row value's field to one column.
    PushField { column: FieldKey },
    /// Insert the row value's field at the `index` parameter in one column.
    InsertField { column: FieldKey },
}

/// A generated method body.
#[derive(Debug, PartialEq, Eq)]
pub enum GenBody {
    /// A struct literal with one initializer per field.
    Construct { ctor: CtorKind, inits: InitList },
    /// A statement sequence.
    Stmts(Vec<GenStmt>),
    /// The length of one column.
    ColumnLen { column: FieldKey },
    /// `self.len() == 0`.
    LenIsZero,
    /// A borrow of one whole column.
    BorrowColumn { mutable: bool, field: String },
}

/// The receiver of a generated method.
#[derive(Debug, Clone, Copy, PartialEq, Eq)]
pub enum SelfRef {
    NoSelf,
    Shared,
    Mutable,
}

/// One generated method parameter.
#[derive(Debug, PartialEq, Eq)]
pub struct GenParam {
    pub name: String,
    pub ty: GenTy,
}

/// One generated method.
#[derive(Debug, PartialEq, Eq)]
pub struct GenMethod {
    pub vis: Vis,
    pub name: String,
    pub receiver: SelfRef,
    pub params: Vec<GenParam>,
    pub ret: Option<GenTy>,
    pub body: GenBody,
}

/// The generated impl block: the method set on the container type.
#[derive(Debug, PartialEq, Eq)]
pub struct GenImpl {
    pub self_ty: String,
    pub methods: Vec<GenMethod>,
}

/// Well-formedness of an input field list: every source field name is a
/// nonempty identifier (the host grammar guarantees this of legal input).
pub open spec fn fields_wf(fields: FieldsDesc) -> bool {
    match fields {
        FieldsDesc::Named(fs) => forall|i: int| 0 <= i < fs@.len() ==> fs@[i].name@.len() > 0,
        _ => true,
    }
}

/// The key under which generated code addresses the first field.
pub open spec fn first_field_key(fields: FieldsDesc) -> FieldKey
    recommends
        fields.count() > 0,
{
    match fields {
        FieldsDesc::Named(fs) => FieldKey::Name(fs@[0].name),
        _ => FieldKey::Index(0),
    }
}

} // verus!
