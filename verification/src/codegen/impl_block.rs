//! Operation derivation: the method set generated on the container type.
//! Every method is derived for all three field shapes under one rule:
//! named fields are addressed by their own identifier, positional fields by
//! their numeric index (with a synthesized placeholder for local bindings),
//! and the unit shape degenerates to zero per-field actions.

use vstd::prelude::*;
use vstd::string::*;
use crate::parse::{FieldsDesc, NamedField, Vis};
use crate::gen::{
    fields_wf, first_field_key, CtorKind, FieldKey, GenBody, GenImpl, GenMethod, GenParam, GenStmt,
    GenTy, InitExpr, InitList, NamedInit, SelfRef,
};
use crate::codegen::structs::StructNames;
use crate::util::{pluralize, spec_nth_field, spec_pluralized, nth_field};

verus! {

/// Which operation an initializer list is derived for.
#[derive(Debug, Clone, Copy, PartialEq, Eq)]
pub enum InitOp {
    New,
    WithCapacity,
    Borrow(bool),
    Remove,
    SwapRemove,
    Pop,
}

/// The initializer derived for a named field under a given operation.
pub open spec fn init_for_named(kind: InitOp, f: NamedField) -> InitExpr {
    match kind {
        InitOp::New => InitExpr::VecNew,
        InitOp::WithCapacity => InitExpr::VecWithCapacity,
        InitOp::Borrow(m) => InitExpr::BorrowAt {
            mutable: m,
            column: FieldKey::Name(f.name),
        },
        InitOp::Remove => InitExpr::RemoveAt { column: FieldKey::Name(f.name) },
        InitOp::SwapRemove => InitExpr::SwapRemoveAt { column: FieldKey::Name(f.name) },
        InitOp::Pop => InitExpr::PopFrom { column: FieldKey::Name(f.name) },
    }
}

/// The initializer derived for the positional field at `i` under a given
/// operation.
pub open spec fn init_for_pos(kind: InitOp, i: usize) -> InitExpr {
    match kind {
        InitOp::New => InitExpr::VecNew,
        InitOp::WithCapacity => InitExpr::VecWithCapacity,
        InitOp::Borrow(m) => InitExpr::BorrowAt { mutable: m, column: FieldKey::Index(i) },
        InitOp::Remove => InitExpr::RemoveAt { column: FieldKey::Index(i) },
        InitOp::SwapRemove => InitExpr::SwapRemoveAt { column: FieldKey::Index(i) },
        InitOp::Pop => InitExpr::PopFrom { column: FieldKey::Index(i) },
    }
}

/// The initializer list derived for an operation: one initializer per
/// field, in field order, mirroring the input's shape.
pub open spec fn init_list_for(inits: InitList, fields: FieldsDesc, kind: InitOp) -> bool {
    match fields {
        FieldsDesc::Unit => inits == InitList::Unit,
        FieldsDesc::Named(fs) => inits matches InitList::Named(ins) && ins@.len() == fs@.len()
            && forall|i: int|
            0 <= i < fs@.len() ==> ins@[i] == (NamedInit {
                field: fs@[i].name,
                init: init_for_named(kind, fs@[i]),
            }),
        FieldsDesc::Positional(fs) => inits matches InitList::Positional(ins) && ins@.len()
            == fs@.len() && forall|i: int| 0 <= i < fs@.len() ==> ins@[i] == init_for_pos(
            kind,
            i as usize,
        ),
    }
}

fn mk_init_named(kind: InitOp, f: &NamedField) -> (r: InitExpr)
    ensures
        r == init_for_named(kind, *f),
{
    match kind {
        InitOp::New => InitExpr::VecNew,
        InitOp::WithCapacity => InitExpr::VecWithCapacity,
        InitOp::Borrow(m) => InitExpr::BorrowAt {
            mutable: m,
            column: FieldKey::Name(f.name.clone()),
        },
        InitOp::Remove => InitExpr::RemoveAt { column: FieldKey::Name(f.name.clone()) },
        InitOp::SwapRemove => InitExpr::SwapRemoveAt { column: FieldKey::Name(f.name.clone()) },
        InitOp::Pop => InitExpr::PopFrom { column: FieldKey::Name(f.name.clone()) },
    }
}

fn mk_init_pos(kind: InitOp, i: usize) -> (r: InitExpr)
    ensures
        r == init_for_pos(kind, i),
{
    match kind {
        InitOp::New => InitExpr::VecNew,
        InitOp::WithCapacity => InitExpr::VecWithCapacity,
        InitOp::Borrow(m) => InitExpr::BorrowAt { mutable: m, column: FieldKey::Index(i) },
        InitOp::Remove => InitExpr::RemoveAt { column: FieldKey::Index(i) },
        InitOp::SwapRemove => InitExpr::SwapRemoveAt { column: FieldKey::Index(i) },
        InitOp::Pop => InitExpr::PopFrom { column: FieldKey::Index(i) },
    }
}

/// Derive the initializer list for an operation over every field.
fn make_inits(fields: &FieldsDesc, kind: InitOp) -> (r: InitList)
    ensures
        init_list_for(r, *fields, kind),
{
    match fields {
        FieldsDesc::Unit => InitList::Unit,
        FieldsDesc::Named(fs) => {
            let mut ins: Vec<NamedInit> = Vec::new();
            let mut i: usize = 0;
            while i < fs.len()
                invariant
                    i <= fs.len(),
                    ins@.len() == i,
                    forall|j: int|
                        0 <= j < i ==> ins@[j] == (NamedInit {
                            field: fs@[j].name,
                            init: init_for_named(kind, fs@[j]),
                        }),
                decreases fs.len() - i,
            {
                let f = &fs[i];
                ins.push(NamedInit { field: f.name.clone(), init: mk_init_named(kind, f) });
                i += 1;
            }
            InitList::Named(ins)
        },
        FieldsDesc::Positional(fs) => {
            let mut ins: Vec<InitExpr> = Vec::new();
            let mut i: usize = 0;
            while i < fs.len()
                invariant
                    i <= fs.len(),
                    ins@.len() == i,
                    forall|j: int| 0 <= j < i ==> ins@[j] == init_for_pos(kind, j as usize),
                decreases fs.len() - i,
            {
                ins.push(mk_init_pos(kind, i));
                i += 1;
            }
            InitList::Positional(ins)
        },
    }
}

/// The local binding derived for a named field: `let name = &value.name;`.
pub open spec fn bind_stmt_for_named(f: NamedField) -> GenStmt {
    GenStmt::BindNamed { local: f.name, field: f.name }
}

/// The column write derived for a named field.
pub open spec fn write_stmt_for_named(f: NamedField, ins: bool) -> GenStmt {
    if ins {
        GenStmt::InsertField { column: FieldKey::Name(f.name) }
    } else {
        GenStmt::PushField { column: FieldKey::Name(f.name) }
    }
}

/// The column write derived for the positional field at `i`.
pub open spec fn write_stmt_for_pos(i: usize, ins: bool) -> GenStmt {
    if ins {
        GenStmt::InsertField { column: FieldKey::Index(i) }
    } else {
        GenStmt::PushField { column: FieldKey::Index(i) }
    }
}

/// The statement list derived for `push` (`ins == false`) or `insert`
/// (`ins == true`): first one local binding per field, then one column
/// write per field, both in field order.
pub open spec fn row_write_stmts_match(ss: Seq<GenStmt>, fields: FieldsDesc, ins: bool) -> bool {
    match fields {
        FieldsDesc::Unit => ss.len() == 0,
        FieldsDesc::Named(fs) => {
            &&& ss.len() == 2 * fs@.len()
            &&& forall|i: int| 0 <= i < fs@.len() ==> ss[i] == bind_stmt_for_named(fs@[i])
            &&& forall|i: int|
                0 <= i < fs@.len() ==> ss[fs@.len() + i] == write_stmt_for_named(fs@[i], ins)
        },
        FieldsDesc::Positional(fs) => {
            &&& ss.len() == 2 * fs@.len()
            &&& forall|i: int|
                #![trigger ss[i]]
                0 <= i < fs@.len() ==> (ss[i] matches GenStmt::BindPositional { local, index }
                    && local@ == spec_nth_field(i as nat) && index as int == i)
            &&& forall|i: int|
                #![trigger ss[fs@.len() + i]]
                0 <= i < fs@.len() ==> ss[fs@.len() + i] == write_stmt_for_pos(i as usize, ins)
        },
    }
}

/// Derive the body statements of `push` or `insert`: the per-field local
/// bindings followed by the per-field column writes.
fn make_row_write_stmts(fields: &FieldsDesc, ins: bool) -> (r: Vec<GenStmt>)
    ensures
        row_write_stmts_match(r@, *fields, ins),
{
    let mut ss: Vec<GenStmt> = Vec::new();
    match fields {
        FieldsDesc::Unit => {},
        FieldsDesc::Named(fs) => {
            let mut i: usize = 0;
            while i < fs.len()
                invariant
                    i <= fs.len(),
                    ss@.len() == i,
                    forall|j: int| 0 <= j < i ==> ss@[j] == bind_stmt_for_named(fs@[j]),
                decreases fs.len() - i,
            {
                let f = &fs[i];
                ss.push(GenStmt::BindNamed { local: f.name.clone(), field: f.name.clone() });
                i += 1;
            }
            let mut k: usize = 0;
            while k < fs.len()
                invariant
                    k <= fs.len(),
                    ss@.len() == fs@.len() + k,
                    forall|j: int| 0 <= j < fs@.len() ==> ss@[j] == bind_stmt_for_named(fs@[j]),
                    forall|j: int|
                        0 <= j < k ==> ss@[fs@.len() + j] == write_stmt_for_named(fs@[j], ins),
                decreases fs.len() - k,
            {
                let f = &fs[k];
                let column = FieldKey::Name(f.name.clone());
                if ins {
                    ss.push(GenStmt::InsertField { column });
                } else {
                    ss.push(GenStmt::PushField { column });
                }
                k += 1;
            }
        },
        FieldsDesc::Positional(fs) => {
            let mut i: usize = 0;
            while i < fs.len()
                invariant
                    i <= fs.len(),
                    ss@.len() == i,
                    forall|j: int|
                        #![trigger ss@[j]]
                        0 <= j < i ==> (ss@[j] matches GenStmt::BindPositional { local, index }
                            && local@ == spec_nth_field(j as nat) && index as int == j),
                decreases fs.len() - i,
            {
                ss.push(GenStmt::BindPositional { local: nth_field(i), index: i });
                i += 1;
            }
            let mut k: usize = 0;
            while k < fs.len()
                invariant
                    k <= fs.len(),
                    ss@.len() == fs@.len() + k,
                    forall|j: int|
                        #![trigger ss@[j]]
                        0 <= j < fs@.len() ==> (ss@[j] matches GenStmt::BindPositional {
                            local,
                            index,
                        } && local@ == spec_nth_field(j as nat) && index as int == j),
                    forall|j: int|
                        #![trigger ss@[fs@.len() + j]]
                        0 <= j < k ==> ss@[fs@.len() + j] == write_stmt_for_pos(j as usize, ins),
                decreases fs.len() - k,
            {
                if ins {
                    ss.push(GenStmt::InsertField { column: FieldKey::Index(k) });
                } else {
                    ss.push(GenStmt::PushField { column: FieldKey::Index(k) });
                }
                k += 1;
            }
        },
    }
    ss
}

/// The construction operation: no arguments, every column empty.
pub open spec fn is_new_method(m: GenMethod, fields: FieldsDesc) -> bool {
    &&& m.vis == Vis::Pub
    &&& m.name@ == "new"@
    &&& m.receiver == SelfRef::NoSelf
    &&& m.params@.len() == 0
    &&& m.ret == Some(GenTy::SelfTy)
    &&& m.body matches GenBody::Construct { ctor, inits } && ctor == CtorKind::SelfCtor
        && init_list_for(inits, fields, InitOp::New)
}

/// Derive `new`.
pub fn gen_new(fields: &FieldsDesc) -> (m: GenMethod)
    ensures
        is_new_method(m, *fields),
{
    GenMethod {
        vis: Vis::Pub,
        name: String::from_str("new"),
        receiver: SelfRef::NoSelf,
        params: Vec::new(),
        ret: Some(GenTy::SelfTy),
        body: GenBody::Construct { ctor: CtorKind::SelfCtor, inits: make_inits(fields, InitOp::New) },
    }
}

/// The capacity-based construction: every column reserves the capacity
/// hint.
pub open spec fn is_with_capacity_method(m: GenMethod, fields: FieldsDesc) -> bool {
    &&& m.vis == Vis::Pub
    &&& m.name@ == "with_capacity"@
    &&& m.receiver == SelfRef::NoSelf
    &&& m.params@.len() == 1
    &&& m.params@[0].name@ == "capacity"@
    &&& m.params@[0].ty == GenTy::Usize
    &&& m.ret == Some(GenTy::SelfTy)
    &&& m.body matches GenBody::Construct { ctor, inits } && ctor == CtorKind::SelfCtor
        && init_list_for(inits, fields, InitOp::WithCapacity)
}

/// Derive `with_capacity`.
pub fn gen_with_capacity(fields: &FieldsDesc) -> (m: GenMethod)
    ensures
        is_with_capacity_method(m, *fields),
{
    let mut params: Vec<GenParam> = Vec::new();
    params.push(GenParam { name: String::from_str("capacity"), ty: GenTy::Usize });
    GenMethod {
        vis: Vis::Pub,
        name: String::from_str("with_capacity"),
        receiver: SelfRef::NoSelf,
        params,
        ret: Some(GenTy::SelfTy),
        body: GenBody::Construct {
            ctor: CtorKind::SelfCtor,
            inits: make_inits(fields, InitOp::WithCapacity),
        },
    }
}

/// The indexed read access: borrows the `index` position out of every
/// column simultaneously into a view value.
pub open spec fn is_get_method(
    m: GenMethod,
    fields: FieldsDesc,
    names: StructNames,
    mutable: bool,
) -> bool {
    &&& m.vis == Vis::Pub
    &&& m.name@ == if mutable {
        "get_mut"@
    } else {
        "get"@
    }
    &&& m.receiver == if mutable {
        SelfRef::Mutable
    } else {
        SelfRef::Shared
    }
    &&& m.params@.len() == 1
    &&& m.params@[0].name@ == "index"@
    &&& m.params@[0].ty == GenTy::Usize
    &&& m.ret == Some(
        GenTy::Named(
            if mutable {
                names.mut_ref
            } else {
                names.shared_ref
            },
        ),
    )
    &&& m.body matches GenBody::Construct { ctor, inits } && ctor == CtorKind::Plain(
        if mutable {
            names.mut_ref
        } else {
            names.shared_ref
        },
    ) && init_list_for(inits, fields, InitOp::Borrow(mutable))
}

/// Derive `get` or `get_mut`.
pub fn gen_get(fields: &FieldsDesc, names: &StructNames, mutable: bool) -> (m: GenMethod)
    ensures
        is_get_method(m, *fields, *names, mutable),
{
    let view_name = if mutable {
        names.mut_ref.clone()
    } else {
        names.shared_ref.clone()
    };
    let mut params: Vec<GenParam> = Vec::new();
    params.push(GenParam { name: String::from_str("index"), ty: GenTy::Usize });
    GenMethod {
        vis: Vis::Pub,
        name: if mutable {
            String::from_str("get_mut")
        } else {
            String::from_str("get")
        },
        receiver: if mutable {
            SelfRef::Mutable
        } else {
            SelfRef::Shared
        },
        params,
        ret: Some(GenTy::Named(view_name.clone())),
        body: GenBody::Construct {
            ctor: CtorKind::Plain(view_name),
            inits: make_inits(fields, InitOp::Borrow(mutable)),
        },
    }
}

/// The row append: one local binding and one column append per field; all
/// columns grow by exactly one.
pub open spec fn is_push_method(m: GenMethod, fields: FieldsDesc, names: StructNames) -> bool {
    &&& m.vis == Vis::Pub
    &&& m.name@ == "push"@
    &&& m.receiver == SelfRef::Mutable
    &&& m.params@.len() == 1
    &&& m.params@[0].name@ == "value"@
    &&& m.params@[0].ty == GenTy::Named(names.original)
    &&& m.ret is None
    &&& m.body matches GenBody::Stmts(ss) && row_write_stmts_match(ss@, fields, false)
}

/// Derive `push`.
pub fn gen_push(fields: &FieldsDesc, names: &StructNames) -> (m: GenMethod)
    ensures
        is_push_method(m, *fields, *names),
{
    let mut params: Vec<GenParam> = Vec::new();
    params.push(GenParam { name: String::from_str("value"), ty: GenTy::Named(names.original.clone()) });
    GenMethod {
        vis: Vis::Pub,
        name: String::from_str("push"),
        receiver: SelfRef::Mutable,
        params,
        ret: None,
        body: GenBody::Stmts(make_row_write_stmts(fields, false)),
    }
}

/// The indexed row insertion: every column shifts in lockstep.
pub open spec fn is_insert_method(m: GenMethod, fields: FieldsDesc, names: StructNames) -> bool {
    &&& m.vis == Vis::Pub
    &&& m.name@ == "insert"@
    &&& m.receiver == SelfRef::Mutable
    &&& m.params@.len() == 2
    &&& m.params@[0].name@ == "index"@
    &&& m.params@[0].ty == GenTy::Usize
    &&& m.params@[1].name@ == "value"@
    &&& m.params@[1].ty == GenTy::Named(names.original)
    &&& m.ret is None
    &&& m.body matches GenBody::Stmts(ss) && row_write_stmts_match(ss@, fields, true)
}

/// Derive `insert`.
pub fn gen_insert(fields: &FieldsDesc, names: &StructNames) -> (m: GenMethod)
    ensures
        is_insert_method(m, *fields, *names),
{
    let mut params: Vec<GenParam> = Vec::new();
    params.push(GenParam { name: String::from_str("index"), ty: GenTy::Usize });
    params.push(GenParam { name: String::from_str("value"), ty: GenTy::Named(names.original.clone()) });
    GenMethod {
        vis: Vis::Pub,
        name: String::from_str("insert"),
        receiver: SelfRef::Mutable,
        params,
        ret: None,
        body: GenBody::Stmts(make_row_write_stmts(fields, true)),
    }
}

/// The indexed row removal, shifting (`swap == false`) or swap-based
/// (`swap == true`); the removed elements are reassembled into one row
/// value in original field order.
pub open spec fn is_remove_method(
    m: GenMethod,
    fields: FieldsDesc,
    names: StructNames,
    swap: bool,
) -> bool {
    &&& m.vis == Vis::Pub
    &&& m.name@ == if swap {
        "swap_remove"@
    } else {
        "remove"@
    }
    &&& m.receiver == SelfRef::Mutable
    &&& m.params@.len() == 1
    &&& m.params@[0].name@ == "index"@
    &&& m.params@[0].ty == GenTy::Usize
    &&& m.ret == Some(GenTy::Named(names.original))
    &&& m.body matches GenBody::Construct { ctor, inits } && ctor == CtorKind::Plain(names.original)
        && init_list_for(
        inits,
        fields,
        if swap {
            InitOp::SwapRemove
        } else {
            InitOp::Remove
        },
    )
}

/// Derive `remove` or `swap_remove`.
pub fn gen_remove(fields: &FieldsDesc, names: &StructNames, swap: bool) -> (m: GenMethod)
    ensures
        is_remove_method(m, *fields, *names, swap),
{
    let mut params: Vec<GenParam> = Vec::new();
    params.push(GenParam { name: String::from_str("index"), ty: GenTy::Usize });
    GenMethod {
        vis: Vis::Pub,
        name: if swap {
            String::from_str("swap_remove")
        } else {
            String::from_str("remove")
        },
        receiver: SelfRef::Mutable,
        params,
        ret: Some(GenTy::Named(names.original.clone())),
        body: GenBody::Construct {
            ctor: CtorKind::Plain(names.original.clone()),
            inits: make_inits(
                fields,
                if swap {
                    InitOp::SwapRemove
                } else {
                    InitOp::Remove
                },
            ),
        },
    }
}

/// The last-row removal: absent on an empty container, otherwise the last
/// element of every column, reassembled into one row value.
pub open spec fn is_pop_method(m: GenMethod, fields: FieldsDesc, names: StructNames) -> bool {
    &&& m.vis == Vis::Pub
    &&& m.name@ == "pop"@
    &&& m.receiver == SelfRef::Mutable
    &&& m.params@.len() == 0
    &&& m.ret == Some(GenTy::OptionOf(names.original))
    &&& m.body matches GenBody::Construct { ctor, inits } && ctor == CtorKind::SomeWrapped(
        names.original,
    ) && init_list_for(inits, fields, InitOp::Pop)
}

/// Derive `pop`.
pub fn gen_pop(fields: &FieldsDesc, names: &StructNames) -> (m: GenMethod)
    ensures
        is_pop_method(m, *fields, *names),
{
    GenMethod {
        vis: Vis::Pub,
        name: String::from_str("pop"),
        receiver: SelfRef::Mutable,
        params: Vec::new(),
        ret: Some(GenTy::OptionOf(names.original.clone())),
        body: GenBody::Construct {
            ctor: CtorKind::SomeWrapped(names.original.clone()),
            inits: make_inits(fields, InitOp::Pop),
        },
    }
}

/// The visibility of a per-field accessor: the container lives in the
/// hidden namespace, so an inherited (private) field visibility widens to
/// the parent namespace; every other visibility is kept.
pub open spec fn accessor_vis_matches(v: Vis, orig: Vis) -> bool {
    match orig {
        Vis::Inherited => v matches Vis::Restricted(p) && p@ == "super"@,
        _ => v == orig,
    }
}

/// A per-field plural accessor over one whole column, read-only or
/// mutable.
pub open spec fn is_accessor_method(m: GenMethod, f: NamedField, mutable: bool) -> bool {
    &&& accessor_vis_matches(m.vis, f.vis)
    &&& m.name@ == if mutable {
        spec_pluralized(f.name@) + "_mut"@
    } else {
        spec_pluralized(f.name@)
    }
    &&& m.receiver == if mutable {
        SelfRef::Mutable
    } else {
        SelfRef::Shared
    }
    &&& m.params@.len() == 0
    &&& m.ret == Some(GenTy::SliceOf { mutable, ty: f.ty })
    &&& m.body == (GenBody::BorrowColumn { mutable, field: f.name })
}

/// Derive one plural accessor for a named field.
pub fn gen_accessor(f: &NamedField, mutable: bool) -> (m: GenMethod)
    requires
        f.name@.len() > 0,
    ensures
        is_accessor_method(m, *f, mutable),
{
    let vis = match &f.vis {
        Vis::Inherited => Vis::Restricted(String::from_str("super")),
        other => other.dup(),
    };
    let name = if mutable {
        pluralize(f.name.as_str()).concat("_mut")
    } else {
        pluralize(f.name.as_str())
    };
    GenMethod {
        vis,
        name,
        receiver: if mutable {
            SelfRef::Mutable
        } else {
            SelfRef::Shared
        },
        params: Vec::new(),
        ret: Some(GenTy::SliceOf { mutable, ty: f.ty.clone() }),
        body: GenBody::BorrowColumn { mutable, field: f.name.clone() },
    }
}

/// The length operation: the first column's length stands for the row
/// count, since every mutation keeps all columns equally long.
pub open spec fn is_len_method(m: GenMethod, fields: FieldsDesc) -> bool {
    &&& m.vis == Vis::Pub
    &&& m.name@ == "len"@
    &&& m.receiver == SelfRef::Shared
    &&& m.params@.len() == 0
    &&& m.ret == Some(GenTy::Usize)
    &&& m.body == (GenBody::ColumnLen { column: first_field_key(fields) })
}

/// The emptiness check, defined through `len`.
pub open spec fn is_is_empty_method(m: GenMethod) -> bool {
    &&& m.vis == Vis::Pub
    &&& m.name@ == "is_empty"@
    &&& m.receiver == SelfRef::Shared
    &&& m.params@.len() == 0
    &&& m.ret == Some(GenTy::Bool)
    &&& m.body == GenBody::LenIsZero
}

/// Derive the length pair, or nothing for a zero-field record: with no
/// field there is no column to measure, so `len` and `is_empty` are
/// omitted entirely.
pub fn gen_len_is_empty(fields: &FieldsDesc) -> (r: Option<(GenMethod, GenMethod)>)
    ensures
        r is Some <==> fields.count() > 0,
        r matches Some(pair) ==> is_len_method(pair.0, *fields) && is_is_empty_method(pair.1),
{
    let has_fields = match fields {
        FieldsDesc::Unit => false,
        FieldsDesc::Named(fs) => fs.len() > 0,
        FieldsDesc::Positional(fs) => fs.len() > 0,
    };
    if !has_fields {
        return None;
    }
    let first_key = match fields {
        FieldsDesc::Named(fs) => FieldKey::Name(fs[0].name.clone()),
        _ => FieldKey::Index(0),
    };
    let len_m = GenMethod {
        vis: Vis::Pub,
        name: String::from_str("len"),
        receiver: SelfRef::Shared,
        params: Vec::new(),
        ret: Some(GenTy::Usize),
        body: GenBody::ColumnLen { column: first_key },
    };
    let is_empty_m = GenMethod {
        vis: Vis::Pub,
        name: String::from_str("is_empty"),
        receiver: SelfRef::Shared,
        params: Vec::new(),
        ret: Some(GenTy::Bool),
        body: GenBody::LenIsZero,
    };
    Some((len_m, is_empty_m))
}

/// The whole derived method set, in generation order: constructors, the
/// two indexed accessors, the per-field plural accessors (named shape
/// only), the row writers, the length pair (omitted for zero fields), and
/// the row removers.
pub open spec fn impl_methods_match(ms: Seq<GenMethod>, fields: FieldsDesc, names: StructNames) -> bool {
    let acc: int = if fields matches FieldsDesc::Named(_) {
        2 * fields.count() as int
    } else {
        0
    };
    let lenc: int = if fields.count() > 0 {
        2
    } else {
        0
    };
    &&& ms.len() == 9 + acc + lenc
    &&& is_new_method(ms[0], fields)
    &&& is_with_capacity_method(ms[1], fields)
    &&& is_get_method(ms[2], fields, names, false)
    &&& is_get_method(ms[3], fields, names, true)
    &&& (fields matches FieldsDesc::Named(fs) ==> forall|i: int|
        #![trigger fs@[i]]
        0 <= i < fs@.len() ==> is_accessor_method(ms[4 + 2 * i], fs@[i], false)
            && is_accessor_method(ms[4 + 2 * i + 1], fs@[i], true))
    &&& is_push_method(ms[4 + acc], fields, names)
    &&& is_insert_method(ms[5 + acc], fields, names)
    &&& (fields.count() > 0 ==> is_len_method(ms[6 + acc], fields) && is_is_empty_method(
        ms[7 + acc],
    ))
    &&& is_remove_method(ms[6 + acc + lenc], fields, names, false)
    &&& is_remove_method(ms[7 + acc + lenc], fields, names, true)
    &&& is_pop_method(ms[8 + acc + lenc], fields, names)
}

/// Derive the full impl block on the container type.
pub fn generate_impl_block(fields: &FieldsDesc, names: &StructNames) -> (r: GenImpl)
    requires
        fields_wf(*fields),
    ensures
        r.self_ty == names.vec,
        impl_methods_match(r.methods@, *fields, *names),
{
    let mut ms: Vec<GenMethod> = Vec::new();
    ms.push(gen_new(fields));
    ms.push(gen_with_capacity(fields));
    ms.push(gen_get(fields, names, false));
    ms.push(gen_get(fields, names, true));
    match fields {
        FieldsDesc::Named(fs) => {
            let mut i: usize = 0;
            while i < fs.len()
                invariant
                    fields_wf(*fields),
                    *fields matches FieldsDesc::Named(fsv) && fsv@ == fs@,
                    i <= fs.len(),
                    ms@.len() == 4 + 2 * i,
                    is_new_method(ms@[0], *fields),
                    is_with_capacity_method(ms@[1], *fields),
                    is_get_method(ms@[2], *fields, *names, false),
                    is_get_method(ms@[3], *fields, *names, true),
                    forall|j: int|
                        #![trigger fs@[j]]
                        0 <= j < i ==> is_accessor_method(ms@[4 + 2 * j], fs@[j], false)
                            && is_accessor_method(ms@[4 + 2 * j + 1], fs@[j], true),
                decreases fs.len() - i,
            {
                let f = &fs[i];
                ms.push(gen_accessor(f, false));
                ms.push(gen_accessor(f, true));
                i += 1;
            }
        },
        _ => {},
    }
    ms.push(gen_push(fields, names));
    ms.push(gen_insert(fields, names));
    let len_pair = gen_len_is_empty(fields);
    match len_pair {
        Some((len_m, is_empty_m)) => {
            ms.push(len_m);
            ms.push(is_empty_m);
        },
        None => {},
    }
    ms.push(gen_remove(fields, names, false));
    ms.push(gen_remove(fields, names, true));
    ms.push(gen_pop(fields, names));
    GenImpl { self_ty: names.vec.clone(), methods: ms }
}

} // verus!
