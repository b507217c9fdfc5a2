use sov::codegen::OutputSet;
use sov::gen::{
    CtorKind, FieldKey, GenBody, GenFields, GenStmt, GenTy, InitExpr, InitList, SelfRef,
};
use sov::parse::{FieldsDesc, NamedField, PosField, RawData, RawItem, UnsupportedKind, Vis};
use sov::struct_of_vecs;
use sov::util::{nth_field, pluralize};

fn named_field(vis: Vis, name: &str, ty: &str) -> NamedField {
    NamedField { vis, name: name.to_string(), ty: ty.to_string() }
}

fn pos_field(vis: Vis, ty: &str) -> PosField {
    PosField { vis, ty: ty.to_string() }
}

fn raw_struct(name: &str, fields: FieldsDesc) -> RawItem {
    RawItem { vis: Vis::Pub, name: name.to_string(), data: RawData::Struct(fields) }
}

fn derive_ok(name: &str, fields: FieldsDesc) -> OutputSet {
    struct_of_vecs(raw_struct(name, fields)).ok().expect("plain record must be accepted")
}

fn method_names(out: &OutputSet) -> Vec<String> {
    out.impl_block.methods.iter().map(|m| m.name.clone()).collect()
}

#[test]
fn unit_shape_full_set() {
    let out = derive_ok("Foo", FieldsDesc::Unit);
    assert_eq!(out.names.vec, "VecFoo");
    assert_eq!(out.names.shared_ref, "FooRef");
    assert_eq!(out.names.mut_ref, "FooRefMut");
    assert_eq!(out.names.module, "__hidden_vec_foo");
    assert_eq!(out.names.lifetime, "a");
    assert_eq!(out.container.fields, GenFields::Unit);
    assert!(!out.container.has_lifetime);
    assert!(out.shared_view.has_lifetime);
    assert!(out.mut_view.has_lifetime);
    // no per-field accessors and no length pair for a zero-field record
    assert_eq!(
        method_names(&out),
        vec!["new", "with_capacity", "get", "get_mut", "push", "insert", "remove", "swap_remove", "pop"]
    );
}

#[test]
fn named_one_field_full_set() {
    let fields = FieldsDesc::Named(vec![named_field(Vis::Inherited, "x", "u64")]);
    let out = derive_ok("Foo", fields);
    assert_eq!(
        method_names(&out),
        vec![
            "new", "with_capacity", "get", "get_mut", "xs", "xs_mut", "push", "insert", "len",
            "is_empty", "remove", "swap_remove", "pop"
        ]
    );
    match &out.container.fields {
        GenFields::Named(fs) => {
            assert_eq!(fs.len(), 1);
            assert_eq!(fs[0].name, "x");
            assert_eq!(fs[0].vis, Vis::Inherited);
            assert_eq!(fs[0].ty, GenTy::VecOf("u64".to_string()));
        }
        other => panic!("container must keep the named shape, got {:?}", other),
    }
    match &out.shared_view.fields {
        GenFields::Named(fs) => {
            assert_eq!(fs[0].ty, GenTy::RefTo { mutable: false, ty: "u64".to_string() });
        }
        other => panic!("shared view must keep the named shape, got {:?}", other),
    }
    match &out.mut_view.fields {
        GenFields::Named(fs) => {
            assert_eq!(fs[0].ty, GenTy::RefTo { mutable: true, ty: "u64".to_string() });
        }
        other => panic!("mutable view must keep the named shape, got {:?}", other),
    }
}

#[test]
fn named_three_fields_mixed_visibility() {
    let fields = FieldsDesc::Named(vec![
        named_field(Vis::Pub, "alpha", "u8"),
        named_field(Vis::Inherited, "beta", "String"),
        named_field(Vis::Restricted("crate".to_string()), "gamma", "bool"),
    ]);
    let out = derive_ok("Mixed", fields);
    assert_eq!(
        method_names(&out),
        vec![
            "new", "with_capacity", "get", "get_mut", "alphas", "alphas_mut", "betas",
            "betas_mut", "gammas", "gammas_mut", "push", "insert", "len", "is_empty", "remove",
            "swap_remove", "pop"
        ]
    );
    // per-field visibility is kept on the container's fields
    match &out.container.fields {
        GenFields::Named(fs) => {
            assert_eq!(fs[0].vis, Vis::Pub);
            assert_eq!(fs[1].vis, Vis::Inherited);
            assert_eq!(fs[2].vis, Vis::Restricted("crate".to_string()));
        }
        other => panic!("container must keep the named shape, got {:?}", other),
    }
    // an inherited field visibility widens to the parent namespace on its
    // accessors; the others are kept
    let ms = &out.impl_block.methods;
    assert_eq!(ms[4].vis, Vis::Pub);
    assert_eq!(ms[6].vis, Vis::Restricted("super".to_string()));
    assert_eq!(ms[8].vis, Vis::Restricted("crate".to_string()));
}

#[test]
fn positional_one_field_full_set() {
    let fields = FieldsDesc::Positional(vec![pos_field(Vis::Inherited, "u32")]);
    let out = derive_ok("Pair", fields);
    assert_eq!(
        method_names(&out),
        vec![
            "new", "with_capacity", "get", "get_mut", "push", "insert", "len", "is_empty",
            "remove", "swap_remove", "pop"
        ]
    );
    match &out.container.fields {
        GenFields::Positional(fs) => {
            assert_eq!(fs.len(), 1);
            assert_eq!(fs[0].ty, GenTy::VecOf("u32".to_string()));
        }
        other => panic!("container must keep the positional shape, got {:?}", other),
    }
}

#[test]
fn positional_three_fields_bodies() {
    let fields = FieldsDesc::Positional(vec![
        pos_field(Vis::Inherited, "u8"),
        pos_field(Vis::Pub, "i32"),
        pos_field(Vis::Inherited, "bool"),
    ]);
    let out = derive_ok("Triple", fields);
    let ms = &out.impl_block.methods;
    // push binds each positional field to its placeholder, then appends
    // each field to its column by numeric index
    let push = ms.iter().find(|m| m.name == "push").expect("push must be generated");
    match &push.body {
        GenBody::Stmts(ss) => {
            assert_eq!(ss.len(), 6);
            assert_eq!(ss[0], GenStmt::BindPositional { local: "field0".to_string(), index: 0 });
            assert_eq!(ss[1], GenStmt::BindPositional { local: "field1".to_string(), index: 1 });
            assert_eq!(ss[2], GenStmt::BindPositional { local: "field2".to_string(), index: 2 });
            assert_eq!(ss[3], GenStmt::PushField { column: FieldKey::Index(0) });
            assert_eq!(ss[4], GenStmt::PushField { column: FieldKey::Index(1) });
            assert_eq!(ss[5], GenStmt::PushField { column: FieldKey::Index(2) });
        }
        other => panic!("push body must be a statement list, got {:?}", other),
    }
    // len reads the first column by index
    let len = ms.iter().find(|m| m.name == "len").expect("len must be generated");
    assert_eq!(len.body, GenBody::ColumnLen { column: FieldKey::Index(0) });
    // pop propagates emptiness from every column
    let pop = ms.iter().find(|m| m.name == "pop").expect("pop must be generated");
    match &pop.body {
        GenBody::Construct { ctor, inits } => {
            assert_eq!(*ctor, CtorKind::SomeWrapped("Triple".to_string()));
            match inits {
                InitList::Positional(ins) => {
                    assert_eq!(ins.len(), 3);
                    assert_eq!(ins[1], InitExpr::PopFrom { column: FieldKey::Index(1) });
                }
                other => panic!("pop inits must be positional, got {:?}", other),
            }
        }
        other => panic!("pop body must construct a row, got {:?}", other),
    }
}

#[test]
fn named_bodies_and_signatures() {
    let fields = FieldsDesc::Named(vec![
        named_field(Vis::Inherited, "x", "u64"),
        named_field(Vis::Inherited, "y", "u8"),
    ]);
    let out = derive_ok("Foo", fields);
    let ms = &out.impl_block.methods;
    let get = &ms[2];
    assert_eq!(get.name, "get");
    assert_eq!(get.receiver, SelfRef::Shared);
    assert_eq!(get.params.len(), 1);
    assert_eq!(get.params[0].name, "index");
    assert_eq!(get.params[0].ty, GenTy::Usize);
    assert_eq!(get.ret, Some(GenTy::Named("FooRef".to_string())));
    match &get.body {
        GenBody::Construct { ctor, inits } => {
            assert_eq!(*ctor, CtorKind::Plain("FooRef".to_string()));
            match inits {
                InitList::Named(ins) => {
                    assert_eq!(ins.len(), 2);
                    assert_eq!(ins[0].field, "x");
                    assert_eq!(
                        ins[0].init,
                        InitExpr::BorrowAt { mutable: false, column: FieldKey::Name("x".to_string()) }
                    );
                }
                other => panic!("get inits must be named, got {:?}", other),
            }
        }
        other => panic!("get body must construct a view, got {:?}", other),
    }
    let get_mut = &ms[3];
    assert_eq!(get_mut.name, "get_mut");
    assert_eq!(get_mut.receiver, SelfRef::Mutable);
    assert_eq!(get_mut.ret, Some(GenTy::Named("FooRefMut".to_string())));
    let insert = ms.iter().find(|m| m.name == "insert").expect("insert must be generated");
    assert_eq!(insert.params.len(), 2);
    assert_eq!(insert.params[0].name, "index");
    assert_eq!(insert.params[1].name, "value");
    assert_eq!(insert.params[1].ty, GenTy::Named("Foo".to_string()));
    match &insert.body {
        GenBody::Stmts(ss) => {
            assert_eq!(ss.len(), 4);
            assert_eq!(
                ss[0],
                GenStmt::BindNamed { local: "x".to_string(), field: "x".to_string() }
            );
            assert_eq!(ss[2], GenStmt::InsertField { column: FieldKey::Name("x".to_string()) });
        }
        other => panic!("insert body must be a statement list, got {:?}", other),
    }
    let swap_remove = ms.iter().find(|m| m.name == "swap_remove").expect("swap_remove must be generated");
    assert_eq!(swap_remove.ret, Some(GenTy::Named("Foo".to_string())));
    match &swap_remove.body {
        GenBody::Construct { ctor, inits } => {
            assert_eq!(*ctor, CtorKind::Plain("Foo".to_string()));
            match inits {
                InitList::Named(ins) => {
                    assert_eq!(
                        ins[1].init,
                        InitExpr::SwapRemoveAt { column: FieldKey::Name("y".to_string()) }
                    );
                }
                other => panic!("swap_remove inits must be named, got {:?}", other),
            }
        }
        other => panic!("swap_remove body must construct a row, got {:?}", other),
    }
    // len reads the first field's column by name; is_empty goes through len
    let len = ms.iter().find(|m| m.name == "len").expect("len must be generated");
    assert_eq!(len.body, GenBody::ColumnLen { column: FieldKey::Name("x".to_string()) });
    let is_empty = ms.iter().find(|m| m.name == "is_empty").expect("is_empty must be generated");
    assert_eq!(is_empty.body, GenBody::LenIsZero);
}

#[test]
fn accessor_names_for_x_y_record() {
    // the named record {x: u64, y: u8} exposes xs/xs_mut and ys/ys_mut
    let fields = FieldsDesc::Named(vec![
        named_field(Vis::Inherited, "x", "u64"),
        named_field(Vis::Inherited, "y", "u8"),
    ]);
    let out = derive_ok("Foo", fields);
    let names = method_names(&out);
    assert!(names.contains(&"xs".to_string()));
    assert!(names.contains(&"xs_mut".to_string()));
    assert!(names.contains(&"ys".to_string()));
    assert!(names.contains(&"ys_mut".to_string()));
    let xs = out.impl_block.methods.iter().find(|m| m.name == "xs").unwrap();
    assert_eq!(xs.ret, Some(GenTy::SliceOf { mutable: false, ty: "u64".to_string() }));
    assert_eq!(xs.body, GenBody::BorrowColumn { mutable: false, field: "x".to_string() });
    let ys_mut = out.impl_block.methods.iter().find(|m| m.name == "ys_mut").unwrap();
    assert_eq!(ys_mut.ret, Some(GenTy::SliceOf { mutable: true, ty: "u8".to_string() }));
    assert_eq!(ys_mut.body, GenBody::BorrowColumn { mutable: true, field: "y".to_string() });
}

#[test]
fn visibility_is_propagated_to_reexport() {
    let out = struct_of_vecs(RawItem {
        vis: Vis::Restricted("crate".to_string()),
        name: "Foo".to_string(),
        data: RawData::Struct(FieldsDesc::Unit),
    })
    .ok()
    .expect("plain record must be accepted");
    assert_eq!(out.reexport_vis, Vis::Restricted("crate".to_string()));
    assert_eq!(out.container.vis, Vis::Pub);
    assert_eq!(out.shared_view.vis, Vis::Pub);
}

#[test]
fn enum_input_is_rejected() {
    let r = struct_of_vecs(RawItem {
        vis: Vis::Pub,
        name: "Choice".to_string(),
        data: RawData::Enum(proc_macro2::Span::call_site()),
    });
    match r {
        Err(d) => {
            assert_eq!(d.kind, UnsupportedKind::Enum);
            assert_eq!(d.kind_text(), "enum");
            assert_eq!(d.message, "only structs are supported");
        }
        Ok(_) => panic!("a sum type must be rejected"),
    }
}

#[test]
fn union_input_is_rejected() {
    let r = struct_of_vecs(RawItem {
        vis: Vis::Pub,
        name: "Raw".to_string(),
        data: RawData::Union(proc_macro2::Span::call_site()),
    });
    match r {
        Err(d) => {
            assert_eq!(d.kind, UnsupportedKind::Union);
            assert_eq!(d.kind_text(), "union");
            assert_eq!(d.message, "only structs are supported");
        }
        Ok(_) => panic!("a union must be rejected"),
    }
}

#[test]
fn pluralize_appends_s() {
    assert_eq!(pluralize("x"), "xs");
    assert_eq!(pluralize("value"), "values");
}

#[test]
fn pluralize_appends_es_after_s() {
    assert_eq!(pluralize("bus"), "buses");
    assert_eq!(pluralize("address"), "addresses");
}

#[test]
fn nth_field_names() {
    assert_eq!(nth_field(0), "field0");
    assert_eq!(nth_field(7), "field7");
    assert_eq!(nth_field(12), "field12");
    assert_eq!(nth_field(105), "field105");
}

#[test]
fn snake_cased_module_name() {
    // the hidden namespace name must not be the original name handed back
    // unchanged: it is prefixed and snake-cased
    let out = derive_ok("FooBarBaz", FieldsDesc::Unit);
    assert_eq!(out.names.module, "__hidden_vec_foo_bar_baz");
    assert_eq!(out.names.vec, "VecFooBarBaz");
    assert_eq!(out.names.shared_ref, "FooBarBazRef");
    assert_eq!(out.names.mut_ref, "FooBarBazRefMut");
}

#[test]
fn extraction_accepts_plain_records() {
    let input = sov::parse::Input::from_derive_input(raw_struct(
        "Point",
        FieldsDesc::Positional(vec![pos_field(Vis::Inherited, "f32"), pos_field(Vis::Inherited, "f32")]),
    ))
    .ok()
    .expect("plain record must be accepted");
    assert_eq!(input.name, "Point");
    assert_eq!(input.vis, Vis::Pub);
    match input.fields {
        FieldsDesc::Positional(fs) => assert_eq!(fs.len(), 2),
        other => panic!("extraction must keep the positional shape, got {:?}", other),
    }
}

#[test]
fn codegen_stage_alone_produces_full_output() {
    let input = sov::parse::Input {
        vis: Vis::Inherited,
        name: "Foo".to_string(),
        fields: FieldsDesc::Named(vec![named_field(Vis::Inherited, "x", "u64")]),
    };
    let out = sov::codegen::codegen(&input);
    assert_eq!(out.reexport_vis, Vis::Inherited);
    assert_eq!(out.impl_block.self_ty, "VecFoo");
    assert_eq!(out.impl_block.methods.len(), 13);
}

#[test]
fn struct_names_bundle() {
    let names = sov::codegen::structs::StructNames::from_struct_name("HttpServer");
    assert_eq!(names.original, "HttpServer");
    assert_eq!(names.vec, "VecHttpServer");
    assert_eq!(names.shared_ref, "HttpServerRef");
    assert_eq!(names.mut_ref, "HttpServerRefMut");
    assert_eq!(names.module, "__hidden_vec_http_server");
    assert_eq!(names.lifetime, "a");
}
