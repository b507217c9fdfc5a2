//! Name derivation and the derived struct types: the columnar container
//! struct and the two borrowing view structs.

use vstd::prelude::*;
use vstd::string::*;
use crate::parse::{FieldsDesc, Input, Vis};
use crate::gen::{GenFields, GenNamedField, GenPosField, GenStruct, GenTy};

verus! {

/// What convert_case's snake-case conversion returns for a given character
/// sequence; the result depends on the characters alone.
pub uninterp spec fn snake_of(s: Seq<char>) -> Seq<char>;

/// Relies on convert_case's `Casing::to_case` with the snake-case target:
/// a pure conversion whose result depends on the input string alone.
#[verifier::external_body]
fn to_snake_case(s: &str) -> (r: String)
    ensures
        r@ == snake_of(s@),
{
    convert_case::Casing::to_case(&s, convert_case::Case::Snake)
}

/// The fixed bundle of identifiers derived once from the original type's
/// name and shared by all later stages.
#[derive(Debug, PartialEq, Eq)]
pub struct StructNames {
    /// The original type's own name.
    pub original: String,
    /// The derived container type's name.
    pub vec: String,
    /// The shared view type's name.
    pub shared_ref: String,
    /// The mutable view type's name.
    pub mut_ref: String,
    /// The hidden namespace the container is declared in.
    pub module: String,
    /// The symbolic borrow lifetime shared by the view types, without its
    /// leading tick.
    pub lifetime: String,
}

/// How each derived name is obtained from the original type's name.
pub open spec fn names_match(n: StructNames, orig: Seq<char>) -> bool {
    &&& n.original@ == orig
    &&& n.vec@ == "Vec"@ + orig
    &&& n.shared_ref@ == orig + "Ref"@
    &&& n.mut_ref@ == orig + "RefMut"@
    &&& n.module@ == "__hidden_vec_"@ + snake_of(orig)
    &&& n.lifetime@ == "a"@
}

impl StructNames {
    /// Derive the whole name bundle from the original type's name.
    pub fn from_struct_name(name: &str) -> (r: StructNames)
        ensures
            names_match(r, name@),
    {
        StructNames {
            original: String::from_str(name),
            vec: String::from_str("Vec").concat(name),
            shared_ref: String::from_str(name).concat("Ref"),
            mut_ref: String::from_str(name).concat("RefMut"),
            module: String::from_str("__hidden_vec_").concat(to_snake_case(name).as_str()),
            lifetime: String::from_str("a"),
        }
    }
}

/// Name derivation is deterministic: two bundles derived from the same
/// original name agree bit for bit, so later stages may derive the bundle
/// independently and still agree.
pub proof fn lemma_names_deterministic(a: StructNames, b: StructNames, orig: Seq<char>)
    requires
        names_match(a, orig),
        names_match(b, orig),
    ensures
        a.original@ == b.original@,
        a.vec@ == b.vec@,
        a.shared_ref@ == b.shared_ref@,
        a.mut_ref@ == b.mut_ref@,
        a.module@ == b.module@,
        a.lifetime@ == b.lifetime@,
{
}

/// The container's field list: the input's shape and visibilities, with
/// every field type wrapped as a sequence of itself.
pub open spec fn vec_fields_match(gf: GenFields, fields: FieldsDesc) -> bool {
    match fields {
        FieldsDesc::Unit => gf == GenFields::Unit,
        FieldsDesc::Named(fs) => gf matches GenFields::Named(gs) && gs@.len() == fs@.len()
            && forall|i: int|
            0 <= i < fs@.len() ==> gs@[i] == (GenNamedField {
                vis: fs@[i].vis,
                name: fs@[i].name,
                ty: GenTy::VecOf(fs@[i].ty),
            }),
        FieldsDesc::Positional(fs) => gf matches GenFields::Positional(gs) && gs@.len()
            == fs@.len() && forall|i: int|
            0 <= i < fs@.len() ==> gs@[i] == (GenPosField {
                vis: fs@[i].vis,
                ty: GenTy::VecOf(fs@[i].ty),
            }),
    }
}

/// A view's field list: the input's shape and visibilities, with every
/// field type replaced by a reference bound to the shared lifetime.
pub open spec fn view_fields_match(gf: GenFields, fields: FieldsDesc, mutable: bool) -> bool {
    match fields {
        FieldsDesc::Unit => gf == GenFields::Unit,
        FieldsDesc::Named(fs) => gf matches GenFields::Named(gs) && gs@.len() == fs@.len()
            && forall|i: int|
            0 <= i < fs@.len() ==> gs@[i] == (GenNamedField {
                vis: fs@[i].vis,
                name: fs@[i].name,
                ty: GenTy::RefTo { mutable, ty: fs@[i].ty },
            }),
        FieldsDesc::Positional(fs) => gf matches GenFields::Positional(gs) && gs@.len()
            == fs@.len() && forall|i: int|
            0 <= i < fs@.len() ==> gs@[i] == (GenPosField {
                vis: fs@[i].vis,
                ty: GenTy::RefTo { mutable, ty: fs@[i].ty },
            }),
    }
}

/// Derive the columnar container struct: same shape and per-field
/// visibility as the input, each field type a sequence of the original.
pub fn generate_vec_struct(input: &Input, names: &StructNames) -> (r: GenStruct)
    ensures
        r.vis == Vis::Pub,
        r.name == names.vec,
        !r.has_lifetime,
        vec_fields_match(r.fields, input.fields),
{
    let fields = match &input.fields {
        FieldsDesc::Unit => GenFields::Unit,
        FieldsDesc::Named(fs) => {
            let mut gs: Vec<GenNamedField> = Vec::new();
            let mut i: usize = 0;
            while i < fs.len()
                invariant
                    i <= fs.len(),
                    gs@.len() == i,
                    forall|j: int|
                        0 <= j < i ==> gs@[j] == (GenNamedField {
                            vis: fs@[j].vis,
                            name: fs@[j].name,
                            ty: GenTy::VecOf(fs@[j].ty),
                        }),
                decreases fs.len() - i,
            {
                let f = &fs[i];
                gs.push(
                    GenNamedField {
                        vis: f.vis.dup(),
                        name: f.name.clone(),
                        ty: GenTy::VecOf(f.ty.clone()),
                    },
                );
                i += 1;
            }
            GenFields::Named(gs)
        },
        FieldsDesc::Positional(fs) => {
            let mut gs: Vec<GenPosField> = Vec::new();
            let mut i: usize = 0;
            while i < fs.len()
                invariant
                    i <= fs.len(),
                    gs@.len() == i,
                    forall|j: int|
                        0 <= j < i ==> gs@[j] == (GenPosField {
                            vis: fs@[j].vis,
                            ty: GenTy::VecOf(fs@[j].ty),
                        }),
                decreases fs.len() - i,
            {
                let f = &fs[i];
                gs.push(GenPosField { vis: f.vis.dup(), ty: GenTy::VecOf(f.ty.clone()) });
                i += 1;
            }
            GenFields::Positional(gs)
        },
    };
    GenStruct { vis: Vis::Pub, name: names.vec.clone(), has_lifetime: false, fields }
}

/// Derive one borrowing view struct: same shape and per-field visibility
/// as the input, each field a reference bound to the shared lifetime.
pub fn generate_view_struct(input: &Input, names: &StructNames, mutable: bool) -> (r: GenStruct)
    ensures
        r.vis == Vis::Pub,
        r.name == if mutable {
            names.mut_ref
        } else {
            names.shared_ref
        },
        r.has_lifetime,
        view_fields_match(r.fields, input.fields, mutable),
{
    let fields = match &input.fields {
        FieldsDesc::Unit => GenFields::Unit,
        FieldsDesc::Named(fs) => {
            let mut gs: Vec<GenNamedField> = Vec::new();
            let mut i: usize = 0;
            while i < fs.len()
                invariant
                    i <= fs.len(),
                    gs@.len() == i,
                    forall|j: int|
                        0 <= j < i ==> gs@[j] == (GenNamedField {
                            vis: fs@[j].vis,
                            name: fs@[j].name,
                            ty: GenTy::RefTo { mutable, ty: fs@[j].ty },
                        }),
                decreases fs.len() - i,
            {
                let f = &fs[i];
                gs.push(
                    GenNamedField {
                        vis: f.vis.dup(),
                        name: f.name.clone(),
                        ty: GenTy::RefTo { mutable, ty: f.ty.clone() },
                    },
                );
                i += 1;
            }
            GenFields::Named(gs)
        },
        FieldsDesc::Positional(fs) => {
            let mut gs: Vec<GenPosField> = Vec::new();
            let mut i: usize = 0;
            while i < fs.len()
                invariant
                    i <= fs.len(),
                    gs@.len() == i,
                    forall|j: int|
                        0 <= j < i ==> gs@[j] == (GenPosField {
                            vis: fs@[j].vis,
                            ty: GenTy::RefTo { mutable, ty: fs@[j].ty },
                        }),
                decreases fs.len() - i,
            {
                let f = &fs[i];
                gs.push(
                    GenPosField { vis: f.vis.dup(), ty: GenTy::RefTo { mutable, ty: f.ty.clone() } },
                );
                i += 1;
            }
            GenFields::Positional(gs)
        },
    };
    let name = if mutable {
        names.mut_ref.clone()
    } else {
        names.shared_ref.clone()
    };
    GenStruct { vis: Vis::Pub, name, has_lifetime: true, fields }
}

} // verus!
