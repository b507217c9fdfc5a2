//! The derivation pipeline: name derivation, struct derivation, operation
//! derivation, and assembly of the final output descriptor set.

use vstd::prelude::*;

pub mod impl_block;
pub mod structs;

use crate::gen::{fields_wf, GenImpl, GenStruct};
use crate::parse::{Input, Vis};
use impl_block::{generate_impl_block, impl_methods_match};
use structs::{
    generate_vec_struct, generate_view_struct, names_match, vec_fields_match, view_fields_match,
    StructNames,
};

verus! {

/// The assembled output descriptor set. The container struct and its impl
/// block are nested inside the hidden namespace and the container is
/// re-exported from it under the original type's own visibility, so that
/// helper identifiers synthesized for positional fields cannot collide with
/// names in the user's surrounding scope; the two view types stand directly
/// in the user-visible scope.
pub struct OutputSet {
    /// The visibility of the re-export of the container type: the original
    /// type's own declared visibility.
    pub reexport_vis: Vis,
    /// The derived name bundle, including the hidden namespace's name.
    pub names: StructNames,
    /// The columnar container struct, declared inside the hidden namespace.
    pub container: GenStruct,
    /// The shared view struct, declared in the user-visible scope.
    pub shared_view: GenStruct,
    /// The mutable view struct, declared in the user-visible scope.
    pub mut_view: GenStruct,
    /// The container's method set, declared inside the hidden namespace.
    pub impl_block: GenImpl,
}

/// Everything the assembled output owes to the input descriptor.
pub open spec fn derived_output_matches(out: OutputSet, input: Input) -> bool {
    &&& out.reexport_vis == input.vis
    &&& names_match(out.names, input.name@)
    &&& out.container.vis == Vis::Pub
    &&& out.container.name == out.names.vec
    &&& !out.container.has_lifetime
    &&& vec_fields_match(out.container.fields, input.fields)
    &&& out.shared_view.vis == Vis::Pub
    &&& out.shared_view.name == out.names.shared_ref
    &&& out.shared_view.has_lifetime
    &&& view_fields_match(out.shared_view.fields, input.fields, false)
    &&& out.mut_view.vis == Vis::Pub
    &&& out.mut_view.name == out.names.mut_ref
    &&& out.mut_view.has_lifetime
    &&& view_fields_match(out.mut_view.fields, input.fields, true)
    &&& out.impl_block.self_ty == out.names.vec
    &&& impl_methods_match(out.impl_block.methods@, input.fields, out.names)
}

/// Run the whole derivation pipeline on one input descriptor.
pub fn codegen(input: &Input) -> (out: OutputSet)
    requires
        fields_wf(input.fields),
    ensures
        derived_output_matches(out, *input),
{
    let names = StructNames::from_struct_name(input.name.as_str());
    let container = generate_vec_struct(input, &names);
    let shared_view = generate_view_struct(input, &names, false);
    let mut_view = generate_view_struct(input, &names, true);
    let impl_block = generate_impl_block(&input.fields, &names);
    OutputSet {
        reexport_vis: input.vis.dup(),
        names,
        container,
        shared_view,
        mut_view,
        impl_block,
    }
}

} // verus!
