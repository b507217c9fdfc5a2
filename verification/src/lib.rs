//! Derivation engine for struct-of-vecs code generation: given the structural
//! description of a record type, derive the descriptors of a columnar
//! container type, two borrowing view types, and the container's method set.

use vstd::prelude::*;

pub mod codegen;
pub mod columnar;
pub mod gen;
pub mod parse;
pub mod util;

use codegen::{codegen, derived_output_matches, OutputSet};
use gen::fields_wf;
use parse::{Diagnostic, Input, RawData, RawItem};

verus! {

/// The transformation entry point: extract the input descriptor from the
/// raw item description and derive the output descriptor set, or report an
/// unsupported shape as a diagnostic anchored at its declaration site.
pub fn struct_of_vecs(raw: RawItem) -> (r: Result<OutputSet, Diagnostic>)
    requires
        raw.data matches RawData::Struct(fields) ==> fields_wf(fields),
    ensures
        r is Ok <==> raw.data is Struct,
        raw.data matches RawData::Struct(fields) ==> (r matches Ok(out)
            && derived_output_matches(
            out,
            Input { vis: raw.vis, name: raw.name, fields },
        )),
        r matches Err(d) ==> {
            &&& d.message@ == "only structs are supported"@
            &&& match raw.data {
                RawData::Struct(_) => false,
                RawData::Enum(site) => d.kind is Enum && d.site == site,
                RawData::Union(site) => d.kind is Union && d.site == site,
            }
        },
{
    match Input::from_derive_input(raw) {
        Ok(input) => Ok(codegen(&input)),
        Err(d) => Err(d),
    }
}

} // verus!
