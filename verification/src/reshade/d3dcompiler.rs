//! Where the `d3dcompiler_47.dll` copies live in the data directory.
use vstd::prelude::*;

use crate::reshade::game::{spec_d3dcompiler_suffix, ExeArch};
use crate::reshade::paths::{join, spec_join};
use crate::text::push_str;

verus! {

/// Stem of the stored compiler DLL names.
pub const D3DCOMPILER_STEM: &'static str = "d3dcompiler_47.dll.";

/// `d3dcompiler_47.dll.32` or `d3dcompiler_47.dll.64`.
pub open spec fn spec_dll_file_name(arch: ExeArch) -> Seq<char> {
    D3DCOMPILER_STEM@ + spec_d3dcompiler_suffix(arch)
}

/// The stored file (and embedded asset) name of the DLL for `arch`.
pub fn dll_file_name(arch: ExeArch) -> (r: String)
    ensures
        r@ == spec_dll_file_name(arch),
{
    let mut r = D3DCOMPILER_STEM.to_owned();
    push_str(&mut r, arch.d3dcompiler_suffix());
    r
}

/// Returns the path where the DLL for `arch` should live in `data_dir`.
pub fn dll_path(data_dir: &str, arch: ExeArch) -> (r: String)
    ensures
        r@ == spec_join(data_dir@, spec_dll_file_name(arch)),
{
    let name = dll_file_name(arch);
    join(data_dir, name.as_str())
}

} // verus!
