//! The fixed set of auxiliary files the shader-injection layer needs: where
//! they are published and which relative paths are fetched.

use vstd::prelude::*;
use vstd::string::StringExecFns;

verus! {

/// Base URL the auxiliary files are published under.
pub open spec fn ui_patch_source_spec() -> Seq<char> {
    "https://raw.githubusercontent.com/PineappleIOnic/Nier-Replicant-Ultrawide-Patcher/main/UIPatch"@
}

/// Base URL the auxiliary files are published under.
pub fn ui_patch_source() -> (s: String)
    ensures
        s@ == ui_patch_source_spec(),
{
    "https://raw.githubusercontent.com/PineappleIOnic/Nier-Replicant-Ultrawide-Patcher/main/UIPatch".to_owned()
}

/// The relative paths fetched, which are also the paths the files are
/// written to under the game directory, in download order.
pub fn ui_patch_files() -> (v: Vec<String>)
    ensures
        v@.len() == 13,
        v@[0]@ == "/d3dx.ini"@,
        v@[1]@ == "/d3dcompiler_46.dll"@,
        v@[2]@ == "/d3d11.dll"@,
        v@[3]@ == "/ShaderFixes/0a2c2125f4a421a5-vs_replace.txt"@,
        v@[4]@ == "/ShaderFixes/3dvision2sbs_sli_downscale_pass1.hlsl"@,
        v@[5]@ == "/ShaderFixes/3dvision2sbs_sli_downscale_pass2.hlsl"@,
        v@[6]@ == "/ShaderFixes/3dvision2sbs.hlsl"@,
        v@[7]@ == "/ShaderFixes/3dvision2sbs.ini"@,
        v@[8]@ == "/ShaderFixes/dc88834b3469cba8-vs_replace.txt"@,
        v@[9]@ == "/ShaderFixes/mouse.hlsl"@,
        v@[10]@ == "/ShaderFixes/mouse.ini"@,
        v@[11]@ == "/ShaderFixes/upscale.hlsl"@,
        v@[12]@ == "/ShaderFixes/upscale.ini"@,
{
    let mut v: Vec<String> = Vec::new();
    v.push("/d3dx.ini".to_owned());
    v.push("/d3dcompiler_46.dll".to_owned());
    v.push("/d3d11.dll".to_owned());
    v.push("/ShaderFixes/0a2c2125f4a421a5-vs_replace.txt".to_owned());
    v.push("/ShaderFixes/3dvision2sbs_sli_downscale_pass1.hlsl".to_owned());
    v.push("/ShaderFixes/3dvision2sbs_sli_downscale_pass2.hlsl".to_owned());
    v.push("/ShaderFixes/3dvision2sbs.hlsl".to_owned());
    v.push("/ShaderFixes/3dvision2sbs.ini".to_owned());
    v.push("/ShaderFixes/dc88834b3469cba8-vs_replace.txt".to_owned());
    v.push("/ShaderFixes/mouse.hlsl".to_owned());
    v.push("/ShaderFixes/mouse.ini".to_owned());
    v.push("/ShaderFixes/upscale.hlsl".to_owned());
    v.push("/ShaderFixes/upscale.ini".to_owned());
    v
}

/// The URL a relative path is fetched from: the base URL with the path
/// appended.
pub fn download_url(file: &str) -> (s: String)
    ensures
        s@ == ui_patch_source_spec() + file@,
{
    ui_patch_source().concat(file)
}

/// The subdirectory of the game directory that must exist before the files
/// are written.
pub fn shader_fixes_dir_name() -> (s: String)
    ensures
        s@ == "ShaderFixes"@,
{
    "ShaderFixes".to_owned()
}

} // verus!
