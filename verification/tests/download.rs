use ultrawide_patcher::download::{
    download_url, shader_fixes_dir_name, ui_patch_files, ui_patch_source,
};

const SOURCE: &str =
    "https://raw.githubusercontent.com/PineappleIOnic/Nier-Replicant-Ultrawide-Patcher/main/UIPatch";

#[test]
fn source_url() {
    assert_eq!(ui_patch_source(), SOURCE);
}

#[test]
fn the_thirteen_files_in_order() {
    let files = ui_patch_files();
    let expected = vec![
        "/d3dx.ini",
        "/d3dcompiler_46.dll",
        "/d3d11.dll",
        "/ShaderFixes/0a2c2125f4a421a5-vs_replace.txt",
        "/ShaderFixes/3dvision2sbs_sli_downscale_pass1.hlsl",
        "/ShaderFixes/3dvision2sbs_sli_downscale_pass2.hlsl",
        "/ShaderFixes/3dvision2sbs.hlsl",
        "/ShaderFixes/3dvision2sbs.ini",
        "/ShaderFixes/dc88834b3469cba8-vs_replace.txt",
        "/ShaderFixes/mouse.hlsl",
        "/ShaderFixes/mouse.ini",
        "/ShaderFixes/upscale.hlsl",
        "/ShaderFixes/upscale.ini",
    ];
    assert_eq!(files.len(), expected.len());
    for i in 0..expected.len() {
        assert_eq!(files[i], expected[i]);
    }
}

#[test]
fn url_is_source_plus_relative_path() {
    assert_eq!(
        download_url("/d3dx.ini"),
        format!("{}{}", SOURCE, "/d3dx.ini")
    );
    assert_eq!(download_url(""), SOURCE);
}

#[test]
fn shader_fixes_directory() {
    assert_eq!(shader_fixes_dir_name(), "ShaderFixes");
}
