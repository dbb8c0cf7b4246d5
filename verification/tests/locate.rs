use ultrawide_patcher::locate::{
    backup_file_name, candidate_locations, exe_file_name, first_existing,
};

const EXE: &str = "NieR Replicant ver.1.22474487139.exe";

#[test]
fn file_names() {
    assert_eq!(exe_file_name(), EXE);
    assert_eq!(backup_file_name(), format!("{}.bak", EXE));
}

#[test]
fn candidates_in_probe_order() {
    let v = candidate_locations("/home/someone");
    assert_eq!(v.len(), 5);

    assert_eq!(v[0].probe, EXE);
    assert_eq!(v[0].dir, "./");

    assert_eq!(
        v[1].probe,
        format!(
            "C:/Program Files (x86)/Steam/steamapps/common/NieR Replicant ver.1.22474487139/{}",
            EXE
        )
    );
    assert_eq!(
        v[1].dir,
        "C:/Program Files (x86)/Steam/steamapps/common/NieR Replicant ver.1.22474487139/"
    );

    assert_eq!(
        v[2].probe,
        format!(
            "~/Library/Application Support/Steam/steamapps/common/NieR Replicant ver.1.22474487139/{}",
            EXE
        )
    );
    assert_eq!(
        v[2].dir,
        "/Applications/Steam/steamapps/common/NieR Replicant ver.1.22474487139/"
    );

    assert_eq!(
        v[3].probe,
        format!(
            "/home/someone/.steam/steam/steamapps/common/NieR Replicant ver.1.22474487139/{}",
            EXE
        )
    );
    assert_eq!(
        v[3].dir,
        "/home/someone/.steam/steam/steamapps/common/NieR Replicant ver.1.22474487139/"
    );

    assert_eq!(
        v[4].probe,
        format!(
            "/home/someone/.local/share/Steam/steamapps/common/NieR Replicant ver.1.22474487139/{}",
            EXE
        )
    );
    assert_eq!(
        v[4].dir,
        "/home/someone/.local/share/Steam/steamapps/common/NieR Replicant ver.1.22474487139/"
    );
}

#[test]
fn first_existing_picks_the_first_hit() {
    assert_eq!(first_existing(&vec![false, true, true, false]), Some(1));
    assert_eq!(first_existing(&vec![true, false]), Some(0));
    assert_eq!(first_existing(&vec![false, false, false]), None);
    assert_eq!(first_existing(&Vec::new()), None);
}
