//! Where the game may be installed: the fixed list of places to probe, the
//! file names involved, and the pick of the first place that exists.

use vstd::prelude::*;
use vstd::string::StringExecFns;

verus! {

/// A place the game may be installed at.
pub struct Candidate {
    /// The file whose existence is probed.
    pub probe: String,
    /// The directory reported as the install location when the probe hits.
    pub dir: String,
}

/// The game executable's file name.
pub open spec fn exe_name_spec() -> Seq<char> {
    "NieR Replicant ver.1.22474487139.exe"@
}

/// The game executable's file name.
pub fn exe_file_name() -> (s: String)
    ensures
        s@ == exe_name_spec(),
{
    "NieR Replicant ver.1.22474487139.exe".to_owned()
}

/// The name the backup copy of the executable is kept under.
pub fn backup_file_name() -> (s: String)
    ensures
        s@ == "NieR Replicant ver.1.22474487139.exe.bak"@,
{
    "NieR Replicant ver.1.22474487139.exe.bak".to_owned()
}

/// One candidate from its two paths.
fn candidate(probe: String, dir: String) -> (c: Candidate)
    ensures
        c.probe@ == probe@,
        c.dir@ == dir@,
{
    Candidate { probe, dir }
}

/// The places probed for the game, in order: the working directory, the
/// Steam library on Windows, on macOS, and the two usual Steam libraries
/// under the given home directory.
pub fn candidate_locations(home_dir: &str) -> (v: Vec<Candidate>)
    ensures
        v@.len() == 5,
        v@[0].probe@ == exe_name_spec(),
        v@[0].dir@ == "./"@,
        v@[1].probe@
            == "C:/Program Files (x86)/Steam/steamapps/common/NieR Replicant ver.1.22474487139/NieR Replicant ver.1.22474487139.exe"@,
        v@[1].dir@
            == "C:/Program Files (x86)/Steam/steamapps/common/NieR Replicant ver.1.22474487139/"@,
        v@[2].probe@
            == "~/Library/Application Support/Steam/steamapps/common/NieR Replicant ver.1.22474487139/NieR Replicant ver.1.22474487139.exe"@,
        v@[2].dir@ == "/Applications/Steam/steamapps/common/NieR Replicant ver.1.22474487139/"@,
        v@[3].probe@ == home_dir@
            + "/.steam/steam/steamapps/common/NieR Replicant ver.1.22474487139/NieR Replicant ver.1.22474487139.exe"@,
        v@[3].dir@ == home_dir@
            + "/.steam/steam/steamapps/common/NieR Replicant ver.1.22474487139/"@,
        v@[4].probe@ == home_dir@
            + "/.local/share/Steam/steamapps/common/NieR Replicant ver.1.22474487139/NieR Replicant ver.1.22474487139.exe"@,
        v@[4].dir@ == home_dir@
            + "/.local/share/Steam/steamapps/common/NieR Replicant ver.1.22474487139/"@,
{
    let mut v: Vec<Candidate> = Vec::new();
    v.push(candidate(exe_file_name(), "./".to_owned()));
    v.push(candidate(
        "C:/Program Files (x86)/Steam/steamapps/common/NieR Replicant ver.1.22474487139/NieR Replicant ver.1.22474487139.exe".to_owned(),
        "C:/Program Files (x86)/Steam/steamapps/common/NieR Replicant ver.1.22474487139/".to_owned(),
    ));
    v.push(candidate(
        "~/Library/Application Support/Steam/steamapps/common/NieR Replicant ver.1.22474487139/NieR Replicant ver.1.22474487139.exe".to_owned(),
        "/Applications/Steam/steamapps/common/NieR Replicant ver.1.22474487139/".to_owned(),
    ));
    v.push(candidate(
        home_dir.to_owned().concat(
            "/.steam/steam/steamapps/common/NieR Replicant ver.1.22474487139/NieR Replicant ver.1.22474487139.exe",
        ),
        home_dir.to_owned().concat(
            "/.steam/steam/steamapps/common/NieR Replicant ver.1.22474487139/",
        ),
    ));
    v.push(candidate(
        home_dir.to_owned().concat(
            "/.local/share/Steam/steamapps/common/NieR Replicant ver.1.22474487139/NieR Replicant ver.1.22474487139.exe",
        ),
        home_dir.to_owned().concat(
            "/.local/share/Steam/steamapps/common/NieR Replicant ver.1.22474487139/",
        ),
    ));
    v
}

/// The index of the first place whose probe hit, if any did.
pub fn first_existing(exists: &Vec<bool>) -> (r: Option<usize>)
    ensures
        match r {
            Some(i) => {
                &&& i < exists@.len()
                &&& exists@[i as int]
                &&& forall|k: int| 0 <= k < i ==> !exists@[k]
            },
            None => forall|k: int| 0 <= k < exists@.len() ==> !exists@[k],
        },
{
    let mut i: usize = 0;
    while i < exists.len()
        invariant
            i <= exists@.len(),
            forall|k: int| 0 <= k < i ==> !exists@[k],
        decreases exists@.len() - i,
    {
        if exists[i] {
            return Some(i);
        }
        i += 1;
    }
    None
}

} // verus!
