//! The fixed table of display ratios and the byte patterns they patch.
//!
//! The engine stores its ratio and viewport constants as 32-bit floats; this
//! crate never computes with them, it only writes their little-endian bit
//! patterns, so a ratio carries those four-byte encodings as plain bytes.

use vstd::prelude::*;
use crate::patch;

verus! {

/// A selectable display ratio: a label, the float bit pattern written over
/// the engine's hard-coded aspect-ratio constant, and the encodings of the
/// ratio's two components used for the viewport block.
pub struct EngineRatio {
    /// Human-readable label offered at selection.
    pub name: String,
    /// Little-endian bit pattern of the new aspect-ratio float.
    pub hex: Vec<u8>,
    /// Little-endian bit pattern of the width component as a 32-bit float.
    pub width_le: Vec<u8>,
    /// Little-endian bit pattern of the height component as a 32-bit float.
    pub height_le: Vec<u8>,
}

impl EngineRatio {
    /// Each byte encoding is exactly four bytes long.
    pub open spec fn wf(self) -> bool {
        &&& self.hex@.len() == 4
        &&& self.width_le@.len() == 4
        &&& self.height_le@.len() == 4
    }
}

/// Bit pattern of 1.7777778 (16:9), the aspect-ratio constant the engine ships with.
pub open spec fn aspect_pattern_spec() -> Seq<u8> {
    seq![0x39u8, 0x8e, 0xe3, 0x3f]
}

/// The viewport block the engine ships with: the floats 9.0, 13.0, 16.0, 0.0.
pub open spec fn position_pattern_spec() -> Seq<u8> {
    seq![
        0x00u8, 0x00, 0x10, 0x41,
        0x00, 0x00, 0x50, 0x41,
        0x00, 0x00, 0x80, 0x41,
        0x00, 0x00, 0x00, 0x00,
    ]
}

/// The viewport block for a chosen ratio: its width encoding, the middle
/// float unchanged, its height encoding, and the trailing zero float.
pub open spec fn position_replacement_spec(r: EngineRatio) -> Seq<u8> {
    r.width_le@ + seq![0x00u8, 0x00, 0x50, 0x41] + r.height_le@ + seq![0x00u8, 0x00, 0x00, 0x00]
}

/// Bit pattern of 21.0 as a 32-bit float, little-endian.
pub open spec fn le_21() -> Seq<u8> {
    seq![0x00u8, 0x00, 0xa8, 0x41]
}

/// Bit pattern of 9.0 as a 32-bit float, little-endian.
pub open spec fn le_9() -> Seq<u8> {
    seq![0x00u8, 0x00, 0x10, 0x41]
}

/// Bit pattern of 32.0 as a 32-bit float, little-endian.
pub open spec fn le_32() -> Seq<u8> {
    seq![0x00u8, 0x00, 0x00, 0x42]
}

/// Bit pattern of 10.0 as a 32-bit float, little-endian.
pub open spec fn le_10() -> Seq<u8> {
    seq![0x00u8, 0x00, 0x20, 0x41]
}

/// A four-byte vector from its bytes.
fn four(b0: u8, b1: u8, b2: u8, b3: u8) -> (v: Vec<u8>)
    ensures
        v@ == seq![b0, b1, b2, b3],
{
    let mut v: Vec<u8> = Vec::new();
    v.push(b0);
    v.push(b1);
    v.push(b2);
    v.push(b3);
    proof {
        assert(v@ =~= seq![b0, b1, b2, b3]);
    }
    v
}

/// The aspect-ratio constant the engine ships with, as a buffer to scan for.
pub fn aspect_pattern() -> (v: Vec<u8>)
    ensures
        v@ == aspect_pattern_spec(),
{
    four(0x39, 0x8e, 0xe3, 0x3f)
}

/// The viewport block the engine ships with, as a buffer to scan for.
pub fn position_pattern() -> (v: Vec<u8>)
    ensures
        v@ == position_pattern_spec(),
{
    let mut v = four(0x00, 0x00, 0x10, 0x41);
    let mut rest = four(0x00, 0x00, 0x50, 0x41);
    v.append(&mut rest);
    let mut rest = four(0x00, 0x00, 0x80, 0x41);
    v.append(&mut rest);
    let mut rest = four(0x00, 0x00, 0x00, 0x00);
    v.append(&mut rest);
    proof {
        assert(v@ =~= position_pattern_spec());
    }
    v
}

/// The viewport block for the chosen ratio.
pub fn position_replacement(r: &EngineRatio) -> (v: Vec<u8>)
    requires
        r.wf(),
    ensures
        v@ == position_replacement_spec(*r),
        v@.len() == 16,
{
    let mut v: Vec<u8> = Vec::new();
    v.push(r.width_le[0]);
    v.push(r.width_le[1]);
    v.push(r.width_le[2]);
    v.push(r.width_le[3]);
    v.push(0x00);
    v.push(0x00);
    v.push(0x50);
    v.push(0x41);
    v.push(r.height_le[0]);
    v.push(r.height_le[1]);
    v.push(r.height_le[2]);
    v.push(r.height_le[3]);
    v.push(0x00);
    v.push(0x00);
    v.push(0x00);
    v.push(0x00);
    proof {
        assert(v@ =~= position_replacement_spec(*r));
    }
    v
}

/// One table entry.
fn entry(name: &str, hex: Vec<u8>, width_le: Vec<u8>, height_le: Vec<u8>) -> (r: EngineRatio)
    ensures
        r.name@ == name@,
        r.hex@ == hex@,
        r.width_le@ == width_le@,
        r.height_le@ == height_le@,
{
    EngineRatio { name: name.to_owned(), hex, width_le, height_le }
}

/// The fixed table of ratios offered for selection, in display order.
pub fn common_ratios() -> (v: Vec<EngineRatio>)
    ensures
        v@.len() == 5,
        forall|k: int| 0 <= k < 5 ==> (#[trigger] v@[k]).wf(),
        v@[0].name@ == "21:9 (2560x1080)"@,
        v@[0].hex@ == seq![0x26u8, 0xb4, 0x17, 0x40],
        v@[0].width_le@ == le_9() && v@[0].height_le@ == le_21(),
        v@[1].name@ == "21:9 (3440x1440)"@,
        v@[1].hex@ == seq![0x8eu8, 0xe3, 0x18, 0x40],
        v@[1].width_le@ == le_9() && v@[1].height_le@ == le_21(),
        v@[2].name@ == "21:9 (3840x1600)"@,
        v@[2].hex@ == seq![0x9au8, 0x99, 0x19, 0x40],
        v@[2].width_le@ == le_9() && v@[2].height_le@ == le_21(),
        v@[3].name@ == "32:10"@,
        v@[3].hex@ == seq![0xcdu8, 0xcc, 0x4c, 0x40],
        v@[3].width_le@ == le_10() && v@[3].height_le@ == le_32(),
        v@[4].name@ == "32:9"@,
        v@[4].hex@ == seq![0x39u8, 0x8e, 0x63, 0x40],
        v@[4].width_le@ == le_9() && v@[4].height_le@ == le_32(),
{
    let mut v: Vec<EngineRatio> = Vec::new();
    v.push(entry(
        "21:9 (2560x1080)",
        four(0x26, 0xb4, 0x17, 0x40),
        four(0x00, 0x00, 0x10, 0x41),
        four(0x00, 0x00, 0xa8, 0x41),
    ));
    v.push(entry(
        "21:9 (3440x1440)",
        four(0x8e, 0xe3, 0x18, 0x40),
        four(0x00, 0x00, 0x10, 0x41),
        four(0x00, 0x00, 0xa8, 0x41),
    ));
    v.push(entry(
        "21:9 (3840x1600)",
        four(0x9a, 0x99, 0x19, 0x40),
        four(0x00, 0x00, 0x10, 0x41),
        four(0x00, 0x00, 0xa8, 0x41),
    ));
    v.push(entry(
        "32:10",
        four(0xcd, 0xcc, 0x4c, 0x40),
        four(0x00, 0x00, 0x20, 0x41),
        four(0x00, 0x00, 0x00, 0x42),
    ));
    v.push(entry(
        "32:9",
        four(0x39, 0x8e, 0x63, 0x40),
        four(0x00, 0x00, 0x10, 0x41),
        four(0x00, 0x00, 0x00, 0x42),
    ));
    v
}

/// The labels of the table entries, in the same order.
pub fn ratio_names(ratios: &Vec<EngineRatio>) -> (names: Vec<String>)
    ensures
        names@.len() == ratios@.len(),
        forall|k: int| 0 <= k < ratios@.len() ==> (#[trigger] names@[k])@ == ratios@[k].name@,
{
    let mut names: Vec<String> = Vec::new();
    let mut i: usize = 0;
    while i < ratios.len()
        invariant
            i <= ratios@.len(),
            names@.len() == i,
            forall|k: int| 0 <= k < i ==> (#[trigger] names@[k])@ == ratios@[k].name@,
        decreases ratios@.len() - i,
    {
        names.push(ratios[i].name.clone());
        i += 1;
    }
    names
}

/// Overwrite every occurrence of the engine's aspect-ratio constant in the
/// executable image with the chosen ratio's bit pattern.
pub fn patch_aspect_ratio(buf: &mut Vec<u8>, ratio: &EngineRatio)
    requires
        ratio.wf(),
    ensures
        final(buf)@ == patch::scan_replace(old(buf)@, aspect_pattern_spec(), ratio.hex@),
        final(buf)@.len() == old(buf)@.len(),
{
    let pat = aspect_pattern();
    patch::replace_pattern(buf, pat.as_slice(), ratio.hex.as_slice());
}

/// Overwrite every occurrence of the engine's viewport block in the
/// executable image with the block for the chosen ratio.
pub fn correct_position(buf: &mut Vec<u8>, ratio: &EngineRatio)
    requires
        ratio.wf(),
    ensures
        final(buf)@ == patch::scan_replace(
            old(buf)@,
            position_pattern_spec(),
            position_replacement_spec(*ratio),
        ),
        final(buf)@.len() == old(buf)@.len(),
{
    let pat = position_pattern();
    let rep = position_replacement(ratio);
    patch::replace_pattern(buf, pat.as_slice(), rep.as_slice());
}

} // verus!
