//! The PRG-ROM image of an iNES cartridge file.
use vstd::prelude::*;

verus! {

/// Size of the iNES header.
pub const HEADER_LEN: usize = 16;

/// Size of the optional trainer that follows the header.
pub const TRAINER_LEN: usize = 512;

/// Whether `b` starts with the iNES magic `NES\x1A`.
pub open spec fn has_magic(b: Seq<u8>) -> bool {
    b.len() >= HEADER_LEN && b[0] == 0x4E && b[1] == 0x45 && b[2] == 0x53 && b[3] == 0x1A
}

/// Where PRG-ROM starts: after the header and the trainer, if flag 6 says
/// there is one.
pub open spec fn prg_start(b: Seq<u8>) -> int {
    HEADER_LEN + (if b[6] & 0x04 != 0 {
        TRAINER_LEN as int
    } else {
        0
    })
}

/// The PRG-ROM of an iNES image with one or two 16 KiB banks, or `None`
/// when the magic is missing, the bank count is another, or the file is
/// too short.
pub open spec fn ines_prg(b: Seq<u8>) -> Option<Seq<u8>> {
    if has_magic(b) && (b[4] == 1 || b[4] == 2) && prg_start(b) + b[4] * 0x4000 <= b.len() {
        Some(b.subrange(prg_start(b), prg_start(b) + b[4] * 0x4000))
    } else {
        None
    }
}

/// Cuts the PRG-ROM out of an iNES file.
pub fn prg_from_ines(bytes: &Vec<u8>) -> (r: Option<Vec<u8>>)
    ensures
        r.is_some() == ines_prg(bytes@).is_some(),
        r.is_some() ==> r.unwrap()@ == ines_prg(bytes@).unwrap(),
        r.is_some() ==> r.unwrap().len() == 0x4000 || r.unwrap().len() == 0x8000,
{
    if bytes.len() < HEADER_LEN || bytes[0] != 0x4E || bytes[1] != 0x45 || bytes[2] != 0x53
        || bytes[3] != 0x1A {
        return None;
    }
    let banks = bytes[4];
    if banks != 1 && banks != 2 {
        return None;
    }
    let start: usize = if bytes[6] & 0x04 != 0 {
        HEADER_LEN + TRAINER_LEN
    } else {
        HEADER_LEN
    };
    let size: usize = banks as usize * 0x4000;
    if start > bytes.len() || size > bytes.len() - start {
        return None;
    }
    let mut prg: Vec<u8> = Vec::new();
    let mut i: usize = 0;
    while i < size
        invariant
            i <= size,
            start + size <= bytes.len(),
            prg@ == bytes@.subrange(start as int, start + i),
        decreases size - i,
    {
        prg.push(bytes[start + i]);
        i = i + 1;
        assert(prg@ =~= bytes@.subrange(start as int, start + i));
    }
    Some(prg)
}

} // verus!
