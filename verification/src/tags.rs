//! The 4-byte names of records and fields.

use vstd::prelude::*;

verus! {

/// `DELE`
pub const DELE: [u8; 4] = [68, 69, 76, 69];

/// `NAME`
pub const NAME: [u8; 4] = [78, 65, 77, 69];

/// `FNAM`
pub const FNAM: [u8; 4] = [70, 78, 65, 77];

/// `DESC`
pub const DESC: [u8; 4] = [68, 69, 83, 67];

/// `CLDT`
pub const CLDT: [u8; 4] = [67, 76, 68, 84];

/// `SPDT`
pub const SPDT: [u8; 4] = [83, 80, 68, 84];

/// `ENAM`
pub const ENAM: [u8; 4] = [69, 78, 65, 77];

/// `NPCS`
pub const NPCS: [u8; 4] = [78, 80, 67, 83];

/// `TNAM`
pub const TNAM: [u8; 4] = [84, 78, 65, 77];

/// `ENDT`
pub const ENDT: [u8; 4] = [69, 78, 68, 84];

/// `MODL`
pub const MODL: [u8; 4] = [77, 79, 68, 76];

/// `MCDT`
pub const MCDT: [u8; 4] = [77, 67, 68, 84];

/// `SCRI`
pub const SCRI: [u8; 4] = [83, 67, 82, 73];

/// `ITEX`
pub const ITEX: [u8; 4] = [73, 84, 69, 88];

/// `STRV`
pub const STRV: [u8; 4] = [83, 84, 82, 86];

/// `FLTV`
pub const FLTV: [u8; 4] = [70, 76, 84, 86];

/// `INTV`
pub const INTV: [u8; 4] = [73, 78, 84, 86];

/// `GMST`
pub const GMST: [u8; 4] = [71, 77, 83, 84];

/// `WEAP`
pub const WEAP: [u8; 4] = [87, 69, 65, 80];

/// `CELL`
pub const CELL: [u8; 4] = [67, 69, 76, 76];

/// `DIAL`
pub const DIAL: [u8; 4] = [68, 73, 65, 76];

/// `MGEF`
pub const MGEF: [u8; 4] = [77, 71, 69, 70];

/// `INFO`
pub const INFO: [u8; 4] = [73, 78, 70, 79];

/// `LAND`
pub const LAND: [u8; 4] = [76, 65, 78, 68];

/// `PGRD`
pub const PGRD: [u8; 4] = [80, 71, 82, 68];

/// `SCPT`
pub const SCPT: [u8; 4] = [83, 67, 80, 84];

/// `SKIL`
pub const SKIL: [u8; 4] = [83, 75, 73, 76];

/// `SSCR`
pub const SSCR: [u8; 4] = [83, 83, 67, 82];

/// `TES3`
pub const TES3: [u8; 4] = [84, 69, 83, 51];

/// `HEDR`
pub const HEDR: [u8; 4] = [72, 69, 68, 82];

/// `MAST`
pub const MAST: [u8; 4] = [77, 65, 83, 84];

/// `DATA`
pub const DATA: [u8; 4] = [68, 65, 84, 65];

/// `GMDT`
pub const GMDT: [u8; 4] = [71, 77, 68, 84];

/// `SCRD`
pub const SCRD: [u8; 4] = [83, 67, 82, 68];

/// `SCRS`
pub const SCRS: [u8; 4] = [83, 67, 82, 83];

/// `CLAS`
pub const CLAS: [u8; 4] = [67, 76, 65, 83];

/// `SPEL`
pub const SPEL: [u8; 4] = [83, 80, 69, 76];

/// `BSGN`
pub const BSGN: [u8; 4] = [66, 83, 71, 78];

/// `ENCH`
pub const ENCH: [u8; 4] = [69, 78, 67, 72];

/// `MISC`
pub const MISC: [u8; 4] = [77, 73, 83, 67];

/// `EFID`
pub const EFID: [u8; 4] = [69, 70, 73, 68];

/// `EFIT`
pub const EFIT: [u8; 4] = [69, 70, 73, 84];

/// `SCIT`
pub const SCIT: [u8; 4] = [83, 67, 73, 84];

/// `FULL`
pub const FULL: [u8; 4] = [70, 85, 76, 76];

/// `ACDT`
pub const ACDT: [u8; 4] = [65, 67, 68, 84];

/// `CHRD`
pub const CHRD: [u8; 4] = [67, 72, 82, 68];

/// `REFR`
pub const REFR: [u8; 4] = [82, 69, 70, 82];

/// `PCDT`
pub const PCDT: [u8; 4] = [80, 67, 68, 84];

/// `DNAM`
pub const DNAM: [u8; 4] = [68, 78, 65, 77];

/// `MNAM`
pub const MNAM: [u8; 4] = [77, 78, 65, 77];

/// `PNAM`
pub const PNAM: [u8; 4] = [80, 78, 65, 77];

/// `SNAM`
pub const SNAM: [u8; 4] = [83, 78, 65, 77];

/// `NAM9`
pub const NAM9: [u8; 4] = [78, 65, 77, 57];

/// `RNAM`
pub const RNAM: [u8; 4] = [82, 78, 65, 77];

/// `CNAM`
pub const CNAM: [u8; 4] = [67, 78, 65, 77];

/// `BNAM`
pub const BNAM: [u8; 4] = [66, 78, 65, 77];

/// `NAM0`
pub const NAM0: [u8; 4] = [78, 65, 77, 48];

/// `NAM1`
pub const NAM1: [u8; 4] = [78, 65, 77, 49];

/// `NAM2`
pub const NAM2: [u8; 4] = [78, 65, 77, 50];

/// `NAM3`
pub const NAM3: [u8; 4] = [78, 65, 77, 51];

/// `LNAM`
pub const LNAM: [u8; 4] = [76, 78, 65, 77];

/// `AADT`
pub const AADT: [u8; 4] = [65, 65, 68, 84];

/// `KNAM`
pub const KNAM: [u8; 4] = [75, 78, 65, 77];

/// `ANIS`
pub const ANIS: [u8; 4] = [65, 78, 73, 83];

/// `WERE`
pub const WERE: [u8; 4] = [87, 69, 82, 69];

/// `XNAM`
pub const XNAM: [u8; 4] = [88, 78, 65, 77];

/// `NPDT`
pub const NPDT: [u8; 4] = [78, 80, 68, 84];

/// `INAM`
pub const INAM: [u8; 4] = [73, 78, 65, 77];

/// `VNAM`
pub const VNAM: [u8; 4] = [86, 78, 65, 77];

/// `SPLM`
pub const SPLM: [u8; 4] = [83, 80, 76, 77];

/// `NPCC`
pub const NPCC: [u8; 4] = [78, 80, 67, 67];

/// `NPCO`
pub const NPCO: [u8; 4] = [78, 80, 67, 79];

/// `XIDX`
pub const XIDX: [u8; 4] = [88, 73, 68, 88];

/// `SLCS`
pub const SLCS: [u8; 4] = [83, 76, 67, 83];

/// `SLSD`
pub const SLSD: [u8; 4] = [83, 76, 83, 68];

/// `SLLD`
pub const SLLD: [u8; 4] = [83, 76, 76, 68];

/// `SLFD`
pub const SLFD: [u8; 4] = [83, 76, 70, 68];

/// `XSOL`
pub const XSOL: [u8; 4] = [88, 83, 79, 76];

/// `XCHG`
pub const XCHG: [u8; 4] = [88, 67, 72, 71];

/// `XHLT`
pub const XHLT: [u8; 4] = [88, 72, 76, 84];

/// `AI_A`
pub const AI_A: [u8; 4] = [65, 73, 95, 65];

/// `AI_E`
pub const AI_E: [u8; 4] = [65, 73, 95, 69];

/// `AI_F`
pub const AI_F: [u8; 4] = [65, 73, 95, 70];

/// `AI_T`
pub const AI_T: [u8; 4] = [65, 73, 95, 84];

/// `AI_W`
pub const AI_W: [u8; 4] = [65, 73, 95, 87];

/// `CNDT`
pub const CNDT: [u8; 4] = [67, 78, 68, 84];

/// `WIDX`
pub const WIDX: [u8; 4] = [87, 73, 68, 88];

/// `AIDT`
pub const AIDT: [u8; 4] = [65, 73, 68, 84];

/// `DODT`
pub const DODT: [u8; 4] = [68, 79, 68, 84];

/// `ANAM`
pub const ANAM: [u8; 4] = [65, 78, 65, 77];

/// `FLAG`
pub const FLAG: [u8; 4] = [70, 76, 65, 71];

/// `XSCL`
pub const XSCL: [u8; 4] = [88, 83, 67, 76];

/// `NPC_`
pub const NPC_: [u8; 4] = [78, 80, 67, 95];

/// `CREA`
pub const CREA: [u8; 4] = [67, 82, 69, 65];

/// `BOOK`
pub const BOOK: [u8; 4] = [66, 79, 79, 75];

/// `ALCH`
pub const ALCH: [u8; 4] = [65, 76, 67, 72];

/// `RACE`
pub const RACE: [u8; 4] = [82, 65, 67, 69];

/// `BKDT`
pub const BKDT: [u8; 4] = [66, 75, 68, 84];

/// `ALDT`
pub const ALDT: [u8; 4] = [65, 76, 68, 84];

/// `RADT`
pub const RADT: [u8; 4] = [82, 65, 68, 84];

/// `WPDT`
pub const WPDT: [u8; 4] = [87, 80, 68, 84];

/// `TEXT`
pub const TEXT: [u8; 4] = [84, 69, 88, 84];

/// Compares two names.
pub fn same_tag(a: &[u8; 4], b: &[u8; 4]) -> (r: bool)
    ensures
        r == (a@ == b@),
{
    let r = a[0] == b[0] && a[1] == b[1] && a[2] == b[2] && a[3] == b[3];
    proof {
        if r {
            assert(a@ =~= b@);
        }
    }
    r
}

/// Compares a name held in a slice with a name.
pub fn slice_is_tag(a: &[u8], b: &[u8; 4]) -> (r: bool)
    ensures
        r == (a@ == b@),
{
    if a.len() != 4 {
        return false;
    }
    let r = a[0] == b[0] && a[1] == b[1] && a[2] == b[2] && a[3] == b[3];
    proof {
        if r {
            assert(a@ =~= b@);
        }
    }
    r
}

} // verus!
