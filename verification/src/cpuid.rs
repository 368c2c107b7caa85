//! CPU identification: parses exposed CPU identity text (colon-delimited
//! key:value lines) into a (family, model, stepping) triple, requires the
//! GenuineIntel vendor, and maps the triple to a known microarchitecture
//! name.  Unknown or unsupported silicon is a hard product boundary:
//! register layouts are architecture-specific.

use crate::error::{ControlError, FatalReason};
use crate::textscan::{
    all_digits, dec_val, find_from, find_in, lemma_dec_val_nonneg, line_value, parse_u8_dec,
    range_eq, spec_line_value,
};
use vstd::prelude::*;
use vstd::string::StringSliceAdditionalSpecFns;

verus! {

/// A CPU identity triple, used only as a lookup key.
#[derive(Clone, Copy, Debug, Hash, PartialEq, Eq, Structural)]
pub struct CpuId {
    pub family: u8,
    pub model: u8,
    pub stepping: u8,
}

/// The trimmed value of the first line whose trimmed key (the text
/// before the first colon) equals `key`, if any line has one.
pub open spec fn spec_field(t: Seq<u8>, key: Seq<u8>) -> Option<Seq<u8>>
    decreases t.len(),
{
    if t.len() == 0 {
        None
    } else {
        let e = match find_from(t, 10u8) {
            Some(i) => i,
            None => t.len() as int,
        };
        if 0 <= e < t.len() {
            let matched = spec_line_value(t.subrange(0, e), key);
            if matched is Some {
                matched
            } else {
                spec_field(t.subrange(e + 1, t.len() as int), key)
            }
        } else {
            spec_line_value(t, key)
        }
    }
}

/// Finds a key's trimmed value in colon-delimited key:value text,
/// returning the value's bounds within the text.
pub fn find_field(s: &[u8], key: &[u8]) -> (r: Option<(usize, usize)>)
    ensures
        match r {
            Some(b) => b.0 <= b.1 <= s@.len() && spec_field(s@, key@) == Some(
                s@.subrange(b.0 as int, b.1 as int),
            ),
            None => spec_field(s@, key@) is None,
        },
{
    proof {
        assert(s@.subrange(0, s@.len() as int) =~= s@);
    }
    let mut ls: usize = 0;
    while ls < s.len()
        invariant
            ls <= s@.len(),
            spec_field(s@, key@) == spec_field(s@.subrange(ls as int, s@.len() as int), key@),
        decreases s@.len() - ls,
    {
        let ghost t = s@.subrange(ls as int, s@.len() as int);
        let le = match find_in(s, ls, s.len(), 10u8) {
            Some(i) => i,
            None => s.len(),
        };
        proof {
            assert(t.subrange(0, le - ls) =~= s@.subrange(ls as int, le as int));
            if le < s.len() {
                assert(t.subrange(le - ls + 1, t.len() as int) =~= s@.subrange(
                    le + 1,
                    s@.len() as int,
                ));
            }
        }
        match line_value(s, ls, le, key) {
            Some(b) => {
                return Some(b);
            },
            None => {},
        }
        if le < s.len() {
            ls = le + 1;
        } else {
            ls = s.len();
            proof {
                assert(s@.subrange(ls as int, s@.len() as int).len() == 0);
            }
        }
    }
    proof {
        assert(s@.subrange(ls as int, s@.len() as int).len() == 0);
    }
    None
}

/// What checking the CPU identity text yields: the vendor must be
/// GenuineIntel (else fatal), and family, model and stepping must be
/// present unsigned decimal fields (else fatal), first occurrence of
/// each key winning.
pub open spec fn spec_check_cpu(t: Seq<u8>) -> Result<CpuId, ControlError> {
    if spec_field(t, "vendor_id".spec_bytes()) != Some("GenuineIntel".spec_bytes()) {
        Err(ControlError::Fatal(FatalReason::NotIntel))
    } else {
        match (
            spec_parse_field(t, "cpu family".spec_bytes()),
            spec_parse_field(t, "model".spec_bytes()),
            spec_parse_field(t, "stepping".spec_bytes()),
        ) {
            (Some(f), Some(m), Some(s)) => Ok(CpuId { family: f, model: m, stepping: s }),
            _ => Err(ControlError::Fatal(FatalReason::UnidentifiedCpu)),
        }
    }
}

/// A key's value as an unsigned decimal byte, if present and parsable.
pub open spec fn spec_parse_field(t: Seq<u8>, key: Seq<u8>) -> Option<u8> {
    match spec_field(t, key) {
        Some(d) => if d.len() > 0 && all_digits(d) && 0 <= dec_val(d) <= 255 {
            Some(dec_val(d) as u8)
        } else {
            None
        },
        None => None,
    }
}

/// Parses and validates CPU identity text.
pub fn check_cpu(text: &[u8]) -> (r: Result<CpuId, ControlError>)
    ensures
        r == spec_check_cpu(text@),
{
    let vendor_ok = match find_field(text, "vendor_id".as_bytes()) {
        Some(b) => range_eq(text, b.0, b.1, "GenuineIntel".as_bytes()),
        None => false,
    };
    if !vendor_ok {
        return Err(ControlError::Fatal(FatalReason::NotIntel));
    }
    let family = parse_field(text, "cpu family".as_bytes());
    let model = parse_field(text, "model".as_bytes());
    let stepping = parse_field(text, "stepping".as_bytes());
    match (family, model, stepping) {
        (Some(f), Some(m), Some(s)) => Ok(CpuId { family: f, model: m, stepping: s }),
        _ => Err(ControlError::Fatal(FatalReason::UnidentifiedCpu)),
    }
}

/// Executable counterpart of [`spec_parse_field`].
fn parse_field(text: &[u8], key: &[u8]) -> (r: Option<u8>)
    ensures
        r == spec_parse_field(text@, key@),
{
    match find_field(text, key) {
        Some(b) => {
            proof {
                let d = text@.subrange(b.0 as int, b.1 as int);
                if all_digits(d) {
                    lemma_dec_val_nonneg(d);
                }
            }
            parse_u8_dec(text, b.0, b.1)
        },
        None => None,
    }
}


/// The microarchitecture table as a mapping: the display name each
/// identity triple stands for, if any.
pub open spec fn spec_cpu_model_name(id: CpuId) -> Option<Seq<char>> {
    match (id.family, id.model, id.stepping) {
            (6, 26, 1) => Some("Nehalem"@),
            (6, 26, 2) => Some("Nehalem-EP"@),
            (6, 26, 4) => Some("Bloomfield"@),
            (6, 28, 2) => Some("Silverthorne"@),
            (6, 28, 10) => Some("PineView"@),
            (6, 29, 0) => Some("Dunnington-6C"@),
            (6, 29, 1) => Some("Dunnington"@),
            (6, 30, 0) => Some("Lynnfield"@),
            (6, 30, 5) => Some("Lynnfield_CPUID"@),
            (6, 31, 1) => Some("Auburndale"@),
            (6, 37, 2) => Some("Clarkdale"@),
            (6, 38, 1) => Some("TunnelCreek"@),
            (6, 39, 2) => Some("Medfield"@),
            (6, 42, 2) => Some("SandyBridge"@),
            (6, 42, 6) => Some("SandyBridge"@),
            (6, 42, 7) => Some("Sandy Bridge-DT"@),
            (6, 44, 1) => Some("Westmere-EP"@),
            (6, 44, 2) => Some("Gulftown"@),
            (6, 45, 5) => Some("Sandy Bridge-EP"@),
            (6, 45, 6) => Some("Sandy Bridge-E"@),
            (6, 46, 4) => Some("Beckton"@),
            (6, 46, 5) => Some("Beckton"@),
            (6, 46, 6) => Some("Beckton"@),
            (6, 47, 2) => Some("Eagleton"@),
            (6, 53, 1) => Some("Cloverview"@),
            (6, 54, 1) => Some("Cedarview-D"@),
            (6, 54, 9) => Some("Centerton"@),
            (6, 55, 3) => Some("Bay Trail-D"@),
            (6, 55, 8) => Some("Silvermont"@),
            (6, 58, 9) => Some("Ivy Bridge-DT"@),
            (6, 60, 3) => Some("Haswell-DT"@),
            (6, 61, 4) => Some("Broadwell-U"@),
            (6, 62, 3) => Some("IvyBridgeEP"@),
            (6, 62, 4) => Some("Ivy Bridge-E"@),
            (6, 63, 2) => Some("Haswell-EP"@),
            (6, 69, 1) => Some("HaswellULT"@),
            (6, 70, 1) => Some("Crystal Well-DT"@),
            (6, 71, 1) => Some("Broadwell-H"@),
            (6, 76, 3) => Some("Braswell"@),
            (6, 77, 8) => Some("Avoton"@),
            (6, 78, 3) => Some("Skylake"@),
            (6, 79, 1) => Some("BroadwellE"@),
            (6, 85, 4) => Some("SkylakeXeon"@),
            (6, 85, 6) => Some("CascadeLakeSP"@),
            (6, 85, 7) => Some("CascadeLakeXeon2"@),
            (6, 86, 2) => Some("BroadwellDE"@),
            (6, 86, 4) => Some("BroadwellDE"@),
            (6, 87, 0) => Some("KnightsLanding"@),
            (6, 87, 1) => Some("KnightsLanding"@),
            (6, 90, 0) => Some("Moorefield"@),
            (6, 92, 9) => Some("Apollo Lake"@),
            (6, 93, 1) => Some("SoFIA"@),
            (6, 94, 0) => Some("Skylake"@),
            (6, 94, 3) => Some("Skylake-S"@),
            (6, 95, 1) => Some("Denverton"@),
            (6, 102, 3) => Some("Cannon Lake-U"@),
            (6, 117, 10) => Some("Spreadtrum"@),
            (6, 122, 1) => Some("Gemini Lake-D"@),
            (6, 122, 8) => Some("GoldmontPlus"@),
            (6, 126, 5) => Some("IceLakeY"@),
            (6, 138, 1) => Some("Lakefield"@),
            (6, 140, 1) => Some("TigerLake-U"@),
            (6, 140, 2) => Some("TigerLake-U"@),
            (6, 141, 1) => Some("TigerLake-H"@),
            (6, 142, 9) => Some("KabyLake"@),
            (6, 142, 10) => Some("KabyLake"@),
            (6, 142, 11) => Some("WhiskeyLake"@),
            (6, 142, 12) => Some("CometLake-U"@),
            (6, 151, 2) => Some("AlderLake-S/HX"@),
            (6, 151, 5) => Some("AlderLake-S"@),
            (6, 154, 3) => Some("AlderLake-P/H"@),
            (6, 154, 4) => Some("AlderLake-U"@),
            (6, 156, 0) => Some("JasperLake"@),
            (6, 158, 9) => Some("KabyLakeG"@),
            (6, 158, 10) => Some("CoffeeLake"@),
            (6, 158, 11) => Some("CoffeeLake"@),
            (6, 158, 12) => Some("CoffeeLake"@),
            (6, 158, 13) => Some("CoffeeLake"@),
            (6, 165, 2) => Some("CometLake"@),
            (6, 165, 4) => Some("CometLake"@),
            (6, 165, 5) => Some("CometLake-S"@),
            (6, 166, 0) => Some("CometLake"@),
            (6, 167, 1) => Some("RocketLake"@),
            (6, 170, 4) => Some("MeteorLake"@),
            (6, 183, 1) => Some("RaptorLake-HX"@),
            (6, 186, 2) => Some("RaptorLake"@),
            (6, 186, 3) => Some("RaptorLake-U"@),
            (6, 189, 1) => Some("LunarLake"@),
            _ => None,
    }
}

/// Whether the identity triple is in the microarchitecture table.
pub open spec fn spec_cpu_supported(id: CpuId) -> bool {
    spec_cpu_model_name(id) is Some
}

/// The microarchitecture table: maps a CPU identity triple to its
/// display name; read-only, defined once.  No match means the CPU is
/// unsupported, a hard product boundary.
pub fn cpu_model_name(id: CpuId) -> (r: Option<&'static str>)
    ensures
        r is Some <==> spec_cpu_supported(id),
        r matches Some(name) ==> spec_cpu_model_name(id) == Some(name@),
{
    match (id.family, id.model, id.stepping) {
            (6, 26, 1) => Some("Nehalem"),
            (6, 26, 2) => Some("Nehalem-EP"),
            (6, 26, 4) => Some("Bloomfield"),
            (6, 28, 2) => Some("Silverthorne"),
            (6, 28, 10) => Some("PineView"),
            (6, 29, 0) => Some("Dunnington-6C"),
            (6, 29, 1) => Some("Dunnington"),
            (6, 30, 0) => Some("Lynnfield"),
            (6, 30, 5) => Some("Lynnfield_CPUID"),
            (6, 31, 1) => Some("Auburndale"),
            (6, 37, 2) => Some("Clarkdale"),
            (6, 38, 1) => Some("TunnelCreek"),
            (6, 39, 2) => Some("Medfield"),
            (6, 42, 2) => Some("SandyBridge"),
            (6, 42, 6) => Some("SandyBridge"),
            (6, 42, 7) => Some("Sandy Bridge-DT"),
            (6, 44, 1) => Some("Westmere-EP"),
            (6, 44, 2) => Some("Gulftown"),
            (6, 45, 5) => Some("Sandy Bridge-EP"),
            (6, 45, 6) => Some("Sandy Bridge-E"),
            (6, 46, 4) => Some("Beckton"),
            (6, 46, 5) => Some("Beckton"),
            (6, 46, 6) => Some("Beckton"),
            (6, 47, 2) => Some("Eagleton"),
            (6, 53, 1) => Some("Cloverview"),
            (6, 54, 1) => Some("Cedarview-D"),
            (6, 54, 9) => Some("Centerton"),
            (6, 55, 3) => Some("Bay Trail-D"),
            (6, 55, 8) => Some("Silvermont"),
            (6, 58, 9) => Some("Ivy Bridge-DT"),
            (6, 60, 3) => Some("Haswell-DT"),
            (6, 61, 4) => Some("Broadwell-U"),
            (6, 62, 3) => Some("IvyBridgeEP"),
            (6, 62, 4) => Some("Ivy Bridge-E"),
            (6, 63, 2) => Some("Haswell-EP"),
            (6, 69, 1) => Some("HaswellULT"),
            (6, 70, 1) => Some("Crystal Well-DT"),
            (6, 71, 1) => Some("Broadwell-H"),
            (6, 76, 3) => Some("Braswell"),
            (6, 77, 8) => Some("Avoton"),
            (6, 78, 3) => Some("Skylake"),
            (6, 79, 1) => Some("BroadwellE"),
            (6, 85, 4) => Some("SkylakeXeon"),
            (6, 85, 6) => Some("CascadeLakeSP"),
            (6, 85, 7) => Some("CascadeLakeXeon2"),
            (6, 86, 2) => Some("BroadwellDE"),
            (6, 86, 4) => Some("BroadwellDE"),
            (6, 87, 0) => Some("KnightsLanding"),
            (6, 87, 1) => Some("KnightsLanding"),
            (6, 90, 0) => Some("Moorefield"),
            (6, 92, 9) => Some("Apollo Lake"),
            (6, 93, 1) => Some("SoFIA"),
            (6, 94, 0) => Some("Skylake"),
            (6, 94, 3) => Some("Skylake-S"),
            (6, 95, 1) => Some("Denverton"),
            (6, 102, 3) => Some("Cannon Lake-U"),
            (6, 117, 10) => Some("Spreadtrum"),
            (6, 122, 1) => Some("Gemini Lake-D"),
            (6, 122, 8) => Some("GoldmontPlus"),
            (6, 126, 5) => Some("IceLakeY"),
            (6, 138, 1) => Some("Lakefield"),
            (6, 140, 1) => Some("TigerLake-U"),
            (6, 140, 2) => Some("TigerLake-U"),
            (6, 141, 1) => Some("TigerLake-H"),
            (6, 142, 9) => Some("KabyLake"),
            (6, 142, 10) => Some("KabyLake"),
            (6, 142, 11) => Some("WhiskeyLake"),
            (6, 142, 12) => Some("CometLake-U"),
            (6, 151, 2) => Some("AlderLake-S/HX"),
            (6, 151, 5) => Some("AlderLake-S"),
            (6, 154, 3) => Some("AlderLake-P/H"),
            (6, 154, 4) => Some("AlderLake-U"),
            (6, 156, 0) => Some("JasperLake"),
            (6, 158, 9) => Some("KabyLakeG"),
            (6, 158, 10) => Some("CoffeeLake"),
            (6, 158, 11) => Some("CoffeeLake"),
            (6, 158, 12) => Some("CoffeeLake"),
            (6, 158, 13) => Some("CoffeeLake"),
            (6, 165, 2) => Some("CometLake"),
            (6, 165, 4) => Some("CometLake"),
            (6, 165, 5) => Some("CometLake-S"),
            (6, 166, 0) => Some("CometLake"),
            (6, 167, 1) => Some("RocketLake"),
            (6, 170, 4) => Some("MeteorLake"),
            (6, 183, 1) => Some("RaptorLake-HX"),
            (6, 186, 2) => Some("RaptorLake"),
            (6, 186, 3) => Some("RaptorLake-U"),
            (6, 189, 1) => Some("LunarLake"),
            _ => None,
    }
}

} // verus!
