pub mod ata_identify_fid;
pub mod innogrit;
pub mod jm_sata;
pub mod marvell;
pub mod maxio;
pub mod phison;
pub mod rtl;
pub mod rtl_sata;
pub mod sandforce;
pub mod smi;
pub mod smi_sata;
pub mod tenafe;
pub mod yeestor;

use vstd::prelude::*;

use crate::ata::AtaError;
use crate::ata::SgRequest;
use crate::bank::FlashIdError;
use crate::bank::FlashIdResult;
use crate::nvme::NvmeError;
use crate::nvme::NvmeRequest;
use crate::text;

verus! {

// ---------------------------------------------------------------------------
// The extraction step protocol.
//
// Every extractor is a pure decision function: given what has been exchanged
// with the device so far, it either asks the shell to submit one more
// request, or finishes with a result or an error.  The shell performs the
// submission and hands the raw outcome back; all protocol decisions are
// taken here.
// ---------------------------------------------------------------------------

/// The next move of an NVMe extractor.
pub enum NvmeStep {
    /// Submit this admin request and hand back its outcome.
    Issue(NvmeRequest),
    /// The extraction is finished.
    Done(Result<FlashIdResult, FlashIdError>),
}

/// The next move of an ATA extractor.
pub enum AtaStep {
    /// Submit this pass-through request and hand back its outcome.
    Issue(SgRequest),
    /// The extraction is finished.
    Done(Result<FlashIdResult, FlashIdError>),
}

/// The extraction error an NVMe transport failure maps to.
pub open spec fn spec_from_nvme(e: NvmeError) -> FlashIdError {
    FlashIdError::Transport { errno: e.errno }
}

/// Map an NVMe transport failure.
pub fn from_nvme(e: &NvmeError) -> (r: FlashIdError)
    ensures
        r == spec_from_nvme(*e),
{
    FlashIdError::Transport { errno: e.errno }
}

/// The extraction error an ATA completion failure maps to.
pub open spec fn spec_from_ata(e: AtaError) -> FlashIdError {
    match e {
        AtaError::Ioctl { errno } => FlashIdError::Transport { errno },
        AtaError::Status { host, driver } => FlashIdError::Status { host, driver },
        AtaError::Rejected { status, error } => FlashIdError::Rejected { status, error },
    }
}

/// Map an ATA completion failure.
pub fn from_ata(e: &AtaError) -> (r: FlashIdError)
    ensures
        r == spec_from_ata(*e),
{
    match e {
        AtaError::Ioctl { errno } => FlashIdError::Transport { errno: *errno },
        AtaError::Status { host, driver } => FlashIdError::Status {
            host: *host,
            driver: *driver,
        },
        AtaError::Rejected { status, error } => FlashIdError::Rejected {
            status: *status,
            error: *error,
        },
    }
}

/// An all-zero payload of the given size.
pub fn zero_vec(n: usize) -> (v: Vec<u8>)
    ensures
        v@.len() == n,
        forall|i: int| 0 <= i < n ==> v@[i] == 0u8,
{
    let mut v: Vec<u8> = Vec::new();
    let mut i: usize = 0;
    while i < n
        invariant
            i <= n,
            v@.len() == i,
            forall|j: int| 0 <= j < i ==> v@[j] == 0u8,
        decreases n - i,
    {
        v.push(0);
        i += 1;
    }
    v
}

// ---------------------------------------------------------------------------
// SATA auto-detection order.
// ---------------------------------------------------------------------------

/// The SATA controller families, plus the IDENTIFY-embedded fallback.
#[derive(Debug, Clone, Copy, PartialEq, Eq, Structural)]
pub enum SataFamily {
    Yeestor,
    SmiSata,
    SandForce,
    JmSata,
    RtlSata,
    IdentifyFid,
}

/// The fixed least-invasive-first order in which SATA families are tried
/// when no firmware hint selects one.
pub open spec fn spec_sata_order() -> Seq<SataFamily> {
    seq![
        SataFamily::Yeestor,
        SataFamily::SmiSata,
        SataFamily::SandForce,
        SataFamily::JmSata,
        SataFamily::RtlSata,
        SataFamily::IdentifyFid,
    ]
}

/// The family to try after `failed` families have failed, or nothing when
/// the whole chain is exhausted.  A family that succeeds ends the chain:
/// the caller asks for a next family only after a failure.
pub fn sata_next_family(failed: usize) -> (r: Option<SataFamily>)
    ensures
        failed < 6 ==> (r matches Some(f) && f == spec_sata_order()[failed as int]),
        failed >= 6 ==> r is None,
{
    if failed == 0 {
        Some(SataFamily::Yeestor)
    } else if failed == 1 {
        Some(SataFamily::SmiSata)
    } else if failed == 2 {
        Some(SataFamily::SandForce)
    } else if failed == 3 {
        Some(SataFamily::JmSata)
    } else if failed == 4 {
        Some(SataFamily::RtlSata)
    } else if failed == 5 {
        Some(SataFamily::IdentifyFid)
    } else {
        None
    }
}

/// What a SATA run does: a firmware hint selects a single family, anything
/// else walks the auto-detection chain.
#[derive(Debug, Clone, Copy, PartialEq, Eq, Structural)]
pub enum SataPlan {
    Single(SataFamily),
    Chain,
}

/// Decide the SATA plan from the firmware string: a Silicon Motion hint
/// first, then a Realtek hint, else the chain.
pub fn sata_plan(fw: &str) -> (r: SataPlan)
    requires
        fw.is_ascii(),
    ensures
        crate::controllers::smi_sata::spec_smi_sata_fw_hit(fw@) ==> r == SataPlan::Single(
            SataFamily::SmiSata),
        !crate::controllers::smi_sata::spec_smi_sata_fw_hit(fw@)
            && crate::controllers::rtl_sata::spec_rtl_sata_fw_hit(fw@) ==> r
            == SataPlan::Single(SataFamily::RtlSata),
        !crate::controllers::smi_sata::spec_smi_sata_fw_hit(fw@)
            && !crate::controllers::rtl_sata::spec_rtl_sata_fw_hit(fw@) ==> r
            == SataPlan::Chain,
{
    if crate::controllers::smi_sata::detect_from_firmware(fw).is_some() {
        SataPlan::Single(SataFamily::SmiSata)
    } else if crate::controllers::rtl_sata::detect_from_firmware(fw).is_some() {
        SataPlan::Single(SataFamily::RtlSata)
    } else {
        SataPlan::Chain
    }
}

/// A trimmed, cleaned name with a fallback for the empty case.
pub open spec fn spec_name_or(t: Seq<u8>, fallback: Seq<char>) -> Seq<char> {
    let cleaned = text::spec_trim(text::spec_clean(t));
    if cleaned.len() == 0 {
        fallback
    } else {
        text::spec_chars(cleaned)
    }
}

} // verus!
