use vstd::prelude::*;

use crate::nvme::ControllerInfo;
use crate::nvme::NvmeDevice;
use crate::nvme::NvmeRequest;
use crate::nvme::spec_admin_cmd;
use crate::nvme::spec_le16;
use crate::text;

verus! {

// ---------------------------------------------------------------------------
// Controller detection.
//
// The passive phase reads nothing from the device: it matches the firmware
// and model strings and the vendor ids that IDENTIFY CONTROLLER returned,
// in a fixed priority order.  The active phase sends one probe command per
// family, in a fixed order, and the first positive probe wins.  The probe
// requests are built here; the shell submits them and hands the responses
// back to the probe checkers.
// ---------------------------------------------------------------------------

/// The two Realtek protocol generations.
#[derive(Debug, Clone, Copy, PartialEq, Eq, Structural)]
pub enum RtlVariant {
    V1,
    V2,
}

/// The detected controller family, each with its display name; Realtek
/// additionally carries the protocol variant.
#[derive(Debug, Clone)]
pub enum ControllerType {
    Smi(String),
    Realtek(String, RtlVariant),
    Phison(String),
    Maxio(String),
    Marvell(String),
    Innogrit(String),
    Tenafe(String),
}

/// The display name a controller type carries.
pub open spec fn spec_ct_name(ct: ControllerType) -> Seq<char> {
    match ct {
        ControllerType::Smi(n) => n@,
        ControllerType::Realtek(n, _) => n@,
        ControllerType::Phison(n) => n@,
        ControllerType::Maxio(n) => n@,
        ControllerType::Marvell(n) => n@,
        ControllerType::Innogrit(n) => n@,
        ControllerType::Tenafe(n) => n@,
    }
}

impl ControllerType {
    /// The display name.
    pub fn name(&self) -> (r: &str)
        ensures
            r@ == spec_ct_name(*self),
    {
        match self {
            ControllerType::Smi(n) => n.as_str(),
            ControllerType::Realtek(n, _) => n.as_str(),
            ControllerType::Phison(n) => n.as_str(),
            ControllerType::Maxio(n) => n.as_str(),
            ControllerType::Marvell(n) => n.as_str(),
            ControllerType::Innogrit(n) => n.as_str(),
            ControllerType::Tenafe(n) => n.as_str(),
        }
    }

    /// The short family key used on the command line.
    pub fn family(&self) -> (r: &'static str)
        ensures
            self is Smi ==> r@ == "smi"@,
            self is Realtek ==> r@ == "rtl"@,
            self is Phison ==> r@ == "phison"@,
            self is Maxio ==> r@ == "maxio"@,
            self is Marvell ==> r@ == "marvell"@,
            self is Innogrit ==> r@ == "innogrit"@,
            self is Tenafe ==> r@ == "tenafe"@,
    {
        match self {
            ControllerType::Smi(_) => "smi",
            ControllerType::Realtek(_, _) => "rtl",
            ControllerType::Phison(_) => "phison",
            ControllerType::Maxio(_) => "maxio",
            ControllerType::Marvell(_) => "marvell",
            ControllerType::Innogrit(_) => "innogrit",
            ControllerType::Tenafe(_) => "tenafe",
        }
    }
}

// ---------------------------------------------------------------------------
// Passive phase.
// ---------------------------------------------------------------------------

/// A firmware string announces a Realtek controller.
pub open spec fn spec_realtek_hit(fw: Seq<char>) -> bool {
    text::spec_starts_with_c(fw, "REALTEK_RL6447"@) || text::spec_starts_with_c(fw,
        "REALTEK_RL6577"@) || text::spec_starts_with_c(fw, "REALTEK_RL6817"@)
}

/// Match the firmware string against the known Realtek prefixes.
pub fn detect_realtek(fw: &str) -> (r: Option<ControllerType>)
    requires
        fw.is_ascii(),
    ensures
        text::spec_starts_with_c(fw@, "REALTEK_RL6447"@) ==> (r matches Some(ct)
            && ct matches ControllerType::Realtek(n, v) && n@ == "RTS5762/63"@ && v
            == RtlVariant::V1),
        !text::spec_starts_with_c(fw@, "REALTEK_RL6447"@) && text::spec_starts_with_c(fw@,
            "REALTEK_RL6577"@) ==> (r matches Some(ct) && ct matches
        ControllerType::Realtek(n, v) && n@ == "RTS5765/66"@ && v == RtlVariant::V2),
        !text::spec_starts_with_c(fw@, "REALTEK_RL6447"@) && !text::spec_starts_with_c(
            fw@, "REALTEK_RL6577"@) && text::spec_starts_with_c(fw@, "REALTEK_RL6817"@)
            ==> (r matches Some(ct) && ct matches ControllerType::Realtek(n, v) && n@
            == "RTS5772"@ && v == RtlVariant::V2),
        !spec_realtek_hit(fw@) ==> r is None,
{
    proof {
        reveal_strlit("REALTEK_RL6447");
        reveal_strlit("REALTEK_RL6577");
        reveal_strlit("REALTEK_RL6817");
    }
    if text::str_starts_with(fw, "REALTEK_RL6447") {
        Some(ControllerType::Realtek(String::from_str("RTS5762/63"), RtlVariant::V1))
    } else if text::str_starts_with(fw, "REALTEK_RL6577") {
        Some(ControllerType::Realtek(String::from_str("RTS5765/66"), RtlVariant::V2))
    } else if text::str_starts_with(fw, "REALTEK_RL6817") {
        Some(ControllerType::Realtek(String::from_str("RTS5772"), RtlVariant::V2))
    } else {
        None
    }
}

/// The Silicon Motion model name a firmware prefix announces; the prefixes
/// are tried in table order and the first match wins.
pub open spec fn spec_smi_fw_name(fw: Seq<char>) -> Option<Seq<char>> {
    if text::spec_starts_with_c(fw, "2260ROM:"@) {
        Some("SM2260"@)
    } else if text::spec_starts_with_c(fw, "2262ROM:"@) {
        Some("SM2262"@)
    } else if text::spec_starts_with_c(fw, "2262B0ROM:"@) {
        Some("SM2262EN"@)
    } else if text::spec_starts_with_c(fw, "2262B1ROM:"@) {
        Some("SM2262EN"@)
    } else if text::spec_starts_with_c(fw, "2262BCROM:"@) {
        Some("SM2262EN"@)
    } else if text::spec_starts_with_c(fw, "2263ROM:"@) {
        Some("SM2263EN"@)
    } else if text::spec_starts_with_c(fw, "2264ROM:"@) {
        Some("SM2264"@)
    } else if text::spec_starts_with_c(fw, "2264ABROM:"@) {
        Some("SM2264"@)
    } else if text::spec_starts_with_c(fw, "2265ABROM:"@) {
        Some("SM2265"@)
    } else if text::spec_starts_with_c(fw, "2265"@) {
        Some("SM2265"@)
    } else if text::spec_starts_with_c(fw, "2267ABROM:"@) {
        Some("SM2267"@)
    } else if text::spec_starts_with_c(fw, "2267"@) {
        Some("SM2267"@)
    } else if text::spec_starts_with_c(fw, "2268"@) {
        Some("SM2268"@)
    } else if text::spec_starts_with_c(fw, "2269"@) {
        Some("SM2269"@)
    } else if text::spec_starts_with_c(fw, "2270ROM:"@) {
        Some("SM2270"@)
    } else if text::spec_starts_with_c(fw, "2270"@) {
        Some("SM2270"@)
    } else if text::spec_starts_with_c(fw, "2508"@) {
        Some("SM2508"@)
    } else if text::spec_starts_with_c(fw, "8366"@) {
        Some("SM8366"@)
    } else {
        None
    }
}

/// The model string carries a Silicon Motion model fragment.
pub open spec fn spec_smi_model_hit(model: Seq<char>) -> bool {
    text::spec_contains_c(model, "SM22"@) || text::spec_contains_c(model, "SM25"@)
        || text::spec_contains_c(model, "SM83"@)
}

/// The vendor id Silicon Motion retail controllers report.
pub const SMI_VID: u16 = 0x2646;

/// Any of the Silicon Motion passive rules fires.
pub open spec fn spec_smi_hit(fw: Seq<char>, model: Seq<char>, vid: u16, ssvid: u16) -> bool {
    spec_smi_fw_name(fw) is Some || spec_smi_model_hit(model) || vid == 0x2646 || ssvid
        == 0x2646
}

/// Match firmware, model and vendor ids against the Silicon Motion rules:
/// firmware prefix first, then model fragments, then the vendor id.
pub fn detect_smi(fw: &str, model: &str, vid: u16, ssvid: u16) -> (r: Option<ControllerType>)
    requires
        fw.is_ascii(),
        model.is_ascii(),
    ensures
        spec_smi_fw_name(fw@) matches Some(n) ==> (r matches Some(ct) && ct matches
        ControllerType::Smi(s) && s@ == n),
        spec_smi_fw_name(fw@) is None && spec_smi_model_hit(model@) ==> (r matches Some(
            ct) && ct matches ControllerType::Smi(s) && s@ == "SMI (by model)"@),
        spec_smi_fw_name(fw@) is None && !spec_smi_model_hit(model@) && (vid == 0x2646
            || ssvid == 0x2646) ==> (r matches Some(ct) && ct matches ControllerType::Smi(
            s) && s@ == "SMI (by VID)"@),
        !spec_smi_hit(fw@, model@, vid, ssvid) ==> r is None,
{
    proof {
        reveal_strlit("2260ROM:");
        reveal_strlit("2262ROM:");
        reveal_strlit("2262B0ROM:");
        reveal_strlit("2262B1ROM:");
        reveal_strlit("2262BCROM:");
        reveal_strlit("2263ROM:");
        reveal_strlit("2264ROM:");
        reveal_strlit("2264ABROM:");
        reveal_strlit("2265ABROM:");
        reveal_strlit("2265");
        reveal_strlit("2267ABROM:");
        reveal_strlit("2267");
        reveal_strlit("2268");
        reveal_strlit("2269");
        reveal_strlit("2270ROM:");
        reveal_strlit("2270");
        reveal_strlit("2508");
        reveal_strlit("8366");
        reveal_strlit("SM22");
        reveal_strlit("SM25");
        reveal_strlit("SM83");
    }
    if text::str_starts_with(fw, "2260ROM:") {
        Some(ControllerType::Smi(String::from_str("SM2260")))
    } else if text::str_starts_with(fw, "2262ROM:") {
        Some(ControllerType::Smi(String::from_str("SM2262")))
    } else if text::str_starts_with(fw, "2262B0ROM:") {
        Some(ControllerType::Smi(String::from_str("SM2262EN")))
    } else if text::str_starts_with(fw, "2262B1ROM:") {
        Some(ControllerType::Smi(String::from_str("SM2262EN")))
    } else if text::str_starts_with(fw, "2262BCROM:") {
        Some(ControllerType::Smi(String::from_str("SM2262EN")))
    } else if text::str_starts_with(fw, "2263ROM:") {
        Some(ControllerType::Smi(String::from_str("SM2263EN")))
    } else if text::str_starts_with(fw, "2264ROM:") {
        Some(ControllerType::Smi(String::from_str("SM2264")))
    } else if text::str_starts_with(fw, "2264ABROM:") {
        Some(ControllerType::Smi(String::from_str("SM2264")))
    } else if text::str_starts_with(fw, "2265ABROM:") {
        Some(ControllerType::Smi(String::from_str("SM2265")))
    } else if text::str_starts_with(fw, "2265") {
        Some(ControllerType::Smi(String::from_str("SM2265")))
    } else if text::str_starts_with(fw, "2267ABROM:") {
        Some(ControllerType::Smi(String::from_str("SM2267")))
    } else if text::str_starts_with(fw, "2267") {
        Some(ControllerType::Smi(String::from_str("SM2267")))
    } else if text::str_starts_with(fw, "2268") {
        Some(ControllerType::Smi(String::from_str("SM2268")))
    } else if text::str_starts_with(fw, "2269") {
        Some(ControllerType::Smi(String::from_str("SM2269")))
    } else if text::str_starts_with(fw, "2270ROM:") {
        Some(ControllerType::Smi(String::from_str("SM2270")))
    } else if text::str_starts_with(fw, "2270") {
        Some(ControllerType::Smi(String::from_str("SM2270")))
    } else if text::str_starts_with(fw, "2508") {
        Some(ControllerType::Smi(String::from_str("SM2508")))
    } else if text::str_starts_with(fw, "8366") {
        Some(ControllerType::Smi(String::from_str("SM8366")))
    } else if text::str_contains(model, "SM22") || text::str_contains(model, "SM25")
        || text::str_contains(model, "SM83") {
        Some(ControllerType::Smi(String::from_str("SMI (by model)")))
    } else if vid == SMI_VID || ssvid == SMI_VID {
        Some(ControllerType::Smi(String::from_str("SMI (by VID)")))
    } else {
        None
    }
}

/// The one Tenafe model string matched exactly.
pub open spec fn spec_tenafe_hit(model: Seq<char>) -> bool {
    model == "Merak Nvme Ssd Controller"@
}

/// Match the model string against the known Tenafe controller.
pub fn detect_tenafe(model: &str) -> (r: Option<ControllerType>)
    requires
        model.is_ascii(),
    ensures
        spec_tenafe_hit(model@) ==> (r matches Some(ct) && ct matches
        ControllerType::Tenafe(n) && n@ == "Merak"@),
        !spec_tenafe_hit(model@) ==> r is None,
{
    proof {
        reveal_strlit("Merak Nvme Ssd Controller");
    }
    if text::str_eq(model, "Merak Nvme Ssd Controller") {
        Some(ControllerType::Tenafe(String::from_str("Merak")))
    } else {
        None
    }
}

// ---------------------------------------------------------------------------
// Active phase: probe requests and probe checkers.
// ---------------------------------------------------------------------------

/// The responses of the active probes, in probe order; `None` stands for a
/// probe whose device-control call failed or that was never issued because
/// an earlier phase already decided.
pub struct ProbeData {
    pub phison: Option<Vec<u8>>,
    pub maxio_c1: Option<Vec<u8>>,
    pub maxio_c2: Option<Vec<u8>>,
    pub marvell: Option<Vec<u8>>,
    pub innogrit: Option<Vec<u8>>,
}

/// The Phison probe: vendor read, opcode 0xD2, 4096 bytes.
pub fn probe_phison_request() -> (r: NvmeRequest)
    ensures
        spec_admin_cmd(r.cmd, 0xD2, 0, 0, 0, 0, 0, 0, 0, 4096),
        r.direction is FromDevice,
{
    let dev = NvmeDevice {  };
    dev.admin_read(0xD2, 0, 0, 0, 0, 0, 0, 0, 4096)
}

/// The Phison probe response carries the literal vendor signature.
pub open spec fn spec_phison_hit(resp: Option<Vec<u8>>) -> bool {
    resp matches Some(d) && text::spec_contains(d@, text::spec_ascii_bytes("PhIsOnNo"@))
}

/// Check a Phison probe response.
pub fn probe_phison(resp: &Option<Vec<u8>>) -> (r: Option<ControllerType>)
    ensures
        spec_phison_hit(*resp) ==> (r matches Some(ct) && ct matches
        ControllerType::Phison(n) && n@ == "Phison"@),
        !spec_phison_hit(*resp) ==> r is None,
{
    proof {
        reveal_strlit("PhIsOnNo");
    }
    match resp {
        Some(d) => {
            if text::bytes_contain(d.as_slice(), text::str_bytes("PhIsOnNo")) {
                Some(ControllerType::Phison(String::from_str("Phison")))
            } else {
                None
            }
        },
        None => None,
    }
}

/// The two Maxio probes: vendor reads, opcodes 0xC1 and 0xC2, 4096 bytes.
pub fn probe_maxio_request(opcode: u8) -> (r: NvmeRequest)
    ensures
        spec_admin_cmd(r.cmd, opcode, 0, 0, 0, 0, 0, 0, 0, 4096),
        r.direction is FromDevice,
{
    let dev = NvmeDevice {  };
    dev.admin_read(opcode, 0, 0, 0, 0, 0, 0, 0, 4096)
}

/// A Maxio probe response carries the ",MAP1" model fragment.
pub open spec fn spec_maxio_hit(resp: Option<Vec<u8>>) -> bool {
    resp matches Some(d) && text::spec_contains(d@, text::spec_ascii_bytes(",MAP1"@))
}

/// Check the two Maxio probe responses.
pub fn probe_maxio(c1: &Option<Vec<u8>>, c2: &Option<Vec<u8>>) -> (r: Option<ControllerType>)
    ensures
        spec_maxio_hit(*c1) || spec_maxio_hit(*c2) ==> (r matches Some(ct) && ct matches
        ControllerType::Maxio(n) && n@ == "Maxio"@),
        !spec_maxio_hit(*c1) && !spec_maxio_hit(*c2) ==> r is None,
{
    proof {
        reveal_strlit(",MAP1");
    }
    let hit1 = match c1 {
        Some(d) => text::bytes_contain(d.as_slice(), text::str_bytes(",MAP1")),
        None => false,
    };
    let hit2 = match c2 {
        Some(d) => text::bytes_contain(d.as_slice(), text::str_bytes(",MAP1")),
        None => false,
    };
    if hit1 || hit2 {
        Some(ControllerType::Maxio(String::from_str("Maxio")))
    } else {
        None
    }
}

/// The Marvell probe: vendor read, opcode 0xFE, cdw15=0xA1, 4096 bytes.
pub fn probe_marvell_request() -> (r: NvmeRequest)
    ensures
        spec_admin_cmd(r.cmd, 0xFE, 0, 0, 0, 0, 0, 0, 0xA1, 4096),
        r.direction is FromDevice,
{
    let dev = NvmeDevice {  };
    dev.admin_read(0xFE, 0, 0, 0, 0, 0, 0, 0xA1, 4096)
}

/// A Marvell probe response starts with one of the two firmware signatures.
pub open spec fn spec_marvell_hit(resp: Option<Vec<u8>>) -> bool {
    resp matches Some(d) && (text::spec_starts_with(d@, text::spec_ascii_bytes("DM1160"@))
        || text::spec_starts_with(d@, text::spec_ascii_bytes("DM1140"@)))
}

/// Check a Marvell probe response.
pub fn probe_marvell(resp: &Option<Vec<u8>>) -> (r: Option<ControllerType>)
    ensures
        resp matches Some(d) && text::spec_starts_with(d@, text::spec_ascii_bytes(
            "DM1160"@)) ==> (r matches Some(ct) && ct matches ControllerType::Marvell(n)
            && n@ == "DM1160"@),
        resp matches Some(d) && !text::spec_starts_with(d@, text::spec_ascii_bytes(
            "DM1160"@)) && text::spec_starts_with(d@, text::spec_ascii_bytes("DM1140"@))
            ==> (r matches Some(ct) && ct matches ControllerType::Marvell(n) && n@
            == "DM1140"@),
        !spec_marvell_hit(*resp) ==> r is None,
{
    proof {
        reveal_strlit("DM1160");
        reveal_strlit("DM1140");
    }
    match resp {
        Some(d) => {
            if text::bytes_start_with(d.as_slice(), text::str_bytes("DM1160")) {
                Some(ControllerType::Marvell(String::from_str("DM1160")))
            } else if text::bytes_start_with(d.as_slice(), text::str_bytes("DM1140")) {
                Some(ControllerType::Marvell(String::from_str("DM1140")))
            } else {
                None
            }
        },
        None => None,
    }
}

/// The Innogrit probe: vendor read, opcode 0xF2, keyed by the two magic
/// parameter words, 4096 bytes.
pub fn probe_innogrit_request() -> (r: NvmeRequest)
    ensures
        spec_admin_cmd(r.cmd, 0xF2, 0, 0, 0, 0, 0, 0x54495247, 0x4F4E4E49, 4096),
        r.direction is FromDevice,
{
    let dev = NvmeDevice {  };
    dev.admin_read(0xF2, 0, 0, 0, 0, 0, 0x54495247, 0x4F4E4E49, 4096)
}

/// Some byte of the sequence is non-zero.
pub open spec fn spec_any_nonzero(d: Seq<u8>) -> bool {
    exists|i: int| 0 <= i < d.len() && d[i] != 0u8
}

/// Whether any byte of the slice is non-zero.
pub fn any_nonzero(d: &[u8]) -> (r: bool)
    ensures
        r == spec_any_nonzero(d@),
{
    let mut i: usize = 0;
    while i < d.len()
        invariant
            i <= d.len(),
            forall|j: int| 0 <= j < i ==> d@[j] == 0u8,
        decreases d.len() - i,
    {
        if d[i] != 0 {
            return true;
        }
        i += 1;
    }
    false
}

/// An Innogrit probe response holds any non-zero byte.
pub open spec fn spec_innogrit_hit(resp: Option<Vec<u8>>) -> bool {
    resp matches Some(d) && spec_any_nonzero(d@)
}

/// The display name an Innogrit probe resolves to: the 16-bit device id at
/// offset 0x62E in upper-case hex if present and non-zero, plain otherwise.
pub open spec fn spec_innogrit_probe_name(d: Seq<u8>) -> Seq<char> {
    if d.len() >= 0x630 && spec_le16(d, 0x62E) != 0 {
        "Innogrit (DID 0x"@ + text::spec_chars(text::spec_hex_u16_upper(spec_le16(d,
            0x62E))) + ")"@
    } else {
        "Innogrit"@
    }
}

/// Check an Innogrit probe response.
pub fn probe_innogrit(resp: &Option<Vec<u8>>) -> (r: Option<ControllerType>)
    ensures
        spec_innogrit_hit(*resp) ==> (r matches Some(ct) && ct matches
        ControllerType::Innogrit(n) && (resp matches Some(d) ==> n@
            == spec_innogrit_probe_name(d@))),
        !spec_innogrit_hit(*resp) ==> r is None,
{
    match resp {
        Some(d) => {
            if any_nonzero(d.as_slice()) {
                Some(ControllerType::Innogrit(innogrit_probe_name(d.as_slice())))
            } else {
                None
            }
        },
        None => None,
    }
}

/// Render the Innogrit probe display name.
fn innogrit_probe_name(d: &[u8]) -> (r: String)
    ensures
        r@ == spec_innogrit_probe_name(d@),
{
    if d.len() >= 0x630 {
        let did = d[0x62E] as u16 + d[0x62F] as u16 * 0x100;
        if did != 0 {
            let mut hex: Vec<u8> = Vec::new();
            text::push_hex_u16_upper(&mut hex, did);
            let mut out = String::from_str("Innogrit (DID 0x");
            let hex_str = text::ascii_string(hex.as_slice());
            out.append(hex_str.as_str());
            out.append(")");
            proof {
                assert(out@ =~= spec_innogrit_probe_name(d@));
            }
            return out;
        }
        String::from_str("Innogrit")
    } else {
        String::from_str("Innogrit")
    }
}

// ---------------------------------------------------------------------------
// The full detection chain.
// ---------------------------------------------------------------------------

/// Detect the controller family: passive rules first (Realtek, then
/// Silicon Motion, then Tenafe), then the active probes in fixed order
/// (Phison, Maxio, Marvell, Innogrit).  The first rule that fires decides;
/// when nothing fires there is no default family.
pub fn detect(info: &ControllerInfo, probes: &ProbeData) -> (r: Option<ControllerType>)
    requires
        info.firmware.is_ascii(),
        info.model.is_ascii(),
    ensures
        spec_realtek_hit(info.firmware@) ==> (r matches Some(ct) && ct is Realtek),
        !spec_realtek_hit(info.firmware@) && spec_smi_hit(info.firmware@, info.model@,
            info.vid, info.ssvid) ==> (r matches Some(ct) && ct is Smi),
        !spec_realtek_hit(info.firmware@) && !spec_smi_hit(info.firmware@, info.model@,
            info.vid, info.ssvid) && spec_tenafe_hit(info.model@) ==> (r matches Some(ct)
            && ct is Tenafe),
        !spec_passive_hit(*info) && spec_phison_hit(probes.phison) ==> (r matches Some(ct)
            && ct is Phison),
        !spec_passive_hit(*info) && !spec_phison_hit(probes.phison) && (spec_maxio_hit(
            probes.maxio_c1) || spec_maxio_hit(probes.maxio_c2)) ==> (r matches Some(ct)
            && ct is Maxio),
        !spec_passive_hit(*info) && !spec_phison_hit(probes.phison) && !spec_maxio_hit(
            probes.maxio_c1) && !spec_maxio_hit(probes.maxio_c2) && spec_marvell_hit(
            probes.marvell) ==> (r matches Some(ct) && ct is Marvell),
        !spec_passive_hit(*info) && !spec_phison_hit(probes.phison) && !spec_maxio_hit(
            probes.maxio_c1) && !spec_maxio_hit(probes.maxio_c2) && !spec_marvell_hit(
            probes.marvell) && spec_innogrit_hit(probes.innogrit) ==> (r matches Some(ct)
            && ct is Innogrit),
        !spec_passive_hit(*info) && !spec_phison_hit(probes.phison) && !spec_maxio_hit(
            probes.maxio_c1) && !spec_maxio_hit(probes.maxio_c2) && !spec_marvell_hit(
            probes.marvell) && !spec_innogrit_hit(probes.innogrit) ==> r is None,
{
    if let Some(ct) = detect_realtek(info.firmware.as_str()) {
        return Some(ct);
    }
    if let Some(ct) = detect_smi(info.firmware.as_str(), info.model.as_str(), info.vid,
        info.ssvid) {
        return Some(ct);
    }
    if let Some(ct) = detect_tenafe(info.model.as_str()) {
        return Some(ct);
    }
    if let Some(ct) = probe_phison(&probes.phison) {
        return Some(ct);
    }
    if let Some(ct) = probe_maxio(&probes.maxio_c1, &probes.maxio_c2) {
        return Some(ct);
    }
    if let Some(ct) = probe_marvell(&probes.marvell) {
        return Some(ct);
    }
    if let Some(ct) = probe_innogrit(&probes.innogrit) {
        return Some(ct);
    }
    None
}

/// Some passive rule decides the family before any probe is sent.
pub open spec fn spec_passive_hit(info: ControllerInfo) -> bool {
    spec_realtek_hit(info.firmware@) || spec_smi_hit(info.firmware@, info.model@,
        info.vid, info.ssvid) || spec_tenafe_hit(info.model@)
}

/// The controller type a forced family key resolves to.
pub fn resolve_nvme_controller_type(name: &str) -> (r: Option<ControllerType>)
    requires
        name.is_ascii(),
    ensures
        name@ == "smi"@ ==> (r matches Some(ct) && ct is Smi),
        name@ != "smi"@ && name@ == "rtl"@ ==> (r matches Some(ct) && ct matches
        ControllerType::Realtek(_, v) && v == RtlVariant::V1),
        name@ != "smi"@ && name@ != "rtl"@ && name@ == "phison"@ ==> (r matches Some(ct)
            && ct is Phison),
        name@ != "smi"@ && name@ != "rtl"@ && name@ != "phison"@ && name@ == "maxio"@
            ==> (r matches Some(ct) && ct is Maxio),
        name@ != "smi"@ && name@ != "rtl"@ && name@ != "phison"@ && name@ != "maxio"@
            && name@ == "marvell"@ ==> (r matches Some(ct) && ct is Marvell),
        name@ != "smi"@ && name@ != "rtl"@ && name@ != "phison"@ && name@ != "maxio"@
            && name@ != "marvell"@ && name@ == "innogrit"@ ==> (r matches Some(ct)
            && ct is Innogrit),
        name@ != "smi"@ && name@ != "rtl"@ && name@ != "phison"@ && name@ != "maxio"@
            && name@ != "marvell"@ && name@ != "innogrit"@ && name@ == "tenafe"@ ==> (
        r matches Some(ct) && ct is Tenafe),
        name@ != "smi"@ && name@ != "rtl"@ && name@ != "phison"@ && name@ != "maxio"@
            && name@ != "marvell"@ && name@ != "innogrit"@ && name@ != "tenafe"@ ==> r
            is None,
{
    proof {
        reveal_strlit("smi");
        reveal_strlit("rtl");
        reveal_strlit("phison");
        reveal_strlit("maxio");
        reveal_strlit("marvell");
        reveal_strlit("innogrit");
        reveal_strlit("tenafe");
    }
    if text::str_eq(name, "smi") {
        Some(ControllerType::Smi(String::from_str("SMI (forced)")))
    } else if text::str_eq(name, "rtl") {
        Some(ControllerType::Realtek(String::from_str("Realtek (forced)"),
            RtlVariant::V1))
    } else if text::str_eq(name, "phison") {
        Some(ControllerType::Phison(String::from_str("Phison (forced)")))
    } else if text::str_eq(name, "maxio") {
        Some(ControllerType::Maxio(String::from_str("Maxio (forced)")))
    } else if text::str_eq(name, "marvell") {
        Some(ControllerType::Marvell(String::from_str("Marvell (forced)")))
    } else if text::str_eq(name, "innogrit") {
        Some(ControllerType::Innogrit(String::from_str("Innogrit (forced)")))
    } else if text::str_eq(name, "tenafe") {
        Some(ControllerType::Tenafe(String::from_str("Tenafe (forced)")))
    } else {
        None
    }
}

/// The long family name used in reports.
pub fn controller_family_display(ct: &ControllerType) -> (r: &'static str)
    ensures
        ct is Smi ==> r@ == "Silicon Motion"@,
        ct is Realtek ==> r@ == "Realtek"@,
        ct is Phison ==> r@ == "Phison"@,
        ct is Maxio ==> r@ == "Maxio"@,
        ct is Marvell ==> r@ == "Marvell"@,
        ct is Innogrit ==> r@ == "Innogrit"@,
        ct is Tenafe ==> r@ == "Tenafe"@,
{
    match ct {
        ControllerType::Smi(_) => "Silicon Motion",
        ControllerType::Realtek(_, _) => "Realtek",
        ControllerType::Phison(_) => "Phison",
        ControllerType::Maxio(_) => "Maxio",
        ControllerType::Marvell(_) => "Marvell",
        ControllerType::Innogrit(_) => "Innogrit",
        ControllerType::Tenafe(_) => "Tenafe",
    }
}

} // verus!
