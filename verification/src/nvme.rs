use vstd::prelude::*;

use crate::text;

verus! {

// ---------------------------------------------------------------------------
// NVMe admin pass-through.
//
// Building an admin command is pure and fully specified here.  The caller
// owns the open handle; it fills the data pointer, submits the structure
// through the NVMe admin device-control call, and hands the raw completion
// back to `nvme_complete`.  This layer performs no NVMe completion-status
// decoding: acceptance versus rejection of the command is opaque beyond
// pass/fail of the control call.
// ---------------------------------------------------------------------------

/// The NVMe admin-command ioctl request number.
pub const NVME_IOCTL_ADMIN_CMD: u64 = 0xC0484E41;

/// Driver-side timeout for every admin command, in milliseconds.
pub const TIMEOUT_MS: u32 = 10_000;

/// The admin command structure, field for field as the kernel interface
/// lays it out.  The data pointer (`addr`) is left 0 here; the submitting
/// shell points it at its buffer.
pub struct NvmeAdminCmd {
    pub opcode: u8,
    pub flags: u8,
    pub rsvd1: u16,
    pub nsid: u32,
    pub cdw2: u32,
    pub cdw3: u32,
    pub metadata: u64,
    pub addr: u64,
    pub metadata_len: u32,
    pub data_len: u32,
    pub cdw10: u32,
    pub cdw11: u32,
    pub cdw12: u32,
    pub cdw13: u32,
    pub cdw14: u32,
    pub cdw15: u32,
    pub timeout_ms: u32,
    pub result: u32,
}

/// Every field of the command is zero.
pub open spec fn spec_cmd_zeroed(c: NvmeAdminCmd) -> bool {
    c.opcode == 0 && c.flags == 0 && c.rsvd1 == 0 && c.nsid == 0 && c.cdw2 == 0 && c.cdw3
        == 0 && c.metadata == 0 && c.addr == 0 && c.metadata_len == 0 && c.data_len == 0
        && c.cdw10 == 0 && c.cdw11 == 0 && c.cdw12 == 0 && c.cdw13 == 0 && c.cdw14 == 0
        && c.cdw15 == 0 && c.timeout_ms == 0 && c.result == 0
}

impl NvmeAdminCmd {
    /// An all-zero command structure.
    pub fn zeroed() -> (c: NvmeAdminCmd)
        ensures
            spec_cmd_zeroed(c),
    {
        NvmeAdminCmd {
            opcode: 0,
            flags: 0,
            rsvd1: 0,
            nsid: 0,
            cdw2: 0,
            cdw3: 0,
            metadata: 0,
            addr: 0,
            metadata_len: 0,
            data_len: 0,
            cdw10: 0,
            cdw11: 0,
            cdw12: 0,
            cdw13: 0,
            cdw14: 0,
            cdw15: 0,
            timeout_ms: 0,
            result: 0,
        }
    }
}

/// Direction of the data transfer of one admin command.
#[derive(Clone, Copy, PartialEq, Eq, Structural)]
pub enum AdminDirection {
    NoData,
    ToDevice,
    FromDevice,
}

/// One fully built admin request, ready for submission.
pub struct NvmeRequest {
    /// The command structure; `addr` is 0 until the shell points it at
    /// its buffer.
    pub cmd: NvmeAdminCmd,
    /// Direction of the data transfer.
    pub direction: AdminDirection,
    /// Payload sent to the device; empty unless `direction` is `ToDevice`.
    pub data_out: Vec<u8>,
}

/// The parameter words of a request match the given values, everything
/// else stays zero, and the fixed timeout is set.
pub open spec fn spec_admin_cmd(
    c: NvmeAdminCmd,
    opcode: u8,
    nsid: u32,
    cdw10: u32,
    cdw11: u32,
    cdw12: u32,
    cdw13: u32,
    cdw14: u32,
    cdw15: u32,
    data_len: u32,
) -> bool {
    c.opcode == opcode && c.flags == 0 && c.rsvd1 == 0 && c.nsid == nsid && c.cdw2 == 0
        && c.cdw3 == 0 && c.metadata == 0 && c.addr == 0 && c.metadata_len == 0
        && c.data_len == data_len && c.cdw10 == cdw10 && c.cdw11 == cdw11 && c.cdw12
        == cdw12 && c.cdw13 == cdw13 && c.cdw14 == cdw14 && c.cdw15 == cdw15
        && c.timeout_ms == 10_000 && c.result == 0
}

/// The NVMe admin command set.  The struct carries no state: an open handle
/// lives with the unverified shell, which submits what these methods build.
pub struct NvmeDevice {}

impl NvmeDevice {
    /// An admin command reading `data_len` bytes from the device.
    pub fn admin_read(
        &self,
        opcode: u8,
        nsid: u32,
        cdw10: u32,
        cdw11: u32,
        cdw12: u32,
        cdw13: u32,
        cdw14: u32,
        cdw15: u32,
        data_len: u32,
    ) -> (r: NvmeRequest)
        ensures
            spec_admin_cmd(r.cmd, opcode, nsid, cdw10, cdw11, cdw12, cdw13, cdw14, cdw15,
                data_len),
            r.direction is FromDevice,
            r.data_out@.len() == 0,
    {
        let mut cmd = NvmeAdminCmd::zeroed();
        cmd.opcode = opcode;
        cmd.nsid = nsid;
        cmd.cdw10 = cdw10;
        cmd.cdw11 = cdw11;
        cmd.cdw12 = cdw12;
        cmd.cdw13 = cdw13;
        cmd.cdw14 = cdw14;
        cmd.cdw15 = cdw15;
        cmd.data_len = data_len;
        cmd.timeout_ms = TIMEOUT_MS;
        NvmeRequest { cmd, direction: AdminDirection::FromDevice, data_out: Vec::new() }
    }

    /// An admin command writing the given payload to the device.
    pub fn admin_write(
        &self,
        opcode: u8,
        nsid: u32,
        cdw10: u32,
        cdw11: u32,
        cdw12: u32,
        cdw13: u32,
        cdw14: u32,
        cdw15: u32,
        data: &[u8],
    ) -> (r: NvmeRequest)
        requires
            data@.len() <= u32::MAX,
        ensures
            spec_admin_cmd(r.cmd, opcode, nsid, cdw10, cdw11, cdw12, cdw13, cdw14, cdw15,
                data@.len() as u32),
            r.direction is ToDevice,
            r.data_out@ == data@,
    {
        let mut cmd = NvmeAdminCmd::zeroed();
        cmd.opcode = opcode;
        cmd.nsid = nsid;
        cmd.cdw10 = cdw10;
        cmd.cdw11 = cdw11;
        cmd.cdw12 = cdw12;
        cmd.cdw13 = cdw13;
        cmd.cdw14 = cdw14;
        cmd.cdw15 = cdw15;
        cmd.data_len = data.len() as u32;
        cmd.timeout_ms = TIMEOUT_MS;
        NvmeRequest {
            cmd,
            direction: AdminDirection::ToDevice,
            data_out: vstd::slice::slice_to_vec(data),
        }
    }

    /// An admin command without data transfer.
    pub fn admin_no_data(
        &self,
        opcode: u8,
        nsid: u32,
        cdw10: u32,
        cdw11: u32,
        cdw12: u32,
        cdw13: u32,
        cdw14: u32,
        cdw15: u32,
    ) -> (r: NvmeRequest)
        ensures
            spec_admin_cmd(r.cmd, opcode, nsid, cdw10, cdw11, cdw12, cdw13, cdw14, cdw15,
                0),
            r.direction is NoData,
            r.data_out@.len() == 0,
    {
        let mut cmd = NvmeAdminCmd::zeroed();
        cmd.opcode = opcode;
        cmd.nsid = nsid;
        cmd.cdw10 = cdw10;
        cmd.cdw11 = cdw11;
        cmd.cdw12 = cdw12;
        cmd.cdw13 = cdw13;
        cmd.cdw14 = cdw14;
        cmd.cdw15 = cdw15;
        cmd.timeout_ms = TIMEOUT_MS;
        NvmeRequest { cmd, direction: AdminDirection::NoData, data_out: Vec::new() }
    }

    /// IDENTIFY CONTROLLER: opcode 0x06, CNS=1, 4096-byte response.
    pub fn identify_controller(&self) -> (r: NvmeRequest)
        ensures
            spec_admin_cmd(r.cmd, 0x06, 0, 1, 0, 0, 0, 0, 0, 4096),
            r.direction is FromDevice,
            r.data_out@.len() == 0,
    {
        self.admin_read(0x06, 0, 1, 0, 0, 0, 0, 0, 4096)
    }
}

/// The raw completion of one admin device-control call.
pub struct NvmeReply {
    /// Whether the device-control call itself returned success.
    pub ioctl_ok: bool,
    /// OS error code if the call failed.
    pub errno: i32,
    /// The command's result field as the driver left it.
    pub result: u32,
    /// The transferred data.
    pub data: Vec<u8>,
}

/// The admin device-control call failed; carries the OS error code.
pub struct NvmeError {
    pub errno: i32,
}

/// The only failure this transport can observe is the device-control call
/// itself failing; anything else counts as acceptance.
pub fn nvme_complete(r: NvmeReply) -> (res: Result<Vec<u8>, NvmeError>)
    ensures
        r.ioctl_ok ==> (res matches Ok(d) && d@ == r.data@),
        !r.ioctl_ok ==> (res matches Err(e) && e.errno == r.errno),
{
    if r.ioctl_ok {
        Ok(r.data)
    } else {
        Err(NvmeError { errno: r.errno })
    }
}

// ---------------------------------------------------------------------------
// IDENTIFY CONTROLLER parsing.
// ---------------------------------------------------------------------------

/// The fields of an IDENTIFY CONTROLLER response that detection reads.
pub struct ControllerInfo {
    pub vid: u16,
    pub ssvid: u16,
    pub serial: String,
    pub model: String,
    pub firmware: String,
}

/// The decoded form of a fixed-width ASCII field: replace non-printable
/// bytes with spaces, then trim.
pub open spec fn spec_ascii_field(raw: Seq<u8>) -> Seq<char> {
    text::spec_chars(text::spec_trim(text::spec_clean(raw)))
}

/// Replace non-printable bytes with spaces and trim the result.
pub fn ascii_trim(bytes: &[u8]) -> (r: String)
    ensures
        r@ == spec_ascii_field(bytes@),
{
    text::clean_trimmed_string(bytes)
}

/// A 16-bit little-endian value at offset `off`.
pub open spec fn spec_le16(data: Seq<u8>, off: int) -> u16 {
    (data[off] + data[off + 1] * 0x100) as u16
}

/// Decode vendor id, subsystem vendor id, and the serial, model and
/// firmware text fields of a 4096-byte IDENTIFY CONTROLLER response.
pub fn parse_identify(data: &[u8]) -> (r: ControllerInfo)
    requires
        data@.len() == 4096,
    ensures
        r.vid == spec_le16(data@, 0),
        r.ssvid == spec_le16(data@, 2),
        r.serial@ == spec_ascii_field(data@.subrange(4, 24)),
        r.model@ == spec_ascii_field(data@.subrange(24, 64)),
        r.firmware@ == spec_ascii_field(data@.subrange(64, 72)),
{
    let vid = data[0] as u16 + data[1] as u16 * 0x100;
    let ssvid = data[2] as u16 + data[3] as u16 * 0x100;
    let serial = ascii_trim(&data[4..24]);
    let model = ascii_trim(&data[24..64]);
    let firmware = ascii_trim(&data[64..72]);
    ControllerInfo { vid, ssvid, serial, model, firmware }
}

} // verus!
