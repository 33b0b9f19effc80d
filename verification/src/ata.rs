use vstd::prelude::*;

use crate::text;

verus! {

// ---------------------------------------------------------------------------
// ATA PASS-THROUGH(16) over the generic SCSI pass-through channel.
//
// Building a request is pure and fully specified here: the 16-byte CDB, the
// transfer direction, the payload and the transfer length.  The caller owns
// the open handle; it submits the request over the SG_IO device-control call
// and hands the raw completion back to `classify_sg_reply`.
// ---------------------------------------------------------------------------

/// The SG_IO ioctl request number.
pub const SG_IO_REQUEST: u64 = 0x2285;

/// dxfer_direction value for a command without data transfer.
pub const SG_DXFER_NONE: i32 = -1;

/// dxfer_direction value for a transfer to the device.
pub const SG_DXFER_TO_DEV: i32 = -2;

/// dxfer_direction value for a transfer from the device.
pub const SG_DXFER_FROM_DEV: i32 = -3;

/// ATA PASS-THROUGH(16) opcode.
pub const ATA_PT16_OPCODE: u8 = 0x85;

/// Length of the command descriptor block.
pub const ATA_PT16_CDB_LEN: u8 = 16;

/// Sense buffer length handed to the driver.
pub const SENSE_BUF_LEN: u8 = 32;

/// Driver-side timeout for every pass-through command, in milliseconds.
pub const TIMEOUT_MS: u32 = 10_000;

/// Protocol code: non-data.
pub const PROTO_NON_DATA: u8 = 3;

/// Protocol code: PIO data-in.
pub const PROTO_PIO_DATA_IN: u8 = 4;

/// Protocol code: PIO data-out.
pub const PROTO_PIO_DATA_OUT: u8 = 5;

/// Protocol code: DMA.
pub const PROTO_DMA: u8 = 6;

/// CDB byte 2 for reads: check-condition, direction from device,
/// byte-block counting, transfer length in the sector count field.
pub const CDB2_READ: u8 = 0x2E;

/// CDB byte 2 for writes.
pub const CDB2_WRITE: u8 = 0x26;

/// CDB byte 2 for non-data commands.
pub const CDB2_NON_DATA: u8 = 0x20;

/// Direction of the data transfer of one request.
#[derive(Clone, Copy, PartialEq, Eq, Structural)]
pub enum SgDirection {
    NoData,
    ToDevice,
    FromDevice,
}

impl SgDirection {
    /// The dxfer_direction value the SG_IO interface expects.
    pub fn sg_dxfer(&self) -> (r: i32)
        ensures
            self is NoData ==> r == -1,
            self is ToDevice ==> r == -2,
            self is FromDevice ==> r == -3,
    {
        match self {
            SgDirection::NoData => -1,
            SgDirection::ToDevice => -2,
            SgDirection::FromDevice => -3,
        }
    }
}

/// One fully built pass-through request, ready for submission.
pub struct SgRequest {
    /// The 16-byte command descriptor block.
    pub cdb: [u8; 16],
    /// Direction of the data transfer.
    pub direction: SgDirection,
    /// Payload sent to the device; empty unless `direction` is `ToDevice`.
    pub data_out: Vec<u8>,
    /// Number of data bytes transferred (buffer size for reads,
    /// payload size for writes, 0 for non-data commands).
    pub data_len: u32,
    /// Command length: always 16.
    pub cmd_len: u8,
    /// Sense buffer length: always 32.
    pub sense_len: u8,
    /// Driver timeout in milliseconds: always 10000.
    pub timeout_ms: u32,
}

/// The fixed framing every request of this transport carries.
pub open spec fn spec_sg_framing(r: SgRequest) -> bool {
    r.cmd_len == 16 && r.sense_len == 32 && r.timeout_ms == 10_000
}

/// The 16-byte CDB of a 28-bit (non-extended) register command.
pub open spec fn spec_cdb(
    protocol: u8,
    cdb2: u8,
    command: u8,
    features: u8,
    count: u8,
    lba_low: u8,
    lba_mid: u8,
    lba_high: u8,
    device: u8,
) -> Seq<u8> {
    seq![
        0x85u8,
        (protocol * 2) as u8,
        cdb2,
        0u8,
        features,
        0u8,
        count,
        0u8,
        lba_low,
        0u8,
        lba_mid,
        0u8,
        lba_high,
        device,
        command,
        0u8,
    ]
}

/// The 16-byte CDB of a 48-bit (extended) register command: bit 0 of byte 1
/// is the extend bit, and each register pair carries the "previous" byte
/// before the "current" one.
pub open spec fn spec_cdb_ext(
    protocol: u8,
    cdb2: u8,
    command: u8,
    features: u8,
    count: u8,
    lba_low: u8,
    lba_mid: u8,
    lba_high: u8,
    device: u8,
    prev_features: u8,
    prev_count: u8,
    prev_lba_low: u8,
    prev_lba_mid: u8,
    prev_lba_high: u8,
) -> Seq<u8> {
    seq![
        0x85u8,
        (protocol * 2 + 1) as u8,
        cdb2,
        prev_features,
        features,
        prev_count,
        count,
        prev_lba_low,
        lba_low,
        prev_lba_mid,
        lba_mid,
        prev_lba_high,
        lba_high,
        device,
        command,
        0u8,
    ]
}

/// Build the CDB of a 28-bit register command.
pub fn build_cdb(
    protocol: u8,
    cdb2: u8,
    command: u8,
    features: u8,
    count: u8,
    lba_low: u8,
    lba_mid: u8,
    lba_high: u8,
    device: u8,
) -> (cdb: [u8; 16])
    requires
        protocol <= 7,
    ensures
        cdb@ == spec_cdb(protocol, cdb2, command, features, count, lba_low, lba_mid,
            lba_high, device),
{
    let cdb: [u8; 16] = [
        ATA_PT16_OPCODE,
        protocol * 2,
        cdb2,
        0,
        features,
        0,
        count,
        0,
        lba_low,
        0,
        lba_mid,
        0,
        lba_high,
        device,
        command,
        0,
    ];
    proof {
        assert(cdb@ =~= spec_cdb(protocol, cdb2, command, features, count, lba_low,
            lba_mid, lba_high, device));
    }
    cdb
}

/// Build the CDB of a 48-bit register command (extend bit set,
/// previous/current bytes interleaved).
pub fn build_cdb_ext(
    protocol: u8,
    cdb2: u8,
    command: u8,
    features: u8,
    count: u8,
    lba_low: u8,
    lba_mid: u8,
    lba_high: u8,
    device: u8,
    prev_features: u8,
    prev_count: u8,
    prev_lba_low: u8,
    prev_lba_mid: u8,
    prev_lba_high: u8,
) -> (cdb: [u8; 16])
    requires
        protocol <= 7,
    ensures
        cdb@ == spec_cdb_ext(protocol, cdb2, command, features, count, lba_low, lba_mid,
            lba_high, device, prev_features, prev_count, prev_lba_low, prev_lba_mid,
            prev_lba_high),
{
    let cdb: [u8; 16] = [
        ATA_PT16_OPCODE,
        protocol * 2 + 1,
        cdb2,
        prev_features,
        features,
        prev_count,
        count,
        prev_lba_low,
        lba_low,
        prev_lba_mid,
        lba_mid,
        prev_lba_high,
        lba_high,
        device,
        command,
        0,
    ];
    proof {
        assert(cdb@ =~= spec_cdb_ext(protocol, cdb2, command, features, count, lba_low,
            lba_mid, lba_high, device, prev_features, prev_count, prev_lba_low,
            prev_lba_mid, prev_lba_high));
    }
    cdb
}

/// A 48-bit CDB always has the extend bit (bit 0 of byte 1) set, and each
/// register pair carries the "previous" byte immediately before the
/// "current" one, in the documented order.
pub proof fn lemma_cdb_ext_interleaving(
    protocol: u8,
    cdb2: u8,
    command: u8,
    features: u8,
    count: u8,
    lba_low: u8,
    lba_mid: u8,
    lba_high: u8,
    device: u8,
    prev_features: u8,
    prev_count: u8,
    prev_lba_low: u8,
    prev_lba_mid: u8,
    prev_lba_high: u8,
)
    requires
        protocol <= 7,
    ensures
        ({
            let cdb = spec_cdb_ext(protocol, cdb2, command, features, count, lba_low,
                lba_mid, lba_high, device, prev_features, prev_count, prev_lba_low,
                prev_lba_mid, prev_lba_high);
            &&& cdb.len() == 16
            &&& cdb[1] & 1 == 1
            &&& cdb[3] == prev_features && cdb[4] == features
            &&& cdb[5] == prev_count && cdb[6] == count
            &&& cdb[7] == prev_lba_low && cdb[8] == lba_low
            &&& cdb[9] == prev_lba_mid && cdb[10] == lba_mid
            &&& cdb[11] == prev_lba_high && cdb[12] == lba_high
        }),
{
    assert(((protocol * 2 + 1) as u8) & 1 == 1) by (bit_vector)
        requires
            protocol <= 7,
    ;
}

/// The ATA pass-through command set.  The struct carries no state: an open
/// handle lives with the unverified shell, which submits what these methods
/// build.
pub struct AtaDevice {}

impl AtaDevice {
    /// IDENTIFY DEVICE: command 0xEC, PIO data-in, one 512-byte sector.
    pub fn ata_identify(&self) -> (r: SgRequest)
        ensures
            spec_sg_framing(r),
            r.cdb@ == spec_cdb(4, 0x2E, 0xEC, 0, 1, 0, 0, 0, 0xE0),
            r.direction is FromDevice,
            r.data_len == 512,
            r.data_out@.len() == 0,
    {
        self.ata_read(0xEC, 0, 1, 0, 0, 0, 0xE0, 512)
    }

    /// A PIO data-in register command reading `data_len` bytes.
    pub fn ata_read(
        &self,
        command: u8,
        features: u8,
        count: u8,
        lba_low: u8,
        lba_mid: u8,
        lba_high: u8,
        device: u8,
        data_len: u32,
    ) -> (r: SgRequest)
        ensures
            spec_sg_framing(r),
            r.cdb@ == spec_cdb(4, 0x2E, command, features, count, lba_low, lba_mid,
                lba_high, device),
            r.direction is FromDevice,
            r.data_len == data_len,
            r.data_out@.len() == 0,
    {
        SgRequest {
            cdb: build_cdb(PROTO_PIO_DATA_IN, CDB2_READ, command, features, count, lba_low,
                lba_mid, lba_high, device),
            direction: SgDirection::FromDevice,
            data_out: Vec::new(),
            data_len,
            cmd_len: ATA_PT16_CDB_LEN,
            sense_len: SENSE_BUF_LEN,
            timeout_ms: TIMEOUT_MS,
        }
    }

    /// A DMA data-in register command reading `data_len` bytes.
    pub fn ata_dma_read(
        &self,
        command: u8,
        features: u8,
        count: u8,
        lba_low: u8,
        lba_mid: u8,
        lba_high: u8,
        device: u8,
        data_len: u32,
    ) -> (r: SgRequest)
        ensures
            spec_sg_framing(r),
            r.cdb@ == spec_cdb(6, 0x2E, command, features, count, lba_low, lba_mid,
                lba_high, device),
            r.direction is FromDevice,
            r.data_len == data_len,
            r.data_out@.len() == 0,
    {
        SgRequest {
            cdb: build_cdb(PROTO_DMA, CDB2_READ, command, features, count, lba_low,
                lba_mid, lba_high, device),
            direction: SgDirection::FromDevice,
            data_out: Vec::new(),
            data_len,
            cmd_len: ATA_PT16_CDB_LEN,
            sense_len: SENSE_BUF_LEN,
            timeout_ms: TIMEOUT_MS,
        }
    }

    /// A PIO data-out register command writing the given payload.
    pub fn ata_write(
        &self,
        command: u8,
        features: u8,
        count: u8,
        lba_low: u8,
        lba_mid: u8,
        lba_high: u8,
        device: u8,
        data: &[u8],
    ) -> (r: SgRequest)
        requires
            data@.len() <= u32::MAX,
        ensures
            spec_sg_framing(r),
            r.cdb@ == spec_cdb(5, 0x26, command, features, count, lba_low, lba_mid,
                lba_high, device),
            r.direction is ToDevice,
            r.data_out@ == data@,
            r.data_len == data@.len(),
    {
        SgRequest {
            cdb: build_cdb(PROTO_PIO_DATA_OUT, CDB2_WRITE, command, features, count,
                lba_low, lba_mid, lba_high, device),
            direction: SgDirection::ToDevice,
            data_len: data.len() as u32,
            data_out: vstd::slice::slice_to_vec(data),
            cmd_len: ATA_PT16_CDB_LEN,
            sense_len: SENSE_BUF_LEN,
            timeout_ms: TIMEOUT_MS,
        }
    }

    /// A non-data register command.
    pub fn ata_no_data(
        &self,
        command: u8,
        features: u8,
        count: u8,
        lba_low: u8,
        lba_mid: u8,
        lba_high: u8,
        device: u8,
    ) -> (r: SgRequest)
        ensures
            spec_sg_framing(r),
            r.cdb@ == spec_cdb(3, 0x20, command, features, count, lba_low, lba_mid,
                lba_high, device),
            r.direction is NoData,
            r.data_len == 0,
            r.data_out@.len() == 0,
    {
        SgRequest {
            cdb: build_cdb(PROTO_NON_DATA, CDB2_NON_DATA, command, features, count,
                lba_low, lba_mid, lba_high, device),
            direction: SgDirection::NoData,
            data_out: Vec::new(),
            data_len: 0,
            cmd_len: ATA_PT16_CDB_LEN,
            sense_len: SENSE_BUF_LEN,
            timeout_ms: TIMEOUT_MS,
        }
    }

    /// A 48-bit PIO data-in register command reading `data_len` bytes.
    pub fn ata_read_ext(
        &self,
        command: u8,
        features: u8,
        count: u8,
        lba_low: u8,
        lba_mid: u8,
        lba_high: u8,
        device: u8,
        prev_features: u8,
        prev_count: u8,
        prev_lba_low: u8,
        prev_lba_mid: u8,
        prev_lba_high: u8,
        data_len: u32,
    ) -> (r: SgRequest)
        ensures
            spec_sg_framing(r),
            r.cdb@ == spec_cdb_ext(4, 0x2E, command, features, count, lba_low, lba_mid,
                lba_high, device, prev_features, prev_count, prev_lba_low, prev_lba_mid,
                prev_lba_high),
            r.direction is FromDevice,
            r.data_len == data_len,
            r.data_out@.len() == 0,
    {
        SgRequest {
            cdb: build_cdb_ext(PROTO_PIO_DATA_IN, CDB2_READ, command, features, count,
                lba_low, lba_mid, lba_high, device, prev_features, prev_count,
                prev_lba_low, prev_lba_mid, prev_lba_high),
            direction: SgDirection::FromDevice,
            data_out: Vec::new(),
            data_len,
            cmd_len: ATA_PT16_CDB_LEN,
            sense_len: SENSE_BUF_LEN,
            timeout_ms: TIMEOUT_MS,
        }
    }

    /// A 48-bit non-data register command.
    pub fn ata_no_data_ext(
        &self,
        command: u8,
        features: u8,
        count: u8,
        lba_low: u8,
        lba_mid: u8,
        lba_high: u8,
        device: u8,
        prev_features: u8,
        prev_count: u8,
        prev_lba_low: u8,
        prev_lba_mid: u8,
        prev_lba_high: u8,
    ) -> (r: SgRequest)
        ensures
            spec_sg_framing(r),
            r.cdb@ == spec_cdb_ext(3, 0x20, command, features, count, lba_low, lba_mid,
                lba_high, device, prev_features, prev_count, prev_lba_low, prev_lba_mid,
                prev_lba_high),
            r.direction is NoData,
            r.data_len == 0,
            r.data_out@.len() == 0,
    {
        SgRequest {
            cdb: build_cdb_ext(PROTO_NON_DATA, CDB2_NON_DATA, command, features, count,
                lba_low, lba_mid, lba_high, device, prev_features, prev_count,
                prev_lba_low, prev_lba_mid, prev_lba_high),
            direction: SgDirection::NoData,
            data_out: Vec::new(),
            data_len: 0,
            cmd_len: ATA_PT16_CDB_LEN,
            sense_len: SENSE_BUF_LEN,
            timeout_ms: TIMEOUT_MS,
        }
    }
}

// ---------------------------------------------------------------------------
// Completion classification.
// ---------------------------------------------------------------------------

/// The raw completion of one SG_IO call, exactly as the driver left it.
pub struct SgReply {
    /// Whether the device-control call itself returned success.
    pub ioctl_ok: bool,
    /// OS error code if the call failed.
    pub errno: i32,
    /// Host adapter status.
    pub host_status: u16,
    /// Driver status.
    pub driver_status: u16,
    /// The sense bytes the driver wrote (`sb_len_wr` of them).
    pub sense: Vec<u8>,
    /// The transferred data.
    pub data: Vec<u8>,
}

/// A failure at or below the command level.
pub enum AtaError {
    /// The SG_IO device-control call itself failed.
    Ioctl { errno: i32 },
    /// Non-zero host status, or a driver status bit other than
    /// "driver sense present" (0x08, expected when check-condition is set).
    Status { host: u16, driver: u16 },
    /// The ATA status return descriptor flags the command as failed:
    /// carries the ATA status and error registers.
    Rejected { status: u8, error: u8 },
}

/// The sense data is descriptor format (0x72) and holds an ATA status
/// return descriptor (type 0x09, length 0x0C) at the documented offset.
pub open spec fn spec_sense_has_ata_descriptor(sense: Seq<u8>) -> bool {
    sense.len() >= 22 && sense[0] == 0x72u8 && sense[8] == 0x09u8 && sense[9] == 0x0Cu8
}

/// Classification of a raw completion, in order: the call itself failed;
/// fatal host/driver status; ATA status descriptor present with its error
/// bit set; otherwise success.  A missing descriptor counts as success even
/// when check-condition was requested — some controllers never populate it.
pub open spec fn spec_classify_sg(r: SgReply) -> Result<(), AtaError> {
    if !r.ioctl_ok {
        Err(AtaError::Ioctl { errno: r.errno })
    } else if r.host_status != 0 || (r.driver_status & 0xFFF7u16) != 0 {
        Err(AtaError::Status { host: r.host_status, driver: r.driver_status })
    } else if spec_sense_has_ata_descriptor(r.sense@) && (r.sense@[21] & 0x01u8) != 0 {
        Err(AtaError::Rejected { status: r.sense@[21], error: r.sense@[11] })
    } else {
        Ok(())
    }
}

/// Classify one raw SG_IO completion.
pub fn classify_sg_reply(r: &SgReply) -> (res: Result<(), AtaError>)
    ensures
        res == spec_classify_sg(*r),
{
    if !r.ioctl_ok {
        return Err(AtaError::Ioctl { errno: r.errno });
    }
    if r.host_status != 0 || (r.driver_status & 0xFFF7u16) != 0 {
        return Err(AtaError::Status { host: r.host_status, driver: r.driver_status });
    }
    if r.sense.len() >= 22 && r.sense[0] == 0x72 && r.sense[8] == 0x09 && r.sense[9]
        == 0x0C {
        let status = r.sense[21];
        let error = r.sense[11];
        if status & 0x01 != 0 {
            return Err(AtaError::Rejected { status, error });
        }
    }
    Ok(())
}

/// Classify a completion and hand back the transferred data on success.
pub fn ata_complete(r: SgReply) -> (res: Result<Vec<u8>, AtaError>)
    ensures
        spec_classify_sg(r) is Ok ==> (res matches Ok(d) && d@ == r.data@),
        spec_classify_sg(r) is Err ==> (res matches Err(e) && Err::<(), AtaError>(e)
            == spec_classify_sg(r)),
{
    match classify_sg_reply(&r) {
        Ok(()) => Ok(r.data),
        Err(e) => Err(e),
    }
}

// ---------------------------------------------------------------------------
// IDENTIFY DEVICE parsing.
// ---------------------------------------------------------------------------

/// Swap each adjacent byte pair: ATA text fields store each 16-bit word
/// with the high byte first.
pub open spec fn spec_swab(s: Seq<u8>) -> Seq<u8> {
    Seq::new(s.len(), |i: int| if i % 2 == 0 { s[i + 1] } else { s[i - 1] })
}

/// The decoded form of a raw ATA text field: swap the byte pairs, replace
/// non-printable bytes with spaces, and trim.
pub open spec fn spec_ata_text(raw: Seq<u8>) -> Seq<char> {
    text::spec_chars(text::spec_trim(text::spec_clean(spec_swab(raw))))
}

/// Swap adjacent byte pairs.
fn swab_bytes(raw: &[u8]) -> (r: Vec<u8>)
    requires
        raw@.len() % 2 == 0,
    ensures
        r@ == spec_swab(raw@),
{
    let mut out: Vec<u8> = Vec::new();
    let mut i: usize = 0;
    while i + 1 < raw.len()
        invariant
            raw@.len() % 2 == 0,
            i <= raw.len(),
            i % 2 == 0,
            out@.len() == i,
            forall|j: int| 0 <= j < i ==> out@[j] == spec_swab(raw@)[j],
        decreases raw.len() - i,
    {
        out.push(raw[i + 1]);
        out.push(raw[i]);
        i += 2;
    }
    proof {
        assert(out@ =~= spec_swab(raw@));
    }
    out
}

/// Decode one 16-bit-swapped ATA text field.
pub fn ata_string_trim(raw: &[u8]) -> (r: String)
    requires
        raw@.len() % 2 == 0,
    ensures
        r@ == spec_ata_text(raw@),
{
    let swapped = swab_bytes(raw);
    text::clean_trimmed_string(swapped.as_slice())
}

/// The text fields of an IDENTIFY DEVICE response.
pub struct AtaIdentify {
    pub model: String,
    pub serial: String,
    pub firmware: String,
}

/// Decode the serial (words 10-19), firmware (words 23-26) and model
/// (words 27-46) fields of a 512-byte IDENTIFY DEVICE response.
pub fn parse_ata_identify(data: &[u8]) -> (r: AtaIdentify)
    requires
        data@.len() == 512,
    ensures
        r.serial@ == spec_ata_text(data@.subrange(20, 40)),
        r.firmware@ == spec_ata_text(data@.subrange(46, 54)),
        r.model@ == spec_ata_text(data@.subrange(54, 94)),
{
    let serial = ata_string_trim(&data[20..40]);
    let firmware = ata_string_trim(&data[46..54]);
    let model = ata_string_trim(&data[54..94]);
    AtaIdentify { model, serial, firmware }
}

/// A short description of an OS error code from the device-control path.
pub open spec fn spec_errno_text(errno: int) -> Seq<char> {
    if errno == 13 {
        "permission denied"@
    } else if errno == 2 {
        "no such file or directory"@
    } else if errno == 16 {
        "device busy"@
    } else if errno == 5 {
        "i/o error"@
    } else if errno == 22 {
        "invalid argument"@
    } else if errno == 25 {
        "inappropriate ioctl for device"@
    } else if errno == 12 {
        "out of memory"@
    } else if errno == 1 {
        "operation not permitted"@
    } else if errno == 19 {
        "no such device"@
    } else {
        "unknown error"@
    }
}

/// Render an OS error code from the device-control path.
pub fn errno_text(errno: i32) -> (r: String)
    ensures
        r@ == spec_errno_text(errno as int),
{
    if errno == 13 {
        String::from_str("permission denied")
    } else if errno == 2 {
        String::from_str("no such file or directory")
    } else if errno == 16 {
        String::from_str("device busy")
    } else if errno == 5 {
        String::from_str("i/o error")
    } else if errno == 22 {
        String::from_str("invalid argument")
    } else if errno == 25 {
        String::from_str("inappropriate ioctl for device")
    } else if errno == 12 {
        String::from_str("out of memory")
    } else if errno == 1 {
        String::from_str("operation not permitted")
    } else if errno == 19 {
        String::from_str("no such device")
    } else {
        String::from_str("unknown error")
    }
}

} // verus!
