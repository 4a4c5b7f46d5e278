//! SMART (Self-Monitoring, Analysis and Reporting Technology) attribute parsing.

use vstd::prelude::*;

verus! {

/// A summary of a drive's SMART health.
#[derive(Debug, Clone, Copy, PartialEq, Eq, Structural)]
pub struct SmartData {
    /// Overall SMART self-assessment: true = PASSED, false = FAILED
    pub overall_health: bool,
    /// Drive temperature in Celsius (if available)
    pub temperature_celsius: Option<u8>,
    /// Reallocated sector count (non-zero indicates physical damage)
    pub reallocated_sectors: u64,
    /// Total power-on hours
    pub power_on_hours: u64,
    /// Pending sector count (sectors waiting to be reallocated)
    pub pending_sectors: u64,
    /// Uncorrectable sector count
    pub uncorrectable_sectors: u64,
}

impl SmartData {
    /// Returns a human-readable health label.
    pub fn health_label(&self) -> (r: &'static str)
        ensures
            r@ == (if self.overall_health { "PASSED"@ } else { "FAILED"@ }),
    {
        if self.overall_health {
            "PASSED"
        } else {
            "FAILED"
        }
    }
}

/// Number of 12-byte attribute slots scanned in the SMART data block.
pub const SMART_SLOTS: usize = 30;

/// The attribute id in slot `k` (the table starts at offset 2).
pub open spec fn slot_id(data: Seq<u8>, k: int) -> u8 {
    data[2 + 12 * k]
}

/// The low 16 bits of the little-endian raw value of slot `k`
/// (raw value bytes start 5 bytes into the slot).
pub open spec fn slot_word(data: Seq<u8>, k: int) -> u64 {
    (data[7 + 12 * k] as int + 256 * (data[8 + 12 * k] as int)) as u64
}

/// The low byte of the raw value of slot `k`.
pub open spec fn slot_low_byte(data: Seq<u8>, k: int) -> u8 {
    data[7 + 12 * k]
}

/// The 16-bit raw value of the last slot among the first `n` whose id is
/// `id`, or 0 when none has it.
pub open spec fn last_word_with_id(data: Seq<u8>, id: u8, n: nat) -> u64
    decreases n,
{
    if n == 0 {
        0
    } else if slot_id(data, n - 1) == id {
        slot_word(data, n - 1)
    } else {
        last_word_with_id(data, id, (n - 1) as nat)
    }
}

/// Ids whose raw low byte is read as a temperature.
pub open spec fn is_temperature_id(id: u8) -> bool {
    id == 0xC2u8 || id == 0xF0u8 || id == 0xE7u8
}

/// The temperature from the last slot among the first `n` with a
/// temperature id, if any.
pub open spec fn last_temperature(data: Seq<u8>, n: nat) -> Option<u8>
    decreases n,
{
    if n == 0 {
        None
    } else if is_temperature_id(slot_id(data, n - 1)) {
        Some(slot_low_byte(data, n - 1))
    } else {
        last_temperature(data, (n - 1) as nat)
    }
}

/// What a raw 512-byte SMART data block says: too short a block reports a
/// failed drive with no readings; otherwise the last slot of each attribute
/// (0x05 reallocated, 0xC5 pending, 0xC6 uncorrectable, 0x09 power-on hours,
/// 0xC2/0xF0/0xE7 temperature) wins, and the drive passes when nothing is
/// reallocated or uncorrectable and fewer than 100 sectors are pending.
pub open spec fn smart_of(data: Seq<u8>) -> SmartData {
    if data.len() < 512 {
        SmartData {
            overall_health: false,
            temperature_celsius: None,
            reallocated_sectors: 0,
            power_on_hours: 0,
            pending_sectors: 0,
            uncorrectable_sectors: 0,
        }
    } else {
        let n = SMART_SLOTS as nat;
        let realloc = last_word_with_id(data, 0x05, n);
        let pending = last_word_with_id(data, 0xC5, n);
        let uncorrectable = last_word_with_id(data, 0xC6, n);
        SmartData {
            overall_health: realloc == 0 && uncorrectable == 0 && pending < 100,
            temperature_celsius: last_temperature(data, n),
            reallocated_sectors: realloc,
            power_on_hours: last_word_with_id(data, 0x09, n),
            pending_sectors: pending,
            uncorrectable_sectors: uncorrectable,
        }
    }
}

/// A drive passes only on a full block, and then exactly when it reports
/// no reallocated and no uncorrectable sectors and fewer than 100 pending
/// ones: a single reallocated or uncorrectable sector, or 100 pending, fail
/// it.
pub proof fn lemma_smart_health(data: Seq<u8>)
    ensures
        smart_of(data).overall_health <==> (data.len() >= 512 && smart_of(data).reallocated_sectors == 0
            && smart_of(data).uncorrectable_sectors == 0 && smart_of(data).pending_sectors < 100),
        smart_of(data).uncorrectable_sectors > 0 ==> !smart_of(data).overall_health,
        smart_of(data).reallocated_sectors > 0 ==> !smart_of(data).overall_health,
        smart_of(data).pending_sectors >= 100 ==> !smart_of(data).overall_health,
{
}

/// Each reading is the little-endian 16-bit raw value (bytes 5 and 6 of the
/// 12-byte slot) of the last of the first 30 attribute slots that carries its
/// id, and 0 when no slot carries it.
pub proof fn lemma_smart_reading(data: Seq<u8>, id: u8, k: int, n: nat)
    requires
        0 <= k < n,
        slot_id(data, k) == id,
        forall|j: int| k < j < n ==> slot_id(data, j) != id,
    ensures
        last_word_with_id(data, id, n) == (data[2 + 12 * k + 5] as int + 256 * (data[2 + 12 * k + 6] as int)) as u64,
    decreases n,
{
    if n - 1 != k {
        lemma_smart_reading(data, id, k, (n - 1) as nat);
    }
}

/// An id that no slot among the first `n` carries reads as 0.
pub proof fn lemma_smart_absent(data: Seq<u8>, id: u8, n: nat)
    requires
        forall|j: int| 0 <= j < n ==> slot_id(data, j) != id,
    ensures
        last_word_with_id(data, id, n) == 0,
    decreases n,
{
    if n > 0 {
        lemma_smart_absent(data, id, (n - 1) as nat);
    }
}

/// Slot `k` is the last of the 30 attribute slots that carries `id`.
pub open spec fn last_slot_with(data: Seq<u8>, id: u8, k: int) -> bool {
    &&& 0 <= k < 30
    &&& data[2 + 12 * k] == id
    &&& forall|j: int| k < j < 30 ==> #[trigger] slot_id(data, j) != id
}

/// No attribute slot carries `id`.
pub open spec fn no_slot_with(data: Seq<u8>, id: u8) -> bool {
    forall|j: int| 0 <= j < 30 ==> #[trigger] slot_id(data, j) != id
}

/// Which attribute each reading of a full block comes from: reallocated
/// sectors from 0x05, pending from 0xC5, uncorrectable from 0xC6 and
/// power-on hours from 0x09, each the little-endian 16-bit raw value of
/// the last slot with that id, or 0 when no slot has it.
pub proof fn lemma_smart_fields(data: Seq<u8>, k: int)
    requires
        data.len() >= 512,
    ensures
        last_slot_with(data, 0x05, k) ==> smart_of(data).reallocated_sectors
            == (data[12 * k + 7] as int + 256 * (data[12 * k + 8] as int)) as u64,
        last_slot_with(data, 0xC5, k) ==> smart_of(data).pending_sectors
            == (data[12 * k + 7] as int + 256 * (data[12 * k + 8] as int)) as u64,
        last_slot_with(data, 0xC6, k) ==> smart_of(data).uncorrectable_sectors
            == (data[12 * k + 7] as int + 256 * (data[12 * k + 8] as int)) as u64,
        last_slot_with(data, 0x09, k) ==> smart_of(data).power_on_hours
            == (data[12 * k + 7] as int + 256 * (data[12 * k + 8] as int)) as u64,
        no_slot_with(data, 0x05) ==> smart_of(data).reallocated_sectors == 0,
        no_slot_with(data, 0xC5) ==> smart_of(data).pending_sectors == 0,
        no_slot_with(data, 0xC6) ==> smart_of(data).uncorrectable_sectors == 0,
        no_slot_with(data, 0x09) ==> smart_of(data).power_on_hours == 0,
{
    let ids = seq![0x05u8, 0xC5u8, 0xC6u8, 0x09u8];
    assert forall|t: int| 0 <= t < 4 implies {
        let id = #[trigger] ids[t];
        &&& last_slot_with(data, id, k) ==> last_word_with_id(data, id, 30)
            == (data[12 * k + 7] as int + 256 * (data[12 * k + 8] as int)) as u64
        &&& no_slot_with(data, id) ==> last_word_with_id(data, id, 30) == 0
    } by {
        let id = ids[t];
        if last_slot_with(data, id, k) {
            lemma_smart_reading(data, id, k, 30);
        }
        if no_slot_with(data, id) {
            lemma_smart_absent(data, id, 30);
        }
    }
    assert(ids[0] == 0x05u8 && ids[1] == 0xC5u8 && ids[2] == 0xC6u8 && ids[3] == 0x09u8);
}

/// The temperature of a full block is the low raw byte of the last slot
/// carrying one of the temperature ids 0xC2, 0xF0 or 0xE7, and absent when
/// none does; a block shorter than 512 bytes fails the drive with every
/// reading at zero and no temperature.
pub proof fn lemma_smart_temperature(data: Seq<u8>, k: int)
    ensures
        data.len() >= 512 && 0 <= k < 30
            && (data[2 + 12 * k] == 0xC2u8 || data[2 + 12 * k] == 0xF0u8 || data[2 + 12 * k] == 0xE7u8)
            && (forall|j: int| k < j < 30 ==> !(#[trigger] slot_id(data, j) == 0xC2u8 || slot_id(data, j) == 0xF0u8
                || slot_id(data, j) == 0xE7u8))
            ==> smart_of(data).temperature_celsius == Some(data[12 * k + 7]),
        data.len() >= 512 && (forall|j: int| 0 <= j < 30 ==> !(#[trigger] slot_id(data, j) == 0xC2u8
            || slot_id(data, j) == 0xF0u8 || slot_id(data, j) == 0xE7u8))
            ==> smart_of(data).temperature_celsius is None,
        data.len() < 512 ==> {
            let r = smart_of(data);
            &&& !r.overall_health && r.temperature_celsius is None
            &&& r.reallocated_sectors == 0 && r.power_on_hours == 0 && r.pending_sectors == 0
                && r.uncorrectable_sectors == 0
        },
{
    if data.len() >= 512 && 0 <= k < 30 && is_temperature_id(slot_id(data, k))
        && (forall|j: int| k < j < 30 ==> !is_temperature_id(#[trigger] slot_id(data, j))) {
        lemma_last_temperature(data, k, 30);
    }
    if data.len() >= 512 && (forall|j: int| 0 <= j < 30 ==> !is_temperature_id(#[trigger] slot_id(data, j))) {
        lemma_no_temperature(data, 30);
    }
}

proof fn lemma_last_temperature(data: Seq<u8>, k: int, n: nat)
    requires
        0 <= k < n,
        is_temperature_id(slot_id(data, k)),
        forall|j: int| k < j < n ==> !is_temperature_id(#[trigger] slot_id(data, j)),
    ensures
        last_temperature(data, n) == Some(slot_low_byte(data, k)),
    decreases n,
{
    if n - 1 != k {
        lemma_last_temperature(data, k, (n - 1) as nat);
    }
}

proof fn lemma_no_temperature(data: Seq<u8>, n: nat)
    requires
        forall|j: int| 0 <= j < n ==> !is_temperature_id(#[trigger] slot_id(data, j)),
    ensures
        last_temperature(data, n) is None,
    decreases n,
{
    if n > 0 {
        lemma_no_temperature(data, (n - 1) as nat);
    }
}

/// Parse a raw 512-byte SMART data blob into `SmartData`.
pub fn parse_smart_data(data: &[u8]) -> (r: SmartData)
    ensures
        r == smart_of(data@),
        r.overall_health <==> (data@.len() >= 512 && r.reallocated_sectors == 0 && r.uncorrectable_sectors == 0
            && r.pending_sectors < 100),
{
    if data.len() < 512 {
        return SmartData {
            overall_health: false,
            temperature_celsius: None,
            reallocated_sectors: 0,
            power_on_hours: 0,
            pending_sectors: 0,
            uncorrectable_sectors: 0,
        };
    }
    let mut temperature: Option<u8> = None;
    let mut reallocated_sectors: u64 = 0;
    let mut power_on_hours: u64 = 0;
    let mut pending_sectors: u64 = 0;
    let mut uncorrectable_sectors: u64 = 0;
    let mut i: usize = 0;
    while i < SMART_SLOTS
        invariant
            i <= SMART_SLOTS,
            data@.len() >= 512,
            reallocated_sectors == last_word_with_id(data@, 0x05, i as nat),
            pending_sectors == last_word_with_id(data@, 0xC5, i as nat),
            uncorrectable_sectors == last_word_with_id(data@, 0xC6, i as nat),
            power_on_hours == last_word_with_id(data@, 0x09, i as nat),
            temperature == last_temperature(data@, i as nat),
        decreases SMART_SLOTS - i,
    {
        let offset = 2 + i * 12;
        let id = data[offset];
        let word: u64 = data[offset + 5] as u64 + 256 * (data[offset + 6] as u64);
        let low = data[offset + 5];
        if id == 0x05 {
            reallocated_sectors = word;
        } else if id == 0xC5 {
            pending_sectors = word;
        } else if id == 0xC6 {
            uncorrectable_sectors = word;
        } else if id == 0xC2 || id == 0xF0 || id == 0xE7 {
            temperature = Some(low);
        } else if id == 0x09 {
            power_on_hours = word;
        }
        i += 1;
    }
    let overall_health = reallocated_sectors == 0 && uncorrectable_sectors == 0
        && pending_sectors < 100;
    SmartData {
        overall_health,
        temperature_celsius: temperature,
        reallocated_sectors,
        power_on_hours,
        pending_sectors,
        uncorrectable_sectors,
    }
}

/// The `HDIO_DRIVE_CMD` buffer that asks a drive for its SMART data: the
/// SMART command (0xB0), one sector, the READ DATA feature (0xD0), sector
/// number 1, then room for the 512-byte reply.
pub fn smart_command_buffer() -> (b: Vec<u8>)
    ensures
        b@.len() == 516,
        b@[0] == 0xB0,
        b@[1] == 1,
        b@[2] == 0xD0,
        b@[3] == 1,
        forall|i: int| 4 <= i < 516 ==> b@[i] == 0,
{
    let mut b: Vec<u8> = Vec::new();
    b.push(0xB0);
    b.push(1);
    b.push(0xD0);
    b.push(1);
    for i in 4..516usize
        invariant
            b@.len() == i,
            b@[0] == 0xB0,
            b@[1] == 1,
            b@[2] == 0xD0,
            b@[3] == 1,
            forall|k: int| 4 <= k < i ==> b@[k] == 0,
    {
        b.push(0);
    }
    b
}

/// The SMART data of a drive from the command buffer after the ioctl
/// (`None` when the device could not be opened or the ioctl failed): the
/// reply follows the 4-byte header.
pub fn read_smart(reply: Option<&[u8]>) -> (r: Option<SmartData>)
    requires
        reply matches Some(b) ==> b@.len() >= 4,
    ensures
        r == match reply {
            Some(b) => Some(smart_of(b@.skip(4))),
            None => None,
        },
{
    match reply {
        None => None,
        Some(buf) => {
            let mut data: Vec<u8> = Vec::new();
            let mut i: usize = 4;
            while i < buf.len()
                invariant
                    4 <= i <= buf@.len(),
                    data@ == buf@.subrange(4, i as int),
                decreases buf@.len() - i,
            {
                data.push(buf[i]);
                i += 1;
            }
            assert(data@ =~= buf@.skip(4));
            Some(parse_smart_data(&data))
        },
    }
}

} // verus!
