//! The command packet codec: a sixteen-byte report with typed field
//! accessors, an embedded checksum, and an offset-guarded byte-pair writer.
//!
//! Report layout (big-endian where multi-byte):
//!
//! | offset    | field            | width |
//! |-----------|------------------|-------|
//! | 0x0       | id               | 1     |
//! | 0x1       | status           | 1     |
//! | 0x2..=0x3 | eeprom address   | 2     |
//! | 0x4       | valid data len   | 1     |
//! | 0x5..=0xe | payload          | 10    |
//! | 0xf       | checksum         | 1     |

use vstd::prelude::*;
use crate::checksum::{byte_sum, checksum_of, checksum_valid, complement_byte, with_checksum};
use crate::checksum::lemma_with_checksum_valid;

verus! {

/// Length in bytes of every report handled by this codec.
pub const PACKET_LEN: usize = 16;

/// Default minimum payload offset writable through `set_byte_pair`.
pub const DEFAULT_BASE_OFFSET: usize = 0x5;

/// Default per-command-type constant folded into the checksum.
pub const DEFAULT_REPORT_ID: u8 = 0x8;

/// A command identifier, carried in the first byte of a report. The byte
/// conversion is total in both directions: every byte is a valid identifier.
#[derive(Clone, Copy, Debug, PartialEq, Eq, Structural)]
pub struct CommandId {
    pub byte: u8,
}

impl From<u8> for CommandId {
    fn from(byte: u8) -> (r: CommandId) {
        CommandId { byte }
    }
}

impl vstd::std_specs::convert::FromSpecImpl<u8> for CommandId {
    open spec fn obeys_from_spec() -> bool {
        true
    }

    open spec fn from_spec(byte: u8) -> CommandId {
        CommandId { byte }
    }
}

/// A sixteen-bit EEPROM address, carried big-endian at offsets 0x2..=0x3.
/// The integer conversion is total in both directions.
#[derive(Clone, Copy, Debug, PartialEq, Eq, Structural)]
pub struct EEPROMAddress {
    pub value: u16,
}

impl From<u16> for EEPROMAddress {
    fn from(value: u16) -> (r: EEPROMAddress) {
        EEPROMAddress { value }
    }
}

impl vstd::std_specs::convert::FromSpecImpl<u16> for EEPROMAddress {
    open spec fn obeys_from_spec() -> bool {
        true
    }

    open spec fn from_spec(value: u16) -> EEPROMAddress {
        EEPROMAddress { value }
    }
}

/// Why a byte-pair write was rejected.
#[derive(Clone, Copy, Debug, PartialEq, Eq, Structural)]
pub enum ErrorKind {
    /// The offset is below the configured base offset and would overwrite a
    /// header field or a reserved region.
    OffsetTooLow,
    /// The offset leaves no room for the paired byte inside the report.
    OffsetTooHigh,
}

/// A command packet: a sixteen-byte report owned by the codec, together with
/// the two per-command-type constants — the minimum writable payload offset
/// and the report id folded into the checksum. All mutation goes through the
/// codec's operations.
///
/// Command variants differ only in their two constants, so each variant is a
/// value of this one type carrying its own configuration; values of distinct
/// variants can therefore be stored and dispatched uniformly with no erasure.
pub struct Command {
    raw: Vec<u8>,
    base_offset: usize,
    report_id: u8,
}

impl View for Command {
    type V = Seq<u8>;

    closed spec fn view(&self) -> Seq<u8> {
        self.raw@
    }
}

impl Command {
    /// The configured minimum writable payload offset.
    pub closed spec fn spec_base_offset(&self) -> usize {
        self.base_offset
    }

    /// The configured report id.
    pub closed spec fn spec_report_id(&self) -> u8 {
        self.report_id
    }

    /// The report keeps its fixed length for the lifetime of the packet.
    pub open spec fn wf(&self) -> bool {
        self@.len() == PACKET_LEN
    }

    /// Wraps a fully-formed report (typically zero-filled, or copied from a
    /// received report) with the given per-command-type constants.
    pub fn new(raw: Vec<u8>, base_offset: usize, report_id: u8) -> (c: Command)
        requires
            raw@.len() == PACKET_LEN,
        ensures
            c.wf(),
            c@ == raw@,
            c.spec_base_offset() == base_offset,
            c.spec_report_id() == report_id,
    {
        Command { raw, base_offset, report_id }
    }

    /// The configured minimum writable payload offset.
    pub fn base_offset(&self) -> (r: usize)
        ensures
            r == self.spec_base_offset(),
    {
        self.base_offset
    }

    /// The configured report id.
    pub fn report_id(&self) -> (r: u8)
        ensures
            r == self.spec_report_id(),
    {
        self.report_id
    }

    /// The checksum of the current report contents, as stored by
    /// `set_checksum`.
    fn compute_checksum(&self) -> (r: u8)
        requires
            self.wf(),
        ensures
            r == checksum_of(self@, self.spec_report_id()),
    {
        let mut sum: u16 = self.report_id as u16;
        let mut i: usize = 0;
        while i < 15
            invariant
                i <= 15,
                self.wf(),
                sum == self.spec_report_id() + byte_sum(self@, i as int),
                sum <= 255 + 255 * i,
            decreases 15 - i,
        {
            sum = sum + (self.raw[i] as u16);
            i = i + 1;
        }
        let masked: u8 = (sum & 0xff) as u8;
        proof {
            assert(sum & 0xff == sum % 256) by (bit_vector);
        }
        0x55u8.wrapping_sub(masked)
    }

    /// Recomputes the checksum over the first fifteen bytes and stores it in
    /// the final byte. Every field setter calls this as its last step.
    pub fn set_checksum(&mut self)
        requires
            old(self).wf(),
        ensures
            final(self).wf(),
            final(self).spec_base_offset() == old(self).spec_base_offset(),
            final(self).spec_report_id() == old(self).spec_report_id(),
            final(self)@ == with_checksum(old(self)@, old(self).spec_report_id()),
            checksum_valid(final(self)@, final(self).spec_report_id()),
    {
        let ck = self.compute_checksum();
        self.raw.set(PACKET_LEN - 1, ck);
        proof {
            lemma_with_checksum_valid(old(self)@, old(self).spec_report_id());
        }
    }

    /// Decodes the identifier byte at offset 0x0. Total: every byte maps to
    /// an identifier, so unrecognized values are passed through rather than
    /// rejected.
    pub fn id(&self) -> (r: CommandId)
        requires
            self.wf(),
        ensures
            r.byte == self@[0],
    {
        CommandId { byte: self.raw[0] }
    }

    /// Writes the identifier byte at offset 0x0, then restores the checksum.
    pub fn set_id(&mut self, id: CommandId)
        requires
            old(self).wf(),
        ensures
            final(self).wf(),
            final(self).spec_base_offset() == old(self).spec_base_offset(),
            final(self).spec_report_id() == old(self).spec_report_id(),
            final(self)@ == with_checksum(
                old(self)@.update(0, id.byte),
                old(self).spec_report_id(),
            ),
            checksum_valid(final(self)@, final(self).spec_report_id()),
    {
        self.raw.set(0x0, id.byte);
        self.set_checksum();
    }

    /// The status byte at offset 0x1, verbatim.
    pub fn status(&self) -> (r: u8)
        requires
            self.wf(),
        ensures
            r == self@[1],
    {
        self.raw[0x1]
    }

    /// Writes the status byte at offset 0x1, then restores the checksum.
    pub fn set_status(&mut self, status: u8)
        requires
            old(self).wf(),
        ensures
            final(self).wf(),
            final(self).spec_base_offset() == old(self).spec_base_offset(),
            final(self).spec_report_id() == old(self).spec_report_id(),
            final(self)@ == with_checksum(
                old(self)@.update(1, status),
                old(self).spec_report_id(),
            ),
            checksum_valid(final(self)@, final(self).spec_report_id()),
    {
        self.raw.set(0x1, status);
        self.set_checksum();
    }

    /// Decodes the big-endian sixteen-bit address at offsets 0x2..=0x3.
    pub fn eeprom_address(&self) -> (r: EEPROMAddress)
        requires
            self.wf(),
        ensures
            r.value == self@[2] * 256 + self@[3],
    {
        let hi = self.raw[0x2];
        let lo = self.raw[0x3];
        EEPROMAddress { value: (hi as u16) * 256 + (lo as u16) }
    }

    /// Writes the address big-endian at offsets 0x2..=0x3, then restores the
    /// checksum.
    pub fn set_eeprom_address(&mut self, address: EEPROMAddress)
        requires
            old(self).wf(),
        ensures
            final(self).wf(),
            final(self).spec_base_offset() == old(self).spec_base_offset(),
            final(self).spec_report_id() == old(self).spec_report_id(),
            final(self)@ == with_checksum(
                old(self)@.update(2, (address.value / 256) as u8).update(
                    3,
                    (address.value % 256) as u8,
                ),
                old(self).spec_report_id(),
            ),
            checksum_valid(final(self)@, final(self).spec_report_id()),
    {
        let hi: u8 = (address.value / 256) as u8;
        let lo: u8 = (address.value % 256) as u8;
        self.raw.set(0x2, hi);
        self.raw.set(0x3, lo);
        self.set_checksum();
    }

    /// The count of meaningful payload bytes at offset 0x4, verbatim.
    pub fn valid_data_len(&self) -> (r: u8)
        requires
            self.wf(),
        ensures
            r == self@[4],
    {
        self.raw[0x4]
    }

    /// Writes the count of meaningful payload bytes at offset 0x4, then
    /// restores the checksum.
    pub fn set_valid_data_len(&mut self, len: u8)
        requires
            old(self).wf(),
        ensures
            final(self).wf(),
            final(self).spec_base_offset() == old(self).spec_base_offset(),
            final(self).spec_report_id() == old(self).spec_report_id(),
            final(self)@ == with_checksum(
                old(self)@.update(4, len),
                old(self).spec_report_id(),
            ),
            checksum_valid(final(self)@, final(self).spec_report_id()),
    {
        self.raw.set(0x4, len);
        self.set_checksum();
    }

    /// Writes `value` at `offset` and its complement `0x55 - value` (with
    /// eight-bit wraparound) at `offset + 1`, after checking the offset
    /// against the configured base offset and the report bounds. On success
    /// the whole-packet checksum is deliberately *not* recomputed: payload
    /// bytes carry this local parity marker instead. Whether that asymmetry
    /// is intended by the device protocol is an open question; it is
    /// preserved here exactly.
    pub fn set_byte_pair(&mut self, value: u8, offset: usize) -> (r: Result<(), ErrorKind>)
        requires
            old(self).wf(),
        ensures
            final(self).wf(),
            final(self).spec_base_offset() == old(self).spec_base_offset(),
            final(self).spec_report_id() == old(self).spec_report_id(),
            offset < old(self).spec_base_offset() ==> {
                &&& r == Err::<(), ErrorKind>(ErrorKind::OffsetTooLow)
                &&& final(self)@ == old(self)@
            },
            offset >= old(self).spec_base_offset() && offset >= 15 ==> {
                &&& r == Err::<(), ErrorKind>(ErrorKind::OffsetTooHigh)
                &&& final(self)@ == old(self)@
            },
            old(self).spec_base_offset() <= offset < 15 ==> {
                &&& r == Ok::<(), ErrorKind>(())
                &&& final(self)@ == old(self)@.update(offset as int, value).update(
                    offset + 1,
                    complement_byte(value),
                )
            },
    {
        if offset < self.base_offset {
            return Err(ErrorKind::OffsetTooLow);
        }
        if offset >= self.raw.len() - 1 {
            return Err(ErrorKind::OffsetTooHigh);
        }
        self.raw.set(offset, value);
        let pair = 0x55u8.wrapping_sub(value);
        self.raw.set(offset + 0x1, pair);
        Ok(())
    }

    /// A read-only view of the full sixteen-byte report, for transmission.
    pub fn as_bytes(&self) -> (r: &[u8])
        ensures
            r@ == self@,
    {
        self.raw.as_slice()
    }

    /// The stored checksum byte. Reads the final byte verbatim; it does not
    /// recompute anything.
    pub fn checksum(&self) -> (r: u8)
        requires
            self.wf(),
        ensures
            r == self@[15],
    {
        self.raw[15]
    }
}

/// Law: writing the identifier and restoring the checksum leaves the
/// identifier byte in place, so `set_id(id)` followed by `id()` returns `id`.
pub proof fn lemma_id_round_trip(s: Seq<u8>, id: CommandId, report_id: u8)
    requires
        s.len() == 16,
    ensures
        with_checksum(s.update(0, id.byte), report_id)[0] == id.byte,
{
}

/// Law: writing the status and restoring the checksum leaves the status byte
/// in place, so `set_status(v)` followed by `status()` returns `v`.
pub proof fn lemma_status_round_trip(s: Seq<u8>, status: u8, report_id: u8)
    requires
        s.len() == 16,
    ensures
        with_checksum(s.update(1, status), report_id)[1] == status,
{
}

/// Law: writing the address big-endian and restoring the checksum leaves both
/// address bytes in place, and reading them back big-endian recombines to the
/// address written, so `set_eeprom_address(a)` followed by `eeprom_address()`
/// returns `a`.
pub proof fn lemma_eeprom_address_round_trip(s: Seq<u8>, address: EEPROMAddress, report_id: u8)
    requires
        s.len() == 16,
    ensures
        ({
            let t = with_checksum(
                s.update(2, (address.value / 256) as u8).update(3, (address.value % 256) as u8),
                report_id,
            );
            t[2] * 256 + t[3] == address.value
        }),
{
}

/// Law: writing the valid-data length and restoring the checksum leaves its
/// byte in place, so `set_valid_data_len(n)` followed by `valid_data_len()`
/// returns `n`.
pub proof fn lemma_valid_data_len_round_trip(s: Seq<u8>, len: u8, report_id: u8)
    requires
        s.len() == 16,
    ensures
        with_checksum(s.update(4, len), report_id)[4] == len,
{
}

} // verus!
