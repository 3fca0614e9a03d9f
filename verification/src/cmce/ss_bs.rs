//! Supplementary services: individual, call-unrelated dynamic group number
//! assignment (DGNA).
//!
//! Each facility PDU carries exactly one DGNA PDU.
use crate::bitbuffer::BitBuffer;
use crate::bluestation::subscribers::SubscriberRegistry;
use crate::net_swmi::worker::SwmiMessageKind;
use crate::store::Store;
use crate::table::Key;
use vstd::prelude::*;

verus! {

/// The code of DGNA among the supplementary services.
pub const SS_DGNA: u64 = 22;

/// The codes of the DGNA PDUs.
pub const ASSIGN: u64 = 7;

pub const ASSIGN_ACK: u64 = 8;

pub const DEASSIGN: u64 = 9;

pub const DEASSIGN_ACK: u64 = 10;

pub const INTERROGATE_MS_GROUPS: u64 = 17;

pub const INTERROGATE_MS_GROUPS_ACK: u64 = 18;

/// What the SwMI can ask for.
pub const ACTION_ASSIGN: u8 = 1;

pub const ACTION_DEASSIGN: u8 = 2;

pub const ACTION_INTERROGATE: u8 = 3;

/// A command of the SwMI.
#[derive(Debug)]
pub struct DgnaCommand {
    pub job_id: u64,
    pub itsi: u64,
    pub action: u8,
    pub gssi: Option<u32>,
    pub name: Option<String>,
}

impl View for DgnaCommand {
    type V = DgnaCommand;

    open spec fn view(&self) -> DgnaCommand {
        *self
    }
}

/// A group as a terminal reports it.
#[derive(Debug, Clone, Copy, PartialEq, Eq, Structural)]
pub struct DgnaObservedGroup {
    pub gssi: u32,
    pub status: u8,
}

/// What a command is known by until the terminal answers.
#[derive(Debug, Clone, Copy, PartialEq, Eq, Structural)]
pub struct DgnaKey {
    pub issi: u32,
    pub action: u8,
    pub gssi: Option<u32>,
}

impl Key for DgnaKey {
    fn same(&self, other: &Self) -> (r: bool) {
        *self == *other
    }
}

/// A command that the terminal has not answered completely.
#[derive(Debug)]
pub struct PendingDgna {
    pub job_id: u64,
    pub groups: Vec<DgnaObservedGroup>,
    pub next_sequence: Option<u8>,
}

/// The model of a command that waits.
#[verifier::ext_equal]
pub ghost struct PendingView {
    pub job_id: u64,
    pub groups: Seq<DgnaObservedGroup>,
    pub next_sequence: Option<u8>,
}

impl View for PendingDgna {
    type V = PendingView;

    open spec fn view(&self) -> PendingView {
        PendingView {
            job_id: self.job_id,
            groups: self.groups@,
            next_sequence: self.next_sequence,
        }
    }
}

/// A message that the sub-entity hands on.
#[derive(Debug)]
pub enum SsMessage {
    /// D-FACILITY to the terminal, acknowledged.
    Facility { issi: u32, ss_pdu: Vec<u8>, ss_pdu_bits: u16 },
    /// The outcome of a command, to the SwMI.
    Outcome {
        job_id: u64,
        itsi: u64,
        action: u8,
        success: bool,
        cause: u8,
        groups: Vec<DgnaObservedGroup>,
    },
}

/// The model of a message. A facility is modelled by the bits of its bytes and
/// by how many of them count.
pub ghost enum SsMessageView {
    Facility { issi: u32, bits: Seq<bool>, count: nat },
    Outcome {
        job_id: u64,
        itsi: u64,
        action: u8,
        success: bool,
        cause: u8,
        groups: Seq<DgnaObservedGroup>,
    },
}

/// The first `n` bits of some bytes.
pub open spec fn leading_bits(bytes: Seq<u8>, n: nat) -> Seq<bool> {
    Seq::new(n, |i: int| crate::bitbuffer::byte_bit(bytes, i))
}

/// Some bits, filled up with zeros to whole bytes.
pub open spec fn padded(bits: Seq<bool>) -> Seq<bool> {
    Seq::new(((bits.len() + 7) / 8 * 8) as nat, |i: int| i < bits.len() && bits[i])
}

impl View for SsMessage {
    type V = SsMessageView;

    open spec fn view(&self) -> SsMessageView {
        match self {
            SsMessage::Facility { issi, ss_pdu, ss_pdu_bits } => SsMessageView::Facility {
                issi: *issi,
                bits: leading_bits(ss_pdu@, ss_pdu@.len() * 8),
                count: *ss_pdu_bits as nat,
            },
            SsMessage::Outcome { job_id, itsi, action, success, cause, groups } =>
                SsMessageView::Outcome {
                    job_id: *job_id,
                    itsi: *itsi,
                    action: *action,
                    success: *success,
                    cause: *cause,
                    groups: groups@,
                },
        }
    }
}

/// The models of a queue of messages.
pub open spec fn ss_messages(queue: Seq<SsMessage>) -> Seq<SsMessageView> {
    queue.map_values(|message: SsMessage| message@)
}

/// A group name in one byte per character, if it can be: one to fifteen
/// characters, each within the Latin-1 repertoire.
pub open spec fn mnemonic(name: Seq<char>) -> Option<Seq<u8>> {
    if 1 <= name.len() <= 15 && forall|i: int| 0 <= i < name.len() ==> (#[trigger] name[i]) as u32
        <= 255 {
        Some(Seq::new(name.len(), |i: int| name[i] as u8))
    } else {
        None
    }
}

/// A group name in one byte per character.
pub fn encode_mnemonic_name(name: &str) -> (bytes: Option<Vec<u8>>)
    ensures
        match bytes {
            Some(list) => mnemonic(name@) == Some(list@),
            None => mnemonic(name@) is None,
        },
{
    let len: usize = name.unicode_len();
    if len == 0 || len > 15 {
        return None;
    }
    let mut bytes: Vec<u8> = Vec::new();
    let mut i: usize = 0;
    while i < len
        invariant
            i <= len,
            len == name@.len(),
            bytes@.len() == i,
            forall|j: int| 0 <= j < i ==> (#[trigger] name@[j]) as u32 <= 255,
            forall|j: int| 0 <= j < i ==> #[trigger] bytes@[j] == name@[j] as u8,
        decreases len - i,
    {
        let code: u32 = name.get_char(i) as u32;
        if code > 255 {
            assert(name@[i as int] as u32 > 255);
            return None;
        }
        bytes.push(code as u8);
        i = i + 1;
    }
    assert(bytes@ =~= mnemonic(name@)->0);
    Some(bytes)
}

/// The bits of bytes, one after the other.
pub open spec fn byte_digits(bytes: Seq<u8>) -> Seq<bool>
    decreases bytes.len(),
{
    if bytes.len() == 0 {
        Seq::empty()
    } else {
        byte_digits(bytes.drop_last()) + crate::bitbuffer::digits(bytes.last() as nat, 8)
    }
}

/// The element with a group name, after the bit that says that it is there.
pub open spec fn name_element(name: Option<Seq<u8>>) -> Seq<bool> {
    match name {
        Some(bytes) => seq![true] + crate::bitbuffer::digits(1, 7) + crate::bitbuffer::digits(
            bytes.len() * 8,
            8,
        ) + byte_digits(bytes),
        None => seq![false],
    }
}

/// The PDU that assigns a group: attached permanently, of the normal class of
/// usage, with acknowledgement.
pub open spec fn assign_bits(gssi: u32, name: Option<Seq<u8>>) -> Seq<bool> {
    crate::bitbuffer::digits(SS_DGNA as nat, 6) + crate::bitbuffer::digits(ASSIGN as nat, 5)
        + crate::bitbuffer::digits(1, 5) + crate::bitbuffer::digits(gssi as nat, 24)
        + crate::bitbuffer::digits(0, 1) + crate::bitbuffer::digits(0, 3) + seq![true] + seq![true]
        + crate::bitbuffer::digits(0, 3) + name_element(name) + seq![false] + seq![false]
        + seq![false] + seq![true] + seq![false]
}

/// The PDU that takes a group away, with acknowledgement.
pub open spec fn deassign_bits(gssi: u32) -> Seq<bool> {
    crate::bitbuffer::digits(SS_DGNA as nat, 6) + crate::bitbuffer::digits(DEASSIGN as nat, 5)
        + crate::bitbuffer::digits(1, 5) + crate::bitbuffer::digits(gssi as nat, 24) + seq![false]
        + seq![true] + seq![false]
}

/// The PDU that asks for up to a hundred assigned groups.
pub open spec fn interrogate_bits() -> Seq<bool> {
    crate::bitbuffer::digits(SS_DGNA as nat, 6) + crate::bitbuffer::digits(
        INTERROGATE_MS_GROUPS as nat,
        5,
    ) + crate::bitbuffer::digits(1, 3) + crate::bitbuffer::digits(10, 7) + seq![false]
}

/// The PDU of a command, if there is one.
pub open spec fn dgna_bits(action: u8, gssi: Option<u32>, name: Option<Seq<char>>) -> Option<
    Seq<bool>,
> {
    if action == ACTION_ASSIGN {
        match (gssi, name) {
            (None, _) => None,
            (Some(group), None) => Some(assign_bits(group, None)),
            (Some(group), Some(text)) => match mnemonic(text) {
                Some(bytes) => Some(assign_bits(group, Some(bytes))),
                None => None,
            },
        }
    } else if action == ACTION_DEASSIGN {
        match gssi {
            Some(group) => Some(deassign_bits(group)),
            None => None,
        }
    } else if action == ACTION_INTERROGATE {
        Some(interrogate_bits())
    } else {
        None
    }
}

fn write_name(buffer: &mut BitBuffer, name: &Option<Vec<u8>>)
    requires
        old(buffer)@.pos == old(buffer)@.bits.len(),
        old(buffer)@.bits.len() <= 1000,
        name is Some ==> name->0@.len() <= 15,
    ensures
        final(buffer)@ == old(buffer)@.appended(
            name_element(
                match name {
                    Some(bytes) => Some(bytes@),
                    None => None,
                },
            ),
        ),
        final(buffer)@.bits.len() <= old(buffer)@.bits.len() + 136,
        final(buffer)@.pos == final(buffer)@.bits.len(),
{
    let ghost before = buffer@;
    match name {
        None => {
            buffer.write_bit(false);
        },
        Some(bytes) => {
            let len: usize = bytes.len();
            buffer.write_bit(true);
            buffer.write_bits(1, 7);
            buffer.write_bits((len * 8) as u64, 8);
            let ghost head = buffer@.bits;
            let mut i: usize = 0;
            assert(head + byte_digits(bytes@.take(0)) =~= head);
            while i < len
                invariant
                    i <= len,
                    len == bytes@.len(),
                    len <= 15,
                    head.len() <= 1016,
                    buffer@.pos == buffer@.bits.len(),
                    buffer@.bits.len() == head.len() + i * 8,
                    buffer@.bits == head + byte_digits(bytes@.take(i as int)),
                decreases len - i,
            {
                let ghost so_far = buffer@.bits;
                proof {
                    assert(bytes@.take(i + 1).drop_last() =~= bytes@.take(i as int));
                    assert(bytes@.take(i + 1).last() == bytes@[i as int]);
                }
                buffer.write_bits(bytes[i] as u64, 8);
                assert(buffer@.bits =~= head + byte_digits(bytes@.take(i + 1)));
                i = i + 1;
            }
            assert(bytes@.take(len as int) =~= bytes@);
            assert(buffer@.bits =~= before.bits + name_element(Some(bytes@)));
        },
    }
}

/// The PDU of a command, as bytes and a number of bits.
pub fn encode_dgna(action: u8, gssi: Option<u32>, name: &Option<String>) -> (pdu: Option<
    (Vec<u8>, u16),
>)
    ensures
        ({
            let wanted = dgna_bits(
                action,
                gssi,
                match name {
                    Some(text) => Some(text@),
                    None => None,
                },
            );
            match pdu {
                Some((bytes, n)) => {
                    &&& wanted == Some(leading_bits(bytes@, n as nat))
                    &&& bytes@.len() == (n + 7) / 8
                    &&& leading_bits(bytes@, bytes@.len() * 8) == padded(wanted->0)
                },
                None => wanted is None,
            }
        }),
{
    let mut buffer: BitBuffer = BitBuffer::empty();
    buffer.write_bits(SS_DGNA, 6);
    if action == ACTION_ASSIGN {
        let group: u32 = match gssi {
            Some(group) => group,
            None => return None,
        };
        let encoded: Option<Vec<u8>> = match name {
            Some(text) => match encode_mnemonic_name(text.as_str()) {
                Some(bytes) => Some(bytes),
                None => return None,
            },
            None => None,
        };
        buffer.write_bits(ASSIGN, 5);
        buffer.write_bits(1, 5);
        buffer.write_bits(group as u64, 24);
        buffer.write_bits(0, 1);
        buffer.write_bits(0, 3);
        buffer.write_bit(true);
        buffer.write_bit(true);
        buffer.write_bits(0, 3);
        write_name(&mut buffer, &encoded);
        buffer.write_bit(false);
        buffer.write_bit(false);
        buffer.write_bit(false);
        buffer.write_bit(true);
        buffer.write_bit(false);
        assert(buffer@.bits =~= assign_bits(
            group,
            match encoded {
                Some(bytes) => Some(bytes@),
                None => None,
            },
        ));
    } else if action == ACTION_DEASSIGN {
        let group: u32 = match gssi {
            Some(group) => group,
            None => return None,
        };
        buffer.write_bits(DEASSIGN, 5);
        buffer.write_bits(1, 5);
        buffer.write_bits(group as u64, 24);
        buffer.write_bit(false);
        buffer.write_bit(true);
        buffer.write_bit(false);
        assert(buffer@.bits =~= deassign_bits(group));
    } else if action == ACTION_INTERROGATE {
        buffer.write_bits(INTERROGATE_MS_GROUPS, 5);
        buffer.write_bits(1, 3);
        buffer.write_bits(10, 7);
        buffer.write_bit(false);
        assert(buffer@.bits =~= interrogate_bits());
    } else {
        return None;
    }
    let n: u16 = buffer.get_len() as u16;
    let bytes: Vec<u8> = buffer.to_bytes();
    assert(leading_bits(bytes@, n as nat) =~= buffer@.bits);
    assert(leading_bits(bytes@, bytes@.len() * 8) =~= padded(buffer@.bits));
    Some((bytes, n))
}

/// The answer of a terminal.
#[derive(Debug)]
pub struct DecodedDgna {
    pub action: u8,
    pub success: bool,
    pub cause: u8,
    pub gssi: Option<u32>,
    pub groups: Vec<DgnaObservedGroup>,
    pub complete: bool,
    pub sequence: Option<u8>,
}

/// The model of an answer.
#[verifier::ext_equal]
pub ghost struct DecodedView {
    pub action: u8,
    pub success: bool,
    pub cause: u8,
    pub gssi: Option<u32>,
    pub groups: Seq<DgnaObservedGroup>,
    pub complete: bool,
    pub sequence: Option<u8>,
}

impl View for DecodedDgna {
    type V = DecodedView;

    open spec fn view(&self) -> DecodedView {
        DecodedView {
            action: self.action,
            success: self.success,
            cause: self.cause,
            gssi: self.gssi,
            groups: self.groups@,
            complete: self.complete,
            sequence: self.sequence,
        }
    }
}

/// The number in the `n` bits from `pos` on.
pub open spec fn field(bits: Seq<bool>, pos: int, n: int) -> nat {
    crate::bitbuffer::number(bits.subrange(pos, pos + n))
}

/// The answer to an assignment: one group without extension, its result, its
/// attachment, and no optional fields. A result of one is success.
pub open spec fn assign_answer(bits: Seq<bool>, end: int) -> Option<DecodedView> {
    if end != 45 || field(bits, 11, 5) != 1 || field(bits, 40, 1) != 0 || field(bits, 44, 1) != 0 {
        None
    } else {
        Some(
            DecodedView {
                action: ACTION_ASSIGN,
                success: field(bits, 41, 2) == 1,
                cause: field(bits, 41, 2) as u8,
                gssi: Some(field(bits, 16, 24) as u32),
                groups: Seq::empty(),
                complete: true,
                sequence: None,
            },
        )
    }
}

/// The answer to taking a group away, laid out alike; it succeeds only if it is
/// complete.
pub open spec fn deassign_answer(bits: Seq<bool>, end: int) -> Option<DecodedView> {
    if end != 45 || field(bits, 11, 5) != 1 || field(bits, 40, 1) != 0 || field(bits, 44, 1) != 0 {
        None
    } else {
        Some(
            DecodedView {
                action: ACTION_DEASSIGN,
                success: field(bits, 41, 2) == 1 && field(bits, 43, 1) != 0,
                cause: field(bits, 41, 2) as u8,
                gssi: Some(field(bits, 16, 24) as u32),
                groups: Seq::empty(),
                complete: field(bits, 43, 1) != 0,
                sequence: None,
            },
        )
    }
}

/// Whether the first `n` groups from `pos` on have no extension.
pub open spec fn groups_plain(bits: Seq<bool>, pos: int, n: nat) -> bool {
    forall|i: int| 0 <= i < n ==> #[trigger] group_plain(bits, pos, i)
}

/// Whether group `i` from `pos` on has no extension.
pub open spec fn group_plain(bits: Seq<bool>, pos: int, i: int) -> bool {
    field(bits, pos + 28 * i + 24, 1) == 0
}

/// The first `n` groups from `pos` on.
pub open spec fn groups_at(bits: Seq<bool>, pos: int, n: nat) -> Seq<DgnaObservedGroup> {
    Seq::new(
        n,
        |i: int|
            DgnaObservedGroup {
                gssi: field(bits, pos + 28 * i, 24) as u32,
                status: field(bits, pos + 28 * i + 25, 3) as u8,
            },
    )
}

/// The answer to an interrogation: the kind of groups, the result, whether it is
/// complete, and optionally groups and the number of the part.
pub open spec fn interrogate_answer(bits: Seq<bool>, end: int) -> Option<DecodedView> {
    let result = field(bits, 14, 3) as u8;
    let complete = field(bits, 17, 1) != 0;
    if field(bits, 11, 3) != 1 {
        None
    } else if field(bits, 18, 1) == 0 {
        if end != 19 {
            None
        } else {
            Some(
                DecodedView {
                    action: ACTION_INTERROGATE,
                    success: result == 1,
                    cause: result,
                    gssi: None,
                    groups: Seq::empty(),
                    complete,
                    sequence: None,
                },
            )
        }
    } else {
        let counted = field(bits, 19, 1) != 0;
        let count = if counted {
            field(bits, 20, 5)
        } else {
            0
        };
        let after = if counted {
            25 + 28 * count as int
        } else {
            20int
        };
        let numbered = field(bits, after, 1) != 0;
        let rest = if numbered {
            after + 7
        } else {
            after + 1
        };
        if end != rest + 2 || !groups_plain(bits, 25, count) || field(bits, rest, 1) != 0 || field(
            bits,
            rest + 1,
            1,
        ) != 0 {
            None
        } else {
            Some(
                DecodedView {
                    action: ACTION_INTERROGATE,
                    success: result == 1,
                    cause: result,
                    gssi: None,
                    groups: groups_at(bits, 25, count),
                    complete,
                    sequence: if numbered {
                        Some(field(bits, after + 1, 6) as u8)
                    } else {
                        None
                    },
                },
            )
        }
    }
}

/// The answer in a facility PDU of `n` bits, if there is one.
pub open spec fn dgna_answer(raw: Seq<u8>, n: u16) -> Option<DecodedView> {
    let bits = leading_bits(raw, raw.len() * 8);
    if raw.len() * 8 < n || n < 12 || field(bits, 0, 6) != SS_DGNA {
        None
    } else if field(bits, 6, 5) == ASSIGN_ACK {
        assign_answer(bits, n as int)
    } else if field(bits, 6, 5) == DEASSIGN_ACK {
        deassign_answer(bits, n as int)
    } else if field(bits, 6, 5) == INTERROGATE_MS_GROUPS_ACK {
        interrogate_answer(bits, n as int)
    } else {
        None
    }
}

fn decode_acknowledgement(buffer: &mut BitBuffer, n: u16) -> (answer: Option<(u32, u8, bool)>)
    requires
        old(buffer)@.pos == 11,
        n <= old(buffer)@.bits.len(),
    ensures
        ({
            let bits = old(buffer)@.bits;
            match answer {
                Some((gssi, result, flag)) => {
                    &&& n == 45
                    &&& field(bits, 11, 5) == 1
                    &&& field(bits, 40, 1) == 0
                    &&& field(bits, 44, 1) == 0
                    &&& gssi == field(bits, 16, 24) as u32
                    &&& result == field(bits, 41, 2) as u8
                    &&& field(bits, 41, 2) < 4
                    &&& flag == (field(bits, 43, 1) != 0)
                },
                None => n != 45 || field(bits, 11, 5) != 1 || field(bits, 40, 1) != 0 || field(
                    bits,
                    44,
                    1,
                ) != 0,
            }
        }),
{
    let ghost bits = buffer@.bits;
    let count: u64 = match buffer.read_bits(5) {
        Some(count) => count,
        None => return None,
    };
    if count != 1 {
        return None;
    }
    let gssi: u64 = match buffer.read_bits(24) {
        Some(gssi) => gssi,
        None => return None,
    };
    match buffer.read_bits(1) {
        Some(extension) => if extension != 0 {
            return None;
        },
        None => return None,
    }
    let result: u64 = match buffer.read_bits(2) {
        Some(result) => result,
        None => return None,
    };
    proof {
        crate::bitbuffer::law_digits_are_read_back(bits.subrange(41, 43));
        vstd::arithmetic::power2::lemma2_to64();
    }
    let flag: u64 = match buffer.read_bits(1) {
        Some(flag) => flag,
        None => return None,
    };
    match buffer.read_bits(1) {
        Some(optional) => if optional != 0 {
            return None;
        },
        None => return None,
    }
    if buffer.get_pos() != n as usize {
        return None;
    }
    Some(
        (
            #[verifier::truncate] (gssi as u32),
            #[verifier::truncate] (result as u8),
            flag != 0,
        ),
    )
}

fn decode_groups(buffer: &mut BitBuffer, count: u64) -> (groups: Option<Vec<DgnaObservedGroup>>)
    requires
        old(buffer)@.pos == 25,
        count < 32,
    ensures
        final(buffer)@.bits == old(buffer)@.bits,
        match groups {
            Some(list) => {
                &&& list@ == groups_at(old(buffer)@.bits, 25, count as nat)
                &&& groups_plain(old(buffer)@.bits, 25, count as nat)
                &&& final(buffer)@.pos == 25 + 28 * count
            },
            None => !groups_plain(old(buffer)@.bits, 25, count as nat) || 25 + 28 * count > old(buffer)@.bits.len(),
        },
{
    let ghost bits = buffer@.bits;
    let mut list: Vec<DgnaObservedGroup> = Vec::new();
    let mut i: u64 = 0;
    while i < count
        invariant
            i <= count < 32,
            bits == old(buffer)@.bits,
            buffer@.bits == bits,
            buffer@.pos == 25 + 28 * i,
            list@ == groups_at(bits, 25, i as nat),
            groups_plain(bits, 25, i as nat),
        decreases count - i,
    {
        let gssi: u64 = match buffer.read_bits(24) {
            Some(gssi) => gssi,
            None => return None,
        };
        match buffer.read_bits(1) {
            Some(extension) => if extension != 0 {
                assert(!group_plain(bits, 25, i as int));
                return None;
            },
            None => return None,
        }
        assert(group_plain(bits, 25, i as int));
        let status: u64 = match buffer.read_bits(3) {
            Some(status) => status,
            None => return None,
        };
        list.push(
            DgnaObservedGroup {
                gssi: #[verifier::truncate] (gssi as u32),
                status: #[verifier::truncate] (status as u8),
            },
        );
        i = i + 1;
        assert(list@ =~= groups_at(bits, 25, i as nat));
    }
    Some(list)
}

fn read_flag(buffer: &mut BitBuffer) -> (flag: Option<bool>)
    ensures
        final(buffer)@.bits == old(buffer)@.bits,
        match flag {
            Some(set) => {
                &&& old(buffer)@.pos + 1 <= old(buffer)@.bits.len()
                &&& set == (field(old(buffer)@.bits, old(buffer)@.pos, 1) != 0)
                &&& final(buffer)@.pos == old(buffer)@.pos + 1
            },
            None => old(buffer)@.pos + 1 > old(buffer)@.bits.len(),
        },
{
    match buffer.read_bits(1) {
        Some(value) => Some(value != 0),
        None => None,
    }
}

fn decode_interrogate_ack(buffer: &mut BitBuffer, n: u16) -> (answer: Option<DecodedDgna>)
    requires
        old(buffer)@.pos == 11,
        n <= old(buffer)@.bits.len(),
    ensures
        match answer {
            Some(decoded) => interrogate_answer(old(buffer)@.bits, n as int) == Some(decoded@),
            None => interrogate_answer(old(buffer)@.bits, n as int) is None,
        },
{
    let ghost bits = buffer@.bits;
    match buffer.read_bits(3) {
        Some(kind) => if kind != 1 {
            return None;
        },
        None => return None,
    }
    let result: u64 = match buffer.read_bits(3) {
        Some(result) => result,
        None => return None,
    };
    let complete: bool = match read_flag(buffer) {
        Some(complete) => complete,
        None => return None,
    };
    let optional: bool = match read_flag(buffer) {
        Some(optional) => optional,
        None => return None,
    };
    let cause: u8 = #[verifier::truncate] (result as u8);
    let mut groups: Vec<DgnaObservedGroup> = Vec::new();
    let mut sequence: Option<u8> = None;
    assert(groups@ =~= groups_at(bits, 25, 0));
    assert(groups@ =~= Seq::empty());
    if optional {
        let counted: bool = match read_flag(buffer) {
            Some(counted) => counted,
            None => return None,
        };
        if counted {
            let count: u64 = match buffer.read_bits(5) {
                Some(count) => count,
                None => return None,
            };
            proof {
                crate::bitbuffer::law_digits_are_read_back(bits.subrange(20, 25));
                vstd::arithmetic::power2::lemma2_to64();
            }
            groups = match decode_groups(buffer, count) {
                Some(groups) => groups,
                None => return None,
            };
        }
        let numbered: bool = match read_flag(buffer) {
            Some(numbered) => numbered,
            None => return None,
        };
        if numbered {
            sequence = match buffer.read_bits(6) {
                Some(number) => Some(#[verifier::truncate] (number as u8)),
                None => return None,
            };
        }
        match read_flag(buffer) {
            Some(affected) => if affected {
                return None;
            },
            None => return None,
        }
        match read_flag(buffer) {
            Some(more) => if more {
                return None;
            },
            None => return None,
        }
    }
    if buffer.get_pos() != n as usize {
        return None;
    }
    Some(
        DecodedDgna {
            action: ACTION_INTERROGATE,
            success: cause == 1,
            cause,
            gssi: None,
            groups,
            complete,
            sequence,
        },
    )
}

/// The answer in a facility PDU of `n` bits.
pub fn decode_dgna(raw: &Vec<u8>, n: u16) -> (answer: Option<DecodedDgna>)
    requires
        raw@.len() * 8 <= usize::MAX,
    ensures
        match answer {
            Some(decoded) => dgna_answer(raw@, n) == Some(decoded@),
            None => dgna_answer(raw@, n) is None,
        },
{
    if raw.len() * 8 < n as usize || n < 12 {
        return None;
    }
    let mut buffer: BitBuffer = BitBuffer::from_bytes(raw);
    let ghost bits = buffer@.bits;
    assert(bits =~= leading_bits(raw@, raw@.len() * 8));
    match buffer.read_bits(6) {
        Some(service) => if service != SS_DGNA {
            return None;
        },
        None => return None,
    }
    let kind: u64 = match buffer.read_bits(5) {
        Some(kind) => kind,
        None => return None,
    };
    if kind == ASSIGN_ACK {
        match decode_acknowledgement(&mut buffer, n) {
            Some((gssi, result, _)) => {
                let decoded = DecodedDgna {
                    action: ACTION_ASSIGN,
                    success: result == 1,
                    cause: result,
                    gssi: Some(gssi),
                    groups: Vec::new(),
                    complete: true,
                    sequence: None,
                };
                assert(decoded.groups@ =~= Seq::empty());
                Some(decoded)
            },
            None => None,
        }
    } else if kind == DEASSIGN_ACK {
        match decode_acknowledgement(&mut buffer, n) {
            Some((gssi, result, complete)) => {
                let decoded = DecodedDgna {
                    action: ACTION_DEASSIGN,
                    success: result == 1 && complete,
                    cause: result,
                    gssi: Some(gssi),
                    groups: Vec::new(),
                    complete,
                    sequence: None,
                };
                assert(decoded.groups@ =~= Seq::empty());
                Some(decoded)
            },
            None => None,
        }
    } else if kind == INTERROGATE_MS_GROUPS_ACK {
        decode_interrogate_ack(&mut buffer, n)
    } else {
        None
    }
}

/// The state of the sub-entity with what surrounds it.
#[verifier::ext_equal]
pub ghost struct SsRun {
    pub pending: Seq<(DgnaKey, PendingView)>,
    pub deferred: Seq<(u64, DgnaCommand)>,
    pub queue: Seq<SsMessageView>,
    /// Whether there is a SwMI that takes messages.
    pub submits: bool,
}

/// Whether a terminal has had its registration response.
pub open spec fn is_ready(
    registry: crate::bluestation::subscribers::RegistryView,
    issi: u32,
) -> bool {
    registry.is_active(issi) && !registry.is_pending(issi)
}

/// The commands among those deferred whose terminal is ready.
pub open spec fn ready_jobs(
    deferred: Seq<(u64, DgnaCommand)>,
    registry: crate::bluestation::subscribers::RegistryView,
) -> Seq<u64>
    decreases deferred.len(),
{
    if deferred.len() == 0 {
        Seq::empty()
    } else {
        let before = ready_jobs(deferred.drop_last(), registry);
        let (job, command) = deferred.last();
        if command.itsi <= u32::MAX && is_ready(registry, command.itsi as u32) {
            before.push(job)
        } else {
            before
        }
    }
}

impl SsRun {
    /// With a message handed on.
    pub open spec fn pushed(self, message: SsMessageView) -> SsRun {
        SsRun { queue: self.queue.push(message), ..self }
    }

    /// With the outcome of a command reported.
    pub open spec fn reported(
        self,
        job_id: u64,
        issi: u32,
        action: u8,
        success: bool,
        cause: u8,
        groups: Seq<DgnaObservedGroup>,
    ) -> SsRun {
        if self.submits {
            self.pushed(
                SsMessageView::Outcome {
                    job_id,
                    itsi: issi as u64,
                    action,
                    success,
                    cause,
                    groups,
                },
            )
        } else {
            self
        }
    }

    /// A command of the SwMI. It must not overtake the response to the
    /// registration of its terminal, and waits for it.
    pub open spec fn commanded(
        self,
        registry: crate::bluestation::subscribers::RegistryView,
        command: DgnaCommand,
    ) -> SsRun {
        if command.itsi > 0x00ff_ffff {
            self
        } else {
            let issi = command.itsi as u32;
            if !is_ready(registry, issi) {
                SsRun {
                    deferred: crate::table::put(self.deferred, command.job_id, command),
                    ..self
                }
            } else {
                match dgna_bits(
                    command.action,
                    command.gssi,
                    match command.name {
                        Some(text) => Some(text@),
                        None => None,
                    },
                ) {
                    None => self.reported(
                        command.job_id,
                        issi,
                        command.action,
                        false,
                        0,
                        Seq::empty(),
                    ),
                    Some(bits) => SsRun {
                        pending: crate::table::put(
                            self.pending,
                            DgnaKey { issi, action: command.action, gssi: command.gssi },
                            PendingView {
                                job_id: command.job_id,
                                groups: Seq::empty(),
                                next_sequence: None,
                            },
                        ),
                        ..self
                    }.pushed(
                        SsMessageView::Facility { issi, bits: padded(bits), count: bits.len() },
                    ),
                }
            }
        }
    }

    /// With a deferred command carried out.
    pub open spec fn resumed(
        self,
        registry: crate::bluestation::subscribers::RegistryView,
        job: u64,
    ) -> SsRun {
        match crate::table::lookup(self.deferred, job) {
            Some(command) => SsRun {
                deferred: crate::table::del(self.deferred, job),
                ..self
            }.commanded(registry, command),
            None => self,
        }
    }

    /// With deferred commands carried out.
    pub open spec fn all_resumed(
        self,
        registry: crate::bluestation::subscribers::RegistryView,
        jobs: Seq<u64>,
    ) -> SsRun
        decreases jobs.len(),
    {
        if jobs.len() == 0 {
            self
        } else {
            self.all_resumed(registry, jobs.drop_last()).resumed(registry, jobs.last())
        }
    }

    /// Without a command that waited, and its outcome reported.
    pub open spec fn settled(
        self,
        key: DgnaKey,
        success: bool,
        cause: u8,
        groups: Seq<DgnaObservedGroup>,
    ) -> SsRun {
        SsRun { pending: crate::table::del(self.pending, key), ..self }.reported(
            crate::table::lookup(self.pending, key)->0.job_id,
            key.issi,
            key.action,
            success,
            cause,
            groups,
        )
    }

    /// An answer of a terminal. The parts of an interrogation must come in
    /// order; the groups of all parts are reported together.
    pub open spec fn answered(self, issi: u32, decoded: DecodedView) -> SsRun {
        let key = DgnaKey { issi, action: decoded.action, gssi: decoded.gssi };
        match crate::table::lookup(self.pending, key) {
            None => self,
            Some(pending) => if decoded.action != ACTION_INTERROGATE {
                self.settled(key, decoded.success, decoded.cause, decoded.groups)
            } else {
                let expected = match pending.next_sequence {
                    Some(next) => next,
                    None => 1,
                };
                let in_turn = match decoded.sequence {
                    Some(sequence) => sequence == expected,
                    None => pending.next_sequence is None,
                };
                let groups = pending.groups + decoded.groups;
                if !in_turn {
                    self.settled(key, false, 0, Seq::empty())
                } else if decoded.complete {
                    self.settled(key, decoded.success, decoded.cause, groups)
                } else {
                    SsRun {
                        pending: crate::table::put(
                            self.pending,
                            key,
                            PendingView {
                                job_id: pending.job_id,
                                groups,
                                next_sequence: if decoded.sequence is Some {
                                    if expected < 255 {
                                        Some((expected + 1) as u8)
                                    } else {
                                        Some(255)
                                    }
                                } else {
                                    pending.next_sequence
                                },
                            },
                        ),
                        ..self
                    }
                }
            },
        }
    }
}

/// What the sub-entity sees and reaches.
pub struct SsPort {
    pub queue: Vec<SsMessage>,
    /// Whether there is a SwMI that takes messages.
    pub submits: bool,
}

impl SsPort {
    fn push(&mut self, message: SsMessage)
        ensures
            final(self).submits == old(self).submits,
            ss_messages(final(self).queue@) == ss_messages(old(self).queue@).push(message@),
    {
        let ghost before = self.queue@;
        self.queue.push(message);
        assert(ss_messages(self.queue@) =~= ss_messages(before).push(message@));
    }
}

/// The supplementary services sub-entity.
pub struct SsBsSubentity {
    pending: Store<DgnaKey, PendingDgna>,
    /// Commands whose terminal still waits for its registration response.
    deferred: Store<u64, DgnaCommand>,
}

impl SsBsSubentity {
    /// The commands that the terminals have not answered.
    pub closed spec fn pending_view(&self) -> Seq<(DgnaKey, PendingView)> {
        self.pending@
    }

    /// The commands that are deferred.
    pub closed spec fn deferred_view(&self) -> Seq<(u64, DgnaCommand)> {
        self.deferred@
    }

    /// No command stands twice.
    pub open spec fn wf(&self) -> bool {
        crate::table::distinct(self.pending_view()) && crate::table::distinct(self.deferred_view())
    }

    /// The state with what surrounds it.
    pub open spec fn run(&self, port: SsPort) -> SsRun {
        SsRun {
            pending: self.pending_view(),
            deferred: self.deferred_view(),
            queue: ss_messages(port.queue@),
            submits: port.submits,
        }
    }

    /// No command waits.
    pub fn new() -> (ss: Self)
        ensures
            ss.wf(),
            ss.pending_view() == Seq::<(DgnaKey, PendingView)>::empty(),
            ss.deferred_view() == Seq::<(u64, DgnaCommand)>::empty(),
    {
        SsBsSubentity { pending: Store::new(), deferred: Store::new() }
    }

    /// Whether a message of the SwMI is for this sub-entity.
    #[verifier::allow_in_spec]
    pub fn is_swmi_action(kind: SwmiMessageKind) -> bool
        returns
            (kind == SwmiMessageKind::DgnaCommand),
    {
        kind == SwmiMessageKind::DgnaCommand
    }

    /// A command of the SwMI.
    pub fn handle_swmi_action(
        &mut self,
        port: &mut SsPort,
        subscribers: &SubscriberRegistry,
        command: DgnaCommand,
    )
        requires
            old(self).wf(),
        ensures
            final(self).wf(),
            final(self).run(*final(port)) == old(self).run(*old(port)).commanded(
                subscribers@,
                command,
            ),
    {
        if command.itsi > 0x00ff_ffff {
            return;
        }
        let issi: u32 = command.itsi as u32;
        if !terminal_ready_for_dgna(subscribers, issi) {
            self.deferred.insert(command.job_id, command);
            return;
        }
        match encode_dgna(command.action, command.gssi, &command.name) {
            None => {
                let groups: Vec<DgnaObservedGroup> = Vec::new();
                assert(groups@ =~= Seq::empty());
                self.send_result(port, command.job_id, issi, command.action, false, 0, groups);
            },
            Some((ss_pdu, ss_pdu_bits)) => {
                let pending = PendingDgna {
                    job_id: command.job_id,
                    groups: Vec::new(),
                    next_sequence: None,
                };
                assert(pending@.groups =~= Seq::empty());
                self.pending.insert(
                    DgnaKey { issi, action: command.action, gssi: command.gssi },
                    pending,
                );
                port.push(SsMessage::Facility { issi, ss_pdu, ss_pdu_bits });
            },
        }
    }

    /// One slot passes: commands are carried out whose terminal has had its
    /// registration response.
    pub fn tick_start(&mut self, port: &mut SsPort, subscribers: &SubscriberRegistry)
        requires
            old(self).wf(),
        ensures
            final(self).wf(),
            final(self).run(*final(port)) == old(self).run(*old(port)).all_resumed(
                subscribers@,
                ready_jobs(old(self).deferred_view(), subscribers@),
            ),
    {
        let ghost before = self.run(*port);
        let ghost deferred = self.deferred@;
        let mut jobs: Vec<u64> = Vec::new();
        let mut i: usize = 0;
        while i < self.deferred.len()
            invariant
                i <= self.deferred@.len(),
                self.deferred@ == deferred,
                jobs@ == ready_jobs(deferred.take(i as int), subscribers@),
            decreases self.deferred@.len() - i,
        {
            proof {
                assert(deferred.take(i + 1).drop_last() =~= deferred.take(i as int));
                assert(deferred.take(i + 1).last() == deferred[i as int]);
            }
            let job: u64 = self.deferred.key(i);
            let itsi: u64 = self.deferred.value(i).itsi;
            if itsi <= 0xffff_ffff && terminal_ready_for_dgna(subscribers, itsi as u32) {
                jobs.push(job);
            }
            i = i + 1;
        }
        assert(deferred.take(deferred.len() as int) =~= deferred);
        let mut n: usize = 0;
        while n < jobs.len()
            invariant
                n <= jobs@.len(),
                self.wf(),
                self.run(*port) == before.all_resumed(subscribers@, jobs@.take(n as int)),
            decreases jobs@.len() - n,
        {
            proof {
                assert(jobs@.take(n + 1).drop_last() =~= jobs@.take(n as int));
                assert(jobs@.take(n + 1).last() == jobs@[n as int]);
                crate::table::lemma_del_absent_if(self.deferred@, jobs@[n as int]);
            }
            if let Some(command) = self.deferred.remove(jobs[n]) {
                self.handle_swmi_action(port, subscribers, command);
            }
            n = n + 1;
        }
        assert(jobs@.take(jobs@.len() as int) =~= jobs@);
    }

    /// U-FACILITY. One that is no answer to a command is ignored.
    pub fn route_re_deliver(&mut self, port: &mut SsPort, issi: u32, ss_pdu: &Vec<u8>, bits: u16)
        requires
            old(self).wf(),
            ss_pdu@.len() * 8 <= usize::MAX,
        ensures
            final(self).wf(),
            final(self).run(*final(port)) == match dgna_answer(ss_pdu@, bits) {
                Some(decoded) => old(self).run(*old(port)).answered(issi, decoded),
                None => old(self).run(*old(port)),
            },
    {
        let decoded: DecodedDgna = match decode_dgna(ss_pdu, bits) {
            Some(decoded) => decoded,
            None => return,
        };
        let key = DgnaKey { issi, action: decoded.action, gssi: decoded.gssi };
        let index: usize = match self.pending.find(key) {
            Some(index) => index,
            None => return,
        };
        let job_id: u64 = self.pending.value(index).job_id;
        let next: Option<u8> = self.pending.value(index).next_sequence;
        if decoded.action != ACTION_INTERROGATE {
            self.pending.remove(key);
            self.send_result(
                port,
                job_id,
                issi,
                decoded.action,
                decoded.success,
                decoded.cause,
                decoded.groups,
            );
            return;
        }
        let expected: u8 = match next {
            Some(number) => number,
            None => 1,
        };
        let in_turn: bool = match decoded.sequence {
            Some(sequence) => sequence == expected,
            None => next.is_none(),
        };
        if !in_turn {
            self.pending.remove(key);
            let groups: Vec<DgnaObservedGroup> = Vec::new();
            assert(groups@ =~= Seq::empty());
            self.send_result(port, job_id, issi, decoded.action, false, 0, groups);
            return;
        }
        let groups: Vec<DgnaObservedGroup> = joined(
            &self.pending.value(index).groups,
            &decoded.groups,
        );
        if decoded.complete {
            self.pending.remove(key);
            self.send_result(
                port,
                job_id,
                issi,
                decoded.action,
                decoded.success,
                decoded.cause,
                groups,
            );
            return;
        }
        let next_sequence: Option<u8> = if decoded.sequence.is_some() {
            if expected < 255 {
                Some(expected + 1)
            } else {
                Some(255)
            }
        } else {
            next
        };
        self.pending.insert(key, PendingDgna { job_id, groups, next_sequence });
    }

    fn send_result(
        &self,
        port: &mut SsPort,
        job_id: u64,
        issi: u32,
        action: u8,
        success: bool,
        cause: u8,
        groups: Vec<DgnaObservedGroup>,
    )
        ensures
            self.run(*final(port)) == self.run(*old(port)).reported(
                job_id,
                issi,
                action,
                success,
                cause,
                groups@,
            ),
    {
        if port.submits {
            port.push(
                SsMessage::Outcome { job_id, itsi: issi as u64, action, success, cause, groups },
            );
        }
    }
}

/// Whether a terminal has had its registration response.
pub fn terminal_ready_for_dgna(subscribers: &SubscriberRegistry, issi: u32) -> (ready: bool)
    ensures
        ready == is_ready(subscribers@, issi),
{
    subscribers.is_active(issi) && !subscribers.is_registration_pending(issi)
}

fn joined(first: &Vec<DgnaObservedGroup>, second: &Vec<DgnaObservedGroup>) -> (list: Vec<
    DgnaObservedGroup,
>)
    ensures
        list@ == first@ + second@,
{
    let mut list: Vec<DgnaObservedGroup> = Vec::new();
    let mut i: usize = 0;
    while i < first.len()
        invariant
            i <= first@.len(),
            list@ == first@.take(i as int),
        decreases first@.len() - i,
    {
        list.push(first[i]);
        i = i + 1;
        assert(list@ =~= first@.take(i as int));
    }
    let mut n: usize = 0;
    assert(list@ =~= first@ + second@.take(0));
    while n < second.len()
        invariant
            n <= second@.len(),
            list@ == first@ + second@.take(n as int),
        decreases second@.len() - n,
    {
        list.push(second[n]);
        n = n + 1;
        assert(list@ =~= first@ + second@.take(n as int));
    }
    assert(second@.take(second@.len() as int) =~= second@);
    list
}

/// A command for a terminal that has not had its registration response sends
/// nothing and waits.
pub proof fn law_command_waits_for_the_registration(
    run: SsRun,
    registry: crate::bluestation::subscribers::RegistryView,
    command: DgnaCommand,
)
    requires
        command.itsi <= 0x00ff_ffff,
        !is_ready(registry, command.itsi as u32),
    ensures
        run.commanded(registry, command).queue == run.queue,
        run.commanded(registry, command).pending == run.pending,
        crate::table::lookup(run.commanded(registry, command).deferred, command.job_id) == Some(
            command,
        ),
{
    crate::table::law_lookup_after_put(run.deferred, command.job_id, command, command.job_id);
}

/// A command that waited is carried out as if it came when its terminal is
/// ready, and does not wait any longer.
pub proof fn law_waiting_command_is_carried_out(
    run: SsRun,
    registry: crate::bluestation::subscribers::RegistryView,
    command: DgnaCommand,
)
    requires
        crate::table::lookup(run.deferred, command.job_id) == Some(command),
        command.itsi <= 0x00ff_ffff,
        is_ready(registry, command.itsi as u32),
    ensures
        crate::table::lookup(run.resumed(registry, command.job_id).deferred, command.job_id)
            is None,
        run.resumed(registry, command.job_id).queue == run.commanded(registry, command).queue,
        run.resumed(registry, command.job_id).pending == run.commanded(registry, command).pending,
{
    crate::table::law_lookup_after_del(run.deferred, command.job_id, command.job_id);
}

/// The outcome of a command is reported once: when its answer comes again it
/// changes nothing.
pub proof fn law_outcome_is_reported_once(run: SsRun, issi: u32, decoded: DecodedView)
    requires
        decoded.action != ACTION_INTERROGATE || decoded.complete,
    ensures
        run.answered(issi, decoded).answered(issi, decoded) == run.answered(issi, decoded),
{
    let key = DgnaKey { issi, action: decoded.action, gssi: decoded.gssi };
    crate::table::law_lookup_after_del(run.pending, key, key);
}

/// The lengths of the PDUs.
pub proof fn law_pdu_lengths(gssi: u32)
    ensures
        assign_bits(gssi, None).len() == 55,
        deassign_bits(gssi).len() == 43,
        interrogate_bits().len() == 22,
{
    crate::bitbuffer::lemma_digits_len(SS_DGNA as nat, 6);
    crate::bitbuffer::lemma_digits_len(ASSIGN as nat, 5);
    crate::bitbuffer::lemma_digits_len(DEASSIGN as nat, 5);
    crate::bitbuffer::lemma_digits_len(INTERROGATE_MS_GROUPS as nat, 5);
    crate::bitbuffer::lemma_digits_len(1, 5);
    crate::bitbuffer::lemma_digits_len(gssi as nat, 24);
    crate::bitbuffer::lemma_digits_len(0, 1);
    crate::bitbuffer::lemma_digits_len(0, 3);
    crate::bitbuffer::lemma_digits_len(1, 3);
    crate::bitbuffer::lemma_digits_len(10, 7);
}

} // verus!
