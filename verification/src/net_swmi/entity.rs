//! The user plane: voice between the radio circuits and the SwMI. Only decisions
//! of call control say which circuit carries which call.
use crate::bitbuffer::BitBuffer;
use crate::swmi::SwmiEndpoint;
use crate::table::Table;
use vstd::prelude::*;

verus! {

/// The bits of a speech frame.
pub const SPEECH_BITS: usize = 274;

/// The bytes of a packed speech frame.
pub const SPEECH_BYTES: usize = 35;

/// The group call on a timeslot.
#[derive(Debug, Clone, Copy, PartialEq, Eq, Structural)]
pub struct ActiveVoiceCall {
    pub call_id: u16,
    pub source_itsi: u32,
    pub gssi: u32,
}

/// The leg of a private call on a timeslot.
#[derive(Debug, Clone, Copy, PartialEq, Eq, Structural)]
pub struct ActivePrivateVoice {
    pub call_id: u16,
    pub source_itsi: u32,
    pub destination_itsi: u32,
}

/// What the user plane hands on.
#[derive(Debug)]
pub enum MediaMessage {
    /// A packed speech frame for the circuit of a timeslot.
    Circuit { ts: u8, data: Vec<u8> },
    /// A speech frame of a group call for the SwMI.
    Voice { call_id: u64, source_itsi: u64, gssi: u32, length_bits: u16, data: Vec<u8> },
    /// A speech frame of a private call for the SwMI.
    PrivateVoice {
        call_id: u64,
        source_itsi: u64,
        destination_itsi: u64,
        length_bits: u16,
        data: Vec<u8>,
    },
}

/// The model of what the user plane hands on.
pub ghost enum MediaMessageView {
    Circuit { ts: u8, data: Seq<u8> },
    Voice { call_id: u64, source_itsi: u64, gssi: u32, length_bits: u16, data: Seq<u8> },
    PrivateVoice {
        call_id: u64,
        source_itsi: u64,
        destination_itsi: u64,
        length_bits: u16,
        data: Seq<u8>,
    },
}

impl View for MediaMessage {
    type V = MediaMessageView;

    open spec fn view(&self) -> MediaMessageView {
        match self {
            MediaMessage::Circuit { ts, data } => MediaMessageView::Circuit {
                ts: *ts,
                data: data@,
            },
            MediaMessage::Voice { call_id, source_itsi, gssi, length_bits, data } =>
                MediaMessageView::Voice {
                    call_id: *call_id,
                    source_itsi: *source_itsi,
                    gssi: *gssi,
                    length_bits: *length_bits,
                    data: data@,
                },
            MediaMessage::PrivateVoice {
                call_id,
                source_itsi,
                destination_itsi,
                length_bits,
                data,
            } => MediaMessageView::PrivateVoice {
                call_id: *call_id,
                source_itsi: *source_itsi,
                destination_itsi: *destination_itsi,
                length_bits: *length_bits,
                data: data@,
            },
        }
    }
}

/// The models of a queue of messages.
pub open spec fn media_messages(queue: Seq<MediaMessage>) -> Seq<MediaMessageView> {
    queue.map_values(|message: MediaMessage| message@)
}

/// Whether bytes are the packed form of bits that stand one in each byte, the
/// first one first; what is missing to a whole byte is not set.
pub open spec fn is_packed(packed: Seq<u8>, bits: Seq<u8>) -> bool {
    &&& packed.len() == (bits.len() + 7) / 8
    &&& forall|i: int|
        0 <= i < packed.len() * 8 ==> #[trigger] crate::bitbuffer::byte_bit(packed, i) == (i
            < bits.len() && bits[i] % 2 == 1)
}

/// Whether a frame can be put on a circuit: bits, packed bytes, or packed bytes
/// behind a header.
pub open spec fn fits_circuit(data: Seq<u8>) -> bool {
    data.len() == 35 || data.len() == 36 || data.len() == 274
}

/// Whether `packed` is what is put on a circuit for a frame.
pub open spec fn is_payload(packed: Seq<u8>, data: Seq<u8>) -> bool {
    if data.len() == 35 {
        packed == data
    } else if data.len() == 36 {
        packed == data.skip(1)
    } else {
        is_packed(packed, data)
    }
}

/// What is put on a circuit for a frame, if it fits one.
pub fn dl_payload(data: Vec<u8>) -> (payload: Option<Vec<u8>>)
    ensures
        match payload {
            Some(packed) => fits_circuit(data@) && is_payload(packed@, data@) && packed@.len()
                == SPEECH_BYTES,
            None => !fits_circuit(data@),
        },
{
    let n: usize = data.len();
    if n == 35 {
        Some(data)
    } else if n == 36 {
        let mut rest: Vec<u8> = Vec::new();
        let mut i: usize = 1;
        while i < 36
            invariant
                1 <= i <= 36,
                data@.len() == 36,
                rest@ == data@.subrange(1, i as int),
            decreases 36 - i,
        {
            rest.push(data[i]);
            i = i + 1;
            assert(rest@ =~= data@.subrange(1, i as int));
        }
        assert(rest@ =~= data@.skip(1));
        Some(rest)
    } else if n == 274 {
        let mut bits: Vec<bool> = Vec::new();
        let mut i: usize = 0;
        while i < 274
            invariant
                i <= 274,
                data@.len() == 274,
                bits@.len() == i,
                forall|j: int| 0 <= j < i ==> #[trigger] bits@[j] == (data@[j] % 2 == 1),
            decreases 274 - i,
        {
            bits.push(data[i] % 2 == 1);
            i = i + 1;
        }
        Some(BitBuffer::from_bits(bits).to_bytes())
    } else {
        None
    }
}

/// The packed form of bits is unique.
pub proof fn law_packed_form_is_unique(left: Seq<u8>, right: Seq<u8>, bits: Seq<u8>)
    requires
        is_packed(left, bits),
        is_packed(right, bits),
    ensures
        left == right,
{
    assert forall|n: int| 0 <= n < left.len() implies #[trigger] left[n] == right[n] by {
        assert forall|k: int| 0 <= k < 8 implies #[trigger] crate::bitbuffer::bit_of(left[n], k)
            == crate::bitbuffer::bit_of(right[n], k) by {
            let i = n * 8 + k;
            assert(i / 8 == n && i % 8 == k);
            assert(crate::bitbuffer::byte_bit(left, i) == crate::bitbuffer::byte_bit(right, i));
        }
        lemma_bits_make_the_byte(left[n], right[n]);
    }
    assert(left =~= right);
}

proof fn lemma_bits_make_the_byte(left: u8, right: u8)
    requires
        forall|k: int|
            0 <= k < 8 ==> #[trigger] crate::bitbuffer::bit_of(left, k)
                == crate::bitbuffer::bit_of(right, k),
    ensures
        left == right,
{
    assert(crate::bitbuffer::bit_of(left, 0) == crate::bitbuffer::bit_of(right, 0));
    assert(crate::bitbuffer::bit_of(left, 1) == crate::bitbuffer::bit_of(right, 1));
    assert(crate::bitbuffer::bit_of(left, 2) == crate::bitbuffer::bit_of(right, 2));
    assert(crate::bitbuffer::bit_of(left, 3) == crate::bitbuffer::bit_of(right, 3));
    assert(crate::bitbuffer::bit_of(left, 4) == crate::bitbuffer::bit_of(right, 4));
    assert(crate::bitbuffer::bit_of(left, 5) == crate::bitbuffer::bit_of(right, 5));
    assert(crate::bitbuffer::bit_of(left, 6) == crate::bitbuffer::bit_of(right, 6));
    assert(crate::bitbuffer::bit_of(left, 7) == crate::bitbuffer::bit_of(right, 7));
    assert(left == right) by (bit_vector)
        requires
            ((left >> 7u8) & 1 == 1) == ((right >> 7u8) & 1 == 1),
            ((left >> 6u8) & 1 == 1) == ((right >> 6u8) & 1 == 1),
            ((left >> 5u8) & 1 == 1) == ((right >> 5u8) & 1 == 1),
            ((left >> 4u8) & 1 == 1) == ((right >> 4u8) & 1 == 1),
            ((left >> 3u8) & 1 == 1) == ((right >> 3u8) & 1 == 1),
            ((left >> 2u8) & 1 == 1) == ((right >> 2u8) & 1 == 1),
            ((left >> 1u8) & 1 == 1) == ((right >> 1u8) & 1 == 1),
            ((left >> 0u8) & 1 == 1) == ((right >> 0u8) & 1 == 1),
    ;
}

/// The length of a frame in bits, as the SwMI is told.
pub open spec fn told_length(bytes: nat) -> u16 {
    if bytes == SPEECH_BITS {
        274
    } else if bytes * 8 <= u16::MAX {
        (bytes * 8) as u16
    } else {
        u16::MAX
    }
}

fn length_bits(bytes: usize) -> (length: u16)
    ensures
        length == told_length(bytes as nat),
{
    if bytes == SPEECH_BITS {
        274
    } else if bytes <= 8191 {
        (bytes * 8) as u16
    } else {
        0xffff
    }
}

/// The first timeslot whose leg of a private call starts at a terminal.
pub open spec fn leg_from(
    entries: Seq<(u8, ActivePrivateVoice)>,
    call_id: u64,
    source_itsi: u64,
) -> Option<u8>
    decreases entries.len(),
{
    if entries.len() == 0 {
        None
    } else if entries[0].1.call_id == call_id && entries[0].1.source_itsi == source_itsi {
        Some(entries[0].0)
    } else {
        leg_from(entries.drop_first(), call_id, source_itsi)
    }
}

/// The first timeslot that carries a group call.
pub open spec fn group_slot(
    entries: Seq<(u8, ActiveVoiceCall)>,
    call_id: u64,
    gssi: u32,
) -> Option<u8>
    decreases entries.len(),
{
    if entries.len() == 0 {
        None
    } else if entries[0].1.call_id == call_id && entries[0].1.gssi == gssi {
        Some(entries[0].0)
    } else {
        group_slot(entries.drop_first(), call_id, gssi)
    }
}

/// What becomes of an uplink frame.
pub ghost enum UplinkVoice {
    /// It is dropped.
    Dropped,
    /// It goes to the circuit of the other party, served here too.
    ToPeer(u8),
    /// It goes to the SwMI.
    ToSwmi(MediaMessageView),
}

/// The state of the user plane.
#[verifier::ext_equal]
pub ghost struct MediaView {
    pub calls: Seq<(u8, ActiveVoiceCall)>,
    pub private: Seq<(u8, ActivePrivateVoice)>,
}

impl MediaView {
    /// What becomes of an uplink frame. A frame of a private call whose other
    /// party is served here does not leave the station.
    pub open spec fn uplink(self, link: SwmiEndpoint, ts: u8, data: Seq<u8>) -> UplinkVoice {
        match crate::table::lookup(self.private, ts) {
            Some(call) => match leg_from(
                self.private,
                call.call_id as u64,
                call.destination_itsi as u64,
            ) {
                Some(peer) => if fits_circuit(data) {
                    UplinkVoice::ToPeer(peer)
                } else {
                    UplinkVoice::Dropped
                },
                None => if link.is_online() && link.takes() {
                    UplinkVoice::ToSwmi(
                        MediaMessageView::PrivateVoice {
                            call_id: call.call_id as u64,
                            source_itsi: call.source_itsi as u64,
                            destination_itsi: call.destination_itsi as u64,
                            length_bits: told_length(data.len()),
                            data,
                        },
                    )
                } else {
                    UplinkVoice::Dropped
                },
            },
            None => match crate::table::lookup(self.calls, ts) {
                Some(call) if link.is_online() && link.takes() => UplinkVoice::ToSwmi(
                    MediaMessageView::Voice {
                        call_id: call.call_id as u64,
                        source_itsi: call.source_itsi as u64,
                        gssi: call.gssi,
                        length_bits: told_length(data.len()),
                        data,
                    },
                ),
                _ => UplinkVoice::Dropped,
            },
        }
    }
}

/// Whether a frame was put on a circuit, if there is one and the frame fits.
pub open spec fn put_on_circuit(
    before: Seq<MediaMessageView>,
    after: Seq<MediaMessageView>,
    slot: Option<u8>,
    data: Seq<u8>,
) -> bool {
    match slot {
        Some(ts) if fits_circuit(data) => {
            &&& after.len() == before.len() + 1
            &&& after.drop_last() == before
            &&& after.last() matches MediaMessageView::Circuit { ts: on, data: packed } && on == ts
                && is_payload(packed, data)
        },
        _ => after == before,
    }
}

/// A decision of call control on who is heard where.
#[derive(Debug, Clone, Copy, PartialEq, Eq, Structural)]
pub enum MediaControl {
    FloorGranted { call_id: u16, source_issi: u32, dest_gssi: u32, ts: u8 },
    FloorReleased { call_id: u16, ts: u8 },
    CallEnded { call_id: u16, ts: u8 },
    PrivateMediaStart { call_id: u16, source_issi: u32, destination_issi: u32, ts: u8 },
    PrivateMediaStop { call_id: u16, ts: u8 },
}

impl MediaView {
    /// Without the group call on a timeslot, if it is this one.
    pub open spec fn without_call(self, call_id: u16, ts: u8) -> MediaView {
        match crate::table::lookup(self.calls, ts) {
            Some(call) if call.call_id == call_id => MediaView {
                calls: crate::table::del(self.calls, ts),
                ..self
            },
            _ => self,
        }
    }

    /// After a decision of call control.
    pub open spec fn controlled(self, control: MediaControl) -> MediaView {
        match control {
            MediaControl::FloorGranted { call_id, source_issi, dest_gssi, ts } => MediaView {
                calls: crate::table::put(
                    self.calls,
                    ts,
                    ActiveVoiceCall { call_id, source_itsi: source_issi, gssi: dest_gssi },
                ),
                ..self
            },
            MediaControl::FloorReleased { call_id, ts } => self.without_call(call_id, ts),
            MediaControl::CallEnded { call_id, ts } => self.without_call(call_id, ts),
            MediaControl::PrivateMediaStart { call_id, source_issi, destination_issi, ts } =>
                MediaView {
                    private: crate::table::put(
                        self.private,
                        ts,
                        ActivePrivateVoice {
                            call_id,
                            source_itsi: source_issi,
                            destination_itsi: destination_issi,
                        },
                    ),
                    ..self
                },
            MediaControl::PrivateMediaStop { call_id, ts } => match crate::table::lookup(
                self.private,
                ts,
            ) {
                Some(call) if call.call_id == call_id => MediaView {
                    private: crate::table::del(self.private, ts),
                    ..self
                },
                _ => self,
            },
        }
    }
}

/// The user plane.
pub struct SwmiMediaEntity {
    calls_by_ts: Table<u8, ActiveVoiceCall>,
    private_by_ts: Table<u8, ActivePrivateVoice>,
}

impl View for SwmiMediaEntity {
    type V = MediaView;

    closed spec fn view(&self) -> MediaView {
        MediaView { calls: self.calls_by_ts@, private: self.private_by_ts@ }
    }
}

fn push(queue: &mut Vec<MediaMessage>, message: MediaMessage)
    ensures
        media_messages(final(queue)@) == media_messages(old(queue)@).push(message@),
{
    let ghost before = queue@;
    queue.push(message);
    assert(media_messages(queue@) =~= media_messages(before).push(message@));
}

fn to_circuit(queue: &mut Vec<MediaMessage>, slot: Option<u8>, data: Vec<u8>)
    ensures
        put_on_circuit(
            media_messages(old(queue)@),
            media_messages(final(queue)@),
            slot,
            data@,
        ),
{
    let ghost before = media_messages(queue@);
    let ts: u8 = match slot {
        Some(ts) => ts,
        None => return,
    };
    if let Some(packed) = dl_payload(data) {
        push(queue, MediaMessage::Circuit { ts, data: packed });
        assert(media_messages(queue@).drop_last() =~= before);
    }
}

impl SwmiMediaEntity {
    /// No circuit carries a call.
    pub fn new() -> (media: Self)
        ensures
            media@ == (MediaView { calls: Seq::empty(), private: Seq::empty() }),
    {
        SwmiMediaEntity { calls_by_ts: Table::new(), private_by_ts: Table::new() }
    }

    fn find_leg(&self, call_id: u64, source_itsi: u64) -> (slot: Option<u8>)
        ensures
            slot == leg_from(self@.private, call_id, source_itsi),
    {
        let mut i: usize = 0;
        assert(self@.private.skip(0) =~= self@.private);
        while i < self.private_by_ts.len()
            invariant
                i <= self@.private.len(),
                self@.private == self.private_by_ts@,
                leg_from(self@.private, call_id, source_itsi) == leg_from(
                    self@.private.skip(i as int),
                    call_id,
                    source_itsi,
                ),
            decreases self@.private.len() - i,
        {
            let (ts, call) = self.private_by_ts.entry(i);
            assert(self@.private.skip(i as int).drop_first() =~= self@.private.skip(i + 1));
            if call.call_id as u64 == call_id && call.source_itsi as u64 == source_itsi {
                return Some(ts);
            }
            i = i + 1;
        }
        None
    }

    fn find_group(&self, call_id: u64, gssi: u32) -> (slot: Option<u8>)
        ensures
            slot == group_slot(self@.calls, call_id, gssi),
    {
        let mut i: usize = 0;
        assert(self@.calls.skip(0) =~= self@.calls);
        while i < self.calls_by_ts.len()
            invariant
                i <= self@.calls.len(),
                self@.calls == self.calls_by_ts@,
                group_slot(self@.calls, call_id, gssi) == group_slot(
                    self@.calls.skip(i as int),
                    call_id,
                    gssi,
                ),
            decreases self@.calls.len() - i,
        {
            let (ts, call) = self.calls_by_ts.entry(i);
            assert(self@.calls.skip(i as int).drop_first() =~= self@.calls.skip(i + 1));
            if call.call_id as u64 == call_id && call.gssi == gssi {
                return Some(ts);
            }
            i = i + 1;
        }
        None
    }

    /// A frame from the circuit of a timeslot.
    pub fn handle_ul_voice(
        &self,
        queue: &mut Vec<MediaMessage>,
        link: SwmiEndpoint,
        ts: u8,
        data: Vec<u8>,
    )
        ensures
            match self@.uplink(link, ts, data@) {
                UplinkVoice::Dropped => media_messages(final(queue)@) == media_messages(
                    old(queue)@,
                ),
                UplinkVoice::ToPeer(peer) => put_on_circuit(
                    media_messages(old(queue)@),
                    media_messages(final(queue)@),
                    Some(peer),
                    data@,
                ),
                UplinkVoice::ToSwmi(message) => media_messages(final(queue)@) == media_messages(
                    old(queue)@,
                ).push(message),
            },
    {
        let bits: u16 = length_bits(data.len());
        if let Some(call) = self.private_by_ts.get(ts) {
            let peer: Option<u8> = self.find_leg(
                call.call_id as u64,
                call.destination_itsi as u64,
            );
            if peer.is_some() {
                to_circuit(queue, peer, data);
                return;
            }
            if link.is_online() && link.takes() {
                push(
                    queue,
                    MediaMessage::PrivateVoice {
                        call_id: call.call_id as u64,
                        source_itsi: call.source_itsi as u64,
                        destination_itsi: call.destination_itsi as u64,
                        length_bits: bits,
                        data,
                    },
                );
            }
            return;
        }
        if let Some(call) = self.calls_by_ts.get(ts) {
            if link.is_online() && link.takes() {
                push(
                    queue,
                    MediaMessage::Voice {
                        call_id: call.call_id as u64,
                        source_itsi: call.source_itsi as u64,
                        gssi: call.gssi,
                        length_bits: bits,
                        data,
                    },
                );
            }
        }
    }

    /// A frame of a group call from the SwMI.
    pub fn handle_dl_voice(
        &self,
        queue: &mut Vec<MediaMessage>,
        call_id: u64,
        gssi: u32,
        data: Vec<u8>,
    )
        ensures
            put_on_circuit(
                media_messages(old(queue)@),
                media_messages(final(queue)@),
                group_slot(self@.calls, call_id, gssi),
                data@,
            ),
    {
        let slot: Option<u8> = self.find_group(call_id, gssi);
        to_circuit(queue, slot, data);
    }

    /// A frame of a private call from the SwMI. It goes to the circuit whose leg
    /// starts at the terminal that it is for.
    pub fn handle_private_dl_voice(
        &self,
        queue: &mut Vec<MediaMessage>,
        call_id: u64,
        destination_itsi: u64,
        data: Vec<u8>,
    )
        ensures
            put_on_circuit(
                media_messages(old(queue)@),
                media_messages(final(queue)@),
                leg_from(self@.private, call_id, destination_itsi),
                data@,
            ),
    {
        let slot: Option<u8> = self.find_leg(call_id, destination_itsi);
        to_circuit(queue, slot, data);
    }

    /// A decision of call control.
    pub fn rx_control(&mut self, control: MediaControl)
        ensures
            final(self)@ == old(self)@.controlled(control),
    {
        match control {
            MediaControl::FloorGranted { call_id, source_issi, dest_gssi, ts } => {
                self.calls_by_ts.insert(
                    ts,
                    ActiveVoiceCall { call_id, source_itsi: source_issi, gssi: dest_gssi },
                );
            },
            MediaControl::FloorReleased { call_id, ts } => self.end_call(call_id, ts),
            MediaControl::CallEnded { call_id, ts } => self.end_call(call_id, ts),
            MediaControl::PrivateMediaStart { call_id, source_issi, destination_issi, ts } => {
                self.private_by_ts.insert(
                    ts,
                    ActivePrivateVoice {
                        call_id,
                        source_itsi: source_issi,
                        destination_itsi: destination_issi,
                    },
                );
            },
            MediaControl::PrivateMediaStop { call_id, ts } => {
                if let Some(call) = self.private_by_ts.get(ts) {
                    if call.call_id == call_id {
                        self.private_by_ts.remove(ts);
                    }
                }
            },
        }
    }

    fn end_call(&mut self, call_id: u16, ts: u8)
        ensures
            final(self)@ == old(self)@.without_call(call_id, ts),
    {
        if let Some(call) = self.calls_by_ts.get(ts) {
            if call.call_id == call_id {
                self.calls_by_ts.remove(ts);
            }
        }
    }
}

/// A frame between two parties of a private call that are both served here goes
/// to the circuit of the other party, whatever the connection is.
pub proof fn law_local_private_voice_stays_local(
    media: MediaView,
    link: SwmiEndpoint,
    call: ActivePrivateVoice,
    peer: ActivePrivateVoice,
    ts: u8,
    peer_ts: u8,
    data: Seq<u8>,
)
    requires
        crate::table::lookup(media.private, ts) == Some(call),
        crate::table::lookup(media.private, peer_ts) == Some(peer),
        peer.call_id == call.call_id,
        peer.source_itsi == call.destination_itsi,
        fits_circuit(data),
    ensures
        media.uplink(link, ts, data) is ToPeer,
{
    let index = crate::table::lemma_entry_of_lookup(media.private, peer_ts);
    lemma_leg_found(media.private, index, call.call_id as u64, call.destination_itsi as u64);
}

proof fn lemma_leg_found(
    entries: Seq<(u8, ActivePrivateVoice)>,
    index: int,
    call_id: u64,
    source_itsi: u64,
)
    requires
        0 <= index < entries.len(),
        entries[index].1.call_id == call_id,
        entries[index].1.source_itsi == source_itsi,
    ensures
        leg_from(entries, call_id, source_itsi) is Some,
    decreases index,
{
    if index > 0 && !(entries[0].1.call_id == call_id && entries[0].1.source_itsi == source_itsi) {
        lemma_leg_found(entries.drop_first(), index - 1, call_id, source_itsi);
    }
}

/// The end of a call that a timeslot does not carry leaves its call alone.
pub proof fn law_foreign_release_changes_nothing(media: MediaView, call_id: u16, ts: u8)
    requires
        crate::table::lookup(media.calls, ts) matches Some(call) ==> call.call_id != call_id,
    ensures
        media.controlled(MediaControl::FloorReleased { call_id, ts }) == media,
        media.controlled(MediaControl::CallEnded { call_id, ts }) == media,
{
}

} // verus!
