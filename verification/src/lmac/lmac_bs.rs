//! The lower MAC of a base station: which logical channel an uplink burst
//! carries, what of a decoded block reaches the upper MAC, and how a downlink
//! slot is made up.
use crate::bluestation::config::StackMode;
use crate::tdma::TdmaTime;
use vstd::prelude::*;

verus! {

/// The bursts.
#[derive(Debug, Clone, Copy, PartialEq, Eq, Structural)]
pub enum BurstType {
    /// Control uplink burst.
    CUB,
    /// Linearization uplink burst.
    LB,
    /// Normal uplink burst.
    NUB,
    /// Normal downlink burst.
    NDB,
    /// Synchronization downlink burst.
    SDB,
}

/// The training sequences.
#[derive(Debug, Clone, Copy, PartialEq, Eq, Structural)]
pub enum TrainingSequence {
    NormalTrainSeq1,
    NormalTrainSeq2,
    NormalTrainSeq3,
    ExtendedTrainSeq,
    SyncTrainSeq,
}

/// The blocks of a slot.
#[derive(Debug, Clone, Copy, PartialEq, Eq, Structural)]
pub enum PhyBlockNum {
    Both,
    Block1,
    Block2,
}

/// The physical channels.
#[derive(Debug, Clone, Copy, PartialEq, Eq, Structural)]
pub enum PhysicalChannel {
    /// Traffic.
    Tp,
    /// Control.
    Cp,
    Unallocated,
}

/// The logical channels.
#[derive(Debug, Clone, Copy, PartialEq, Eq, Structural)]
pub enum LogicalChannel {
    Aach,
    Blch,
    Bnch,
    Bsch,
    Clch,
    SchF,
    SchHd,
    SchHu,
    Stch,
    TchS,
    Tch24,
    Tch48,
    Tch72,
}

impl LogicalChannel {
    /// Whether the channel carries traffic.
    pub open spec fn carries_traffic(self) -> bool {
        self == LogicalChannel::TchS || self == LogicalChannel::Tch24 || self
            == LogicalChannel::Tch48 || self == LogicalChannel::Tch72
    }

    /// Whether the channel carries traffic.
    pub fn is_traffic(self) -> (r: bool)
        ensures
            r == self.carries_traffic(),
    {
        match self {
            LogicalChannel::TchS
            | LogicalChannel::Tch24
            | LogicalChannel::Tch48
            | LogicalChannel::Tch72 => true,
            _ => false,
        }
    }
}

/// A traffic channel.
#[derive(Debug, Clone, Copy, PartialEq, Eq, Structural)]
pub struct LmacTrafficChan {
    pub is_active: bool,
    pub logical_channel: LogicalChannel,
}

impl Default for LmacTrafficChan {
    /// A channel for speech that is not in use.
    fn default() -> (channel: Self)
        ensures
            channel == (LmacTrafficChan {
                is_active: false,
                logical_channel: LogicalChannel::TchS,
            }),
    {
        LmacTrafficChan { is_active: false, logical_channel: LogicalChannel::TchS }
    }
}

/// An uplink block as the receiver hands it on, but for its bits.
#[derive(Debug, Clone, Copy, PartialEq, Eq, Structural)]
pub struct UplinkBlock {
    /// When the burst was received.
    pub ul_time: TdmaTime,
    pub train_type: TrainingSequence,
    pub burst_type: BurstType,
    pub block_num: PhyBlockNum,
}

impl UplinkBlock {
    /// Whether a receiver hands on such a block: a control burst with its
    /// extended sequence, a normal one with the first sequence in one block or
    /// with the second in two.
    pub open spec fn is_possible(self) -> bool {
        match self.burst_type {
            BurstType::CUB => self.train_type == TrainingSequence::ExtendedTrainSeq,
            BurstType::NUB => match self.train_type {
                TrainingSequence::NormalTrainSeq1 => self.block_num == PhyBlockNum::Both,
                TrainingSequence::NormalTrainSeq2 => self.block_num != PhyBlockNum::Both,
                _ => false,
            },
            _ => false,
        }
    }

    /// The logical channel of the block. Frame eighteen of an assigned channel
    /// is signalling, though it is carried on a traffic channel.
    pub open spec fn channel(
        self,
        burst_is_traffic: bool,
        is_sacch_frame: bool,
        block2_stolen: bool,
    ) -> LogicalChannel {
        if self.burst_type == BurstType::CUB {
            LogicalChannel::SchHu
        } else if self.train_type == TrainingSequence::NormalTrainSeq1 {
            if burst_is_traffic && !is_sacch_frame {
                LogicalChannel::TchS
            } else {
                LogicalChannel::SchF
            }
        } else if self.block_num == PhyBlockNum::Block1 || !burst_is_traffic || block2_stolen {
            LogicalChannel::Stch
        } else {
            LogicalChannel::TchS
        }
    }
}

/// How a block is coded for the air.
#[derive(Debug, Clone, Copy, PartialEq, Eq, Structural)]
pub enum BlockCoding {
    /// As the access assignment.
    AccessAssignment,
    /// As control signalling.
    Control,
    /// As traffic, in the first or the second block.
    Traffic(u8),
}

/// A block for the downlink.
#[derive(Debug)]
pub struct DownlinkBlock {
    pub logical_channel: LogicalChannel,
    pub mac_block: Vec<u8>,
    pub scrambling_code: u32,
}

/// A block with the way in which it is coded.
#[derive(Debug)]
pub struct CodedBlock {
    pub coding: BlockCoding,
    pub block: DownlinkBlock,
}

/// The blocks of a downlink slot.
#[derive(Debug)]
pub struct DownlinkSlot {
    pub ts: TdmaTime,
    pub ul_phy_chan: PhysicalChannel,
    pub bbk: DownlinkBlock,
    pub blk1: DownlinkBlock,
    pub blk2: Option<DownlinkBlock>,
}

/// The model of a block.
pub ghost struct BlockView {
    pub logical_channel: LogicalChannel,
    pub mac_block: Seq<u8>,
    pub scrambling_code: u32,
}

impl View for DownlinkBlock {
    type V = BlockView;

    open spec fn view(&self) -> BlockView {
        BlockView {
            logical_channel: self.logical_channel,
            mac_block: self.mac_block@,
            scrambling_code: self.scrambling_code,
        }
    }
}

/// The way in which a block for the air is coded.
pub open spec fn coding_of(channel: LogicalChannel, block: u8) -> BlockCoding {
    if channel.carries_traffic() {
        BlockCoding::Traffic(block)
    } else {
        BlockCoding::Control
    }
}

/// Whether the blocks make up a slot: two for a synchronization burst and for
/// half blocks, one for a full block.
pub open spec fn slot_is_possible(blk1: LogicalChannel, has_blk2: bool) -> bool {
    match blk1 {
        LogicalChannel::Bsch | LogicalChannel::SchHd | LogicalChannel::Stch | LogicalChannel::Bnch
            => has_blk2,
        LogicalChannel::SchF
        | LogicalChannel::TchS
        | LogicalChannel::Tch24
        | LogicalChannel::Tch48
        | LogicalChannel::Tch72 => !has_blk2,
        _ => false,
    }
}

/// The burst of a slot.
pub open spec fn burst_of(blk1: LogicalChannel) -> BurstType {
    if blk1 == LogicalChannel::Bsch {
        BurstType::SDB
    } else {
        BurstType::NDB
    }
}

/// The training sequence of a slot.
pub open spec fn training_of(blk1: LogicalChannel) -> TrainingSequence {
    match blk1 {
        LogicalChannel::Bsch => TrainingSequence::SyncTrainSeq,
        LogicalChannel::SchHd | LogicalChannel::Stch | LogicalChannel::Bnch =>
            TrainingSequence::NormalTrainSeq2,
        _ => TrainingSequence::NormalTrainSeq1,
    }
}

/// What the lower MAC hands on.
#[derive(Debug)]
pub enum LmacMessage {
    /// Speech for the upper MAC, one bit in each byte.
    CircuitData { ts: u8, data: Vec<u8> },
    /// A block that could not be read, ahead of what waits.
    CrcFailure { logical_channel: LogicalChannel, block_num: PhyBlockNum },
    /// A signalling block, ahead of what waits.
    UnitData {
        pdu: Vec<u8>,
        logical_channel: LogicalChannel,
        block_num: PhyBlockNum,
        scrambling_code: u32,
    },
    /// A slot for the transmitter.
    Slot {
        train_type: TrainingSequence,
        burst_type: BurstType,
        bbk: CodedBlock,
        blk1: CodedBlock,
        blk2: Option<CodedBlock>,
    },
}

/// The model of what is handed on.
pub ghost enum LmacMessageView {
    CircuitData { ts: u8, data: Seq<u8> },
    CrcFailure { logical_channel: LogicalChannel, block_num: PhyBlockNum },
    UnitData {
        pdu: Seq<u8>,
        logical_channel: LogicalChannel,
        block_num: PhyBlockNum,
        scrambling_code: u32,
    },
    Slot {
        train_type: TrainingSequence,
        burst_type: BurstType,
        bbk: (BlockCoding, BlockView),
        blk1: (BlockCoding, BlockView),
        blk2: Option<(BlockCoding, BlockView)>,
    },
}

impl View for LmacMessage {
    type V = LmacMessageView;

    open spec fn view(&self) -> LmacMessageView {
        match self {
            LmacMessage::CircuitData { ts, data } => LmacMessageView::CircuitData {
                ts: *ts,
                data: data@,
            },
            LmacMessage::CrcFailure { logical_channel, block_num } => LmacMessageView::CrcFailure {
                logical_channel: *logical_channel,
                block_num: *block_num,
            },
            LmacMessage::UnitData { pdu, logical_channel, block_num, scrambling_code } =>
                LmacMessageView::UnitData {
                    pdu: pdu@,
                    logical_channel: *logical_channel,
                    block_num: *block_num,
                    scrambling_code: *scrambling_code,
                },
            LmacMessage::Slot { train_type, burst_type, bbk, blk1, blk2 } =>
                LmacMessageView::Slot {
                    train_type: *train_type,
                    burst_type: *burst_type,
                    bbk: (bbk.coding, bbk.block@),
                    blk1: (blk1.coding, blk1.block@),
                    blk2: match blk2 {
                        Some(coded) => Some((coded.coding, coded.block@)),
                        None => None,
                    },
                },
        }
    }
}

/// The models of a queue of messages.
pub open spec fn lmac_messages(queue: Seq<LmacMessage>) -> Seq<LmacMessageView> {
    queue.map_values(|message: LmacMessage| message@)
}

/// A block that could not be read: when, and which.
pub type CrcFailureKey = (TdmaTime, PhyBlockNum);

/// The state of the lower MAC with what it has handed on.
#[verifier::ext_equal]
pub ghost struct LmacRun {
    pub dltime: TdmaTime,
    pub stack_mode: StackMode,
    pub scrambling_code: u32,
    /// What the uplink of each timeslot is used for.
    pub uplink: Seq<PhysicalChannel>,
    pub blk2_stolen: bool,
    /// The unreadable common blocks that were told, the newest last.
    pub failures: Seq<CrcFailureKey>,
    pub queue: Seq<LmacMessageView>,
}

/// The number of unreadable blocks that are remembered.
pub const REMEMBERED_FAILURES: usize = 32;

impl LmacRun {
    /// With a message handed on.
    pub open spec fn pushed(self, message: LmacMessageView) -> LmacRun {
        LmacRun { queue: self.queue.push(message), ..self }
    }

    /// What the uplink of a timeslot is used for.
    pub open spec fn uplink_of(self, ul_time: TdmaTime) -> PhysicalChannel {
        self.uplink[ul_time.t - 1]
    }

    /// The logical channel of a block.
    pub open spec fn channel_of(self, block: UplinkBlock) -> LogicalChannel {
        block.channel(
            self.uplink_of(block.ul_time) == PhysicalChannel::Tp,
            block.ul_time.f == 18,
            self.blk2_stolen,
        )
    }

    /// Whether a block can come now: a stolen second block is one of a traffic
    /// channel, and is known only after the first.
    pub open spec fn accepts(self, block: UplinkBlock) -> bool {
        &&& block.is_possible()
        &&& 1 <= block.ul_time.t <= 4
        &&& self.blk2_stolen ==> block.block_num != PhyBlockNum::Block1 && self.uplink_of(
            block.ul_time,
        ) == PhysicalChannel::Tp
    }

    /// With a failure remembered.
    pub open spec fn remembered(self, key: CrcFailureKey) -> LmacRun {
        let longer = self.failures.push(key);
        LmacRun {
            failures: if longer.len() > REMEMBERED_FAILURES {
                longer.drop_first()
            } else {
                longer
            },
            ..self
        }
    }

    /// A traffic block, as it was decoded.
    pub open spec fn traffic(self, block: UplinkBlock, decoded: Option<Seq<u8>>) -> LmacRun {
        match decoded {
            Some(data) if block.block_num == PhyBlockNum::Both => self.pushed(
                LmacMessageView::CircuitData { ts: block.ul_time.t, data },
            ),
            _ => self,
        }
    }

    /// A signalling block, as it was decoded.
    pub open spec fn control(
        self,
        block: UplinkBlock,
        channel: LogicalChannel,
        common_control: bool,
        decoded: Option<Seq<u8>>,
        crc_pass: bool,
    ) -> LmacRun {
        let key = (block.ul_time, block.block_num);
        if !crc_pass {
            if common_control && channel == LogicalChannel::SchHu && !self.failures.contains(key) {
                self.remembered(key).pushed(
                    LmacMessageView::CrcFailure {
                        logical_channel: channel,
                        block_num: block.block_num,
                    },
                )
            } else {
                self
            }
        } else {
            match decoded {
                Some(pdu) => self.pushed(
                    LmacMessageView::UnitData {
                        pdu,
                        logical_channel: channel,
                        block_num: block.block_num,
                        scrambling_code: self.scrambling_code,
                    },
                ),
                None => self,
            }
        }
    }

    /// An uplink block, as it was decoded.
    pub open spec fn uplink_block(
        self,
        block: UplinkBlock,
        decoded: Option<Seq<u8>>,
        crc_pass: bool,
    ) -> LmacRun {
        let channel = self.channel_of(block);
        if channel.carries_traffic() {
            self.traffic(block, decoded)
        } else {
            self.control(
                block,
                channel,
                self.uplink_of(block.ul_time) == PhysicalChannel::Cp && block.ul_time.t == 1,
                decoded,
                crc_pass,
            )
        }
    }

    /// A slot for the downlink.
    pub open spec fn slot(
        self,
        ts: TdmaTime,
        ul_phy_chan: PhysicalChannel,
        bbk: BlockView,
        blk1: BlockView,
        blk2: Option<BlockView>,
    ) -> LmacRun {
        LmacRun { uplink: self.uplink.update(ts.t - 1, ul_phy_chan), ..self }.pushed(
            LmacMessageView::Slot {
                train_type: training_of(blk1.logical_channel),
                burst_type: burst_of(blk1.logical_channel),
                bbk: (BlockCoding::AccessAssignment, bbk),
                blk1: (coding_of(blk1.logical_channel, 1), blk1),
                blk2: match blk2 {
                    Some(block) => Some((coding_of(block.logical_channel, 2), block)),
                    None => None,
                },
            },
        )
    }

    /// No failure is remembered twice, and no more than the limit.
    pub open spec fn remembers_well(self) -> bool {
        self.failures.no_duplicates() && self.failures.len() <= REMEMBERED_FAILURES
    }
}

/// The lower MAC.
pub struct LmacBs {
    dltime: TdmaTime,
    stack_mode: StackMode,
    scrambling_code: u32,
    uplink_phy_chan: Vec<PhysicalChannel>,
    blk2_stolen: bool,
    recent_common_crc_failures: Vec<CrcFailureKey>,
}

impl LmacBs {
    /// The state, with nothing handed on.
    pub closed spec fn state(&self) -> LmacRun {
        LmacRun {
            dltime: self.dltime,
            stack_mode: self.stack_mode,
            scrambling_code: self.scrambling_code,
            uplink: self.uplink_phy_chan@,
            blk2_stolen: self.blk2_stolen,
            failures: self.recent_common_crc_failures@,
            queue: Seq::empty(),
        }
    }

    /// The state with what was handed on.
    pub open spec fn run(&self, queue: Seq<LmacMessage>) -> LmacRun {
        LmacRun { queue: lmac_messages(queue), ..self.state() }
    }

    /// The four timeslots are accounted for, and failures remembered well.
    pub open spec fn wf(&self) -> bool {
        &&& self.state().uplink.len() == 4
        &&& self.state().remembers_well()
    }

    /// No timeslot is in use.
    pub fn new(stack_mode: StackMode, scrambling_code: u32) -> (lmac: Self)
        ensures
            lmac.wf(),
            lmac.state() == (LmacRun {
                dltime: TdmaTime { t: 1, f: 1, m: 1, h: 0 },
                stack_mode,
                scrambling_code,
                uplink: Seq::new(4, |i: int| PhysicalChannel::Unallocated),
                blk2_stolen: false,
                failures: Seq::empty(),
                queue: Seq::empty(),
            }),
    {
        let mut uplink_phy_chan: Vec<PhysicalChannel> = Vec::new();
        uplink_phy_chan.push(PhysicalChannel::Unallocated);
        uplink_phy_chan.push(PhysicalChannel::Unallocated);
        uplink_phy_chan.push(PhysicalChannel::Unallocated);
        uplink_phy_chan.push(PhysicalChannel::Unallocated);
        let lmac = LmacBs {
            dltime: TdmaTime { t: 1, f: 1, m: 1, h: 0 },
            stack_mode,
            scrambling_code,
            uplink_phy_chan,
            blk2_stolen: false,
            recent_common_crc_failures: Vec::new(),
        };
        assert(lmac.state() =~= (LmacRun {
            dltime: TdmaTime { t: 1, f: 1, m: 1, h: 0 },
            stack_mode,
            scrambling_code,
            uplink: Seq::new(4, |i: int| PhysicalChannel::Unallocated),
            blk2_stolen: false,
            failures: Seq::empty(),
            queue: Seq::empty(),
        }));
        lmac
    }

    /// The logical channel of an uplink block.
    pub fn determine_logical_channel_ul(
        blk: &UplinkBlock,
        burst_is_traffic: bool,
        is_sacch_frame: bool,
        block2_stolen: bool,
    ) -> (channel: LogicalChannel)
        requires
            blk.is_possible(),
        ensures
            channel == blk.channel(burst_is_traffic, is_sacch_frame, block2_stolen),
    {
        match blk.burst_type {
            BurstType::CUB => LogicalChannel::SchHu,
            _ => match blk.train_type {
                TrainingSequence::NormalTrainSeq1 => if burst_is_traffic && !is_sacch_frame {
                    LogicalChannel::TchS
                } else {
                    LogicalChannel::SchF
                },
                _ => if blk.block_num == PhyBlockNum::Block1 {
                    LogicalChannel::Stch
                } else if !burst_is_traffic || block2_stolen {
                    LogicalChannel::Stch
                } else {
                    LogicalChannel::TchS
                },
            },
        }
    }

    /// The logical channel of a block that comes now, by which it is decoded.
    pub fn uplink_channel(&self, blk: &UplinkBlock) -> (channel: LogicalChannel)
        requires
            self.wf(),
            self.state().accepts(*blk),
        ensures
            channel == self.state().channel_of(*blk),
    {
        let ts_idx: usize = (blk.ul_time.t - 1) as usize;
        LmacBs::determine_logical_channel_ul(
            blk,
            self.uplink_phy_chan[ts_idx] == PhysicalChannel::Tp,
            blk.ul_time.f == 18,
            self.blk2_stolen,
        )
    }

    /// The code by which blocks are descrambled.
    pub fn scrambling_code(&self) -> (code: u32)
        ensures
            code == self.state().scrambling_code,
    {
        self.scrambling_code
    }

    fn was_told(&self, ul_time: TdmaTime, block_num: PhyBlockNum) -> (r: bool)
        ensures
            r == self.state().failures.contains((ul_time, block_num)),
    {
        let mut i: usize = 0;
        while i < self.recent_common_crc_failures.len()
            invariant
                i <= self.recent_common_crc_failures@.len(),
                forall|j: int|
                    0 <= j < i ==> self.recent_common_crc_failures@[j] != (ul_time, block_num),
            decreases self.recent_common_crc_failures@.len() - i,
        {
            let told: CrcFailureKey = self.recent_common_crc_failures[i];
            if told.0 == ul_time && told.1 == block_num {
                assert(self.recent_common_crc_failures@[i as int] == (ul_time, block_num));
                return true;
            }
            i = i + 1;
        }
        false
    }

    fn remember(&mut self, ul_time: TdmaTime, block_num: PhyBlockNum)
        requires
            old(self).wf(),
            !old(self).state().failures.contains((ul_time, block_num)),
        ensures
            final(self).wf(),
            final(self).state() == old(self).state().remembered(
                (ul_time, block_num),
            ),
    {
        let ghost before = self.state();
        proof {
            lemma_remembered(before, (ul_time, block_num));
        }
        self.recent_common_crc_failures.push((ul_time, block_num));
        if self.recent_common_crc_failures.len() > REMEMBERED_FAILURES {
            self.recent_common_crc_failures.remove(0);
            assert(self.recent_common_crc_failures@ =~= before.failures.push(
                (ul_time, block_num),
            ).drop_first());
        }
    }

    /// An uplink block as it was decoded on its logical channel.
    pub fn rx_tp_prim(
        &mut self,
        queue: &mut Vec<LmacMessage>,
        blk: &UplinkBlock,
        decoded: Option<Vec<u8>>,
        crc_pass: bool,
    )
        requires
            old(self).wf(),
            old(self).state().accepts(*blk),
        ensures
            final(self).wf(),
            final(self).run(final(queue)@) == old(self).run(old(queue)@).uplink_block(
                *blk,
                match decoded {
                    Some(bits) => Some(bits@),
                    None => None,
                },
                crc_pass,
            ),
    {
        let ghost before = queue@;
        let channel: LogicalChannel = self.uplink_channel(blk);
        if channel.is_traffic() {
            if blk.block_num == PhyBlockNum::Both {
                if let Some(data) = decoded {
                    let message = LmacMessage::CircuitData { ts: blk.ul_time.t, data };
                    let ghost pushed = message@;
                    queue.push(message);
                    assert(lmac_messages(queue@) =~= lmac_messages(before).push(pushed));
                }
            }
            return;
        }
        let ts_idx: usize = (blk.ul_time.t - 1) as usize;
        if !crc_pass {
            let common_control: bool = self.uplink_phy_chan[ts_idx] == PhysicalChannel::Cp
                && blk.ul_time.t == 1;
            if common_control && channel == LogicalChannel::SchHu && !self.was_told(
                blk.ul_time,
                blk.block_num,
            ) {
                self.remember(blk.ul_time, blk.block_num);
                let message = LmacMessage::CrcFailure {
                    logical_channel: channel,
                    block_num: blk.block_num,
                };
                let ghost pushed = message@;
                queue.push(message);
                assert(lmac_messages(queue@) =~= lmac_messages(before).push(pushed));
            }
            return;
        }
        if let Some(pdu) = decoded {
            let message = LmacMessage::UnitData {
                pdu,
                logical_channel: channel,
                block_num: blk.block_num,
                scrambling_code: self.scrambling_code,
            };
            let ghost pushed = message@;
            queue.push(message);
            assert(lmac_messages(queue@) =~= lmac_messages(before).push(pushed));
        }
    }

    /// The upper MAC tells whether the second block is stolen too.
    pub fn rx_tmv_configure_req(&mut self, blk2_stolen: Option<bool>)
        requires
            old(self).wf(),
        ensures
            final(self).wf(),
            final(self).state() == (LmacRun {
                blk2_stolen: match blk2_stolen {
                    Some(stolen) => stolen,
                    None => old(self).state().blk2_stolen,
                },
                ..old(self).state()
            }),
    {
        if let Some(stolen) = blk2_stolen {
            self.blk2_stolen = stolen;
        }
    }

    /// The upper MAC requests a slot.
    pub fn rx_tmv_unitdata_req_slot(&mut self, queue: &mut Vec<LmacMessage>, slot: DownlinkSlot)
        requires
            old(self).wf(),
            1 <= slot.ts.t <= 4,
            slot_is_possible(slot.blk1.logical_channel, slot.blk2 is Some),
        ensures
            final(self).wf(),
            final(self).run(final(queue)@) == old(self).run(old(queue)@).slot(
                slot.ts,
                slot.ul_phy_chan,
                slot.bbk@,
                slot.blk1@,
                match slot.blk2 {
                    Some(block) => Some(block@),
                    None => None,
                },
            ),
    {
        let ghost before = queue@;
        let ts_idx: usize = (slot.ts.t - 1) as usize;
        self.uplink_phy_chan.set(ts_idx, slot.ul_phy_chan);
        let (burst_type, train_type) = match slot.blk1.logical_channel {
            LogicalChannel::Bsch => (BurstType::SDB, TrainingSequence::SyncTrainSeq),
            LogicalChannel::SchHd | LogicalChannel::Stch | LogicalChannel::Bnch => (
                BurstType::NDB,
                TrainingSequence::NormalTrainSeq2,
            ),
            _ => (BurstType::NDB, TrainingSequence::NormalTrainSeq1),
        };
        let blk2: Option<CodedBlock> = match slot.blk2 {
            Some(block) => Some(coded(block, 2)),
            None => None,
        };
        let message = LmacMessage::Slot {
            train_type,
            burst_type,
            bbk: CodedBlock { coding: BlockCoding::AccessAssignment, block: slot.bbk },
            blk1: coded(slot.blk1, 1),
            blk2,
        };
        let ghost pushed = message@;
        queue.push(message);
        assert(lmac_messages(queue@) =~= lmac_messages(before).push(pushed));
    }

    /// A slot begins.
    pub fn tick_start(&mut self, ts: TdmaTime)
        requires
            old(self).wf(),
        ensures
            final(self).wf(),
            final(self).state() == (LmacRun {
                dltime: ts,
                blk2_stolen: false,
                ..old(self).state()
            }),
    {
        self.dltime = ts;
        self.blk2_stolen = false;
    }
}

fn coded(block: DownlinkBlock, number: u8) -> (result: CodedBlock)
    ensures
        result.block == block,
        result.coding == coding_of(block.logical_channel, number),
{
    let coding: BlockCoding = if block.logical_channel.is_traffic() {
        BlockCoding::Traffic(number)
    } else {
        BlockCoding::Control
    };
    CodedBlock { coding, block }
}

proof fn lemma_remembered(run: LmacRun, key: CrcFailureKey)
    requires
        run.remembers_well(),
        !run.failures.contains(key),
    ensures
        run.remembered(key).remembers_well(),
        run.remembered(key).failures.contains(key),
{
    let longer = run.failures.push(key);
    assert(longer.no_duplicates()) by {
        assert forall|i: int, j: int|
            0 <= i < longer.len() && 0 <= j < longer.len() && i != j implies longer[i]
            != longer[j] by {
            if i < run.failures.len() && j < run.failures.len() {
            } else if i < run.failures.len() {
                assert(run.failures.contains(run.failures[i]));
            } else {
                assert(run.failures.contains(run.failures[j]));
            }
        }
    }
    let kept = run.remembered(key).failures;
    assert(kept[kept.len() - 1] == key);
}

/// On frame eighteen a full burst is signalling, whatever the channel is used
/// for.
pub proof fn law_frame_eighteen_is_signalling(run: LmacRun, block: UplinkBlock)
    requires
        run.accepts(block),
        block.ul_time.f == 18,
        block.block_num == PhyBlockNum::Both,
    ensures
        !run.channel_of(block).carries_traffic(),
{
}

/// An unreadable common block is told once: when the same block comes again it
/// changes nothing.
pub proof fn law_failure_is_told_once(run: LmacRun, block: UplinkBlock, again: UplinkBlock)
    requires
        run.remembers_well(),
        run.accepts(block),
        block.burst_type == BurstType::CUB,
        again.burst_type == BurstType::CUB,
        again.ul_time == block.ul_time,
        again.block_num == block.block_num,
        run.uplink_of(block.ul_time) == PhysicalChannel::Cp,
        block.ul_time.t == 1,
    ensures
        ({
            let once = run.uplink_block(block, None, false);
            once.uplink_block(again, None, false) == once
        }),
{
    let key = (block.ul_time, block.block_num);
    if !run.failures.contains(key) {
        lemma_remembered(run, key);
    }
}

/// A block that could not be read never reaches the upper MAC as signalling.
pub proof fn law_unreadable_signalling_is_not_handed_on(
    run: LmacRun,
    block: UplinkBlock,
    decoded: Option<Seq<u8>>,
)
    requires
        run.accepts(block),
        !run.channel_of(block).carries_traffic(),
    ensures
        ({
            let after = run.uplink_block(block, decoded, false);
            after.queue == run.queue || (after.queue.drop_last() == run.queue
                && after.queue.last() is CrcFailure)
        }),
{
    let after = run.uplink_block(block, decoded, false);
    if after.queue != run.queue {
        assert(after.queue.drop_last() =~= run.queue);
    }
}

/// A slot is transmitted as it was asked for: one message more is handed on, and
/// it holds the very blocks that came in. A synchronization burst is one that
/// begins with the synchronization channel, and it alone has the synchronization
/// sequence. Every other burst is a normal one, whose training sequence is the
/// second exactly where there are two half blocks, and the first exactly where
/// there is one full block. Nothing but the use of that timeslot's uplink
/// changes.
pub proof fn law_slot_is_transmitted_as_asked(
    run: LmacRun,
    ts: TdmaTime,
    ul_phy_chan: PhysicalChannel,
    bbk: BlockView,
    blk1: BlockView,
    blk2: Option<BlockView>,
)
    requires
        run.uplink.len() == 4,
        1 <= ts.t <= 4,
        slot_is_possible(blk1.logical_channel, blk2 is Some),
    ensures
        ({
            let after = run.slot(ts, ul_phy_chan, bbk, blk1, blk2);
            let sync = blk1.logical_channel == LogicalChannel::Bsch;
            &&& after.queue.len() == run.queue.len() + 1
            &&& after.queue.drop_last() == run.queue
            &&& after.queue.last() matches LmacMessageView::Slot {
                train_type,
                burst_type,
                bbk: sent_bbk,
                blk1: sent_blk1,
                blk2: sent_blk2,
            } && {
                &&& sent_bbk.1 == bbk && sent_blk1.1 == blk1
                &&& sent_blk2 is Some <==> blk2 is Some
                &&& blk2 is Some ==> (sent_blk2->0).1 == blk2->0
                &&& burst_type == BurstType::SDB <==> sync
                &&& burst_type == BurstType::NDB <==> !sync
                &&& train_type == TrainingSequence::SyncTrainSeq <==> sync
                &&& train_type == TrainingSequence::NormalTrainSeq2 <==> !sync && blk2 is Some
                &&& train_type == TrainingSequence::NormalTrainSeq1 <==> !sync && blk2 is None
            }
            &&& after.uplink.len() == 4
            &&& forall|t: int|
                1 <= t <= 4 ==> #[trigger] after.uplink[t - 1] == if t == ts.t {
                    ul_phy_chan
                } else {
                    run.uplink[t - 1]
                }
            &&& after.dltime == run.dltime && after.stack_mode == run.stack_mode
            &&& after.scrambling_code == run.scrambling_code
            &&& after.blk2_stolen == run.blk2_stolen
            &&& after.failures == run.failures
        }),
{
    let after = run.slot(ts, ul_phy_chan, bbk, blk1, blk2);
    assert(after.queue.drop_last() =~= run.queue);
}

/// Each block of a slot is coded for what it is: the access assignment by its own
/// code, speech and data as traffic of the first or the second block, and
/// everything else as signalling.
pub proof fn law_blocks_are_coded_for_their_channel(
    run: LmacRun,
    ts: TdmaTime,
    ul_phy_chan: PhysicalChannel,
    bbk: BlockView,
    blk1: BlockView,
    blk2: Option<BlockView>,
)
    ensures
        ({
            let speech_or_data = |channel: LogicalChannel|
                channel == LogicalChannel::TchS || channel == LogicalChannel::Tch24 || channel
                    == LogicalChannel::Tch48 || channel == LogicalChannel::Tch72;
            run.slot(ts, ul_phy_chan, bbk, blk1, blk2).queue.last() matches LmacMessageView::Slot {
                bbk: sent_bbk,
                blk1: sent_blk1,
                blk2: sent_blk2,
                ..
            } && {
                &&& sent_bbk.0 == BlockCoding::AccessAssignment
                &&& sent_blk1.0 == BlockCoding::Traffic(1) <==> speech_or_data(blk1.logical_channel)
                &&& sent_blk1.0 == BlockCoding::Control <==> !speech_or_data(blk1.logical_channel)
                &&& blk2 is Some ==> ((sent_blk2->0).0 == BlockCoding::Traffic(2)
                    <==> speech_or_data(blk2->0.logical_channel))
                &&& blk2 is Some ==> ((sent_blk2->0).0 == BlockCoding::Control <==> !speech_or_data(
                    blk2->0.logical_channel,
                ))
            }
        }),
{
}

/// A slot can be made up in one way for each channel that may come first: half
/// blocks and the synchronization channel want a second block, full blocks want
/// none.
pub proof fn law_slots_that_can_be_made_up(channel: LogicalChannel)
    ensures
        ({
            let halves = channel == LogicalChannel::Bsch || channel == LogicalChannel::SchHd
                || channel == LogicalChannel::Stch || channel == LogicalChannel::Bnch;
            let full = channel == LogicalChannel::SchF || channel == LogicalChannel::TchS || channel
                == LogicalChannel::Tch24 || channel == LogicalChannel::Tch48 || channel
                == LogicalChannel::Tch72;
            &&& slot_is_possible(channel, true) <==> halves
            &&& slot_is_possible(channel, false) <==> full
        }),
{
}

/// A block that was read reaches the upper MAC unchanged. A full burst on a
/// timeslot whose uplink is traffic is speech of that timeslot, but for frame
/// eighteen; a control burst is a half slot of signalling, any other full burst a
/// full slot of it, and a half of a normal burst was stolen.
pub proof fn law_readable_block_is_handed_on(run: LmacRun, block: UplinkBlock, data: Seq<u8>)
    requires
        run.uplink.len() == 4,
        run.accepts(block),
    ensures
        ({
            let after = run.uplink_block(block, Some(data), true);
            let on_traffic = run.uplink[block.ul_time.t - 1] == PhysicalChannel::Tp;
            let full = block.burst_type == BurstType::NUB && block.block_num == PhyBlockNum::Both;
            let speech = full && on_traffic && block.ul_time.f != 18;
            // The second half of a traffic slot of which only the first is stolen.
            let lost = block.burst_type == BurstType::NUB && block.block_num == PhyBlockNum::Block2
                && on_traffic && !run.blk2_stolen;
            &&& speech ==> after.queue == run.queue.push(
                LmacMessageView::CircuitData { ts: block.ul_time.t, data },
            )
            &&& lost ==> after.queue == run.queue
            &&& !speech && !lost ==> {
                &&& after.queue.len() == run.queue.len() + 1
                &&& after.queue.drop_last() == run.queue
                &&& after.queue.last() matches LmacMessageView::UnitData {
                    pdu,
                    logical_channel,
                    block_num,
                    scrambling_code,
                } && {
                    &&& pdu == data
                    &&& block_num == block.block_num
                    &&& scrambling_code == run.scrambling_code
                    &&& logical_channel == LogicalChannel::SchHu <==> block.burst_type
                        == BurstType::CUB
                    &&& logical_channel == LogicalChannel::SchF <==> full
                    &&& logical_channel == LogicalChannel::Stch <==> block.burst_type
                        == BurstType::NUB && !full
                }
            }
            &&& after == (LmacRun { queue: after.queue, ..run })
        }),
{
    let after = run.uplink_block(block, Some(data), true);
    if after.queue != run.queue {
        assert(after.queue.drop_last() =~= run.queue);
    }
}

/// Only a control burst on the common control channel is told when it cannot be
/// read, as what it is; the failure is remembered, and nothing else comes of a
/// block that cannot be read, whatever was made of it.
pub proof fn law_only_common_failures_are_told(
    run: LmacRun,
    block: UplinkBlock,
    decoded: Option<Seq<u8>>,
)
    requires
        run.uplink.len() == 4,
        run.remembers_well(),
        run.accepts(block),
        !(block.burst_type == BurstType::NUB && run.uplink[block.ul_time.t - 1]
            == PhysicalChannel::Tp),
    ensures
        ({
            let after = run.uplink_block(block, decoded, false);
            let key = (block.ul_time, block.block_num);
            let common = block.burst_type == BurstType::CUB && block.ul_time.t == 1 && run.uplink[0]
                == PhysicalChannel::Cp;
            &&& common && !run.failures.contains(key) ==> {
                &&& after.queue == run.queue.push(
                    LmacMessageView::CrcFailure {
                        logical_channel: LogicalChannel::SchHu,
                        block_num: block.block_num,
                    },
                )
                &&& after.failures.contains(key)
                &&& after.failures.len() <= 32
            }
            &&& !common || run.failures.contains(key) ==> after == run
        }),
{
    let key = (block.ul_time, block.block_num);
    if !run.failures.contains(key) {
        lemma_remembered(run, key);
    }
}

/// What a downlink slot says of the uplink of its timeslot decides how a full
/// burst that comes there is taken: as speech where the uplink is traffic, as
/// signalling where it is not.
pub proof fn law_announced_uplink_decides_how_a_burst_is_taken(
    run: LmacRun,
    ts: TdmaTime,
    ul_phy_chan: PhysicalChannel,
    bbk: BlockView,
    blk1: BlockView,
    blk2: Option<BlockView>,
    block: UplinkBlock,
    data: Seq<u8>,
)
    requires
        run.uplink.len() == 4,
        !run.blk2_stolen,
        1 <= ts.t <= 4,
        block.is_possible(),
        block.burst_type == BurstType::NUB,
        block.block_num == PhyBlockNum::Both,
        block.ul_time.t == ts.t,
        block.ul_time.f != 18,
    ensures
        ({
            let asked = run.slot(ts, ul_phy_chan, bbk, blk1, blk2);
            let after = asked.uplink_block(block, Some(data), true);
            &&& after.queue.len() == asked.queue.len() + 1
            &&& after.queue.last() is CircuitData <==> ul_phy_chan == PhysicalChannel::Tp
            &&& after.queue.last() is UnitData <==> ul_phy_chan != PhysicalChannel::Tp
        }),
{
}

/// The blocks that a receiver hands on: control bursts with the extended sequence,
/// and normal bursts, whole with the first sequence or in halves with the second.
pub proof fn law_blocks_that_are_received(block: UplinkBlock)
    ensures
        block.is_possible() <==> {
            ||| block.burst_type is CUB && block.train_type is ExtendedTrainSeq
            ||| block.burst_type is NUB && block.train_type is NormalTrainSeq1
                && block.block_num is Both
            ||| block.burst_type is NUB && block.train_type is NormalTrainSeq2
                && !(block.block_num is Both)
        },
{
}

} // verus!
