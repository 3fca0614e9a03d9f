use tetra_bluestation::bluestation::config::StackMode;
use tetra_bluestation::lmac::lmac_bs::{
    BlockCoding, BurstType, DownlinkBlock, DownlinkSlot, LmacBs, LmacMessage, LmacTrafficChan,
    LogicalChannel, PhyBlockNum, PhysicalChannel, TrainingSequence, UplinkBlock,
};
use tetra_bluestation::tdma::TdmaTime;

fn normal_uplink_burst() -> UplinkBlock {
    UplinkBlock {
        ul_time: TdmaTime::default(),
        train_type: TrainingSequence::NormalTrainSeq1,
        burst_type: BurstType::NUB,
        block_num: PhyBlockNum::Both,
    }
}

#[test]
fn decodes_associated_frame18_as_schf_on_tp() {
    assert_eq!(
        LmacBs::determine_logical_channel_ul(&normal_uplink_burst(), true, true, false),
        LogicalChannel::SchF,
    );
}

#[test]
fn decodes_ordinary_traffic_frame_as_tchs_on_tp() {
    assert_eq!(
        LmacBs::determine_logical_channel_ul(&normal_uplink_burst(), true, false, false),
        LogicalChannel::TchS,
    );
}

fn block(channel: LogicalChannel) -> DownlinkBlock {
    DownlinkBlock { logical_channel: channel, mac_block: vec![1, 0, 1], scrambling_code: 7 }
}

fn slot(t: u8, ul: PhysicalChannel, blk1: LogicalChannel, blk2: Option<LogicalChannel>) -> DownlinkSlot {
    DownlinkSlot {
        ts: TdmaTime { h: 0, m: 1, f: 1, t },
        ul_phy_chan: ul,
        bbk: block(LogicalChannel::Aach),
        blk1: block(blk1),
        blk2: blk2.map(block),
    }
}

#[test]
fn downlink_slots_have_their_burst_and_coding() {
    let mut lmac = LmacBs::new(StackMode::Bs, 7);
    let mut queue = Vec::new();
    lmac.rx_tmv_unitdata_req_slot(
        &mut queue,
        slot(1, PhysicalChannel::Cp, LogicalChannel::Bsch, Some(LogicalChannel::Bnch)),
    );
    lmac.rx_tmv_unitdata_req_slot(
        &mut queue,
        slot(2, PhysicalChannel::Tp, LogicalChannel::TchS, None),
    );
    lmac.rx_tmv_unitdata_req_slot(
        &mut queue,
        slot(3, PhysicalChannel::Tp, LogicalChannel::Stch, Some(LogicalChannel::TchS)),
    );
    let shapes: Vec<_> = queue
        .iter()
        .map(|message| match message {
            LmacMessage::Slot { train_type, burst_type, bbk, blk1, blk2 } => {
                assert_eq!(bbk.coding, BlockCoding::AccessAssignment);
                (*burst_type, *train_type, blk1.coding, blk2.as_ref().map(|b| b.coding))
            }
            other => panic!("{:?}", other),
        })
        .collect();
    assert_eq!(
        shapes,
        vec![
            (
                BurstType::SDB,
                TrainingSequence::SyncTrainSeq,
                BlockCoding::Control,
                Some(BlockCoding::Control)
            ),
            (BurstType::NDB, TrainingSequence::NormalTrainSeq1, BlockCoding::Traffic(1), None),
            (
                BurstType::NDB,
                TrainingSequence::NormalTrainSeq2,
                BlockCoding::Control,
                Some(BlockCoding::Traffic(2))
            ),
        ]
    );
}

#[test]
fn uplink_blocks_reach_the_upper_mac() {
    let mut lmac = LmacBs::new(StackMode::Bs, 7);
    let mut queue = Vec::new();
    lmac.rx_tmv_unitdata_req_slot(
        &mut queue,
        slot(2, PhysicalChannel::Tp, LogicalChannel::TchS, None),
    );
    queue.clear();
    let speech = UplinkBlock {
        ul_time: TdmaTime { h: 0, m: 1, f: 3, t: 2 },
        ..normal_uplink_burst()
    };
    assert_eq!(lmac.uplink_channel(&speech), LogicalChannel::TchS);
    // A damaged speech frame is still handed on.
    lmac.rx_tp_prim(&mut queue, &speech, Some(vec![1; 274]), false);
    assert!(matches!(&queue[0], LmacMessage::CircuitData { ts: 2, data } if data.len() == 274));
    // On frame eighteen the same burst is signalling.
    let sacch = UplinkBlock { ul_time: TdmaTime { h: 0, m: 1, f: 18, t: 2 }, ..speech };
    lmac.rx_tp_prim(&mut queue, &sacch, Some(vec![1; 268]), true);
    assert!(matches!(
        &queue[1],
        LmacMessage::UnitData { logical_channel: LogicalChannel::SchF, scrambling_code: 7, .. }
    ));
    lmac.rx_tp_prim(&mut queue, &sacch, Some(vec![1; 268]), false);
    assert_eq!(queue.len(), 2);
}

#[test]
fn a_stolen_second_block_is_signalling_for_one_slot() {
    let mut lmac = LmacBs::new(StackMode::Bs, 7);
    let mut queue = Vec::new();
    lmac.rx_tmv_unitdata_req_slot(
        &mut queue,
        slot(2, PhysicalChannel::Tp, LogicalChannel::TchS, None),
    );
    let second = UplinkBlock {
        ul_time: TdmaTime { h: 0, m: 1, f: 3, t: 2 },
        train_type: TrainingSequence::NormalTrainSeq2,
        burst_type: BurstType::NUB,
        block_num: PhyBlockNum::Block2,
    };
    assert_eq!(lmac.uplink_channel(&second), LogicalChannel::TchS);
    lmac.rx_tmv_configure_req(Some(true));
    assert_eq!(lmac.uplink_channel(&second), LogicalChannel::Stch);
    lmac.rx_tmv_configure_req(None);
    assert_eq!(lmac.uplink_channel(&second), LogicalChannel::Stch);
    lmac.tick_start(TdmaTime { h: 0, m: 1, f: 3, t: 3 });
    assert_eq!(lmac.uplink_channel(&second), LogicalChannel::TchS);
}

#[test]
fn an_unreadable_common_block_is_told_once() {
    let mut lmac = LmacBs::new(StackMode::Bs, 7);
    let mut queue = Vec::new();
    lmac.rx_tmv_unitdata_req_slot(
        &mut queue,
        slot(1, PhysicalChannel::Cp, LogicalChannel::SchF, None),
    );
    queue.clear();
    let access = UplinkBlock {
        ul_time: TdmaTime { h: 0, m: 1, f: 3, t: 1 },
        train_type: TrainingSequence::ExtendedTrainSeq,
        burst_type: BurstType::CUB,
        block_num: PhyBlockNum::Block1,
    };
    lmac.rx_tp_prim(&mut queue, &access, None, false);
    lmac.rx_tp_prim(&mut queue, &access, None, false);
    assert_eq!(queue.len(), 1);
    let later = UplinkBlock { block_num: PhyBlockNum::Block2, ..access };
    lmac.rx_tp_prim(&mut queue, &later, None, false);
    assert_eq!(queue.len(), 2);
    assert!(matches!(
        queue[1],
        LmacMessage::CrcFailure {
            logical_channel: LogicalChannel::SchHu,
            block_num: PhyBlockNum::Block2
        }
    ));
}

#[test]
fn a_traffic_channel_starts_idle() {
    let channel = LmacTrafficChan::default();
    assert!(!channel.is_active);
    assert_eq!(channel.logical_channel, LogicalChannel::TchS);
}
