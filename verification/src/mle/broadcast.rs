//! The network broadcast: a carousel of the neighbours that the SwMI names, with
//! the station's own settings and its time.
use crate::bluestation::config::is_iana_timezone;
use crate::bluestation::network_broadcast::{
    AdvertisedView, CfgNeighbourCells, CfgNetworkBroadcast, RuntimeNetworkBroadcast,
};
use crate::bluestation::sec_swmi::is_blank;
use crate::net_swmi::protocol::{
    BsServiceDetails, NeighbourCell, NeighbourCellSnapshot, SystemInfo,
};
use vstd::prelude::*;

verus! {

/// The number of neighbours in one broadcast.
pub const NEIGHBOURS_PER_BROADCAST: usize = 7;

/// The most neighbours that the station names.
pub const MAX_NEIGHBOURS: usize = 31;

/// A neighbour as it is broadcast.
#[derive(Debug, Clone, Copy, PartialEq, Eq, Structural)]
pub struct NeighbourCellInformationForCa {
    pub cell_identifier_ca: u8,
    pub cell_reselection_types_supported: u8,
    pub synchronized: bool,
    pub cell_load_ca: u8,
    pub main_carrier_number: u16,
    pub main_carrier_number_extension: Option<u16>,
    pub mcc: Option<u16>,
    pub mnc: Option<u16>,
    pub location_area: Option<u16>,
    pub ms_txpwr_max_cell: Option<u8>,
    pub rxlev_access_min: Option<u8>,
    pub subscriber_class: Option<u16>,
    pub bs_service_details: Option<BsServiceDetails>,
    pub timeshare_security_parameters: Option<u8>,
    pub tdma_frame_offset: Option<u8>,
}

/// D-NWRK-BROADCAST.
#[derive(Debug)]
pub struct DNwrkBroadcast {
    pub cell_re_select_parameters: u16,
    pub cell_load_ca: u8,
    pub tetra_network_time: Option<u64>,
    pub neighbour_cell_information_for_ca: Vec<NeighbourCellInformationForCa>,
}

/// The model of a broadcast.
#[verifier::ext_equal]
pub ghost struct BroadcastPduView {
    pub cell_re_select_parameters: u16,
    pub cell_load_ca: u8,
    pub tetra_network_time: Option<u64>,
    pub neighbours: Seq<NeighbourCellInformationForCa>,
}

impl View for DNwrkBroadcast {
    type V = BroadcastPduView;

    open spec fn view(&self) -> BroadcastPduView {
        BroadcastPduView {
            cell_re_select_parameters: self.cell_re_select_parameters,
            cell_load_ca: self.cell_load_ca,
            tetra_network_time: self.tetra_network_time,
            neighbours: self.neighbour_cell_information_for_ca@,
        }
    }
}

/// The model of a neighbour.
#[verifier::ext_equal]
pub ghost struct NeighbourView {
    pub cell_identifier_ca: u8,
    pub station_id: Seq<char>,
    pub report: crate::net_swmi::profile::ReportView,
}

impl View for NeighbourCell {
    type V = NeighbourView;

    open spec fn view(&self) -> NeighbourView {
        NeighbourView {
            cell_identifier_ca: self.cell_identifier_ca,
            station_id: self.station_id@,
            report: self.report@,
        }
    }
}

/// The models of a list of neighbours.
pub open spec fn neighbour_views(neighbours: Seq<NeighbourCell>) -> Seq<NeighbourView> {
    neighbours.map_values(|neighbour: NeighbourCell| neighbour@)
}

/// A neighbour as it is broadcast: forward registration is supported. Its frame
/// offset is told where it is synchronized.
pub open spec fn on_air(neighbour: NeighbourView) -> NeighbourCellInformationForCa {
    let report = neighbour.report.info;
    NeighbourCellInformationForCa {
        cell_identifier_ca: neighbour.cell_identifier_ca,
        cell_reselection_types_supported: 2,
        synchronized: report.synchronized,
        cell_load_ca: report.cell_load_ca,
        main_carrier_number: report.main_carrier,
        main_carrier_number_extension: None,
        mcc: Some(report.cell.mcc),
        mnc: Some(report.cell.mnc),
        location_area: Some(report.cell.location_area),
        ms_txpwr_max_cell: Some(report.ms_txpwr_max_cell),
        rxlev_access_min: Some(report.rxlev_access_min),
        subscriber_class: Some(report.subscriber_class),
        bs_service_details: Some(BsServiceDetails::of_flags(report.service_flags)),
        timeshare_security_parameters: None,
        tdma_frame_offset: if report.synchronized {
            Some(report.tdma_frame_offset)
        } else {
            None
        },
    }
}

/// A neighbour as it is broadcast.
pub fn neighbour_to_air(neighbour: &NeighbourCell) -> (air: NeighbourCellInformationForCa)
    ensures
        air == on_air(neighbour@),
{
    let report: SystemInfo = neighbour.report.info;
    NeighbourCellInformationForCa {
        cell_identifier_ca: neighbour.cell_identifier_ca,
        cell_reselection_types_supported: 2,
        synchronized: report.synchronized,
        cell_load_ca: report.cell_load_ca,
        main_carrier_number: report.main_carrier,
        main_carrier_number_extension: None,
        mcc: Some(report.cell.mcc),
        mnc: Some(report.cell.mnc),
        location_area: Some(report.cell.location_area),
        ms_txpwr_max_cell: Some(report.ms_txpwr_max_cell),
        rxlev_access_min: Some(report.rxlev_access_min),
        subscriber_class: Some(report.subscriber_class),
        bs_service_details: Some(BsServiceDetails::of_flags(report.service_flags)),
        timeshare_security_parameters: None,
        tdma_frame_offset: if report.synchronized {
            Some(report.tdma_frame_offset)
        } else {
            None
        },
    }
}

/// The number of broadcasts that it takes to name all neighbours.
pub open spec fn batch_count(neighbours: nat) -> nat {
    (neighbours + 6) / 7
}

/// The neighbours of one broadcast.
pub open spec fn batch(neighbours: Seq<NeighbourView>, index: int) -> Seq<NeighbourView> {
    neighbours.subrange(
        index * 7,
        if index * 7 + 7 < neighbours.len() {
            index * 7 + 7
        } else {
            neighbours.len() as int
        },
    )
}

/// The identity of the first neighbour with a cell identifier.
pub open spec fn station_of(neighbours: Seq<NeighbourView>, cell_identifier_ca: u8) -> Option<
    Seq<char>,
>
    decreases neighbours.len(),
{
    if neighbours.len() == 0 {
        None
    } else if neighbours[0].cell_identifier_ca == cell_identifier_ca {
        Some(neighbours[0].station_id)
    } else {
        station_of(neighbours.drop_first(), cell_identifier_ca)
    }
}

/// The state of the carousel.
#[verifier::ext_equal]
pub ghost struct CarouselView {
    pub snapshot_version: u64,
    pub neighbours: Seq<NeighbourView>,
    pub next_batch: int,
}

impl CarouselView {
    /// The next batch is one of those that there are.
    pub open spec fn wf(self) -> bool {
        0 <= self.next_batch && (self.next_batch == 0 || self.next_batch < batch_count(
            self.neighbours.len(),
        ))
    }

    /// With the directory of a snapshot, unless it is older than the one known.
    pub open spec fn replaced(self, version: u64, neighbours: Seq<NeighbourView>) -> CarouselView {
        if version < self.snapshot_version {
            self
        } else {
            CarouselView { snapshot_version: version, neighbours, next_batch: 0 }
        }
    }

    /// The neighbours of the next broadcast.
    pub open spec fn batch(self) -> Seq<NeighbourView> {
        if self.neighbours.len() == 0 {
            Seq::empty()
        } else {
            batch(self.neighbours, self.next_batch)
        }
    }

    /// After the next broadcast.
    pub open spec fn advanced(self) -> CarouselView {
        if self.neighbours.len() == 0 {
            self
        } else if self.next_batch + 1 >= batch_count(self.neighbours.len()) {
            CarouselView { next_batch: 0, ..self }
        } else {
            CarouselView { next_batch: self.next_batch + 1, ..self }
        }
    }

    /// After several broadcasts.
    pub open spec fn advanced_by(self, n: nat) -> CarouselView
        decreases n,
    {
        if n == 0 {
            self
        } else {
            self.advanced_by((n - 1) as nat).advanced()
        }
    }

    /// The neighbours of several broadcasts, one after the other.
    pub open spec fn shown(self, n: nat) -> Seq<NeighbourView>
        decreases n,
    {
        if n == 0 {
            Seq::empty()
        } else {
            self.shown((n - 1) as nat) + self.advanced_by((n - 1) as nat).batch()
        }
    }
}

/// The next broadcast.
pub open spec fn broadcast_pdu(
    carousel: CarouselView,
    advertised: AdvertisedView,
    local_time: Option<u64>,
) -> BroadcastPduView {
    BroadcastPduView {
        cell_re_select_parameters: advertised.broadcast.cell_reselect_parameters,
        cell_load_ca: advertised.broadcast.cell_load_ca,
        tetra_network_time: if advertised.tells_time() {
            local_time
        } else {
            None
        },
        neighbours: carousel.batch().map_values(|neighbour: NeighbourView| on_air(neighbour)),
    }
}

/// What is wrong with new settings, if anything. `blank` tells whether an
/// identity holds nothing but whitespace, `known` whether the time zone is one.
pub open spec fn settings_fault(
    neighbours: Seq<String>,
    broadcast: CfgNetworkBroadcast,
    blank: bool,
    known: bool,
) -> Option<Seq<char>> {
    if neighbours.len() > MAX_NEIGHBOURS || blank {
        Some("neighbour IDs must be non-empty and contain at most 31 entries"@)
    } else if !all_different(neighbours) {
        Some("neighbour IDs must be unique"@)
    } else if broadcast.cell_load_ca > 3 {
        Some("cell_load_ca must be 0-3"@)
    } else if broadcast.time_enabled && broadcast.timezone is None {
        Some("timezone is required while time broadcasting is enabled"@)
    } else if broadcast.time_enabled && !known {
        Some("timezone must be a valid IANA timezone"@)
    } else {
        None
    }
}

/// Whether no string stands twice.
pub open spec fn all_different(names: Seq<String>) -> bool {
    forall|i: int, j: int| 0 <= i < j < names.len() ==> names[i]@ != names[j]@
}

/// Whether one of the strings holds nothing but whitespace.
pub open spec fn some_blank(names: Seq<String>) -> bool {
    exists|i: int|
        0 <= i < names.len() && #[trigger] crate::bluestation::sec_swmi::all_white_space(names[i]@)
}

/// Whether the time zone is one, if it is needed.
pub open spec fn zone_known(broadcast: CfgNetworkBroadcast) -> bool {
    broadcast.timezone is Some && crate::bluestation::config::iana_timezone(
        broadcast.timezone->0@,
    )
}

/// The settings after a change.
pub open spec fn updated(
    advertised: AdvertisedView,
    neighbours: Seq<String>,
    broadcast: CfgNetworkBroadcast,
) -> AdvertisedView {
    AdvertisedView {
        version: if advertised.version == u64::MAX {
            u64::MAX
        } else {
            (advertised.version + 1) as u64
        },
        neighbours,
        broadcast,
    }
}

/// The carousel of the network broadcast.
pub struct MleBroadcast {
    snapshot_version: u64,
    neighbours: Vec<NeighbourCell>,
    next_batch: usize,
}

impl View for MleBroadcast {
    type V = CarouselView;

    closed spec fn view(&self) -> CarouselView {
        CarouselView {
            snapshot_version: self.snapshot_version,
            neighbours: neighbour_views(self.neighbours@),
            next_batch: self.next_batch as int,
        }
    }
}

fn all_names_different(names: &Vec<String>) -> (r: bool)
    ensures
        r == all_different(names@),
{
    let mut i: usize = 0;
    while i < names.len()
        invariant
            i <= names@.len(),
            all_different(names@.take(i as int)),
        decreases names@.len() - i,
    {
        let mut j: usize = 0;
        while j < i
            invariant
                j <= i < names@.len(),
                forall|k: int| 0 <= k < j ==> #[trigger] names@[k]@ != names@[i as int]@,
            decreases i - j,
        {
            if names[j] == names[i] {
                return false;
            }
            j = j + 1;
        }
        i = i + 1;
    }
    assert(names@.take(names@.len() as int) =~= names@);
    true
}

fn any_blank(names: &Vec<String>) -> (r: bool)
    ensures
        r == some_blank(names@),
{
    let mut i: usize = 0;
    while i < names.len()
        invariant
            i <= names@.len(),
            forall|k: int|
                0 <= k < i ==> !#[trigger] crate::bluestation::sec_swmi::all_white_space(
                    names@[k]@,
                ),
        decreases names@.len() - i,
    {
        if is_blank(&names[i]) {
            return true;
        }
        i = i + 1;
    }
    false
}

/// What is wrong with new settings, if anything, when it is known whether an
/// identity is blank and whether the time zone is one.
pub fn check_settings(
    neighbours: &Vec<String>,
    broadcast: &CfgNetworkBroadcast,
    blank: bool,
    known: bool,
) -> (fault: Option<&'static str>)
    ensures
        match fault {
            Some(text) => settings_fault(neighbours@, *broadcast, blank, known) == Some(text@),
            None => settings_fault(neighbours@, *broadcast, blank, known) is None,
        },
{
    if neighbours.len() > MAX_NEIGHBOURS || blank {
        return Some("neighbour IDs must be non-empty and contain at most 31 entries");
    }
    if !all_names_different(neighbours) {
        return Some("neighbour IDs must be unique");
    }
    if broadcast.cell_load_ca > 3 {
        return Some("cell_load_ca must be 0-3");
    }
    if broadcast.time_enabled {
        if broadcast.timezone.is_none() {
            return Some("timezone is required while time broadcasting is enabled");
        }
        if !known {
            return Some("timezone must be a valid IANA timezone");
        }
    }
    None
}

impl MleBroadcast {
    /// No neighbour is known.
    pub fn new() -> (broadcast: Self)
        ensures
            broadcast@ == (CarouselView {
                snapshot_version: 0,
                neighbours: Seq::empty(),
                next_batch: 0,
            }),
            broadcast@.wf(),
    {
        let broadcast = MleBroadcast {
            snapshot_version: 0,
            neighbours: Vec::new(),
            next_batch: 0,
        };
        assert(broadcast@.neighbours =~= Seq::empty());
        broadcast
    }

    /// Takes the directory of a snapshot, unless it is older than the one known.
    pub fn replace_neighbours(&mut self, snapshot: NeighbourCellSnapshot)
        ensures
            final(self)@ == old(self)@.replaced(
                snapshot.directory_version,
                neighbour_views(snapshot.neighbours@),
            ),
            old(self)@.wf() ==> final(self)@.wf(),
    {
        if snapshot.directory_version < self.snapshot_version {
            return;
        }
        self.snapshot_version = snapshot.directory_version;
        self.neighbours = snapshot.neighbours;
        self.next_batch = 0;
    }

    /// The identity of the neighbour with a cell identifier.
    pub fn neighbour_station_id(&self, cell_identifier_ca: u8) -> (station: Option<&str>)
        ensures
            match station {
                Some(id) => station_of(self@.neighbours, cell_identifier_ca) == Some(id@),
                None => station_of(self@.neighbours, cell_identifier_ca) is None,
            },
    {
        let mut i: usize = 0;
        proof {
            assert(self@.neighbours.skip(0) =~= self@.neighbours);
        }
        while i < self.neighbours.len()
            invariant
                i <= self.neighbours@.len(),
                self@.neighbours == neighbour_views(self.neighbours@),
                station_of(self@.neighbours, cell_identifier_ca) == station_of(
                    self@.neighbours.skip(i as int),
                    cell_identifier_ca,
                ),
            decreases self.neighbours@.len() - i,
        {
            proof {
                let rest = self@.neighbours.skip(i as int);
                assert(rest[0] == self.neighbours@[i as int]@);
                assert(rest.drop_first() =~= self@.neighbours.skip(i + 1));
            }
            if self.neighbours[i].cell_identifier_ca == cell_identifier_ca {
                return Some(self.neighbours[i].station_id.as_str());
            }
            i = i + 1;
        }
        None
    }

    /// Takes new settings and tells their version, or what is wrong with them.
    pub fn apply_runtime_update(
        &self,
        advertised: &mut RuntimeNetworkBroadcast,
        neighbours: Vec<String>,
        broadcast: CfgNetworkBroadcast,
    ) -> (version: Result<u64, &'static str>)
        ensures
            match version {
                Ok(new) => {
                    &&& settings_fault(
                        neighbours@,
                        broadcast,
                        some_blank(neighbours@),
                        zone_known(broadcast),
                    ) is None
                    &&& final(advertised)@ == updated(old(advertised)@, neighbours@, broadcast)
                    &&& new == final(advertised)@.version
                },
                Err(text) => {
                    &&& settings_fault(
                        neighbours@,
                        broadcast,
                        some_blank(neighbours@),
                        zone_known(broadcast),
                    ) == Some(text@)
                    &&& *final(advertised) == *old(advertised)
                },
            },
    {
        let blank: bool = any_blank(&neighbours);
        let known: bool = match &broadcast.timezone {
            Some(timezone) => is_iana_timezone(timezone.as_str()),
            None => false,
        };
        if let Some(text) = check_settings(&neighbours, &broadcast, blank, known) {
            return Err(text);
        }
        let version: u64 = if advertised.version == 0xffff_ffff_ffff_ffff {
            advertised.version
        } else {
            advertised.version + 1
        };
        advertised.version = version;
        advertised.neighbours = CfgNeighbourCells { ids: neighbours };
        advertised.broadcast = broadcast;
        Ok(version)
    }

    fn next_neighbour_batch(&mut self) -> (air: Vec<NeighbourCellInformationForCa>)
        requires
            old(self)@.wf(),
        ensures
            final(self)@ == old(self)@.advanced(),
            final(self)@.wf(),
            air@ == old(self)@.batch().map_values(|neighbour: NeighbourView| on_air(neighbour)),
    {
        let mut air: Vec<NeighbourCellInformationForCa> = Vec::new();
        let ghost before = self@;
        let total: usize = self.neighbours.len();
        if total == 0 {
            assert(air@ =~= before.batch().map_values(
                |neighbour: NeighbourView| on_air(neighbour),
            ));
            return air;
        }
        let batches: usize = (total - 1) / 7 + 1;
        let index: usize = self.next_batch;
        assert(batches == batch_count(total as nat));
        self.next_batch = if index + 1 >= batches {
            0
        } else {
            index + 1
        };
        let start: usize = index * 7;
        let end: usize = if total - start > 7 {
            start + 7
        } else {
            total
        };
        let mut i: usize = start;
        while i < end
            invariant
                start <= i <= end <= self.neighbours@.len(),
                before.neighbours == neighbour_views(self.neighbours@),
                air@.len() == i - start,
                forall|k: int|
                    0 <= k < air@.len() ==> #[trigger] air@[k] == on_air(
                        before.neighbours[start + k],
                    ),
            decreases end - i,
        {
            air.push(neighbour_to_air(&self.neighbours[i]));
            i = i + 1;
        }
        assert(air@ =~= before.batch().map_values(|neighbour: NeighbourView| on_air(neighbour)));
        air
    }

    /// The next broadcast. `local_time` is the network time of the station's time
    /// zone, where it can be told.
    pub fn send_broadcast(
        &mut self,
        advertised: &RuntimeNetworkBroadcast,
        local_time: Option<u64>,
    ) -> (pdu: DNwrkBroadcast)
        requires
            old(self)@.wf(),
        ensures
            final(self)@ == old(self)@.advanced(),
            final(self)@.wf(),
            pdu@ == broadcast_pdu(old(self)@, advertised@, local_time),
    {
        let neighbours: Vec<NeighbourCellInformationForCa> = self.next_neighbour_batch();
        let tetra_network_time: Option<u64> = if advertised.tells_time() {
            local_time
        } else {
            None
        };
        DNwrkBroadcast {
            cell_re_select_parameters: advertised.broadcast.cell_reselect_parameters,
            cell_load_ca: advertised.broadcast.cell_load_ca,
            tetra_network_time,
            neighbour_cell_information_for_ca: neighbours,
        }
    }
}

proof fn lemma_round(carousel: CarouselView, n: nat)
    requires
        carousel.next_batch == 0,
        carousel.neighbours.len() > 0,
        n < batch_count(carousel.neighbours.len()),
    ensures
        carousel.advanced_by(n) == (CarouselView { next_batch: n as int, ..carousel }),
        n * 7 < carousel.neighbours.len(),
        carousel.shown(n) == carousel.neighbours.take(n * 7int),
    decreases n,
{
    if n == 0 {
        assert(carousel.shown(0) =~= carousel.neighbours.take(0));
    } else {
        lemma_round(carousel, (n - 1) as nat);
        assert(carousel.shown(n) =~= carousel.neighbours.take(n * 7int));
    }
}

/// One round of the carousel shows every neighbour once, in the order of the
/// directory, and begins anew.
pub proof fn law_round_shows_every_neighbour(carousel: CarouselView)
    requires
        carousel.next_batch == 0,
    ensures
        carousel.shown(batch_count(carousel.neighbours.len())) == carousel.neighbours,
        carousel.advanced_by(batch_count(carousel.neighbours.len())) == carousel,
{
    let n = batch_count(carousel.neighbours.len());
    if carousel.neighbours.len() > 0 {
        lemma_round(carousel, (n - 1) as nat);
        assert(carousel.shown(n) =~= carousel.neighbours);
    } else {
        assert(n == 0);
        assert(carousel.shown(0) =~= carousel.neighbours);
    }
}

/// No broadcast names more neighbours than fit.
pub proof fn law_broadcast_fits(carousel: CarouselView)
    requires
        carousel.wf(),
    ensures
        carousel.batch().len() <= NEIGHBOURS_PER_BROADCAST,
        carousel.neighbours.len() > 0 ==> carousel.batch().len() > 0,
{
}

/// The version of the settings never falls, and grows with every change as long
/// as it can.
pub proof fn law_settings_version_grows(
    advertised: AdvertisedView,
    neighbours: Seq<String>,
    broadcast: CfgNetworkBroadcast,
)
    ensures
        updated(advertised, neighbours, broadcast).version >= advertised.version,
        advertised.version < u64::MAX ==> updated(advertised, neighbours, broadcast).version
            == advertised.version + 1,
{
}

/// A snapshot that is older than the directory known changes nothing; after any
/// snapshot the directory is at least as new as it.
pub proof fn law_directory_never_ages(
    carousel: CarouselView,
    version: u64,
    neighbours: Seq<NeighbourView>,
)
    ensures
        carousel.replaced(version, neighbours).snapshot_version >= carousel.snapshot_version,
        carousel.replaced(version, neighbours).snapshot_version >= version,
        version < carousel.snapshot_version ==> carousel.replaced(version, neighbours) == carousel,
{
}

} // verus!
