//! What the station broadcasts of its network.
use vstd::prelude::*;

verus! {

/// The neighbours that the station names to the SwMI.
pub struct CfgNeighbourCells {
    pub ids: Vec<String>,
}

/// The settings of the network broadcast.
pub struct CfgNetworkBroadcast {
    pub cell_reselect_parameters: u16,
    pub cell_load_ca: u8,
    pub time_enabled: bool,
    pub timezone: Option<String>,
}

/// The model of the settings.
#[verifier::ext_equal]
pub ghost struct BroadcastView {
    pub cell_reselect_parameters: u16,
    pub cell_load_ca: u8,
    pub time_enabled: bool,
    pub timezone: Option<Seq<char>>,
}

impl View for CfgNetworkBroadcast {
    type V = BroadcastView;

    open spec fn view(&self) -> BroadcastView {
        BroadcastView {
            cell_reselect_parameters: self.cell_reselect_parameters,
            cell_load_ca: self.cell_load_ca,
            time_enabled: self.time_enabled,
            timezone: match self.timezone {
                Some(text) => Some(text@),
                None => None,
            },
        }
    }
}

/// The settings that hold now. The version grows with every change.
pub struct RuntimeNetworkBroadcast {
    pub version: u64,
    pub neighbours: CfgNeighbourCells,
    pub broadcast: CfgNetworkBroadcast,
}

/// The model of the settings.
#[verifier::ext_equal]
pub ghost struct AdvertisedView {
    pub version: u64,
    pub neighbours: Seq<String>,
    pub broadcast: CfgNetworkBroadcast,
}

impl View for RuntimeNetworkBroadcast {
    type V = AdvertisedView;

    open spec fn view(&self) -> AdvertisedView {
        AdvertisedView {
            version: self.version,
            neighbours: self.neighbours.ids@,
            broadcast: self.broadcast,
        }
    }
}

impl AdvertisedView {
    /// Nothing was set.
    pub open spec fn unset() -> AdvertisedView {
        AdvertisedView {
            version: 0,
            neighbours: Seq::empty(),
            broadcast: CfgNetworkBroadcast {
                cell_reselect_parameters: 0,
                cell_load_ca: 0,
                time_enabled: false,
                timezone: None,
            },
        }
    }

    /// Whether network time can be broadcast.
    pub open spec fn tells_time(self) -> bool {
        self.broadcast.time_enabled && self.broadcast.timezone is Some
    }
}

impl RuntimeNetworkBroadcast {
    /// Nothing is set.
    pub fn unset() -> (runtime: Self)
        ensures
            runtime@ == AdvertisedView::unset(),
    {
        let runtime = RuntimeNetworkBroadcast {
            version: 0,
            neighbours: CfgNeighbourCells { ids: Vec::new() },
            broadcast: CfgNetworkBroadcast {
                cell_reselect_parameters: 0,
                cell_load_ca: 0,
                time_enabled: false,
                timezone: None,
            },
        };
        assert(runtime@ =~= AdvertisedView::unset());
        runtime
    }

    /// Whether network time can be broadcast.
    pub fn tells_time(&self) -> (r: bool)
        ensures
            r == self@.tells_time(),
    {
        self.broadcast.time_enabled && self.broadcast.timezone.is_some()
    }
}

} // verus!
