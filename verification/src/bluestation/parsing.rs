//! From the sections of a configuration file to a configuration.
use crate::bluestation::config::{CfgEndpoint, CfgNetInfo, CfgPhyIo, StackConfig, StackMode};
use crate::bluestation::network_broadcast::{CfgNeighbourCells, CfgNetworkBroadcast};
use crate::bluestation::sec_cell::{cell_dto_to_cfg, CellInfoDto};
use crate::bluestation::sec_swmi::{apply_swmi_patch, CfgSwmiDto};
use vstd::prelude::*;

verus! {

/// The names of the fields of a file that no section knows.
pub struct UnknownFields {
    pub top_level: Vec<String>,
    pub phy_io: Vec<String>,
    pub soapysdr: Vec<String>,
    pub net_info: Vec<String>,
    pub cell_info: Vec<String>,
    pub brew: Vec<String>,
    pub neighbour_cells: Vec<String>,
    pub network_broadcast: Vec<String>,
    pub cell_reselect: Vec<String>,
    pub swmi: Vec<String>,
    pub telemetry: Vec<String>,
}

/// What the network broadcast section sets besides the timezone.
#[derive(Debug, Clone, Copy, PartialEq, Eq, Structural)]
pub struct BroadcastSection {
    pub cell_reselect_parameters: u16,
    pub cell_load_ca: u8,
    pub time_enabled: bool,
}

/// The sections of a configuration file. A section whose values do not fit what
/// it sets is held as the fault that was found.
pub struct ConfigRoot {
    pub config_version: String,
    pub stack_mode: StackMode,
    pub debug_log: Option<String>,
    pub phy_io: CfgPhyIo,
    pub net_info: CfgNetInfo,
    pub cell_info: CellInfoDto,
    pub neighbour_cells: CfgNeighbourCells,
    /// The timezone of the network broadcast section.
    pub broadcast_timezone: Option<String>,
    /// The rest of the network broadcast section.
    pub network_broadcast: Result<BroadcastSection, String>,
    /// The file has a Brew section.
    pub has_brew: bool,
    pub swmi: Option<CfgSwmiDto>,
    pub telemetry: Option<Result<CfgEndpoint, String>>,
    pub command: Option<Result<CfgEndpoint, String>>,
    pub unknown: UnknownFields,
}

/// Why a file is refused.
#[derive(Debug)]
pub enum ConfigError {
    UnrecognizedVersion,
    UnknownTopLevelFields,
    UnknownPhyIoFields,
    UnknownSoapySdrFields,
    UnknownNetInfoFields,
    UnknownCellInfoFields,
    UnknownBrewFields,
    BrewRemoved,
    UnknownNeighbourCellFields,
    UnknownNetworkBroadcastFields,
    UnknownCellReselectFields,
    TimezoneTwice,
    UnknownSwmiFields,
    UnknownTelemetryFields,
    /// The network broadcast section is at fault.
    NetworkBroadcast(String),
    /// The SwMI section is at fault; `apply_swmi_patch` says how.
    Swmi(&'static str),
    /// The telemetry section is at fault.
    Telemetry(String),
    /// The command section is at fault.
    Command(String),
}

/// Whether `name` begins with `prefix`.
pub open spec fn begins_with(name: Seq<char>, prefix: Seq<char>) -> bool {
    prefix.len() <= name.len() && name.take(prefix.len() as int) == prefix
}

/// Whether the field sets the gain of one stage of the radio hardware.
pub open spec fn is_gain_field(name: Seq<char>) -> bool {
    begins_with(name, "rx_gain_"@) || begins_with(name, "tx_gain_"@)
}

/// Whether a field of the radio hardware is none of its gains.
pub open spec fn has_unknown_soapysdr_field(names: Seq<String>) -> bool {
    exists|i: int| 0 <= i < names.len() && !is_gain_field((#[trigger] names[i])@)
}

/// The fields of the radio hardware that are none of its gains, in their order.
pub open spec fn not_gains(names: Seq<String>) -> Seq<Seq<char>>
    decreases names.len(),
{
    if names.len() == 0 {
        Seq::empty()
    } else {
        let before = not_gains(names.drop_last());
        if is_gain_field(names.last()@) {
            before
        } else {
            before.push(names.last()@)
        }
    }
}

impl ConfigRoot {
    /// Why the file is refused before any section is converted, if it is.
    pub open spec fn refusal(self) -> Option<ConfigError> {
        let unknown = self.unknown;
        if self.config_version@ != "0.6"@ {
            Some(ConfigError::UnrecognizedVersion)
        } else if unknown.top_level@.len() > 0 {
            Some(ConfigError::UnknownTopLevelFields)
        } else if unknown.phy_io@.len() > 0 {
            Some(ConfigError::UnknownPhyIoFields)
        } else if has_unknown_soapysdr_field(unknown.soapysdr@) {
            Some(ConfigError::UnknownSoapySdrFields)
        } else if unknown.net_info@.len() > 0 {
            Some(ConfigError::UnknownNetInfoFields)
        } else if unknown.cell_info@.len() > 0 {
            Some(ConfigError::UnknownCellInfoFields)
        } else if self.has_brew && unknown.brew@.len() > 0 {
            Some(ConfigError::UnknownBrewFields)
        } else if self.has_brew {
            Some(ConfigError::BrewRemoved)
        } else if unknown.neighbour_cells@.len() > 0 {
            Some(ConfigError::UnknownNeighbourCellFields)
        } else if unknown.network_broadcast@.len() > 0 {
            Some(ConfigError::UnknownNetworkBroadcastFields)
        } else if unknown.cell_reselect@.len() > 0 {
            Some(ConfigError::UnknownCellReselectFields)
        } else if self.cell_info.timezone is Some && self.broadcast_timezone is Some {
            Some(ConfigError::TimezoneTwice)
        } else if self.swmi is Some && unknown.swmi@.len() > 0 {
            Some(ConfigError::UnknownSwmiFields)
        } else if self.telemetry is Some && unknown.telemetry@.len() > 0 {
            Some(ConfigError::UnknownTelemetryFields)
        } else {
            None
        }
    }

    /// The fault of the SwMI section, if there is one.
    pub open spec fn swmi_fault(self) -> Option<Seq<char>> {
        match self.swmi {
            Some(section) => section.fault(),
            None => None,
        }
    }

    /// The timezone of the broadcast: that of its own section, or else the one
    /// that the cell section still may give.
    pub open spec fn timezone_to_tell(self) -> Option<String> {
        if self.broadcast_timezone is Some {
            self.broadcast_timezone
        } else {
            self.cell_info.timezone
        }
    }

    /// The settings of the broadcast that its section stands for.
    pub open spec fn broadcast_of(self, section: BroadcastSection) -> CfgNetworkBroadcast {
        CfgNetworkBroadcast {
            cell_reselect_parameters: section.cell_reselect_parameters,
            cell_load_ca: section.cell_load_ca,
            time_enabled: section.time_enabled,
            timezone: self.timezone_to_tell(),
        }
    }
}

/// A copy of a text.
fn same_string(text: &Option<String>) -> (copy: Option<String>)
    ensures
        copy is Some <==> text is Some,
        text is Some ==> copy->0@ == text->0@,
{
    match text {
        Some(text) => Some(text.clone()),
        None => None,
    }
}

/// Whether `name` begins with `prefix`.
fn has_prefix(name: &str, prefix: &str) -> (r: bool)
    ensures
        r == begins_with(name@, prefix@),
{
    let length: usize = prefix.unicode_len();
    if name.unicode_len() < length {
        return false;
    }
    let mut i: usize = 0;
    while i < length
        invariant
            i <= length,
            length == prefix@.len(),
            length <= name@.len(),
            forall|j: int| 0 <= j < i ==> name@[j] == prefix@[j],
        decreases length - i,
    {
        if name.get_char(i) != prefix.get_char(i) {
            assert(name@.take(length as int)[i as int] != prefix@[i as int]);
            return false;
        }
        i = i + 1;
    }
    assert(name@.take(length as int) =~= prefix@);
    true
}

/// The fields of the radio hardware that are none of its gains, in their order.
pub fn unknown_soapysdr_fields(names: &Vec<String>) -> (unknown: Vec<String>)
    ensures
        unknown@.map_values(|name: String| name@) == not_gains(names@),
        unknown@.len() > 0 <==> has_unknown_soapysdr_field(names@),
{
    let mut unknown: Vec<String> = Vec::new();
    let mut i: usize = 0;
    assert(unknown@.map_values(|name: String| name@) =~= not_gains(names@.take(0)));
    while i < names.len()
        invariant
            i <= names@.len(),
            unknown@.map_values(|name: String| name@) == not_gains(names@.take(i as int)),
            unknown@.len() == 0 ==> forall|j: int|
                0 <= j < i ==> is_gain_field((#[trigger] names@[j])@),
            unknown@.len() > 0 ==> has_unknown_soapysdr_field(names@),
        decreases names@.len() - i,
    {
        let ghost before = unknown@;
        proof {
            assert(names@.take(i + 1).drop_last() =~= names@.take(i as int));
            assert(names@.take(i + 1).last() == names@[i as int]);
        }
        let name: &str = names[i].as_str();
        if !has_prefix(name, "rx_gain_") && !has_prefix(name, "tx_gain_") {
            assert(!is_gain_field(names@[i as int]@));
            let copy: String = names[i].clone();
            unknown.push(copy);
            assert(unknown@.map_values(|name: String| name@) =~= before.map_values(
                |name: String| name@,
            ).push(copy@));
        }
        i = i + 1;
    }
    assert(names@.take(names@.len() as int) =~= names@);
    unknown
}

/// Whether two strings are the same.
fn same_text(left: &str, right: &str) -> (r: bool)
    ensures
        r == (left@ == right@),
{
    if left.unicode_len() != right.unicode_len() {
        return false;
    }
    let r: bool = has_prefix(left, right);
    assert(left@.take(left@.len() as int) =~= left@);
    r
}

/// Why a file is refused before any section is converted, if it is.
pub fn refused(root: &ConfigRoot) -> (error: Option<ConfigError>)
    ensures
        error == root.refusal(),
{
    let unknown = &root.unknown;
    if !same_text(root.config_version.as_str(), "0.6") {
        return Some(ConfigError::UnrecognizedVersion);
    }
    if unknown.top_level.len() > 0 {
        return Some(ConfigError::UnknownTopLevelFields);
    }
    if unknown.phy_io.len() > 0 {
        return Some(ConfigError::UnknownPhyIoFields);
    }
    if unknown_soapysdr_fields(&unknown.soapysdr).len() > 0 {
        return Some(ConfigError::UnknownSoapySdrFields);
    }
    if unknown.net_info.len() > 0 {
        return Some(ConfigError::UnknownNetInfoFields);
    }
    if unknown.cell_info.len() > 0 {
        return Some(ConfigError::UnknownCellInfoFields);
    }
    if root.has_brew {
        if unknown.brew.len() > 0 {
            return Some(ConfigError::UnknownBrewFields);
        }
        return Some(ConfigError::BrewRemoved);
    }
    if unknown.neighbour_cells.len() > 0 {
        return Some(ConfigError::UnknownNeighbourCellFields);
    }
    if unknown.network_broadcast.len() > 0 {
        return Some(ConfigError::UnknownNetworkBroadcastFields);
    }
    if unknown.cell_reselect.len() > 0 {
        return Some(ConfigError::UnknownCellReselectFields);
    }
    if root.cell_info.timezone.is_some() && root.broadcast_timezone.is_some() {
        return Some(ConfigError::TimezoneTwice);
    }
    if root.swmi.is_some() && unknown.swmi.len() > 0 {
        return Some(ConfigError::UnknownSwmiFields);
    }
    if root.telemetry.is_some() && unknown.telemetry.len() > 0 {
        return Some(ConfigError::UnknownTelemetryFields);
    }
    None
}

/// The settings of an endpoint that a section stands for.
fn endpoint_of(section: Option<Result<CfgEndpoint, String>>) -> (r: Result<
    Option<CfgEndpoint>,
    String,
>)
    ensures
        match r {
            Ok(None) => section is None,
            Ok(Some(endpoint)) => section == Some(Ok::<CfgEndpoint, String>(endpoint)),
            Err(text) => section == Some(Err::<CfgEndpoint, String>(text)),
        },
{
    match section {
        None => Ok(None),
        Some(Ok(endpoint)) => Ok(Some(endpoint)),
        Some(Err(text)) => Err(text),
    }
}

/// Whether `r` is what the sections of a file stand for: a configuration, or why
/// there is none.
pub open spec fn is_outcome(root: ConfigRoot, r: Result<StackConfig, ConfigError>) -> bool {
    match r {
        Err(ConfigError::NetworkBroadcast(text)) => {
            &&& root.refusal() is None
            &&& root.network_broadcast == Err::<BroadcastSection, String>(text)
        },
        Err(ConfigError::Swmi(text)) => {
            &&& root.refusal() is None
            &&& root.network_broadcast is Ok
            &&& root.swmi_fault() == Some(text@)
        },
        Err(ConfigError::Telemetry(text)) => {
            &&& root.refusal() is None
            &&& root.network_broadcast is Ok
            &&& root.swmi_fault() is None
            &&& root.telemetry == Some(Err::<CfgEndpoint, String>(text))
        },
        Err(ConfigError::Command(text)) => {
            &&& root.refusal() is None
            &&& root.network_broadcast is Ok
            &&& root.swmi_fault() is None
            &&& root.telemetry is Some ==> root.telemetry->0 is Ok
            &&& root.command == Some(Err::<CfgEndpoint, String>(text))
        },
        Err(error) => root.refusal() == Some(error),
        Ok(cfg) => {
            &&& root.refusal() is None
            &&& cfg.stack_mode == root.stack_mode
            &&& cfg.debug_log == root.debug_log
            &&& cfg.phy_io == root.phy_io
            &&& cfg.net == root.net_info
            &&& crate::bluestation::sec_cell::is_cell_of(root.cell_info, cfg.cell)
            &&& cfg.neighbour_cells == root.neighbour_cells
            &&& root.network_broadcast is Ok
            &&& cfg.network_broadcast@ == root.broadcast_of(root.network_broadcast->Ok_0)@
            &&& cfg.brew is None
            &&& root.swmi_fault() is None
            &&& cfg.swmi is Some <==> root.swmi is Some
            &&& root.swmi is Some ==> root.swmi->0.stands_for(cfg.swmi->0)
            &&& cfg.telemetry is Some <==> root.telemetry is Some
            &&& root.telemetry is Some ==> root.telemetry->0 == Ok::<CfgEndpoint, String>(
                cfg.telemetry->0,
            )
            &&& cfg.control is Some <==> root.command is Some
            &&& root.command is Some ==> root.command->0 == Ok::<CfgEndpoint, String>(
                cfg.control->0,
            )
        },
    }
}

/// The configuration that the sections of a file stand for.
pub fn from_root(root: ConfigRoot) -> (r: Result<StackConfig, ConfigError>)
    ensures
        is_outcome(root, r),
{
    if let Some(error) = refused(&root) {
        return Err(error);
    }
    let timezone = match root.broadcast_timezone {
        Some(timezone) => Some(timezone),
        None => same_string(&root.cell_info.timezone),
    };
    let network_broadcast = match root.network_broadcast {
        Ok(section) => CfgNetworkBroadcast {
            cell_reselect_parameters: section.cell_reselect_parameters,
            cell_load_ca: section.cell_load_ca,
            time_enabled: section.time_enabled,
            timezone,
        },
        Err(text) => return Err(ConfigError::NetworkBroadcast(text)),
    };
    let swmi = match root.swmi {
        Some(section) => match apply_swmi_patch(section) {
            Ok(cfg) => Some(cfg),
            Err(text) => return Err(ConfigError::Swmi(text)),
        },
        None => None,
    };
    let telemetry = match endpoint_of(root.telemetry) {
        Ok(telemetry) => telemetry,
        Err(text) => return Err(ConfigError::Telemetry(text)),
    };
    let control = match endpoint_of(root.command) {
        Ok(control) => control,
        Err(text) => return Err(ConfigError::Command(text)),
    };
    Ok(
        StackConfig {
            stack_mode: root.stack_mode,
            debug_log: root.debug_log,
            phy_io: root.phy_io,
            net: root.net_info,
            cell: cell_dto_to_cfg(root.cell_info),
            neighbour_cells: root.neighbour_cells,
            network_broadcast,
            brew: None,
            swmi,
            telemetry,
            control,
        },
    )
}

} // verus!
