//! The configuration of the station.
use crate::bluestation::network_broadcast::{CfgNeighbourCells, CfgNetworkBroadcast};
use crate::bluestation::sec_cell::{CfgCellInfo, SsiRanges};
use crate::bluestation::sec_swmi::CfgSwmi;
use vstd::prelude::*;

verus! {

/// A string that is kept out of logs.
pub struct SecretField {
    pub val: String,
}

impl From<String> for SecretField {
    fn from(val: String) -> (secret: Self) {
        SecretField { val }
    }
}

impl vstd::std_specs::convert::FromSpecImpl<String> for SecretField {
    open spec fn obeys_from_spec() -> bool {
        true
    }

    open spec fn from_spec(val: String) -> Self {
        SecretField { val }
    }
}

impl SecretField {
    /// The secret.
    pub fn as_str(&self) -> (val: &str)
        ensures
            val@ == self.val@,
    {
        self.val.as_str()
    }

    /// What is shown in place of the secret: the same for all of them.
    pub fn redacted(&self) -> (text: &'static str)
        ensures
            text@ == "********"@,
    {
        "********"
    }
}

/// What the stack is.
#[derive(Debug, Clone, Copy, PartialEq, Eq, Structural)]
pub enum StackMode {
    Bs,
    Ms,
    Mon,
}

/// The radio hardware.
#[derive(Debug, Clone, Copy, PartialEq, Eq, Structural)]
pub enum PhyBackend {
    Undefined,
    NoBackend,
    SoapySdr,
}

/// The frequencies that the radio hardware is tuned to, in Hz.
#[derive(Debug, Clone, Copy, PartialEq, Eq, Structural)]
pub struct CfgSoapySdr {
    pub dl_freq: u32,
    pub ul_freq: u32,
}

/// The physical layer.
#[derive(Debug, Clone, Copy, PartialEq, Eq, Structural)]
pub struct CfgPhyIo {
    pub backend: PhyBackend,
    pub soapysdr: Option<CfgSoapySdr>,
}

/// The network.
#[derive(Debug, Clone, Copy, PartialEq, Eq, Structural)]
pub struct CfgNetInfo {
    pub mcc: u16,
    pub mnc: u16,
}

/// An endpoint that the station reports to or is controlled from: its settings,
/// each by its name and its value as text.
pub struct CfgEndpoint {
    pub settings: Vec<(String, String)>,
}

/// The configuration of the station.
pub struct StackConfig {
    pub stack_mode: StackMode,
    pub debug_log: Option<String>,
    pub phy_io: CfgPhyIo,
    pub net: CfgNetInfo,
    pub cell: CfgCellInfo,
    /// The neighbours that the station names to the SwMI.
    pub neighbour_cells: CfgNeighbourCells,
    /// What the station broadcasts of its network.
    pub network_broadcast: CfgNetworkBroadcast,
    /// The groups and terminals that Brew carries.
    pub brew: Option<SsiRanges>,
    /// The central SwMI. It takes the place of Brew.
    pub swmi: Option<CfgSwmi>,
    /// Where the station reports to.
    pub telemetry: Option<CfgEndpoint>,
    /// Where the station is controlled from.
    pub control: Option<CfgEndpoint>,
}

/// Whether the name is one of the IANA timezone database.
pub uninterp spec fn iana_timezone(name: Seq<char>) -> bool;

/// `chrono_tz::Tz::from_str`: looks the name up in the table of the IANA
/// timezone database that is compiled into the crate. Whether it is there is a
/// function of the name; which names are there is left to the crate.
#[verifier::external_body]
pub(crate) fn is_iana_timezone(name: &str) -> (known: bool)
    ensures
        known == iana_timezone(name@),
{
    name.parse::<chrono_tz::Tz>().is_ok()
}

impl StackConfig {
    /// The timezone of the cell, if it has one, exists.
    pub open spec fn timezone_is_known(self) -> bool {
        self.cell.timezone is Some ==> iana_timezone(self.cell.timezone->0@)
    }

    /// The first fault of the configuration, given whether the timezone exists.
    /// `carrier` are the downlink and uplink frequency that the carrier elements
    /// of the cell stand for, in Hz, if they stand for any.
    pub open spec fn fault(self, carrier: Option<(u32, u32)>, timezone_known: bool) -> Option<
        Seq<char>,
    > {
        let phy = self.phy_io;
        let cell = self.cell;
        let ra = cell.random_access;
        if phy.backend == PhyBackend::SoapySdr && phy.soapysdr is None {
            Some("soapysdr configuration must be provided for Soapysdr backend"@)
        } else if phy.backend == PhyBackend::Undefined {
            Some("phy_io backend must be defined"@)
        } else if phy.backend == PhyBackend::SoapySdr && carrier is None {
            Some("Invalid cell info frequency settings"@)
        } else if phy.backend == PhyBackend::SoapySdr && phy.soapysdr->0.dl_freq != (carrier->0).0 {
            Some("PhyIo DlFrequency does not match computed FreqInfo"@)
        } else if phy.backend == PhyBackend::SoapySdr && phy.soapysdr->0.ul_freq != (carrier->0).1 {
            Some("PhyIo UlFrequency does not match computed FreqInfo"@)
        } else if cell.ms_txpwr_max_cell > 7 {
            Some("ms_txpwr_max_cell must be 0-7 (3 bits)"@)
        } else if cell.rxlev_access_min > 15 {
            Some("rxlev_access_min must be 0-15 (4 bits)"@)
        } else if cell.access_parameter > 15 {
            Some("access_parameter must be 0-15 (4 bits)"@)
        } else if !(1 <= ra.update_interval_multiframes <= 60) {
            Some("cell.random_access.update_interval_multiframes must be 1-60"@)
        } else if ra.startup_grace_multiframes > 60 {
            Some("cell.random_access.startup_grace_multiframes must be 0-60"@)
        } else if !(1 <= ra.recovery_step_multiframes <= 60) {
            Some("cell.random_access.recovery_step_multiframes must be 1-60"@)
        } else if ra.low_load_threshold >= ra.high_load_threshold {
            Some("cell.random_access.low_load_threshold must be lower than high_load_threshold"@)
        } else if !(ra.imm_min <= ra.imm_max <= 15) {
            Some("cell.random_access IMM limits must be ordered and 0-15"@)
        } else if !(1 <= ra.wt_min <= ra.wt_max <= 15) {
            Some("cell.random_access WT limits must be ordered and 1-15"@)
        } else if !(1 <= ra.nu_min <= ra.nu_max <= 15) {
            Some("cell.random_access Nu limits must be ordered and 1-15"@)
        } else if !(1 <= ra.frame_len_min <= ra.frame_len_max <= 15) {
            Some("cell.random_access frame length limits must be ordered and 1-15"@)
        } else if !(1 <= ra.retry_window_multiframes <= 60) {
            Some("cell.random_access.retry_window_multiframes must be 1-60"@)
        } else if !(1 <= ra.retry_weight_percent <= 100) {
            Some("cell.random_access.retry_weight_percent must be 1-100"@)
        } else if !(1 <= ra.ewma_alpha_percent <= 100) {
            Some("cell.random_access.ewma_alpha_percent must be 1-100"@)
        } else if !(1 <= ra.frame_factor_activation_windows <= 60) {
            Some("cell.random_access.frame_factor_activation_windows must be 1-60"@)
        } else if !(1 <= ra.frame_factor_release_windows <= 60) {
            Some("cell.random_access.frame_factor_release_windows must be 1-60"@)
        } else if !timezone_known {
            Some("Invalid IANA timezone name in cell.timezone"@)
        } else {
            None
        }
    }

    /// Checks that all required fields are properly set.
    pub fn validate(&self, carrier: Option<(u32, u32)>) -> (r: Result<(), &'static str>)
        ensures
            match r {
                Ok(_) => self.fault(carrier, self.timezone_is_known()) is None,
                Err(text) => self.fault(carrier, self.timezone_is_known()) == Some(text@),
            },
    {
        let timezone_known: bool = match &self.cell.timezone {
            Some(name) => is_iana_timezone(name.as_str()),
            None => true,
        };
        self.validate_with(carrier, timezone_known)
    }

    /// Checks that all required fields are properly set, given whether the
    /// timezone exists.
    pub fn validate_with(&self, carrier: Option<(u32, u32)>, timezone_known: bool) -> (r: Result<
        (),
        &'static str,
    >)
        ensures
            match r {
                Ok(_) => self.fault(carrier, timezone_known) is None,
                Err(text) => self.fault(carrier, timezone_known) == Some(text@),
            },
    {
        if self.phy_io.backend == PhyBackend::SoapySdr && self.phy_io.soapysdr.is_none() {
            return Err("soapysdr configuration must be provided for Soapysdr backend");
        }
        if self.phy_io.backend == PhyBackend::Undefined {
            return Err("phy_io backend must be defined");
        }
        if self.phy_io.backend == PhyBackend::SoapySdr {
            let (dl_freq, ul_freq) = match carrier {
                Some(pair) => pair,
                None => return Err("Invalid cell info frequency settings"),
            };
            if let Some(soapy) = self.phy_io.soapysdr {
                if soapy.dl_freq != dl_freq {
                    return Err("PhyIo DlFrequency does not match computed FreqInfo");
                }
                if soapy.ul_freq != ul_freq {
                    return Err("PhyIo UlFrequency does not match computed FreqInfo");
                }
            }
        }
        if self.cell.ms_txpwr_max_cell > 7 {
            return Err("ms_txpwr_max_cell must be 0-7 (3 bits)");
        }
        if self.cell.rxlev_access_min > 15 {
            return Err("rxlev_access_min must be 0-15 (4 bits)");
        }
        if self.cell.access_parameter > 15 {
            return Err("access_parameter must be 0-15 (4 bits)");
        }
        let ra = self.cell.random_access;
        if ra.update_interval_multiframes < 1 || ra.update_interval_multiframes > 60 {
            return Err("cell.random_access.update_interval_multiframes must be 1-60");
        }
        if ra.startup_grace_multiframes > 60 {
            return Err("cell.random_access.startup_grace_multiframes must be 0-60");
        }
        if ra.recovery_step_multiframes < 1 || ra.recovery_step_multiframes > 60 {
            return Err("cell.random_access.recovery_step_multiframes must be 1-60");
        }
        if ra.low_load_threshold >= ra.high_load_threshold {
            return Err(
                "cell.random_access.low_load_threshold must be lower than high_load_threshold",
            );
        }
        if ra.imm_min > ra.imm_max || ra.imm_max > 15 {
            return Err("cell.random_access IMM limits must be ordered and 0-15");
        }
        if ra.wt_min == 0 || ra.wt_min > ra.wt_max || ra.wt_max > 15 {
            return Err("cell.random_access WT limits must be ordered and 1-15");
        }
        if ra.nu_min == 0 || ra.nu_min > ra.nu_max || ra.nu_max > 15 {
            return Err("cell.random_access Nu limits must be ordered and 1-15");
        }
        if ra.frame_len_min == 0 || ra.frame_len_min > ra.frame_len_max || ra.frame_len_max > 15 {
            return Err("cell.random_access frame length limits must be ordered and 1-15");
        }
        if ra.retry_window_multiframes < 1 || ra.retry_window_multiframes > 60 {
            return Err("cell.random_access.retry_window_multiframes must be 1-60");
        }
        if ra.retry_weight_percent < 1 || ra.retry_weight_percent > 100 {
            return Err("cell.random_access.retry_weight_percent must be 1-100");
        }
        if ra.ewma_alpha_percent < 1 || ra.ewma_alpha_percent > 100 {
            return Err("cell.random_access.ewma_alpha_percent must be 1-100");
        }
        if ra.frame_factor_activation_windows < 1 || ra.frame_factor_activation_windows > 60 {
            return Err("cell.random_access.frame_factor_activation_windows must be 1-60");
        }
        if ra.frame_factor_release_windows < 1 || ra.frame_factor_release_windows > 60 {
            return Err("cell.random_access.frame_factor_release_windows must be 1-60");
        }
        if !timezone_known {
            return Err("Invalid IANA timezone name in cell.timezone");
        }
        Ok(())
    }
}

} // verus!
