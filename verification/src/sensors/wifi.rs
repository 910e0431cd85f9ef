//! The wireless link: what the report of `iw` says of it, and how the
//! highest bit rate of a network is kept.

use crate::error::{BarError, BarErrorView};
use crate::number::Number;
use crate::sensors::{output_text, said, text_result_is, Output, PollPhase, Poller};
use crate::text::{concat, equal};
use std::time::Duration;
use vstd::prelude::*;

verus! {

/// The pattern that finds the name of the wireless interface.
pub const INTERFACE_PATTERN: &'static str = "Interface\\s*([^\\s]+)";

/// The pattern that finds the bit rate and its unit.
pub const BITRATE_PATTERN: &'static str = "tx bitrate: ([^\\s]+) ([^\\s]+)";

/// The pattern that finds the strength of the signal.
pub const SIGNAL_PATTERN: &'static str = "signal: ([-0-9]+)";

/// The pattern that finds the name of the network.
pub const SSID_PATTERN: &'static str = "SSID: (.+)";

/// The pattern that finds the address of the interface.
pub const ADDRESS_PATTERN: &'static str = "inet\\s+([0-9.]+)";

/// The interface that is read where none is found.
pub const DEFAULT_DEVICE: &'static str = "wlan0";

/// The unit of a bit rate that counts a thousand times the usual one.
pub const GIGABIT_UNIT: &'static str = "Gbit/s";

/// The pattern of `53.0`: the bit rate in Mbit/s below which a link counts as
/// degraded, unless another is set.
pub const DEGRADED_BITRATE_BITS: u64 = 0x404A_8000_0000_0000;

/// The milliseconds between two readings, unless another interval is set.
pub const DEFAULT_INTERVAL_MS: u64 = 5000;

/// The state of the wireless link at one reading.
#[derive(Debug, Clone, PartialEq, Eq)]
pub struct WifiStatus {
    /// The name of the network, where the link is up.
    pub ssid: Option<String>,
    /// The address of the interface, where it was asked for and found.
    pub ip: Option<String>,
    /// The strength of the signal in dBm.
    pub signal: Option<Number>,
    /// The bit rate as a percentage of the highest seen on this network.
    pub quality: i64,
    /// The highest bit rate seen on this network.
    pub max_bitrate: Number,
}

/// A `WifiStatus` with its texts as sequences of characters.
pub struct WifiStatusView {
    pub ssid: Option<Seq<char>>,
    pub ip: Option<Seq<char>>,
    pub signal: Option<Number>,
    pub quality: i64,
    pub max_bitrate: Number,
}

/// The characters of a text that may be absent.
pub open spec fn text_view(t: Option<String>) -> Option<Seq<char>> {
    match t {
        Some(s) => Some(s@),
        None => None,
    }
}

impl View for WifiStatus {
    type V = WifiStatusView;

    open spec fn view(&self) -> WifiStatusView {
        WifiStatusView {
            ssid: text_view(self.ssid),
            ip: text_view(self.ip),
            signal: self.signal,
            quality: self.quality,
            max_bitrate: self.max_bitrate,
        }
    }
}

impl WifiStatus {
    /// The status before any reading: no network, and `bitrate` as the
    /// highest bit rate.
    pub fn new(bitrate: Number) -> (status: WifiStatus)
        ensures
            status@ == (WifiStatusView {
                ssid: None,
                ip: None,
                signal: None,
                quality: 0,
                max_bitrate: bitrate,
            }),
    {
        WifiStatus { max_bitrate: bitrate, ssid: None, ip: None, signal: None, quality: 0 }
    }
}

/// What the first match of a pattern in a text gives for a group: the part
/// of the text that the group took, or nothing where the pattern does not
/// match or the group took no part.
pub uninterp spec fn regex_group(pattern: Seq<char>, text: Seq<char>, group: nat) -> Option<
    Seq<char>,
>;

/// The part of `text` that group `group` of `pattern` takes in the first
/// match.
///
/// Trusted: `regex::Regex::new`, `Regex::captures`, `Captures::get` and
/// `Match::as_str`. A pattern that does not compile gives nothing, as does a
/// text without a match.
#[verifier::external_body]
fn capture(pattern: &str, text: &str, group: usize) -> (found: Option<String>)
    ensures
        text_view(found) == regex_group(pattern@, text@, group as nat),
{
    let re = regex::Regex::new(pattern).ok()?;
    let caps = re.captures(text)?;
    caps.get(group).map(|m| m.as_str().to_owned())
}

/// What a report of the link holds, each part as the text that was found.
#[derive(Debug, PartialEq, Eq)]
pub struct LinkReport {
    /// The bit rate of sending.
    pub bitrate: Option<String>,
    /// The unit of the bit rate.
    pub unit: Option<String>,
    /// The strength of the signal.
    pub signal: Option<String>,
    /// The name of the network.
    pub ssid: Option<String>,
    /// The address of the interface.
    pub ip: Option<String>,
}

/// A `LinkReport` with its texts as sequences of characters.
pub struct LinkReportView {
    pub bitrate: Option<Seq<char>>,
    pub unit: Option<Seq<char>>,
    pub signal: Option<Seq<char>>,
    pub ssid: Option<Seq<char>>,
    pub ip: Option<Seq<char>>,
}

impl View for LinkReport {
    type V = LinkReportView;

    open spec fn view(&self) -> LinkReportView {
        LinkReportView {
            bitrate: text_view(self.bitrate),
            unit: text_view(self.unit),
            signal: text_view(self.signal),
            ssid: text_view(self.ssid),
            ip: text_view(self.ip),
        }
    }
}

/// What the report `iw_out` holds. The address is looked for only where
/// `do_ip` asks for it.
pub open spec fn report_of(iw_out: Seq<char>, do_ip: bool) -> LinkReportView {
    LinkReportView {
        bitrate: regex_group(BITRATE_PATTERN@, iw_out, 1),
        unit: regex_group(BITRATE_PATTERN@, iw_out, 2),
        signal: regex_group(SIGNAL_PATTERN@, iw_out, 1),
        ssid: regex_group(SSID_PATTERN@, iw_out, 1),
        ip: if do_ip {
            regex_group(ADDRESS_PATTERN@, iw_out, 1)
        } else {
            None
        },
    }
}

impl LinkReport {
    /// Reads the report of `iw dev <device> link`.
    pub fn read(iw_out: &str, do_ip: bool) -> (report: LinkReport)
        ensures
            report@ == report_of(iw_out@, do_ip),
    {
        let bitrate = capture(BITRATE_PATTERN, iw_out, 1);
        let unit = capture(BITRATE_PATTERN, iw_out, 2);
        let signal = capture(SIGNAL_PATTERN, iw_out, 1);
        let ssid = capture(SSID_PATTERN, iw_out, 1);
        let ip = if do_ip {
            capture(ADDRESS_PATTERN, iw_out, 1)
        } else {
            None
        };
        LinkReport { bitrate, unit, signal, ssid, ip }
    }

    /// Whether the bit rate counts in gigabits, so that it is a thousand
    /// times its number in megabits.
    pub fn gigabit(&self) -> (giga: bool)
        ensures
            giga == (self@.unit == Some(GIGABIT_UNIT@)),
    {
        match &self.unit {
            Some(unit) => equal(unit.as_str(), GIGABIT_UNIT),
            None => false,
        }
    }
}

/// Whether two names of networks are the same: both absent, or the same
/// text.
pub fn same_network(a: &Option<String>, b: &Option<String>) -> (same: bool)
    ensures
        same == (text_view(*a) == text_view(*b)),
{
    match (a, b) {
        (Some(x), Some(y)) => equal(x.as_str(), y.as_str()),
        (None, None) => true,
        _ => false,
    }
}

/// The highest bit rate after a reading. On another network than the last
/// the count starts over at `degraded`; a bit rate above the highest so far
/// is the new highest.
pub open spec fn peak_after(
    last: WifiStatusView,
    degraded: Number,
    ssid: Option<Seq<char>>,
    bitrate: Option<Number>,
) -> Number {
    let base = if last.ssid != ssid {
        degraded
    } else {
        last.max_bitrate
    };
    match bitrate {
        Some(bits) => if !bits.nan() && !base.nan() && bits.rank() > base.rank() {
            bits
        } else {
            base
        },
        None => base,
    }
}

/// The highest bit rate after a reading of `bitrate` on the network `ssid`.
pub fn next_peak(
    last: &WifiStatus,
    degraded: Number,
    ssid: &Option<String>,
    bitrate: Option<Number>,
) -> (peak: Number)
    ensures
        peak == peak_after(last@, degraded, text_view(*ssid), bitrate),
{
    let base = if !same_network(&last.ssid, ssid) {
        degraded
    } else {
        last.max_bitrate
    };
    match bitrate {
        Some(bits) => {
            if bits.gt(&base) {
                bits
            } else {
                base
            }
        },
        None => base,
    }
}

/// The status after a reading: what the report holds, the signal, the
/// highest bit rate, and the bit rate as a percentage of it. Without a bit
/// rate the quality is zero.
pub open spec fn status_after(
    last: WifiStatusView,
    degraded: Number,
    report: LinkReportView,
    bitrate: Option<Number>,
    signal: Option<Number>,
    percent: i64,
) -> WifiStatusView {
    WifiStatusView {
        ssid: report.ssid,
        ip: report.ip,
        signal,
        quality: if bitrate is Some {
            percent
        } else {
            0
        },
        max_bitrate: peak_after(last, degraded, report.ssid, bitrate),
    }
}

/// The status after a reading. `bitrate` and `signal` are the numbers that
/// the texts of the report denote, the bit rate in Mbit/s; `percent` is the
/// bit rate as a percentage of the highest bit rate after this reading.
pub fn next_status(
    last: &WifiStatus,
    degraded: Number,
    report: LinkReport,
    bitrate: Option<Number>,
    signal: Option<Number>,
    percent: i64,
) -> (status: WifiStatus)
    ensures
        status@ == status_after(last@, degraded, report@, bitrate, signal, percent),
{
    let max_bitrate = next_peak(last, degraded, &report.ssid, bitrate);
    let quality: i64 = match bitrate {
        Some(_) => percent,
        None => 0,
    };
    WifiStatus { ssid: report.ssid, ip: report.ip, signal, quality, max_bitrate }
}

/// The settings of the probe of the wireless link.
#[derive(Debug)]
pub struct ConfigureWifi {
    /// The bit rate below which the link counts as degraded.
    pub bitrate_degraded: Number,
    /// How long the probe sleeps between two readings.
    pub interval: Duration,
    /// Whether the address of the interface is read too.
    pub ip: bool,
    /// The name of the wireless interface.
    pub device: String,
}

/// The probe of the wireless link.
#[derive(Debug)]
pub struct Wifi {
    pub bitrate_degraded: Number,
    pub interval: Duration,
    pub ip: bool,
    pub device: String,
    pub ssid: Option<String>,
    pub max_bitrate: Number,
}

/// The interface that the list of `iw dev` names first, or the usual one.
pub open spec fn device_of(listing: Seq<char>) -> Seq<char> {
    match regex_group(INTERFACE_PATTERN@, listing, 1) {
        Some(name) => name,
        None => DEFAULT_DEVICE@,
    }
}

/// The words before the complaint of `iw` about a device.
pub open spec fn link_label(device: Seq<char>) -> Seq<char> {
    "'iw dev "@ + device + "' ERROR: "@
}

impl ConfigureWifi {
    /// The settings for the interface that `iw dev` lists: degraded below
    /// 53 Mbit/s, read every `interval`, without the address. A list that
    /// could not be had is an error.
    pub fn new(listing: &Output, interval: Duration) -> (r: Result<ConfigureWifi, BarError>)
        ensures
            match r {
                Ok(config) => said(*listing, "iw dev error: "@) is Ok && config.device@
                    == device_of(said(*listing, "iw dev error: "@)->Ok_0)
                    && config.bitrate_degraded.bits == DEGRADED_BITRATE_BITS && config.interval
                    == interval && !config.ip,
                Err(e) => said(*listing, "iw dev error: "@) == Err::<Seq<char>, BarErrorView>(e@),
            },
    {
        match output_text(listing, "iw dev error: ") {
            Ok(text) => {
                let found = capture(INTERFACE_PATTERN, text.as_str(), 1);
                Ok(ConfigureWifi::with_device(found, interval))
            },
            Err(e) => Err(e),
        }
    }

    /// The settings for the interface that was found, or for the usual one
    /// where none was: degraded below 53 Mbit/s, read every `interval`,
    /// without the address.
    pub fn with_device(found: Option<String>, interval: Duration) -> (config: ConfigureWifi)
        ensures
            config.device@ == match found {
                Some(name) => name@,
                None => DEFAULT_DEVICE@,
            },
            config.bitrate_degraded.bits == DEGRADED_BITRATE_BITS,
            config.interval == interval,
            !config.ip,
    {
        let device = match found {
            Some(name) => name,
            None => DEFAULT_DEVICE.to_owned(),
        };
        let bitrate_degraded = Number::from_bits(DEGRADED_BITRATE_BITS);
        ConfigureWifi { bitrate_degraded, interval, ip: false, device }
    }

    /// Sets the bit rate below which the link counts as degraded.
    pub fn bitrate_degraded(&mut self, bitrate: Number) -> (config: &mut ConfigureWifi)
        ensures
            *config == (ConfigureWifi { bitrate_degraded: bitrate, ..*old(self) }),
            *final(self) == *final(config),
    {
        self.bitrate_degraded = bitrate;
        self
    }

    /// Sets how long the probe sleeps between two readings.
    pub fn interval(&mut self, interval: Duration) -> (config: &mut ConfigureWifi)
        ensures
            *config == (ConfigureWifi { interval, ..*old(self) }),
            *final(self) == *final(config),
    {
        self.interval = interval;
        self
    }

    /// Sets whether the address of the interface is read too.
    pub fn ip(&mut self, ip: bool) -> (config: &mut ConfigureWifi)
        ensures
            *config == (ConfigureWifi { ip, ..*old(self) }),
            *final(self) == *final(config),
    {
        self.ip = ip;
        self
    }

    /// Sets the name of the wireless interface.
    pub fn device(&mut self, device: String) -> (config: &mut ConfigureWifi)
        ensures
            *config == (ConfigureWifi { device, ..*old(self) }),
            *final(self) == *final(config),
    {
        self.device = device;
        self
    }

    /// The probe with these settings, on no network yet.
    pub fn configure(&self) -> (probe: Wifi)
        ensures
            probe.bitrate_degraded == self.bitrate_degraded,
            probe.interval == self.interval,
            probe.ip == self.ip,
            probe.device@ == self.device@,
            probe.ssid is None,
            probe.max_bitrate == self.bitrate_degraded,
    {
        Wifi {
            bitrate_degraded: self.bitrate_degraded,
            interval: self.interval,
            ip: self.ip,
            device: self.device.clone(),
            ssid: None,
            max_bitrate: self.bitrate_degraded,
        }
    }
}

impl Wifi {
    /// The rhythm of the probe: it starts whatever its first reading gives.
    pub fn poller(&self) -> (poller: Poller)
        ensures
            poller.phase == PollPhase::Registering,
            poller.interval == self.interval,
            !poller.fail_fast,
            poller.label@ == "wifistatus ERROR: "@,
    {
        Poller::new(self.interval, false, "wifistatus ERROR: ".to_owned())
    }

    /// The report of `iw dev <device> link`, or why there is none.
    pub fn link_output(&self, output: &Output) -> (r: Result<String, BarError>)
        ensures
            text_result_is(r, said(*output, link_label(self.device@))),
    {
        let front = concat("'iw dev ", self.device.as_str());
        let label = concat(front.as_str(), "' ERROR: ");
        output_text(output, label.as_str())
    }

    /// The list of `ip addr list`, or why there is none.
    pub fn address_output(&self, output: &Output) -> (r: Result<String, BarError>)
        ensures
            text_result_is(r, said(*output, "'ip addr list' ERROR: "@)),
    {
        output_text(output, "'ip addr list' ERROR: ")
    }
}

} // verus!
