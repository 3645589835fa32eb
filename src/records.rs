//! The records that a dump yields, each decoded from the attributes of one
//! message. Every field is optional: an absent or malformed attribute
//! leaves it `None` and never rejects the record.
use crate::codec::{
    attrs_view, i32_at, lemma_other_tag_ignored, ATTR_IFINDEX, i8_at, lookup, lookup_bytes, lookup_i32, lookup_i8, lookup_nested,
    lookup_text, lookup_u16, lookup_u32, lookup_u64, nested, opt_bytes, text_at, u16_at, u32_at,
    u64_at, Attribute,
};
use vstd::prelude::*;

verus! {

// Tags of `nl80211` message attributes.
pub const ATTR_WIPHY: u16 = 1;
pub const ATTR_IFNAME: u16 = 4;
pub const ATTR_MAC: u16 = 6;
pub const ATTR_STA_INFO: u16 = 21;
pub const ATTR_WIPHY_FREQ: u16 = 38;
pub const ATTR_BSS: u16 = 47;
pub const ATTR_SSID: u16 = 52;
pub const ATTR_WIPHY_TX_POWER_LEVEL: u16 = 98;
pub const ATTR_WDEV: u16 = 153;

// Tags inside the station information attribute.
pub const STA_INFO_INACTIVE_TIME: u16 = 1;
pub const STA_INFO_SIGNAL: u16 = 7;
pub const STA_INFO_TX_BITRATE: u16 = 8;
pub const STA_INFO_RX_PACKETS: u16 = 9;
pub const STA_INFO_TX_PACKETS: u16 = 10;
pub const STA_INFO_TX_RETRIES: u16 = 11;
pub const STA_INFO_TX_FAILED: u16 = 12;
pub const STA_INFO_SIGNAL_AVG: u16 = 13;
pub const STA_INFO_RX_BITRATE: u16 = 14;
pub const STA_INFO_CONNECTED_TIME: u16 = 16;
pub const STA_INFO_BEACON_LOSS: u16 = 18;

// Tags inside a rate description.
pub const RATE_INFO_BITRATE: u16 = 1;
pub const RATE_INFO_BITRATE32: u16 = 5;

// Tags inside the basic service set attribute.
pub const BSS_BSSID: u16 = 1;
pub const BSS_FREQUENCY: u16 = 2;
pub const BSS_BEACON_INTERVAL: u16 = 4;
pub const BSS_INFORMATION_ELEMENTS: u16 = 6;
pub const BSS_SIGNAL_MBM: u16 = 7;
pub const BSS_STATUS: u16 = 9;
pub const BSS_SEEN_MS_AGO: u16 = 10;

/// A record type that one message's attributes decode into.
pub trait Record: Sized {
    /// `r` is what the attributes `attrs` decode into.
    spec fn decodes_to(attrs: Seq<(u16, Seq<u8>)>, r: Self) -> bool;

    /// Decodes a record; unknown tags are ignored.
    fn decode(attrs: &Vec<Attribute>) -> (r: Self)
        ensures
            Self::decodes_to(attrs_view(attrs@), r),
    ;
}

/// A wireless interface.
#[derive(Clone, Debug, PartialEq, Eq)]
pub struct Interface {
    pub index: Option<i32>,
    pub name: Option<Vec<u8>>,
    pub mac: Option<Vec<u8>>,
    pub ssid: Option<Vec<u8>>,
    pub frequency: Option<u32>,
    pub power: Option<u32>,
    pub phy: Option<u32>,
    pub device: Option<u64>,
}

impl Record for Interface {
    open spec fn decodes_to(attrs: Seq<(u16, Seq<u8>)>, r: Interface) -> bool {
        &&& r.index == i32_at(attrs, ATTR_IFINDEX)
        &&& opt_bytes(r.name) == text_at(attrs, ATTR_IFNAME)
        &&& opt_bytes(r.mac) == lookup(attrs, ATTR_MAC)
        &&& opt_bytes(r.ssid) == lookup(attrs, ATTR_SSID)
        &&& r.frequency == u32_at(attrs, ATTR_WIPHY_FREQ)
        &&& r.power == u32_at(attrs, ATTR_WIPHY_TX_POWER_LEVEL)
        &&& r.phy == u32_at(attrs, ATTR_WIPHY)
        &&& r.device == u64_at(attrs, ATTR_WDEV)
    }

    fn decode(attrs: &Vec<Attribute>) -> (r: Interface) {
        Interface {
            index: lookup_i32(attrs, ATTR_IFINDEX),
            name: lookup_text(attrs, ATTR_IFNAME),
            mac: lookup_bytes(attrs, ATTR_MAC),
            ssid: lookup_bytes(attrs, ATTR_SSID),
            frequency: lookup_u32(attrs, ATTR_WIPHY_FREQ),
            power: lookup_u32(attrs, ATTR_WIPHY_TX_POWER_LEVEL),
            phy: lookup_u32(attrs, ATTR_WIPHY),
            device: lookup_u64(attrs, ATTR_WDEV),
        }
    }
}

/// The bit rate of a rate description, in units of 100 kbit/s: its 32-bit
/// value where given, else its 16-bit one.
pub open spec fn rate_of(rate: Seq<(u16, Seq<u8>)>) -> Option<u32> {
    match u32_at(rate, RATE_INFO_BITRATE32) {
        Some(v) => Some(v),
        None => match u16_at(rate, RATE_INFO_BITRATE) {
            Some(v) => Some(v as u32),
            None => None,
        },
    }
}

/// The bit rate described by the attribute with `tag`.
fn decode_rate(info: &Vec<Attribute>, tag: u16) -> (r: Option<u32>)
    ensures
        r == rate_of(nested(attrs_view(info@), tag)),
{
    let rate = lookup_nested(info, tag);
    match lookup_u32(&rate, RATE_INFO_BITRATE32) {
        Some(v) => Some(v),
        None => match lookup_u16(&rate, RATE_INFO_BITRATE) {
            Some(v) => Some(v as u32),
            None => None,
        },
    }
}

/// A station associated with an interface.
#[derive(Clone, Debug, PartialEq, Eq)]
pub struct Station {
    pub bssid: Option<Vec<u8>>,
    pub signal: Option<i8>,
    pub average_signal: Option<i8>,
    pub inactive_time: Option<u32>,
    pub connected_time: Option<u32>,
    pub beacon_loss: Option<u32>,
    pub rx_packets: Option<u32>,
    pub tx_packets: Option<u32>,
    pub tx_retries: Option<u32>,
    pub tx_failed: Option<u32>,
    pub rx_bitrate: Option<u32>,
    pub tx_bitrate: Option<u32>,
}

impl Record for Station {
    open spec fn decodes_to(attrs: Seq<(u16, Seq<u8>)>, r: Station) -> bool {
        let info = nested(attrs, ATTR_STA_INFO);
        &&& opt_bytes(r.bssid) == lookup(attrs, ATTR_MAC)
        &&& r.signal == i8_at(info, STA_INFO_SIGNAL)
        &&& r.average_signal == i8_at(info, STA_INFO_SIGNAL_AVG)
        &&& r.inactive_time == u32_at(info, STA_INFO_INACTIVE_TIME)
        &&& r.connected_time == u32_at(info, STA_INFO_CONNECTED_TIME)
        &&& r.beacon_loss == u32_at(info, STA_INFO_BEACON_LOSS)
        &&& r.rx_packets == u32_at(info, STA_INFO_RX_PACKETS)
        &&& r.tx_packets == u32_at(info, STA_INFO_TX_PACKETS)
        &&& r.tx_retries == u32_at(info, STA_INFO_TX_RETRIES)
        &&& r.tx_failed == u32_at(info, STA_INFO_TX_FAILED)
        &&& r.rx_bitrate == rate_of(nested(info, STA_INFO_RX_BITRATE))
        &&& r.tx_bitrate == rate_of(nested(info, STA_INFO_TX_BITRATE))
    }

    fn decode(attrs: &Vec<Attribute>) -> (r: Station) {
        let info = lookup_nested(attrs, ATTR_STA_INFO);
        Station {
            bssid: lookup_bytes(attrs, ATTR_MAC),
            signal: lookup_i8(&info, STA_INFO_SIGNAL),
            average_signal: lookup_i8(&info, STA_INFO_SIGNAL_AVG),
            inactive_time: lookup_u32(&info, STA_INFO_INACTIVE_TIME),
            connected_time: lookup_u32(&info, STA_INFO_CONNECTED_TIME),
            beacon_loss: lookup_u32(&info, STA_INFO_BEACON_LOSS),
            rx_packets: lookup_u32(&info, STA_INFO_RX_PACKETS),
            tx_packets: lookup_u32(&info, STA_INFO_TX_PACKETS),
            tx_retries: lookup_u32(&info, STA_INFO_TX_RETRIES),
            tx_failed: lookup_u32(&info, STA_INFO_TX_FAILED),
            rx_bitrate: decode_rate(&info, STA_INFO_RX_BITRATE),
            tx_bitrate: decode_rate(&info, STA_INFO_TX_BITRATE),
        }
    }
}

/// A basic service set found by a scan.
#[derive(Clone, Debug, PartialEq, Eq)]
pub struct Bss {
    pub bssid: Option<Vec<u8>>,
    pub frequency: Option<u32>,
    pub beacon_interval: Option<u16>,
    pub information_elements: Option<Vec<u8>>,
    pub signal: Option<i32>,
    pub status: Option<u32>,
    pub seen_ms_ago: Option<u32>,
}

impl Record for Bss {
    open spec fn decodes_to(attrs: Seq<(u16, Seq<u8>)>, r: Bss) -> bool {
        let bss = nested(attrs, ATTR_BSS);
        &&& opt_bytes(r.bssid) == lookup(bss, BSS_BSSID)
        &&& r.frequency == u32_at(bss, BSS_FREQUENCY)
        &&& r.beacon_interval == u16_at(bss, BSS_BEACON_INTERVAL)
        &&& opt_bytes(r.information_elements) == lookup(bss, BSS_INFORMATION_ELEMENTS)
        &&& r.signal == i32_at(bss, BSS_SIGNAL_MBM)
        &&& r.status == u32_at(bss, BSS_STATUS)
        &&& r.seen_ms_ago == u32_at(bss, BSS_SEEN_MS_AGO)
    }

    fn decode(attrs: &Vec<Attribute>) -> (r: Bss) {
        let bss = lookup_nested(attrs, ATTR_BSS);
        Bss {
            bssid: lookup_bytes(&bss, BSS_BSSID),
            frequency: lookup_u32(&bss, BSS_FREQUENCY),
            beacon_interval: lookup_u16(&bss, BSS_BEACON_INTERVAL),
            information_elements: lookup_bytes(&bss, BSS_INFORMATION_ELEMENTS),
            signal: lookup_i32(&bss, BSS_SIGNAL_MBM),
            status: lookup_u32(&bss, BSS_STATUS),
            seen_ms_ago: lookup_u32(&bss, BSS_SEEN_MS_AGO),
        }
    }
}

/// An attribute with a tag that interface records do not read leaves the
/// decoded record as it is.
pub proof fn lemma_interface_ignores_unknown_tag(
    attrs: Seq<(u16, Seq<u8>)>,
    i: int,
    x: (u16, Seq<u8>),
    r: Interface,
)
    requires
        0 <= i <= attrs.len(),
        x.0 != ATTR_IFINDEX && x.0 != ATTR_IFNAME && x.0 != ATTR_MAC && x.0 != ATTR_SSID
            && x.0 != ATTR_WIPHY_FREQ && x.0 != ATTR_WIPHY_TX_POWER_LEVEL && x.0 != ATTR_WIPHY
            && x.0 != ATTR_WDEV,
    ensures
        Interface::decodes_to(attrs.insert(i, x), r) == Interface::decodes_to(attrs, r),
{
    lemma_other_tag_ignored(attrs, i, x, ATTR_IFINDEX);
    lemma_other_tag_ignored(attrs, i, x, ATTR_IFNAME);
    lemma_other_tag_ignored(attrs, i, x, ATTR_MAC);
    lemma_other_tag_ignored(attrs, i, x, ATTR_SSID);
    lemma_other_tag_ignored(attrs, i, x, ATTR_WIPHY_FREQ);
    lemma_other_tag_ignored(attrs, i, x, ATTR_WIPHY_TX_POWER_LEVEL);
    lemma_other_tag_ignored(attrs, i, x, ATTR_WIPHY);
    lemma_other_tag_ignored(attrs, i, x, ATTR_WDEV);
}

/// An attribute with a tag that station records do not read leaves the
/// decoded record as it is.
pub proof fn lemma_station_ignores_unknown_tag(
    attrs: Seq<(u16, Seq<u8>)>,
    i: int,
    x: (u16, Seq<u8>),
    r: Station,
)
    requires
        0 <= i <= attrs.len(),
        x.0 != ATTR_MAC && x.0 != ATTR_STA_INFO,
    ensures
        Station::decodes_to(attrs.insert(i, x), r) == Station::decodes_to(attrs, r),
{
    lemma_other_tag_ignored(attrs, i, x, ATTR_MAC);
    lemma_other_tag_ignored(attrs, i, x, ATTR_STA_INFO);
}

/// An attribute with a tag that scan records do not read leaves the
/// decoded record as it is.
pub proof fn lemma_bss_ignores_unknown_tag(
    attrs: Seq<(u16, Seq<u8>)>,
    i: int,
    x: (u16, Seq<u8>),
    r: Bss,
)
    requires
        0 <= i <= attrs.len(),
        x.0 != ATTR_BSS,
    ensures
        Bss::decodes_to(attrs.insert(i, x), r) == Bss::decodes_to(attrs, r),
{
    lemma_other_tag_ignored(attrs, i, x, ATTR_BSS);
}

} // verus!
