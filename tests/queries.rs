use neli_wifi::codec::{Attribute, ATTR_IFINDEX};
use neli_wifi::connection::{ConnectError, Connection};
use neli_wifi::dump::{collect, Dump, DumpError, Message, Status};
use neli_wifi::records::{
    Bss, Interface, Record, Station, ATTR_BSS, ATTR_IFNAME, ATTR_MAC, ATTR_STA_INFO, ATTR_WDEV,
    BSS_BEACON_INTERVAL, BSS_BSSID, BSS_FREQUENCY, BSS_SIGNAL_MBM, RATE_INFO_BITRATE,
    RATE_INFO_BITRATE32, STA_INFO_RX_BITRATE, STA_INFO_SIGNAL, STA_INFO_TX_BITRATE,
    STA_INFO_TX_PACKETS,
};
use neli_wifi::request::{build_request, Command, RequestError, GENL_VERSION};

const FAMILY: u16 = 28;

fn attr(tag: u16, payload: Vec<u8>) -> Attribute {
    Attribute { tag, payload }
}

fn nla(tag: u16, payload: &[u8]) -> Vec<u8> {
    let len = 4 + payload.len();
    let mut out = vec![(len % 256) as u8, (len / 256) as u8, (tag % 256) as u8, (tag / 256) as u8];
    out.extend_from_slice(payload);
    while out.len() % 4 != 0 {
        out.push(0);
    }
    out
}

fn payload(attrs: Vec<Attribute>) -> Message {
    Message::Payload { nl_type: FAMILY, attrs }
}

fn iface(index: u8) -> Message {
    payload(vec![attr(3, vec![index, 0, 0, 0])])
}

fn station(mac_last: u8, signal: u8) -> Message {
    payload(vec![
        attr(ATTR_MAC, vec![2, 0, 0, 0, 0, mac_last]),
        attr(ATTR_STA_INFO, nla(STA_INFO_SIGNAL, &[signal])),
    ])
}

#[test]
fn filter_is_attached_only_to_per_interface_commands() {
    let r = build_request(Command::GetInterface, GENL_VERSION, None).unwrap();
    assert_eq!(r.cmd, Command::GetInterface);
    assert_eq!(r.version, 1);
    assert!(r.attrs.is_empty());
    for cmd in [Command::GetStation, Command::GetScan] {
        let r = build_request(cmd, GENL_VERSION, Some(3)).unwrap();
        assert_eq!(r.cmd, cmd);
        assert_eq!(r.attrs, vec![attr(ATTR_IFINDEX, vec![3, 0, 0, 0])]);
    }
}

#[test]
fn mismatched_filter_is_refused() {
    assert_eq!(
        build_request(Command::GetInterface, GENL_VERSION, Some(3)).unwrap_err(),
        RequestError::UnexpectedFilter
    );
    assert_eq!(
        build_request(Command::GetStation, GENL_VERSION, None).unwrap_err(),
        RequestError::MissingFilter
    );
    assert_eq!(
        build_request(Command::GetScan, GENL_VERSION, None).unwrap_err(),
        RequestError::MissingFilter
    );
}

#[test]
fn command_codes() {
    assert_eq!(Command::GetInterface.code(), 5);
    assert_eq!(Command::GetStation.code(), 17);
    assert_eq!(Command::GetScan.code(), 32);
}

#[test]
fn dump_yields_one_record_per_payload_in_order() {
    let msgs = vec![iface(1), iface(2), iface(3), Message::Done];
    let recs: Vec<Interface> = collect(FAMILY, &msgs).unwrap();
    let idx: Vec<Option<i32>> = recs.iter().map(|r| r.index).collect();
    assert_eq!(idx, vec![Some(1), Some(2), Some(3)]);
}

#[test]
fn empty_dump_is_an_empty_list() {
    let recs: Vec<Interface> = collect(FAMILY, &vec![Message::Done]).unwrap();
    assert!(recs.is_empty());
}

#[test]
fn kernel_error_fails_the_dump() {
    let msgs = vec![iface(1), iface(2), Message::Error(-16), iface(3), Message::Done];
    let r: Result<Vec<Interface>, DumpError> = collect(FAMILY, &msgs);
    assert_eq!(r.unwrap_err(), DumpError::Kernel(-16));
}

#[test]
fn malformed_message_fails_the_dump() {
    let msgs = vec![iface(1), Message::Malformed, Message::Done];
    let r: Result<Vec<Interface>, DumpError> = collect(FAMILY, &msgs);
    assert_eq!(r.unwrap_err(), DumpError::Malformed);
}

#[test]
fn stream_without_end_is_unterminated() {
    let r: Result<Vec<Interface>, DumpError> = collect(FAMILY, &vec![iface(1)]);
    assert_eq!(r.unwrap_err(), DumpError::Unterminated);
}

#[test]
fn noop_and_foreign_messages_are_skipped_and_end_stops_reading() {
    let msgs = vec![
        Message::Noop,
        iface(1),
        Message::Payload { nl_type: 16, attrs: vec![attr(3, vec![9, 0, 0, 0])] },
        iface(2),
        Message::Done,
        iface(3),
        Message::Error(-1),
    ];
    let recs: Vec<Interface> = collect(FAMILY, &msgs).unwrap();
    let idx: Vec<Option<i32>> = recs.iter().map(|r| r.index).collect();
    assert_eq!(idx, vec![Some(1), Some(2)]);
}

#[test]
fn dump_steps_one_message_at_a_time() {
    let conn = Connection::establish(Some(FAMILY)).unwrap();
    let mut d: Dump<Interface> = conn.start_dump();
    assert_eq!(d.family_id(), FAMILY);
    d.step(&iface(4));
    assert!(!d.is_finished());
    d.step(&Message::Done);
    assert!(d.is_finished());
    assert_eq!(d.status(), Status::Done);
    assert_eq!(d.finish().unwrap().len(), 1);
}

#[test]
fn unknown_tag_is_ignored() {
    let plain = vec![attr(3, vec![5, 0, 0, 0]), attr(ATTR_IFNAME, b"wlan0\0".to_vec())];
    let mut extra = plain.clone();
    extra.insert(1, attr(999, vec![1, 2, 3]));
    let a = Interface::decode(&plain);
    let b = Interface::decode(&extra);
    assert_eq!(a, b);
    assert_eq!(b.index, Some(5));
    assert_eq!(b.name, Some(b"wlan0".to_vec()));
}

#[test]
fn missing_tag_is_none() {
    let r = Interface::decode(&vec![attr(ATTR_IFNAME, b"wlp2s0\0".to_vec())]);
    assert_eq!(r.name, Some(b"wlp2s0".to_vec()));
    assert_eq!(r.index, None);
    assert_eq!(r.mac, None);
    assert_eq!(r.frequency, None);
    let empty = Station::decode(&vec![]);
    assert_eq!(empty.signal, None);
    assert_eq!(empty.bssid, None);
}

#[test]
fn interface_fields_decode() {
    let r = Interface::decode(&vec![
        attr(1, vec![0, 0, 0, 0]),
        attr(ATTR_MAC, vec![1, 2, 3, 4, 5, 6]),
        attr(52, b"home".to_vec()),
        attr(38, vec![0x6c, 0x09, 0, 0]),
        attr(98, vec![0xd0, 0x07, 0, 0]),
        attr(ATTR_WDEV, vec![1, 0, 0, 0, 0, 0, 0, 0]),
    ]);
    assert_eq!(r.phy, Some(0));
    assert_eq!(r.mac, Some(vec![1, 2, 3, 4, 5, 6]));
    assert_eq!(r.ssid, Some(b"home".to_vec()));
    assert_eq!(r.frequency, Some(2412));
    assert_eq!(r.power, Some(2000));
    assert_eq!(r.device, Some(1));
}

#[test]
fn station_rates_prefer_the_wide_value() {
    let mut info = nla(STA_INFO_TX_PACKETS, &[10, 0, 0, 0]);
    let mut tx = nla(RATE_INFO_BITRATE, &[0x2c, 0x01]);
    tx.extend(nla(RATE_INFO_BITRATE32, &[0x58, 0x02, 0, 0]));
    info.extend(nla(STA_INFO_TX_BITRATE, &tx));
    info.extend(nla(STA_INFO_RX_BITRATE, &nla(RATE_INFO_BITRATE, &[0x2c, 0x01])));
    let r = Station::decode(&vec![attr(ATTR_STA_INFO, info)]);
    assert_eq!(r.tx_packets, Some(10));
    assert_eq!(r.tx_bitrate, Some(600));
    assert_eq!(r.rx_bitrate, Some(300));
}

#[test]
fn bss_fields_decode() {
    let mut inner = nla(BSS_BSSID, &[1, 2, 3, 4, 5, 6]);
    inner.extend(nla(BSS_FREQUENCY, &[0x85, 0x16, 0, 0]));
    inner.extend(nla(BSS_BEACON_INTERVAL, &[100, 0]));
    inner.extend(nla(BSS_SIGNAL_MBM, &[0x18, 0xe8, 0xff, 0xff]));
    let recs: Vec<Bss> = collect(FAMILY, &vec![payload(vec![attr(ATTR_BSS, inner)]), Message::Done]).unwrap();
    assert_eq!(recs.len(), 1);
    assert_eq!(recs[0].bssid, Some(vec![1, 2, 3, 4, 5, 6]));
    assert_eq!(recs[0].frequency, Some(5765));
    assert_eq!(recs[0].beacon_interval, Some(100));
    assert_eq!(recs[0].signal, Some(-6120));
    assert_eq!(recs[0].status, None);
}

#[test]
fn stations_of_interface_three() {
    let conn = Connection::establish(Some(FAMILY)).unwrap();
    let req = conn.stations_request(3);
    assert_eq!(req.cmd, Command::GetStation);
    assert_eq!(req.attrs, vec![attr(ATTR_IFINDEX, vec![3, 0, 0, 0])]);
    let msgs = vec![station(0xaa, 0xc4), station(0xbb, 0xb0), Message::Done];
    let recs: Vec<Station> = collect(conn.family_id(), &msgs).unwrap();
    assert_eq!(recs.len(), 2);
    assert_eq!(recs[0].bssid, Some(vec![2, 0, 0, 0, 0, 0xaa]));
    assert_eq!(recs[0].signal, Some(-60));
    assert_eq!(recs[1].bssid, Some(vec![2, 0, 0, 0, 0, 0xbb]));
    assert_eq!(recs[1].signal, Some(-80));
}

#[test]
fn interfaces_with_no_payloads() {
    let conn = Connection::establish(Some(FAMILY)).unwrap();
    let req = conn.interfaces_request();
    assert_eq!(req.cmd, Command::GetInterface);
    assert!(req.attrs.is_empty());
    let recs: Vec<Interface> = collect(conn.family_id(), &vec![Message::Done]).unwrap();
    assert_eq!(recs, vec![]);
}

#[test]
fn bss_request_carries_the_index() {
    let conn = Connection::establish(Some(FAMILY)).unwrap();
    let req = conn.bss_request(7);
    assert_eq!(req.cmd, Command::GetScan);
    assert_eq!(req.version, GENL_VERSION);
    assert_eq!(req.attrs, vec![attr(ATTR_IFINDEX, vec![7, 0, 0, 0])]);
}

#[test]
fn unknown_family_gives_no_connection() {
    assert_eq!(Connection::establish(None).unwrap_err(), ConnectError::UnknownFamily);
    assert_eq!(Connection::establish(Some(30)).unwrap().family_id(), 30);
}
