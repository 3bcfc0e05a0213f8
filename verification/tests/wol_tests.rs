use sugoi::dispatch::default_broadcast_addr;
use sugoi::dispatch::SLEEP_SIGNAL;
use sugoi::mac::MacAddr;
use sugoi::wol::magic_packet;
use sugoi::wol::MAGIC_PACKET_LEN;

#[test]
fn packet_has_magic_shape() {
    let m = MacAddr::parse("4C:CC:6A:D0:99:22").unwrap();
    let p = magic_packet(&m);
    assert_eq!(p.len(), 102);
    assert_eq!(p.len(), MAGIC_PACKET_LEN);
    let mac = [0x4cu8, 0xcc, 0x6a, 0xd0, 0x99, 0x22];
    for i in 0..6 {
        assert_eq!(p[i], 0xff);
    }
    for rep in 0..16 {
        for j in 0..6 {
            assert_eq!(p[6 + rep * 6 + j], mac[j]);
        }
    }
}

#[test]
fn packet_for_another_address() {
    let m = MacAddr::from_bytes(1, 2, 3, 4, 5, 6);
    let p = magic_packet(&m);
    assert_eq!(p.len(), 102);
    assert_eq!(&p[..6], &[0xff; 6]);
    assert_eq!(&p[6..12], &[1, 2, 3, 4, 5, 6]);
    assert_eq!(&p[96..102], &[1, 2, 3, 4, 5, 6]);
}

#[test]
fn sleep_signal_is_0x77() {
    assert_eq!(SLEEP_SIGNAL, 0x77);
}

#[test]
fn broadcast_endpoint_default() {
    assert_eq!(default_broadcast_addr(), "255.255.255.255:9");
}
