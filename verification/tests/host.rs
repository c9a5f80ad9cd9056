use vdmtool::cd321x::Operation;
use vdmtool::cli::{
    bus_kind, get_typec_dev_fromconnector, operations, parse_address, parse_compatible, BusKind,
    Subcommand,
};
use vdmtool::error::{Error, IntErrorKind};
use vdmtool::spmi::{spmi_required_files, RegSelect, SpmiBusDevice, SpmiFile, SpmiOpc};
use vdmtool::sysfs::{i2c_dev_from_names, i2c_dev_names_ok, port_name_ok, select_typec_port, PortCandidate};

#[test]
fn addresses() {
    assert_eq!(parse_address("0x38"), Ok(0x38));
    assert_eq!(parse_address("56"), Ok(56));
    assert_eq!(parse_address("0xffff"), Ok(0xffff));
    assert_eq!(parse_address("0x10000"), Err(Error::Parse(IntErrorKind::PosOverflow)));
    assert_eq!(parse_address("0x"), Err(Error::Parse(IntErrorKind::Empty)));
    assert_eq!(parse_address("0X38"), Err(Error::Parse(IntErrorKind::InvalidDigit)));
    assert_eq!(parse_address(""), Err(Error::Parse(IntErrorKind::Empty)));
    assert_eq!(parse_address("x"), Err(Error::Parse(IntErrorKind::InvalidDigit)));
}

#[test]
fn bus_kinds() {
    assert_eq!(bus_kind("/dev/i2c-0"), Ok(BusKind::I2c));
    assert_eq!(bus_kind("/sys/kernel/debug/spmi-0/"), Ok(BusKind::Spmi));
    assert_eq!(bus_kind("/dev/spi0"), Err(Error::DeviceNotFound));
    assert_eq!(bus_kind(""), Err(Error::DeviceNotFound));
}

#[test]
fn compatible_strings() {
    assert_eq!(parse_compatible(b"apple,j314s\0apple,t6000").unwrap(), "J314");
    assert_eq!(parse_compatible(b"apple,j293\0ap").unwrap(), "J293");
    assert_eq!(parse_compatible(b"apple,j29\0ap").unwrap(), "J29\0");
    assert_eq!(parse_compatible(b"apple,mac1"), Ok("MAC1".to_string()));
    assert_eq!(parse_compatible(b"google,pixel"), Err(Error::Compatible));
    assert_eq!(parse_compatible(b"appleXj314s"), Err(Error::Compatible));
    assert_eq!(parse_compatible(b"apple2,j314s"), Err(Error::Compatible));
    assert_eq!(
        parse_compatible(b"apple,j\xff14s"),
        Err(Error::Utf8 { valid_up_to: 7, error_len: Some(1) })
    );
    // A character cut at the tenth byte: the input ends inside it.
    assert_eq!(
        parse_compatible(b"apple,j31\xc3\xa9"),
        Err(Error::Utf8 { valid_up_to: 9, error_len: None })
    );
    for head in [
        &b"apple,j\xff14s"[..],
        b"\xe2\x82apple,j3",
        b"apple,\xf0\x9f\x98x1",
        b"apple,\xc0\x80123",
        b"apple,\xed\xa0\x80z",
        b"apple,\xf4\x90\x80z",
        b"apple,\xe0\x80\x80z",
        b"apple,\x80zzz",
        b"apple,j\xf0\x9f\x98",
        b"apple,j3\xe2\x82",
    ] {
        let e = std::str::from_utf8(&head[..10]).unwrap_err();
        assert_eq!(
            parse_compatible(head),
            Err(Error::Utf8 { valid_up_to: e.valid_up_to(), error_len: e.error_len() })
        );
    }
}

#[test]
fn subcommands() {
    assert_eq!(operations(Subcommand::Other), vec![]);
    assert_eq!(operations(Subcommand::Nop), vec![]);
    assert_eq!(operations(Subcommand::Dfu), vec![Operation::Dfu]);
    assert_eq!(operations(Subcommand::Reboot), vec![Operation::Reboot]);
    assert_eq!(operations(Subcommand::RebootSerial), vec![Operation::RebootWait, Operation::Serial]);
    assert_eq!(operations(Subcommand::RebootDebugUsb), vec![Operation::RebootWait, Operation::DebugUsb]);
    assert_eq!(operations(Subcommand::Serial), vec![Operation::Serial]);
    assert_eq!(operations(Subcommand::DebugUsb), vec![Operation::DebugUsb]);
    assert_eq!(operations(Subcommand::Disconnect), vec![Operation::Disconnect]);
}

#[test]
fn connector_lookup_unavailable() {
    assert_eq!(get_typec_dev_fromconnector("back left"), Err(Error::DeviceNotFound));
}

#[test]
fn spmi_open_and_plans() {
    let files: Vec<&str> = spmi_required_files().iter().map(|f| f.name()).collect();
    assert_eq!(files, vec!["opc", "saddr", "sid", "data"]);
    assert!(SpmiBusDevice::open("/sys/kernel/debug/spmi-0", 0x10e, &[true, true, false, true]).is_err());
    let dev = SpmiBusDevice::open("/sys/kernel/debug/spmi-0", 0x10e, &[true; 4]).unwrap();
    assert_eq!(dev.sid(), 0x0e);
    assert_eq!(dev.dbgfs_path(), "/sys/kernel/debug/spmi-0");
    let w = dev.write_op(SpmiOpc::ExtWrite, 0xa0, &[1, 2]);
    let got: Vec<(SpmiFile, Vec<u8>)> = w.into_iter().map(|x| (x.file, x.contents)).collect();
    assert_eq!(
        got,
        vec![
            (SpmiFile::Sid, b"0xe".to_vec()),
            (SpmiFile::Opc, b"0x0".to_vec()),
            (SpmiFile::Saddr, b"0xa0".to_vec()),
            (SpmiFile::Data, vec![1, 2]),
        ]
    );
    let r = dev.block_read_ops();
    assert_eq!(r.len(), 3);
    assert_eq!(r[1].contents, b"0x20".to_vec());
    assert_eq!(r[2].contents, b"0x20".to_vec());
    let s = dev.select_request(0x3f);
    assert_eq!(s[1].contents, b"0x80".to_vec());
    assert_eq!(s[3].contents, vec![0x3f]);
    let p = dev.select_poll();
    assert_eq!(p[1].contents, b"0x60".to_vec());
    assert_eq!(dev.block_write_ops(&[5])[2].contents, b"0xa0".to_vec());
}

#[test]
fn spmi_register_selection() {
    let dev = SpmiBusDevice::open("/x", 0, &[true; 4]).unwrap();
    assert_eq!(dev.select_reg(0x08, 0x08), RegSelect::Selected);
    assert_eq!(dev.select_reg(0x08, 0x88), RegSelect::Pending);
    assert_eq!(dev.select_reg(0x08, 0x09), RegSelect::Failed);
    assert_eq!(dev.select_reg(0x88, 0x88), RegSelect::Selected);
}

#[test]
fn i2c_device_names() {
    assert_eq!(i2c_dev_from_names("i2c-0", "0-0038"), Some(("/dev/i2c-0".to_string(), 0x38)));
    assert_eq!(i2c_dev_from_names("i2c-12", "12-003f"), Some(("/dev/i2c-12".to_string(), 0x3f)));
    assert_eq!(i2c_dev_from_names("i2c-1", "0-0038"), None);
    assert_eq!(i2c_dev_from_names("spi-0", "0-0038"), None);
    assert_eq!(i2c_dev_from_names("i2c-0", "0038"), None);
    assert!(i2c_dev_names_ok("i2c-0", "0-0038"));
    assert!(!i2c_dev_names_ok("i2c-0", "0-zz"));
    assert!(i2c_dev_names_ok("i2c-1", "0-zz"));
}

fn port(name: &str, label: Option<&str>) -> PortCandidate {
    PortCandidate { name: name.to_string(), label: label.map(|l| l.to_string()) }
}

#[test]
fn connector_picks_shortest_label() {
    let ports = vec![
        port("port0", Some("USB-C Back Left Middle")),
        port("port1", Some("USB-C Back Left")),
        port("port2", Some("USB-C Back Right")),
    ];
    assert_eq!(select_typec_port(&ports, "back left"), Some(1));
    assert_eq!(select_typec_port(&ports, "BACK"), Some(1));
    assert_eq!(select_typec_port(&ports, "middle"), Some(0));
    assert_eq!(select_typec_port(&ports, "front"), None);
}

#[test]
fn connector_skips_non_ports() {
    let ports = vec![
        port("port0-partner", Some("USB-C Left")),
        port("portx", Some("USB-C Left")),
        port("port3", None),
        port("port4", Some("Thunderbolt Left")),
        port("port", Some("USB-C Left Side")),
        port("port12", Some("usb-c left side")),
    ];
    assert_eq!(select_typec_port(&ports, "left"), Some(4));
    assert!(port_name_ok("port0"));
    assert!(port_name_ok("port"));
    assert!(port_name_ok("port٣"));
    assert!(!port_name_ok("port0-partner"));
    assert!(!port_name_ok("usb0"));
}

#[test]
fn address_reads_spmi_hex_form() {
    for n in [0u16, 0x38, 0xa0, 0x10e, u16::MAX] {
        let text = String::from_utf8(vdmtool::text::hex_literal_bytes(n as u32)).unwrap();
        assert_eq!(parse_address(&text), Ok(n));
    }
}

#[test]
fn connector_choice_ignores_ascii_case() {
    let lower = vec![
        port("port0", Some("usb-c back left middle")),
        port("port1", Some("usb-c back left")),
    ];
    let mixed = vec![
        port("port0", Some("USB-C Back Left Middle")),
        port("port1", Some("uSb-C BACK left")),
    ];
    for c in ["back left", "BACK LEFT", "Middle", "right"] {
        assert_eq!(select_typec_port(&lower, c), select_typec_port(&mixed, c));
    }
    assert_eq!(select_typec_port(&mixed, "Back Left"), Some(1));
}
