use talpid_core::net::RemoteAddr;
use talpid_core::process::{decimal_text, OpenVpnBuilder};

#[test]
fn no_arguments() {
    let args = OpenVpnBuilder::new("").get_arguments();
    assert_eq!(0, args.len());
}

#[test]
fn passes_one_remote() {
    let remotes = vec![RemoteAddr::new("example.com", 3333)];

    let args = OpenVpnBuilder::new("").remotes(remotes).get_arguments();

    assert!(args.contains(&String::from("example.com")));
    assert!(args.contains(&String::from("3333")));
}

#[test]
fn passes_two_remotes() {
    let remotes = vec![
        RemoteAddr::new("127.0.0.1", 998),
        RemoteAddr::new("fe80::1", 1337),
    ];

    let args = OpenVpnBuilder::new("").remotes(remotes).get_arguments();

    assert!(args.contains(&String::from("127.0.0.1")));
    assert!(args.contains(&String::from("998")));
    assert!(args.contains(&String::from("fe80::1")));
    assert!(args.contains(&String::from("1337")));
}

#[test]
fn arguments_come_in_order() {
    let remotes = vec![
        RemoteAddr::new("127.0.0.1", 998),
        RemoteAddr::new("fe80::1", 1337),
    ];
    let mut builder = OpenVpnBuilder::new("/usr/sbin/openvpn");
    builder.config("/etc/openvpn/client.conf").remotes(remotes);
    assert_eq!(
        builder.get_arguments(),
        vec![
            "--config",
            "/etc/openvpn/client.conf",
            "--remote",
            "127.0.0.1",
            "998",
            "--remote",
            "fe80::1",
            "1337",
        ]
    );
    assert_eq!(builder.openvpn_bin(), "/usr/sbin/openvpn");
}

#[test]
fn config_alone() {
    let mut builder = OpenVpnBuilder::new("openvpn");
    builder.config("first.conf");
    builder.config("second.conf");
    assert_eq!(builder.get_arguments(), vec!["--config", "second.conf"]);
}

#[test]
fn later_remotes_replace_earlier_ones() {
    let mut builder = OpenVpnBuilder::new("openvpn");
    builder.remotes(vec![RemoteAddr::new("a.example", 1)]);
    builder.remotes(vec![RemoteAddr::new("b.example", 2)]);
    assert_eq!(builder.get_arguments(), vec!["--remote", "b.example", "2"]);
    builder.remotes(vec![]);
    assert!(builder.get_arguments().is_empty());
}

#[test]
fn ports_in_decimal() {
    assert_eq!(decimal_text(0), "0");
    assert_eq!(decimal_text(7), "7");
    assert_eq!(decimal_text(9), "9");
    assert_eq!(decimal_text(10), "10");
    assert_eq!(decimal_text(443), "443");
    assert_eq!(decimal_text(1194), "1194");
    assert_eq!(decimal_text(10000), "10000");
    assert_eq!(decimal_text(65535), "65535");
    for port in [1u16, 12, 100, 101, 999, 1000, 9999, 40404, 60000] {
        assert_eq!(decimal_text(port), port.to_string());
    }
}

#[test]
fn remote_keeps_its_parts() {
    let remote = RemoteAddr::new("example.com", 3333);
    assert_eq!(remote.address(), "example.com");
    assert_eq!(remote.port(), 3333);
}
