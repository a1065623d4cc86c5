use talpid_core::net::{
    Endpoint, GenericTunnelOptions, IpAddr, Ipv4Addr, Ipv6Addr, SocketAddr, TransportProtocol,
    TunnelEndpoint, TunnelType,
};
use talpid_core::openvpn::{
    ConnectionConfig, LocalProxySettings, ProxyAuth, ProxySettings, ProxySettingsValidation,
    RemoteProxySettings, TunnelOptions, TunnelParameters,
};

fn v4(a: u8, b: u8, c: u8, d: u8, port: u16) -> SocketAddr {
    SocketAddr::new(IpAddr::V4(Ipv4Addr::new(a, b, c, d)), port)
}

fn v6_loopback(port: u16) -> SocketAddr {
    SocketAddr::new(IpAddr::V6(Ipv6Addr::new(0, 0, 0, 0, 0, 0, 0, 1)), port)
}

fn local(port: u16, peer: SocketAddr) -> ProxySettings {
    ProxySettings::Local(LocalProxySettings { port, peer })
}

fn remote(address: SocketAddr) -> ProxySettings {
    ProxySettings::Remote(RemoteProxySettings {
        address,
        auth: None,
    })
}

fn refusal(message: &str) -> Result<(), String> {
    Err(String::from(message))
}

#[test]
fn valid_proxies_pass() {
    assert_eq!(
        ProxySettingsValidation::validate(&local(1080, v4(192, 0, 2, 1, 443))),
        Ok(())
    );
    assert_eq!(
        ProxySettingsValidation::validate(&remote(v4(192, 0, 2, 1, 1080))),
        Ok(())
    );
    assert_eq!(
        ProxySettingsValidation::validate(&ProxySettings::Remote(RemoteProxySettings {
            address: v4(128, 0, 0, 1, 1),
            auth: Some(ProxyAuth {
                username: String::from("user"),
                password: String::from("pass"),
            }),
        })),
        Ok(())
    );
    assert_eq!(
        ProxySettingsValidation::validate(&local(
            65535,
            SocketAddr::new(IpAddr::V6(Ipv6Addr::new(0, 0, 0, 0, 0, 0, 0, 2)), 65535)
        )),
        Ok(())
    );
}

#[test]
fn local_proxy_faults() {
    assert_eq!(
        ProxySettingsValidation::validate(&local(0, v4(192, 0, 2, 1, 443))),
        refusal("Invalid local port number")
    );
    assert_eq!(
        ProxySettingsValidation::validate(&local(1080, v4(127, 0, 0, 1, 443))),
        refusal("localhost is not a valid peer in this context")
    );
    assert_eq!(
        ProxySettingsValidation::validate(&local(1080, v4(127, 255, 1, 9, 443))),
        refusal("localhost is not a valid peer in this context")
    );
    assert_eq!(
        ProxySettingsValidation::validate(&local(1080, v6_loopback(443))),
        refusal("localhost is not a valid peer in this context")
    );
    assert_eq!(
        ProxySettingsValidation::validate(&local(1080, v4(192, 0, 2, 1, 0))),
        refusal("Invalid remote port number")
    );
}

#[test]
fn local_proxy_faults_in_order() {
    assert_eq!(
        ProxySettingsValidation::validate(&local(0, v4(127, 0, 0, 1, 0))),
        refusal("Invalid local port number")
    );
    assert_eq!(
        ProxySettingsValidation::validate(&local(1, v4(127, 0, 0, 1, 0))),
        refusal("localhost is not a valid peer in this context")
    );
}

#[test]
fn remote_proxy_faults() {
    assert_eq!(
        ProxySettingsValidation::validate(&remote(v4(192, 0, 2, 1, 0))),
        refusal("Invalid port number")
    );
    assert_eq!(
        ProxySettingsValidation::validate(&remote(v4(127, 0, 0, 1, 1080))),
        refusal("localhost is not a valid remote server")
    );
    assert_eq!(
        ProxySettingsValidation::validate(&remote(v6_loopback(1080))),
        refusal("localhost is not a valid remote server")
    );
    assert_eq!(
        ProxySettingsValidation::validate(&remote(v4(127, 0, 0, 1, 0))),
        refusal("Invalid port number")
    );
}

#[test]
fn proxy_endpoints_are_tcp() {
    let peer = v4(192, 0, 2, 7, 443);
    let expected = Endpoint {
        address: peer,
        protocol: TransportProtocol::Tcp,
    };
    assert_eq!(local(1080, peer).get_endpoint(), expected);
    assert_eq!(remote(peer).get_endpoint(), expected);
    assert_eq!(LocalProxySettings { port: 1, peer }.get_endpoint(), expected);
    assert_eq!(
        RemoteProxySettings {
            address: peer,
            auth: None
        }
        .get_endpoint(),
        expected
    );
}

#[test]
fn connection_config() {
    let endpoint = Endpoint::new(
        IpAddr::V4(Ipv4Addr::new(185, 65, 134, 66)),
        1194,
        TransportProtocol::Udp,
    );
    let config = ConnectionConfig::new(endpoint, String::from("account"), String::from("-"));
    assert_eq!(config.endpoint, endpoint);
    assert_eq!(config.username, "account");
    assert_eq!(config.password, "-");
    assert_eq!(
        config.get_tunnel_endpoint(),
        TunnelEndpoint {
            tunnel_type: TunnelType::OpenVpn,
            endpoint: Endpoint {
                address: v4(185, 65, 134, 66, 1194),
                protocol: TransportProtocol::Udp,
            },
        }
    );
    let parameters = TunnelParameters {
        config: config.clone(),
        options: TunnelOptions::default(),
        generic_options: GenericTunnelOptions { enable_ipv6: true },
    };
    assert_eq!(parameters.config, config);
}

#[test]
fn default_options_are_empty() {
    assert_eq!(
        TunnelOptions::default(),
        TunnelOptions {
            mssfix: None,
            proxy: None
        }
    );
}
