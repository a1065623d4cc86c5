//! Parameters of an OpenVPN tunnel and of the proxy it may go through.

use crate::net::{
    Endpoint, GenericTunnelOptions, SocketAddr, TransportProtocol, TunnelEndpoint, TunnelType,
};
use vstd::prelude::*;
use vstd::string::StringExecFns;

verus! {

/// Everything needed to start an OpenVPN tunnel.
#[derive(Clone, Debug, PartialEq, Eq, Hash)]
pub struct TunnelParameters {
    pub config: ConnectionConfig,
    pub options: TunnelOptions,
    pub generic_options: GenericTunnelOptions,
}

/// Where to connect to and the credentials to present there.
#[derive(Clone, Debug, PartialEq, Eq, Hash)]
pub struct ConnectionConfig {
    pub endpoint: Endpoint,
    pub username: String,
    pub password: String,
}

impl ConnectionConfig {
    /// A connection to `endpoint` with the given credentials.
    pub fn new(endpoint: Endpoint, username: String, password: String) -> (res: ConnectionConfig)
        ensures
            res == (ConnectionConfig { endpoint, username, password }),
    {
        ConnectionConfig { endpoint, username, password }
    }

    /// The endpoint of the connection, marked as that of an OpenVPN tunnel.
    pub fn get_tunnel_endpoint(&self) -> (res: TunnelEndpoint)
        ensures
            res == (TunnelEndpoint { tunnel_type: TunnelType::OpenVpn, endpoint: self.endpoint }),
    {
        TunnelEndpoint { tunnel_type: TunnelType::OpenVpn, endpoint: self.endpoint }
    }
}

/// TunnelOptions contains options for an openvpn tunnel that should be applied
/// irrespective of the relay parameters - i.e. have nothing to do with the particular
/// OpenVPN server, but do affect the connection.
#[derive(Clone, Debug, PartialEq, Eq, Hash)]
pub struct TunnelOptions {
    /// Optional argument for openvpn to try and limit TCP packet size.
    pub mssfix: Option<u16>,
    /// Proxy settings, for when the relay connection should be via a proxy.
    pub proxy: Option<ProxySettings>,
}

impl Default for TunnelOptions {
    fn default() -> (res: TunnelOptions)
        ensures
            res == (TunnelOptions { mssfix: None, proxy: None }),
    {
        TunnelOptions { mssfix: None, proxy: None }
    }
}

/// A proxy between this host and the relay.
#[derive(Clone, Debug, PartialEq, Eq, Hash)]
pub enum ProxySettings {
    /// A proxy client on this host that forwards to a remote peer.
    Local(LocalProxySettings),
    /// A proxy server elsewhere.
    Remote(RemoteProxySettings),
}

impl ProxySettings {
    /// The remote endpoint that the traffic to the proxy goes to.
    pub open spec fn spec_get_endpoint(self) -> Endpoint {
        match self {
            ProxySettings::Local(settings) => settings.spec_get_endpoint(),
            ProxySettings::Remote(settings) => settings.spec_get_endpoint(),
        }
    }

    /// The remote endpoint that the traffic to the proxy goes to.
    pub fn get_endpoint(&self) -> (res: Endpoint)
        ensures
            res == self.spec_get_endpoint(),
    {
        match self {
            ProxySettings::Local(settings) => settings.get_endpoint(),
            ProxySettings::Remote(settings) => settings.get_endpoint(),
        }
    }
}

/// A proxy client on this host: it listens on `port` and forwards to `peer`.
#[derive(Clone, Copy, Debug, PartialEq, Eq, Hash, Structural)]
pub struct LocalProxySettings {
    pub port: u16,
    pub peer: SocketAddr,
}

impl LocalProxySettings {
    /// The peer, reached over TCP.
    pub open spec fn spec_get_endpoint(self) -> Endpoint {
        Endpoint { address: self.peer, protocol: TransportProtocol::Tcp }
    }

    /// The peer, reached over TCP.
    pub fn get_endpoint(&self) -> (res: Endpoint)
        ensures
            res == self.spec_get_endpoint(),
    {
        Endpoint { address: self.peer, protocol: TransportProtocol::Tcp }
    }
}

/// A proxy server at `address`, with the credentials it asks for, if any.
#[derive(Clone, Debug, PartialEq, Eq, Hash)]
pub struct RemoteProxySettings {
    pub address: SocketAddr,
    pub auth: Option<ProxyAuth>,
}

impl RemoteProxySettings {
    /// The server, reached over TCP.
    pub open spec fn spec_get_endpoint(self) -> Endpoint {
        Endpoint { address: self.address, protocol: TransportProtocol::Tcp }
    }

    /// The server, reached over TCP.
    pub fn get_endpoint(&self) -> (res: Endpoint)
        ensures
            res == self.spec_get_endpoint(),
    {
        Endpoint { address: self.address, protocol: TransportProtocol::Tcp }
    }
}

/// Credentials for a proxy server.
#[derive(Clone, Debug, PartialEq, Eq, Hash)]
pub struct ProxyAuth {
    pub username: String,
    pub password: String,
}

/// Checks of proxy settings that a user supplied.
pub struct ProxySettingsValidation;

impl ProxySettingsValidation {
    /// What is wrong with `proxy`, if anything. Of several faults the one
    /// that is named is the first in this order: for a local proxy the local
    /// port, the peer's address, the peer's port; for a remote proxy the port,
    /// then the address.
    pub open spec fn fault(proxy: ProxySettings) -> Option<Seq<char>> {
        match proxy {
            ProxySettings::Local(local) => {
                if local.port == 0 {
                    Some("Invalid local port number"@)
                } else if local.peer.ip.spec_is_loopback() {
                    Some("localhost is not a valid peer in this context"@)
                } else if local.peer.port == 0 {
                    Some("Invalid remote port number"@)
                } else {
                    None
                }
            },
            ProxySettings::Remote(remote) => {
                if remote.address.port == 0 {
                    Some("Invalid port number"@)
                } else if remote.address.ip.spec_is_loopback() {
                    Some("localhost is not a valid remote server"@)
                } else {
                    None
                }
            },
        }
    }

    /// Accepts `proxy` if every port in it is nonzero and the remote side is
    /// not this host itself. Otherwise the error says what is wrong.
    pub fn validate(proxy: &ProxySettings) -> (res: Result<(), String>)
        ensures
            match res {
                Ok(()) => Self::fault(*proxy) is None,
                Err(message) => Self::fault(*proxy) == Some(message@),
            },
    {
        match proxy {
            ProxySettings::Local(local) => {
                if local.port == 0 {
                    return Err(String::from_str("Invalid local port number"));
                }
                if local.peer.ip().is_loopback() {
                    return Err(String::from_str("localhost is not a valid peer in this context"));
                }
                if local.peer.port() == 0 {
                    return Err(String::from_str("Invalid remote port number"));
                }
            },
            ProxySettings::Remote(remote) => {
                if remote.address.port() == 0 {
                    return Err(String::from_str("Invalid port number"));
                }
                if remote.address.ip().is_loopback() {
                    return Err(String::from_str("localhost is not a valid remote server"));
                }
            },
        };
        Ok(())
    }
}

} // verus!
