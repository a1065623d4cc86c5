//! Control core of a VPN client: the tunnel lifecycle state machine, the
//! selection and management of the system's DNS backend, and the plain data
//! types that describe tunnels, proxies, log locations and the tunnel process.
//!
//! Nothing in this crate performs I/O. Wherever the surrounding program has to
//! talk to the operating system, the library hands out a description of the
//! call to make and is told its outcome afterwards.

pub mod auth_failed_reason;
pub mod dns;
pub mod dns_settings;
pub mod logs;
pub mod net;
pub mod openvpn;
pub mod process;
pub mod tunnel;
pub mod tunnel_exit_cause;
pub mod tunnel_state_machine;
