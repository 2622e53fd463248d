//! Where a device finds the broker to which it publishes.
use vstd::prelude::*;

verus! {

/// The size of the buffers of the socket to the broker, in bytes.
pub const SOCKET_BUFFER_BYTES: usize = 1024;

/// The size of the buffers of the client, in bytes.
pub const CLIENT_BUFFER_BYTES: usize = 80;

/// The largest packet that the client sends, in bytes.
pub const MAX_PACKET_BYTES: u32 = 100;

/// A network packet broker data.
#[derive(Debug, Clone, Copy)]
pub enum BrokerData {
    /// URL and port.
    Url(&'static str, u16),
    /// The four bytes of an address, and port.
    Ip([u8; 4], u16),
}

impl BrokerData {
    /// Creates a [`BrokerData`] from `URL` and `port`.
    pub fn url(url: &'static str, port: u16) -> (r: Self)
        ensures
            r matches BrokerData::Url(u, p) && u@ == url@ && p == port,
    {
        Self::Url(url, port)
    }

    /// Creates a [`BrokerData`] from the four bytes of an address and
    /// `port`.
    pub fn ip(ip: [u8; 4], port: u16) -> (r: Self)
        ensures
            r == BrokerData::Ip(ip, port),
    {
        Self::Ip(ip, port)
    }

    /// The port of the broker.
    pub fn port(&self) -> (r: u16)
        ensures
            r == match *self {
                BrokerData::Url(_, port) => port,
                BrokerData::Ip(_, port) => port,
            },
    {
        match self {
            BrokerData::Url(_, port) => *port,
            BrokerData::Ip(_, port) => *port,
        }
    }

    /// The address of the broker, if it is known without asking a name
    /// server.
    pub fn address(&self) -> (r: Option<[u8; 4]>)
        ensures
            r == match *self {
                BrokerData::Url(_, _) => None::<[u8; 4]>,
                BrokerData::Ip(ip, _) => Some(ip),
            },
    {
        match self {
            BrokerData::Url(_, _) => None,
            BrokerData::Ip(ip, _) => Some(*ip),
        }
    }
}

} // verus!
