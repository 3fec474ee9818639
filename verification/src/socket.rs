//! What the library and its host say to each other about sockets: addresses,
//! the result of a read, and the failures that end an operation.

use vstd::prelude::*;

verus! {

/// An internet socket address, held as plain numbers.
///
/// The address is carried from the application to the host untouched; the
/// library never looks into it.
#[derive(Clone, Copy, Debug, PartialEq, Eq, Structural)]
pub enum SocketAddress {
    /// An IPv4 address, most significant octet first in `ipv4`, and a port.
    V4 { ipv4: u32, port: u16 },
    /// An IPv6 address, most significant octet first in `ipv6`, with its
    /// port, flow information and scope.
    V6 { ipv6: u128, port: u16, flowinfo: u32, scope_id: u32 },
}

/// What one non-blocking read on a connection returned.
#[derive(Debug)]
pub enum ReadResult {
    /// The read succeeded and returned these bytes; none at all when the
    /// peer has closed its side.
    Bytes(Vec<u8>),
    /// Nothing could be read now: the read would block, or failed otherwise.
    /// Both are absorbed alike.
    NotReady,
}

impl View for ReadResult {
    type V = Option<Seq<u8>>;

    /// The bytes read, or `None` when nothing could be read.
    open spec fn view(&self) -> Option<Seq<u8>> {
        match *self {
            ReadResult::Bytes(bytes) => Some(bytes@),
            ReadResult::NotReady => None,
        }
    }
}

/// The failures that the transport reports to its host.
#[derive(Clone, Copy, Debug, PartialEq, Eq, Structural)]
pub enum TransportError {
    /// The connection attempt did not succeed.
    ConnectFailed,
    /// The port could not be bound.
    BindFailed,
    /// A socket could not be switched to non-blocking mode.
    SocketModeFailed,
    /// Shutting down a socket failed.
    ShutdownFailed,
    /// A write failed or ended short.
    WriteFailed,
    /// The bytes of one read hold no packet.
    DecodeFailed,
    /// A disconnect or a send was asked for while no connection exists.
    NotConnected,
}

impl TransportError {
    /// The diagnostic that goes with the failure, as a sequence of characters.
    pub open spec fn diagnostic(self) -> Seq<char> {
        match self {
            TransportError::ConnectFailed => "Failed to connect."@,
            TransportError::BindFailed => "Failed to bind to specified port."@,
            TransportError::SocketModeFailed => "Failed to switch socket to non-blocking mode."@,
            TransportError::ShutdownFailed => "Failed to shutdown connection."@,
            TransportError::WriteFailed => "Failed to send packet."@,
            TransportError::DecodeFailed => "Failed to deserialize packet."@,
            TransportError::NotConnected => "No connection exists."@,
        }
    }

    /// The diagnostic that goes with the failure.
    pub fn message(&self) -> (text: &'static str)
        ensures
            text@ == self.diagnostic(),
    {
        match self {
            TransportError::ConnectFailed => "Failed to connect.",
            TransportError::BindFailed => "Failed to bind to specified port.",
            TransportError::SocketModeFailed => "Failed to switch socket to non-blocking mode.",
            TransportError::ShutdownFailed => "Failed to shutdown connection.",
            TransportError::WriteFailed => "Failed to send packet.",
            TransportError::DecodeFailed => "Failed to deserialize packet.",
            TransportError::NotConnected => "No connection exists.",
        }
    }
}

/// The part of one read that the transport looks at: the bytes that fit the
/// read buffer. Whatever lies beyond its capacity is cut off.
pub open spec fn read_window(bytes: Seq<u8>) -> Seq<u8> {
    if bytes.len() <= crate::BUF_SIZE {
        bytes
    } else {
        bytes.subrange(0, crate::BUF_SIZE as int)
    }
}

/// Cuts a slice down to the capacity of the read buffer.
pub fn window(bytes: &[u8]) -> (kept: &[u8])
    ensures
        kept@ == read_window(bytes@),
{
    if bytes.len() <= crate::BUF_SIZE {
        bytes
    } else {
        vstd::slice::slice_subrange(bytes, 0, crate::BUF_SIZE)
    }
}

} // verus!
