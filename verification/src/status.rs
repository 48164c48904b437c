use vstd::prelude::*;
use vstd::utf8::{encode_utf8, encode_utf8_decode_utf8};

verus! {

/// Connection state of the client, the management server or the signal server.
#[derive(Debug, Clone, PartialEq, Eq, Structural)]
pub enum ConnectionState {
    Connected,
    Connecting,
    Disconnected,
    Unknown,
}

/// The state that a report names `name`: the three lowercase names of the
/// known states, and `Unknown` for any other name.
pub open spec fn state_from_name(name: Seq<char>) -> ConnectionState {
    if name == "connected"@ {
        ConnectionState::Connected
    } else if name == "connecting"@ {
        ConnectionState::Connecting
    } else if name == "disconnected"@ {
        ConnectionState::Disconnected
    } else {
        ConnectionState::Unknown
    }
}

/// Whether two strings hold the same characters, compared byte by byte.
fn same_text(a: &str, b: &str) -> (same: bool)
    ensures
        same == (a@ == b@),
{
    let x = a.as_bytes();
    let y = b.as_bytes();
    proof {
        encode_utf8_decode_utf8(a@);
        encode_utf8_decode_utf8(b@);
    }
    if x.len() != y.len() {
        assert(x@ != y@);
        return false;
    }
    let mut i: usize = 0;
    while i < x.len()
        invariant
            i <= x@.len(),
            x@.len() == y@.len(),
            x@ == encode_utf8(a@),
            y@ == encode_utf8(b@),
            forall|j: int| 0 <= j < i ==> x@[j] == y@[j],
        decreases x@.len() - i,
    {
        if x[i] != y[i] {
            assert(x@[i as int] != y@[i as int]);
            return false;
        }
        i = i + 1;
    }
    assert(x@ =~= y@);
    true
}

impl ConnectionState {
    /// The state that a status report names `name` (as a lowercase word);
    /// any name other than "connected", "connecting" and "disconnected"
    /// stands for `Unknown`.
    pub fn from_name(name: &str) -> (state: ConnectionState)
        ensures
            state == state_from_name(name@),
            name@ == "connected"@ <==> state == ConnectionState::Connected,
            name@ == "connecting"@ <==> state == ConnectionState::Connecting,
            name@ == "disconnected"@ <==> state == ConnectionState::Disconnected,
    {
        proof {
            reveal_strlit("connected");
            reveal_strlit("connecting");
            reveal_strlit("disconnected");
            assert("connecting"@[7] != "connected"@[7]);
            assert("disconnected"@.len() != "connected"@.len());
            assert("disconnected"@.len() != "connecting"@.len());
        }
        if same_text(name, "connected") {
            ConnectionState::Connected
        } else if same_text(name, "connecting") {
            ConnectionState::Connecting
        } else if same_text(name, "disconnected") {
            ConnectionState::Disconnected
        } else {
            ConnectionState::Unknown
        }
    }
}

impl Default for ConnectionState {
    /// A state that a report leaves out is `Disconnected`.
    fn default() -> (state: ConnectionState)
        ensures
            state == ConnectionState::Disconnected,
    {
        ConnectionState::Disconnected
    }
}

/// A peer on the mesh network.
#[derive(Debug, Clone)]
pub struct Peer {
    /// Peer's overlay IP address.
    pub ip: String,
    /// Peer's WireGuard public key.
    pub pub_key: String,
    /// Peer's FQDN on the mesh.
    pub fqdn: String,
    /// Connection status.
    pub conn_status: ConnectionState,
    /// Whether the connection is relayed (not direct P2P).
    pub relayed: bool,
    /// Round-trip latency as a duration string.
    pub latency: String,
}

impl Peer {
    /// Whether the peer is connected.
    pub fn is_connected(&self) -> (connected: bool)
        ensures
            connected == (self.conn_status == ConnectionState::Connected),
    {
        self.conn_status == ConnectionState::Connected
    }
}

/// Full client status including local peer info and connected peers.
#[derive(Debug, Clone)]
pub struct Status {
    /// Overall connection state.
    pub state: ConnectionState,
    /// Local overlay IP address.
    pub ip: String,
    /// Local WireGuard public key.
    pub pub_key: String,
    /// Local FQDN on the mesh.
    pub fqdn: String,
    /// Management server connection state.
    pub management_state: ConnectionState,
    /// Signal server connection state.
    pub signal_state: ConnectionState,
    /// Connected peers.
    pub peers: Vec<Peer>,
    /// Error message if any.
    pub error: Option<String>,
}

} // verus!
