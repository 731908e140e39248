//! The state of the network as a whole, whatever chat is open.

use vstd::prelude::*;

verus! {

/// Whether the network can be reached, through a relay or a peer.
pub fn network_connected(relay_connected: bool, has_peer_connections: bool) -> (connected: bool)
    ensures
        connected == (relay_connected || has_peer_connections),
{
    relay_connected || has_peer_connections
}

/// How peers are reached.
pub open spec fn transport_text(relay_connected: bool, direct: u32, relayed: u32) -> Seq<char> {
    if direct > 0 && relayed > 0 {
        "Direct + relayed P2P"@
    } else if direct > 0 {
        "Direct P2P"@
    } else if relayed > 0 {
        "Relayed P2P"@
    } else if relay_connected {
        "Relay connected · waiting for peers"@
    } else {
        "Waiting for connection"@
    }
}

/// How peers are reached, in words.
pub fn transport_label(relay_connected: bool, direct: u32, relayed: u32) -> (label: &'static str)
    ensures
        label@ == transport_text(relay_connected, direct, relayed),
{
    if direct > 0 && relayed > 0 {
        "Direct + relayed P2P"
    } else if direct > 0 {
        "Direct P2P"
    } else if relayed > 0 {
        "Relayed P2P"
    } else if relay_connected {
        "Relay connected · waiting for peers"
    } else {
        "Waiting for connection"
    }
}

/// A direct connection is claimed only where there is one.
pub proof fn direct_is_never_claimed_without_a_direct_peer(relay_connected: bool, relayed: u32)
    ensures
        transport_text(relay_connected, 0, relayed) != "Direct P2P"@,
        transport_text(relay_connected, 0, relayed) != "Direct + relayed P2P"@,
{
    reveal_strlit("Direct P2P");
    reveal_strlit("Direct + relayed P2P");
    reveal_strlit("Relayed P2P");
    reveal_strlit("Relay connected · waiting for peers");
    reveal_strlit("Waiting for connection");
    assert("Direct P2P"@[0] == 'D');
    assert("Direct + relayed P2P"@[0] == 'D');
    assert("Relayed P2P"@[0] == 'R');
    assert("Relay connected · waiting for peers"@[0] == 'R');
    assert("Waiting for connection"@[0] == 'W');
}

/// How peers are reached is told by whether there are direct peers, relayed peers, or only a
/// relay; no two of these are told alike.
pub proof fn transport_is_told_by_what_there_is(relay_connected: bool, direct: u32, relayed: u32)
    ensures
        ({
            let told = transport_text(relay_connected, direct, relayed);
            &&& told == "Direct + relayed P2P"@ <==> direct > 0 && relayed > 0
            &&& told == "Direct P2P"@ <==> direct > 0 && relayed == 0
            &&& told == "Relayed P2P"@ <==> direct == 0 && relayed > 0
            &&& told == "Relay connected · waiting for peers"@ <==> direct == 0 && relayed == 0
                && relay_connected
            &&& told == "Waiting for connection"@ <==> direct == 0 && relayed == 0
                && !relay_connected
        }),
{
    reveal_strlit("Direct P2P");
    reveal_strlit("Direct + relayed P2P");
    reveal_strlit("Relayed P2P");
    reveal_strlit("Relay connected · waiting for peers");
    reveal_strlit("Waiting for connection");
    assert("Direct P2P"@.len() == 10);
    assert("Direct + relayed P2P"@.len() == 20);
    assert("Relayed P2P"@.len() == 11);
    assert("Relay connected · waiting for peers"@.len() == 35);
    assert("Waiting for connection"@.len() == 22);
}

/// The network is connected where a relay or a peer is, and how peers are reached is told of
/// these.
pub proof fn connections_are_told_as_they_are(
    relay: bool,
    peers: bool,
    direct: u32,
    relayed: u32,
    connected: bool,
    label: &'static str,
)
    requires
        call_ensures(network_connected, (relay, peers), connected),
        call_ensures(transport_label, (relay, direct, relayed), label),
    ensures
        connected <==> relay || peers,
        label@ == transport_text(relay, direct, relayed),
{
}

} // verus!
