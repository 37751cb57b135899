//! Peer-connection facade: opaque connection handles and their lifecycle.
//! The real-time transport itself runs outside this library; it reports
//! state changes here, and this facade keeps each handle's state moving
//! forward only and makes closing idempotent.

use vstd::prelude::*;
use crate::crypto::{is_uuid_v4_text, new_uuid_v4};
use crate::error::CoreError;
use crate::table::Table;

verus! {

/// An ICE server.
#[derive(Debug, Clone)]
pub struct IceServer {
    pub urls: Vec<String>,
    pub username: Option<String>,
    pub credential: Option<String>,
}

/// Configuration of a peer connection.
#[derive(Debug, Clone)]
pub struct RTCConfiguration {
    pub ice_servers: Vec<IceServer>,
    pub ice_transport_policy: String,
    pub bundle_policy: Option<String>,
    pub rtcp_mux_policy: Option<String>,
}

/// Lifecycle state of a peer connection.
#[derive(Debug, Clone, Copy, PartialEq, Eq, Structural)]
pub enum RTCPeerConnectionState {
    New,
    Connecting,
    Connected,
    Disconnected,
    Failed,
    Closed,
}

/// Progress rank of a state: new, connecting, connected, then the three
/// ends.
pub open spec fn state_rank(s: RTCPeerConnectionState) -> int {
    match s {
        RTCPeerConnectionState::New => 0,
        RTCPeerConnectionState::Connecting => 1,
        RTCPeerConnectionState::Connected => 2,
        RTCPeerConnectionState::Disconnected => 3,
        RTCPeerConnectionState::Failed => 3,
        RTCPeerConnectionState::Closed => 4,
    }
}

impl RTCPeerConnectionState {
    /// Progress rank of the state.
    pub fn rank(&self) -> (r: u8)
        ensures
            r == state_rank(*self),
    {
        match self {
            RTCPeerConnectionState::New => 0,
            RTCPeerConnectionState::Connecting => 1,
            RTCPeerConnectionState::Connected => 2,
            RTCPeerConnectionState::Disconnected => 3,
            RTCPeerConnectionState::Failed => 3,
            RTCPeerConnectionState::Closed => 4,
        }
    }
}

/// A media track.
#[derive(Debug, Clone)]
pub struct MediaTrack {
    pub id: String,
    /// `audio` or `video`.
    pub kind: String,
    pub enabled: bool,
}

/// A media stream.
#[derive(Debug, Clone)]
pub struct MediaStream {
    pub id: String,
    pub tracks: Vec<MediaTrack>,
}

/// What the facade reports to the session layer.
#[derive(Debug, Clone)]
pub enum WebRTCEvent {
    ConnectionStateChanged(String, RTCPeerConnectionState),
    DataReceived(String, Vec<u8>),
}

/// A tracked connection.
#[derive(Debug, Clone)]
pub struct ConnectionInfo {
    pub id: String,
    pub state: RTCPeerConnectionState,
    pub remote_id: Option<String>,
}

/// Statistics of a connection.
#[derive(Debug, Clone, Copy)]
pub struct ConnectionStats {
    pub state: RTCPeerConnectionState,
    pub bytes_sent: u64,
    pub bytes_received: u64,
    pub packets_sent: u64,
    pub packets_received: u64,
    /// Milliseconds.
    pub rtt: u64,
}

/// The peer-connection facade.
pub struct WebRTCEngine {
    connections: Table<ConnectionInfo>,
    events: Vec<WebRTCEvent>,
}

impl WebRTCEngine {
    pub closed spec fn wf(&self) -> bool {
        self.connections.wf()
    }

    /// Tracked connections by ID.
    pub closed spec fn connections_spec(&self) -> Map<Seq<char>, ConnectionInfo> {
        self.connections@
    }

    pub closed spec fn events_spec(&self) -> Seq<WebRTCEvent> {
        self.events@
    }

    /// A facade with no connections.
    pub fn new() -> (r: Self)
        ensures
            r.wf(),
            r.connections_spec() == Map::<Seq<char>, ConnectionInfo>::empty(),
    {
        WebRTCEngine { connections: Table::new(), events: Vec::new() }
    }

    /// Creates a connection handle in state `New` with a fresh UUID; any
    /// configuration is accepted, an empty server list included.
    pub fn create_peer_connection(&mut self, config: RTCConfiguration) -> (r: Result<String, CoreError>)
        requires
            old(self).wf(),
        ensures
            final(self).wf(),
            r matches Ok(id) && is_uuid_v4_text(id@) && final(self).connections_spec().contains_key(id@)
                && final(self).connections_spec()[id@].state == RTCPeerConnectionState::New
                && final(self).connections_spec()[id@].remote_id is None
                && final(self).connections_spec().remove(id@) == old(self).connections_spec().remove(id@),
    {
        let id = new_uuid_v4();
        let info = ConnectionInfo { id: id.clone(), state: RTCPeerConnectionState::New, remote_id: None };
        self.connections.insert(id.clone(), info);
        proof {
            assert(self.connections_spec().remove(id@) =~= old(self).connections_spec().remove(id@));
        }
        Ok(id)
    }

    /// Starts connecting a handle to `remote_id`. Fails with `NotFound` for
    /// an unknown handle; a handle past `Connecting` keeps its state.
    pub fn establish_connection(&mut self, connection_id: &str, remote_id: String) -> (r: Result<(), CoreError>)
        requires
            old(self).wf(),
        ensures
            final(self).wf(),
            r is Err <==> !old(self).connections_spec().contains_key(connection_id@),
            r matches Err(e) ==> e == CoreError::NotFound && final(self).connections_spec() == old(self).connections_spec(),
            r is Ok ==> ({
                let before = old(self).connections_spec()[connection_id@];
                let after = final(self).connections_spec()[connection_id@];
                &&& final(self).connections_spec().contains_key(connection_id@)
                &&& after.remote_id == Some(remote_id)
                &&& after.state == (if state_rank(before.state) < 1 {
                    RTCPeerConnectionState::Connecting
                } else {
                    before.state
                })
                &&& final(self).connections_spec().remove(connection_id@) == old(self).connections_spec().remove(
                    connection_id@,
                )
            }),
    {
        let mut info = match self.connections.remove(connection_id) {
            Some(i) => i,
            None => {
                return Err(CoreError::NotFound);
            },
        };
        info.remote_id = Some(remote_id);
        if info.state.rank() < 1 {
            info.state = RTCPeerConnectionState::Connecting;
        }
        self.connections.insert(connection_id.to_string(), info);
        proof {
            assert(self.connections_spec().remove(connection_id@) =~= old(self).connections_spec().remove(
                connection_id@,
            ));
        }
        Ok(())
    }

    /// Takes a state change reported by the transport: it is kept, and
    /// reported as an event, only when it moves the handle forward. Returns
    /// whether it was kept; unknown handles are ignored.
    pub fn on_state_change(&mut self, connection_id: &str, state: RTCPeerConnectionState) -> (r: bool)
        requires
            old(self).wf(),
        ensures
            final(self).wf(),
            r == (old(self).connections_spec().contains_key(connection_id@) && state_rank(
                old(self).connections_spec()[connection_id@].state,
            ) < state_rank(state)),
            r ==> final(self).connections_spec()[connection_id@].state == state && final(self).connections_spec().contains_key(connection_id@) && final(self).events_spec().len()
                == old(self).events_spec().len() + 1,
            !r ==> final(self).connections_spec() == old(self).connections_spec() && final(self).events_spec() == old(self).events_spec(),
            r ==> final(self).connections_spec().remove(connection_id@) == old(self).connections_spec().remove(
                connection_id@,
            ),
    {
        let advance = match self.connections.get(connection_id) {
            Some(info) => info.state.rank() < state.rank(),
            None => false,
        };
        if !advance {
            return false;
        }
        let mut info = self.connections.remove(connection_id).unwrap();
        info.state = state;
        self.connections.insert(connection_id.to_string(), info);
        self.events.push(WebRTCEvent::ConnectionStateChanged(connection_id.to_string(), state));
        proof {
            assert(self.connections_spec().remove(connection_id@) =~= old(self).connections_spec().remove(
                connection_id@,
            ));
        }
        true
    }

    /// Closes a handle: it is no longer tracked. Closing an unknown handle,
    /// or one already closed, succeeds and changes nothing.
    pub fn close_connection(&mut self, connection_id: &str) -> (r: Result<(), CoreError>)
        requires
            old(self).wf(),
        ensures
            final(self).wf(),
            r is Ok,
            final(self).connections_spec() == old(self).connections_spec().remove(connection_id@),
    {
        self.connections.remove(connection_id);
        Ok(())
    }

    /// The state of a handle, if tracked.
    pub fn get_connection_state(&self, connection_id: &str) -> (r: Option<RTCPeerConnectionState>)
        requires
            self.wf(),
        ensures
            r is Some <==> self.connections_spec().contains_key(connection_id@),
            r matches Some(s) ==> s == self.connections_spec()[connection_id@].state,
    {
        match self.connections.get(connection_id) {
            Some(info) => Some(info.state),
            None => None,
        }
    }

    /// Statistics of a handle; fails with `NotFound` for an unknown one.
    pub fn get_connection_stats(&self, connection_id: &str) -> (r: Result<ConnectionStats, CoreError>)
        requires
            self.wf(),
        ensures
            r is Err <==> !self.connections_spec().contains_key(connection_id@),
            r matches Err(e) ==> e == CoreError::NotFound,
            r matches Ok(s) ==> s.state == self.connections_spec()[connection_id@].state,
    {
        match self.connections.get(connection_id) {
            Some(info) => Ok(
                ConnectionStats {
                    state: info.state,
                    bytes_sent: 0,
                    bytes_received: 0,
                    packets_sent: 0,
                    packets_received: 0,
                    rtt: 0,
                },
            ),
            None => Err(CoreError::NotFound),
        }
    }

    /// Hands out the pending events, oldest first.
    pub fn take_events(&mut self) -> (r: Vec<WebRTCEvent>)
        requires
            old(self).wf(),
        ensures
            final(self).wf(),
            r@ == old(self).events_spec(),
            final(self).events_spec().len() == 0,
            final(self).connections_spec() == old(self).connections_spec(),
    {
        let mut out: Vec<WebRTCEvent> = Vec::new();
        std::mem::swap(&mut out, &mut self.events);
        out
    }

    fn single_track_stream(kind: &str) -> (r: MediaStream)
        ensures
            r.tracks@.len() == 1,
            r.tracks@[0].kind@ == kind@,
            r.tracks@[0].enabled,
    {
        let mut tracks: Vec<MediaTrack> = Vec::new();
        tracks.push(MediaTrack { id: new_uuid_v4(), kind: kind.to_string(), enabled: true });
        MediaStream { id: new_uuid_v4(), tracks }
    }

    /// A stream with one enabled video track for the screen.
    pub fn start_screen_capture(&self) -> (r: MediaStream)
        ensures
            r.tracks@.len() == 1,
            r.tracks@[0].kind@ == "video"@,
            r.tracks@[0].enabled,
    {
        Self::single_track_stream("video")
    }

    /// A stream with one enabled audio track.
    pub fn start_audio_capture(&self) -> (r: MediaStream)
        ensures
            r.tracks@.len() == 1,
            r.tracks@[0].kind@ == "audio"@,
            r.tracks@[0].enabled,
    {
        Self::single_track_stream("audio")
    }
}

/// A handle's state only moves forward: a kept change raises its rank.
pub proof fn lemma_state_progress(before: RTCPeerConnectionState, after: RTCPeerConnectionState)
    requires
        state_rank(before) < state_rank(after),
    ensures
        before != after,
        before != RTCPeerConnectionState::Closed,
{
}

} // verus!
