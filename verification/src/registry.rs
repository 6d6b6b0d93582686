//! What all connections share: the encoders of the machine, the kind of
//! desktop session, the virtual audio endpoints, and the registry of the peers
//! that hold a live session.
use vstd::prelude::*;
use vstd::string::*;
use std::collections::HashMap;
use crate::config::PeerId;
use crate::media::{EncoderPath, HardwareInfo};
use crate::virtual_audio::{VirtualAudioDevice, VirtualAudioModel};

verus! {

broadcast use vstd::std_specs::hash::group_hash_axioms;

/// What a peer with a live session owns: one running graph and one transport
/// session. This record says which graph it is.
#[derive(Debug)]
pub struct PeerState {
    /// The label of the candidate whose graph runs.
    pub pipeline_label: String,
    /// How that graph encodes video.
    pub encoder: EncoderPath,
    /// How many outbound tracks the transport session carries.
    pub tracks: usize,
}

/// A peer's holdings as a mathematical value.
pub struct PeerModel {
    pub pipeline_label: Seq<char>,
    pub encoder: EncoderPath,
    pub tracks: nat,
}

impl View for PeerState {
    type V = PeerModel;

    open spec fn view(&self) -> PeerModel {
        PeerModel {
            pipeline_label: self.pipeline_label@,
            encoder: self.encoder,
            tracks: self.tracks as nat,
        }
    }
}

/// The peers in a map of holdings, each with its holdings as a value.
pub open spec fn peers(map: Map<PeerId, PeerState>) -> Map<PeerId, PeerModel> {
    Map::new(|id: PeerId| map.contains_key(id), |id: PeerId| map[id]@)
}

/// The peers that hold a live session. No peer is in it twice.
pub struct PeerRegistry {
    pub sessions: HashMap<PeerId, PeerState>,
}

impl View for PeerRegistry {
    type V = Map<PeerId, PeerModel>;

    open spec fn view(&self) -> Map<PeerId, PeerModel> {
        peers(self.sessions@)
    }
}

impl PeerRegistry {
    /// A registry without peers.
    pub fn new() -> (registry: Self)
        ensures
            registry@ == Map::<PeerId, PeerModel>::empty(),
    {
        let registry = PeerRegistry { sessions: HashMap::new() };
        assert(registry@ =~= Map::<PeerId, PeerModel>::empty());
        registry
    }

    /// Whether `peer` holds a live session.
    pub fn contains(&self, peer: PeerId) -> (found: bool)
        ensures
            found == self@.contains_key(peer),
    {
        self.sessions.contains_key(&peer)
    }

    /// What `peer` holds, if it holds a live session.
    pub fn get(&self, peer: PeerId) -> (state: Option<&PeerState>)
        ensures
            match state {
                Some(s) => self@.contains_key(peer) && self@[peer] == s@,
                None => !self@.contains_key(peer),
            },
    {
        self.sessions.get(&peer)
    }

    /// Records that `peer` holds `state`, in place of what it held before.
    pub fn insert(&mut self, peer: PeerId, state: PeerState) -> (replaced: bool)
        ensures
            final(self)@ == old(self)@.insert(peer, state@),
            replaced == old(self)@.contains_key(peer),
    {
        let before = self.sessions.insert(peer, state);
        assert(self@ =~= old(self)@.insert(peer, state@));
        before.is_some()
    }

    /// Takes `peer` out of the registry and says whether it was in it.
    pub fn remove(&mut self, peer: PeerId) -> (removed: bool)
        ensures
            final(self)@ == old(self)@.remove(peer),
            removed == old(self)@.contains_key(peer),
    {
        let before = self.sessions.remove(&peer);
        assert(self@ =~= old(self)@.remove(peer));
        before.is_some()
    }

    /// How many peers hold a live session.
    pub fn len(&self) -> (count: usize)
        ensures
            count == self.sessions@.len(),
    {
        self.sessions.len()
    }
}

/// What all connections share.
pub struct AppState {
    pub peers: PeerRegistry,
    pub hw_info: HardwareInfo,
    /// The kind of desktop session: `x11`, `wayland`, ...
    pub session_type: String,
    /// Whether the capture broker for portal surfaces is at hand.
    pub has_portal: bool,
    /// The virtual audio endpoints, once they are made.
    pub virtual_audio: Option<VirtualAudioDevice>,
}

/// What all connections share, as a mathematical value.
pub struct SharedModel {
    pub peers: Map<PeerId, PeerModel>,
    pub hw_info: HardwareInfo,
    pub session_type: Seq<char>,
    pub has_portal: bool,
    /// The virtual audio endpoints, once they are made.
    pub virtual_audio: Option<VirtualAudioModel>,
}

/// The endpoints that an optional record holds.
pub open spec fn option_endpoints(device: Option<VirtualAudioDevice>) -> Option<
    VirtualAudioModel,
> {
    match device {
        Some(d) => Some(d@),
        None => None,
    }
}

impl SharedModel {
    /// The monitor source of the virtual output sink, where the endpoints are
    /// on record and the sink was loaded.
    pub open spec fn monitor(self) -> Option<Seq<char>> {
        match self.virtual_audio {
            Some(device) => device.loaded_monitor(),
            None => None,
        }
    }
}

impl View for AppState {
    type V = SharedModel;

    open spec fn view(&self) -> SharedModel {
        SharedModel {
            peers: self.peers@,
            hw_info: self.hw_info,
            session_type: self.session_type@,
            has_portal: self.has_portal,
            virtual_audio: option_endpoints(self.virtual_audio),
        }
    }
}

impl AppState {
    /// The shared state at start: no peers yet.
    pub fn new(
        hw_info: HardwareInfo,
        session_type: String,
        has_portal: bool,
        virtual_audio: Option<VirtualAudioDevice>,
    ) -> (state: Self)
        ensures
            state@.peers == Map::<PeerId, PeerModel>::empty(),
            state.hw_info == hw_info,
            state.session_type == session_type,
            state.has_portal == has_portal,
            state.virtual_audio == virtual_audio,
    {
        AppState { peers: PeerRegistry::new(), hw_info, session_type, has_portal, virtual_audio }
    }

    /// Takes the virtual audio endpoints out of the shared state and names the
    /// modules to unload for them, the output sink's first. There is nothing to
    /// unload where the endpoints were never made or are already taken out.
    pub fn cleanup_virtual_devices(&mut self) -> (handles: Vec<u32>)
        ensures
            final(self).virtual_audio is None,
            final(self).peers == old(self).peers,
            handles@ == match old(self).virtual_audio {
                Some(device) => device@.recorded_handles(),
                None => Seq::<u32>::empty(),
            },
    {
        match self.virtual_audio.take() {
            Some(device) => device.remove_virtual_devices(),
            None => Vec::new(),
        }
    }
}

} // verus!
