//! The bridge between a tap of the media engine and an outbound track: samples
//! go in on the engine's thread, one by one, and come out on the writer's side
//! in the order in which they went in.
use vstd::prelude::*;
use vstd::string::*;
use std::collections::VecDeque;
use bytes::Bytes;

verus! {

/// A byte buffer of the `bytes` crate.
#[verifier::external_type_specification]
#[verifier::external_body]
pub struct ExBytes(bytes::Bytes);

/// The bytes that a buffer holds.
pub uninterp spec fn bytes_contents(buffer: Bytes) -> Seq<u8>;

/// `Bytes::copy_from_slice` makes a buffer that holds a copy of the bytes of
/// `data`, in order.
#[verifier::external_body]
fn copy_sample(data: &[u8]) -> (buffer: Bytes)
    ensures
        bytes_contents(buffer) == data@,
{
    Bytes::copy_from_slice(data)
}

/// The samples that a queue of buffers holds, oldest first.
pub open spec fn samples(queue: Seq<Bytes>) -> Seq<Seq<u8>> {
    Seq::new(queue.len(), |i: int| bytes_contents(queue[i]))
}

/// The relay as a mathematical value.
pub struct RelayModel {
    /// The samples that went in and have not come out, oldest first.
    pub pending: Seq<Seq<u8>>,
    /// Whether the writer still takes samples.
    pub open: bool,
}

/// What happens to a relay.
pub enum RelayEvent {
    /// The engine produced a sample.
    Push { data: Seq<u8> },
    /// The writer asks for the next sample.
    Pull,
    /// The writer could not write: the peer is gone.
    WriteFailed,
}

impl RelayModel {
    /// A relay that is open and holds nothing.
    pub open spec fn fresh() -> RelayModel {
        RelayModel { pending: Seq::empty(), open: true }
    }

    /// The relay after `event`.
    pub open spec fn after(self, event: RelayEvent) -> RelayModel {
        match event {
            RelayEvent::Push { data } => if self.open {
                RelayModel { pending: self.pending.push(data), ..self }
            } else {
                self
            },
            RelayEvent::Pull => if self.open && self.pending.len() > 0 {
                RelayModel { pending: self.pending.drop_first(), ..self }
            } else {
                self
            },
            RelayEvent::WriteFailed => RelayModel { pending: Seq::empty(), open: false },
        }
    }

    /// The sample that `event` hands to the writer, if it hands one.
    pub open spec fn hands_out(self, event: RelayEvent) -> Option<Seq<u8>> {
        if event is Pull && self.open && self.pending.len() > 0 {
            Some(self.pending[0])
        } else {
            None
        }
    }

    /// The sample that `event` takes in, if it takes one.
    pub open spec fn takes_in(self, event: RelayEvent) -> Option<Seq<u8>> {
        match event {
            RelayEvent::Push { data } => if self.open {
                Some(data)
            } else {
                None
            },
            _ => None,
        }
    }
}

/// A one-way queue of samples from a tap to a track writer.
#[derive(Debug)]
pub struct SampleRelay {
    pub pending: VecDeque<Bytes>,
    pub open: bool,
}

impl View for SampleRelay {
    type V = RelayModel;

    open spec fn view(&self) -> RelayModel {
        RelayModel { pending: samples(self.pending@), open: self.open }
    }
}

impl SampleRelay {
    /// A relay that is open and holds nothing.
    pub fn new() -> (relay: Self)
        ensures
            relay@ == RelayModel::fresh(),
    {
        let relay = SampleRelay { pending: VecDeque::new(), open: true };
        assert(relay@.pending =~= Seq::<Seq<u8>>::empty());
        relay
    }

    /// Takes in a copy of the sample `data`. This never waits. A sample that
    /// arrives after the writer has gone is dropped, and `false` says so.
    pub fn push_sample(&mut self, data: &[u8]) -> (accepted: bool)
        ensures
            final(self)@ == old(self)@.after(RelayEvent::Push { data: data@ }),
            accepted == old(self).open,
    {
        if !self.open {
            return false;
        }
        let buffer = copy_sample(data);
        self.pending.push_back(buffer);
        assert(self@.pending =~= old(self)@.pending.push(data@));
        true
    }

    /// Hands out the oldest sample that has not come out yet, if there is one
    /// and the writer still takes samples.
    pub fn next_sample(&mut self) -> (sample: Option<Bytes>)
        ensures
            final(self)@ == old(self)@.after(RelayEvent::Pull),
            match sample {
                Some(buffer) => old(self)@.hands_out(RelayEvent::Pull) == Some(
                    bytes_contents(buffer),
                ),
                None => old(self)@.hands_out(RelayEvent::Pull) is None,
            },
    {
        if !self.open {
            return None;
        }
        let sample = self.pending.pop_front();
        proof {
            if old(self).pending@.len() > 0 {
                assert(self@.pending =~= old(self)@.pending.drop_first());
                assert(old(self)@.pending[0] == bytes_contents(old(self).pending@[0]));
            } else {
                assert(self@.pending =~= old(self)@.pending);
            }
        }
        sample
    }

    /// Records that the writer could not write: the relay closes and lets go
    /// of what it holds. No sample is offered to the writer again.
    pub fn write_failed(&mut self)
        ensures
            final(self)@ == old(self)@.after(RelayEvent::WriteFailed),
    {
        self.open = false;
        self.pending.clear();
        assert(self@.pending =~= Seq::<Seq<u8>>::empty());
    }

    /// How many samples wait to come out.
    pub fn len(&self) -> (count: usize)
        ensures
            count == self@.pending.len(),
    {
        self.pending.len()
    }
}

/// The relay after the events `events`, from a fresh one.
pub open spec fn relay_run(events: Seq<RelayEvent>) -> RelayModel
    decreases events.len(),
{
    if events.len() == 0 {
        RelayModel::fresh()
    } else {
        relay_run(events.drop_last()).after(events.last())
    }
}

/// The samples that a fresh relay took in over `events`, in order.
pub open spec fn taken_in(events: Seq<RelayEvent>) -> Seq<Seq<u8>>
    decreases events.len(),
{
    if events.len() == 0 {
        Seq::empty()
    } else {
        let before = taken_in(events.drop_last());
        match relay_run(events.drop_last()).takes_in(events.last()) {
            Some(data) => before.push(data),
            None => before,
        }
    }
}

/// The samples that a fresh relay handed to the writer over `events`, in order.
pub open spec fn handed_out(events: Seq<RelayEvent>) -> Seq<Seq<u8>>
    decreases events.len(),
{
    if events.len() == 0 {
        Seq::empty()
    } else {
        let before = handed_out(events.drop_last());
        match relay_run(events.drop_last()).hands_out(events.last()) {
            Some(data) => before.push(data),
            None => before,
        }
    }
}

/// A relay keeps the order of the samples: what it has handed to the writer is
/// the beginning of what it took in, sample for sample, and while it is open
/// what it still holds is exactly the rest. So no sample comes out twice, out
/// of turn, or changed, however pushes and pulls interleave.
pub proof fn lemma_relay_preserves_order(events: Seq<RelayEvent>)
    ensures
        handed_out(events).is_prefix_of(taken_in(events)),
        relay_run(events).open ==> handed_out(events) + relay_run(events).pending == taken_in(
            events,
        ),
    decreases events.len(),
{
    if events.len() == 0 {
        assert(handed_out(events) + relay_run(events).pending =~= taken_in(events));
    } else {
        let earlier = events.drop_last();
        lemma_relay_preserves_order(earlier);
        let before = relay_run(earlier);
        let now = relay_run(events);
        if now.open {
            assert(before.open);
            assert(handed_out(events) + now.pending =~= taken_in(events));
        }
        let out = handed_out(events);
        let all = taken_in(events);
        if before.open {
            assert(handed_out(earlier) + before.pending =~= taken_in(earlier));
            assert(out.len() <= all.len());
            assert forall|i: int| 0 <= i < out.len() implies out[i] == all[i] by {
                if i < handed_out(earlier).len() {
                } else {
                    assert(out[i] == before.pending[0]);
                    assert(taken_in(earlier)[i] == before.pending[i - handed_out(earlier).len()]);
                }
            }
        }
        assert(out.is_prefix_of(all));
    }
}

/// Where every sample that went in was pulled again, the writer got the
/// samples that went in, all of them, in the same order. This holds for any
/// number of samples, none included.
pub proof fn lemma_drained_relay_delivered_all(events: Seq<RelayEvent>)
    requires
        relay_run(events).open,
        relay_run(events).pending.len() == 0,
    ensures
        handed_out(events) == taken_in(events),
{
    lemma_relay_preserves_order(events);
    assert(handed_out(events) + relay_run(events).pending =~= handed_out(events));
}

/// An outbound track to make for a negotiation.
#[derive(Debug)]
pub struct TrackDescription {
    pub id: String,
    pub stream_id: String,
    pub mime_type: String,
}

/// A track as a mathematical value.
pub struct TrackModel {
    pub id: Seq<char>,
    pub stream_id: Seq<char>,
    pub mime_type: Seq<char>,
}

impl View for TrackDescription {
    type V = TrackModel;

    open spec fn view(&self) -> TrackModel {
        TrackModel { id: self.id@, stream_id: self.stream_id@, mime_type: self.mime_type@ }
    }
}

/// The video track of every negotiation.
pub open spec fn video_track() -> TrackModel {
    TrackModel { id: "video"@, stream_id: "desktop-video"@, mime_type: "video/VP8"@ }
}

/// The audio track of a negotiation with audio.
pub open spec fn audio_track() -> TrackModel {
    TrackModel { id: "audio"@, stream_id: "desktop-audio"@, mime_type: "audio/opus"@ }
}

/// The tracks to make for a request: the video track, and the audio track
/// behind it where audio is on.
pub open spec fn track_plan(enable_audio: bool) -> Seq<TrackModel> {
    if enable_audio {
        seq![video_track(), audio_track()]
    } else {
        seq![video_track()]
    }
}

/// An outbound track with this identity, stream and media type.
pub fn create_webrtc_track(id: &str, stream_id: &str, mime_type: &str) -> (track:
    TrackDescription)
    ensures
        track@ == (TrackModel { id: id@, stream_id: stream_id@, mime_type: mime_type@ }),
{
    TrackDescription {
        id: String::from_str(id),
        stream_id: String::from_str(stream_id),
        mime_type: String::from_str(mime_type),
    }
}

} // verus!
