use desktop_streamer::relay::{create_webrtc_track, SampleRelay};

#[test]
fn samples_come_out_in_the_order_they_went_in() {
    for count in [0usize, 1, 2, 17, 500] {
        let mut relay = SampleRelay::new();
        for tag in 0..count {
            let sample = [tag as u8, (tag >> 8) as u8, 0xab];
            assert!(relay.push_sample(&sample));
        }
        assert_eq!(relay.len(), count);
        for tag in 0..count {
            let sample = relay.next_sample().expect("a sample is waiting");
            assert_eq!(&sample[..], &[tag as u8, (tag >> 8) as u8, 0xab]);
        }
        assert!(relay.next_sample().is_none());
        assert_eq!(relay.len(), 0);
    }
}

#[test]
fn pushes_and_pulls_may_interleave() {
    let mut relay = SampleRelay::new();
    relay.push_sample(b"one");
    relay.push_sample(b"two");
    assert_eq!(&relay.next_sample().unwrap()[..], b"one");
    relay.push_sample(b"three");
    assert_eq!(&relay.next_sample().unwrap()[..], b"two");
    assert_eq!(&relay.next_sample().unwrap()[..], b"three");
    assert!(relay.next_sample().is_none());
}

#[test]
fn relay_holds_a_copy_of_the_sample() {
    let mut relay = SampleRelay::new();
    let mut sample = vec![1u8, 2, 3];
    relay.push_sample(&sample);
    sample[0] = 9;
    sample.clear();
    relay.push_sample(&[]);
    assert_eq!(&relay.next_sample().unwrap()[..], &[1u8, 2, 3]);
    assert_eq!(relay.next_sample().unwrap().len(), 0);
}

#[test]
fn failed_write_ends_the_relay() {
    let mut relay = SampleRelay::new();
    relay.push_sample(b"a");
    relay.push_sample(b"b");
    assert_eq!(&relay.next_sample().unwrap()[..], b"a");
    relay.write_failed();
    assert!(!relay.open);
    assert!(relay.next_sample().is_none());
    assert!(!relay.push_sample(b"c"));
    assert_eq!(relay.len(), 0);
    assert!(relay.next_sample().is_none());
}

#[test]
fn track_carries_what_it_was_made_with() {
    let track = create_webrtc_track("video", "desktop-video", "video/VP8");
    assert_eq!(track.id, "video");
    assert_eq!(track.stream_id, "desktop-video");
    assert_eq!(track.mime_type, "video/VP8");
    let track = create_webrtc_track("a", "b", "c");
    assert_eq!((track.id.as_str(), track.stream_id.as_str(), track.mime_type.as_str()), ("a", "b", "c"));
}
