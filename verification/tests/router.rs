use std::cell::Cell;

use srt_relay::router::{
    classify, DiscoveredStream, LinkError, RouteSlot, Router, RoutingOutcome, RoutingPlan,
};

fn stream(media_type: &str) -> DiscoveredStream<u32> {
    DiscoveredStream { handle: 7, media_type: media_type.to_string() }
}

#[test]
fn classify_recognized_prefixes() {
    assert_eq!(classify("video/x-h264"), Some(RouteSlot::Video));
    assert_eq!(
        classify("video/x-h264, stream-format=(string)byte-stream, alignment=(string)nal"),
        Some(RouteSlot::Video)
    );
    assert_eq!(classify("audio/mpeg"), Some(RouteSlot::Audio));
    assert_eq!(classify("audio/mpeg, mpegversion=(int)4"), Some(RouteSlot::Audio));
}

#[test]
fn classify_unrecognized_types() {
    assert_eq!(classify(""), None);
    assert_eq!(classify("video/x-h265"), None);
    assert_eq!(classify("video/x-raw"), None);
    assert_eq!(classify("audio/x-opus"), None);
    assert_eq!(classify("subpicture/x-dvb"), None);
    assert_eq!(classify("application/x-teletext"), None);
    assert_eq!(classify(" video/x-h264"), None);
    assert_eq!(classify("VIDEO/X-H264"), None);
    assert_eq!(classify("audio/mpe"), None);
}

#[test]
fn slot_prefixes() {
    assert_eq!(RouteSlot::Video.prefix(), "video/x-h264");
    assert_eq!(RouteSlot::Audio.prefix(), "audio/mpeg");
}

#[test]
fn new_router_has_free_branches() {
    let router = Router::new();
    assert!(!router.is_bound(RouteSlot::Video));
    assert!(!router.is_bound(RouteSlot::Audio));
}

#[test]
fn unrecognized_stream_is_unhandled_and_binds_nothing() {
    let mut router = Router::new();
    let calls = Cell::new(0);
    let outcome = router.on_stream_discovered(stream("subpicture/x-dvb"), |_, _| {
        calls.set(calls.get() + 1);
        Ok(())
    });
    assert_eq!(outcome, RoutingOutcome::Unhandled);
    assert_eq!(calls.get(), 0);
    assert!(!router.is_bound(RouteSlot::Video));
    assert!(!router.is_bound(RouteSlot::Audio));
}

#[test]
fn video_stream_binds_then_duplicate_is_rejected() {
    let mut router = Router::new();
    let calls = Cell::new(0);
    let link = |handle: u32, slot: RouteSlot| {
        assert_eq!(handle, 7);
        assert_eq!(slot, RouteSlot::Video);
        calls.set(calls.get() + 1);
        Ok(())
    };
    assert_eq!(
        router.on_stream_discovered(stream("video/x-h264, profile=high"), link),
        RoutingOutcome::Bound(RouteSlot::Video)
    );
    assert!(router.is_bound(RouteSlot::Video));
    assert!(!router.is_bound(RouteSlot::Audio));
    assert_eq!(
        router.on_stream_discovered(stream("video/x-h264, profile=high"), link),
        RoutingOutcome::AlreadyBound(RouteSlot::Video)
    );
    assert_eq!(calls.get(), 1);
    assert!(router.is_bound(RouteSlot::Video));
    assert!(!router.is_bound(RouteSlot::Audio));
}

#[test]
fn two_discoveries_for_one_slot_bind_once() {
    for first in ["audio/mpeg", "audio/mpeg, mpegversion=(int)4"] {
        for second_link in [Ok(()), Err(LinkError::NoFormat)] {
            let mut router = Router::new();
            let a = router.on_stream_discovered(stream(first), |_, _| Ok(()));
            let b = router.on_stream_discovered(stream("audio/mpeg, rate=48000"), |_, _| second_link);
            assert_eq!(a, RoutingOutcome::Bound(RouteSlot::Audio));
            assert_eq!(b, RoutingOutcome::AlreadyBound(RouteSlot::Audio));
        }
    }
}

#[test]
fn failed_link_is_reported_and_leaves_the_branch_free() {
    let mut router = Router::new();
    let outcome =
        router.on_stream_discovered(stream("video/x-h264"), |_, _| Err(LinkError::NoFormat));
    assert_eq!(outcome, RoutingOutcome::LinkFailed(RouteSlot::Video, LinkError::NoFormat));
    assert!(!router.is_bound(RouteSlot::Video));
    let outcome = router.on_stream_discovered(stream("video/x-h264"), |_, _| Ok(()));
    assert_eq!(outcome, RoutingOutcome::Bound(RouteSlot::Video));
    let outcome =
        router.on_stream_discovered(stream("video/x-h264"), |_, _| Err(LinkError::Refused));
    assert_eq!(outcome, RoutingOutcome::AlreadyBound(RouteSlot::Video));
}

#[test]
fn branches_bind_in_either_order() {
    for order in [["video/x-h264", "audio/mpeg"], ["audio/mpeg", "video/x-h264"]] {
        let mut router = Router::new();
        for media_type in order {
            let outcome = router.on_stream_discovered(stream(media_type), |_, _| Ok(()));
            assert!(matches!(outcome, RoutingOutcome::Bound(_)));
        }
        assert!(router.is_bound(RouteSlot::Video));
        assert!(router.is_bound(RouteSlot::Audio));
    }
}

#[test]
fn plan_follows_the_table() {
    let mut router = Router::new();
    assert_eq!(router.plan("text/x-raw"), RoutingPlan::Unhandled);
    assert_eq!(router.plan("audio/mpeg"), RoutingPlan::Link(RouteSlot::Audio));
    assert_eq!(router.plan("video/x-h264"), RoutingPlan::Link(RouteSlot::Video));
    assert_eq!(router.conclude(RouteSlot::Audio, Ok(())), RoutingOutcome::Bound(RouteSlot::Audio));
    assert_eq!(router.plan("audio/mpeg"), RoutingPlan::AlreadyBound(RouteSlot::Audio));
    assert_eq!(router.plan("video/x-h264"), RoutingPlan::Link(RouteSlot::Video));
}

#[test]
fn conclude_checks_the_branch_again() {
    let mut router = Router::new();
    assert_eq!(
        router.conclude(RouteSlot::Video, Err(LinkError::WasLinked)),
        RoutingOutcome::LinkFailed(RouteSlot::Video, LinkError::WasLinked)
    );
    assert!(!router.is_bound(RouteSlot::Video));
    assert_eq!(router.conclude(RouteSlot::Video, Ok(())), RoutingOutcome::Bound(RouteSlot::Video));
    assert_eq!(
        router.conclude(RouteSlot::Video, Ok(())),
        RoutingOutcome::AlreadyBound(RouteSlot::Video)
    );
    assert!(!router.is_bound(RouteSlot::Audio));
}

#[test]
fn degraded_branch_of_each_outcome() {
    assert_eq!(RoutingOutcome::Unhandled.degraded_branch(), None);
    assert_eq!(RoutingOutcome::Bound(RouteSlot::Video).degraded_branch(), None);
    assert_eq!(
        RoutingOutcome::AlreadyBound(RouteSlot::Audio).degraded_branch(),
        Some(RouteSlot::Audio)
    );
    assert_eq!(
        RoutingOutcome::LinkFailed(RouteSlot::Video, LinkError::Refused).degraded_branch(),
        Some(RouteSlot::Video)
    );
}

#[test]
fn branch_wiring_names() {
    assert_eq!(RouteSlot::Video.queue_input(), "sink_0");
    assert_eq!(RouteSlot::Video.queue_output(), "src_0");
    assert_eq!(RouteSlot::Video.parser(), "h264parse");
    assert_eq!(RouteSlot::Audio.queue_input(), "sink_1");
    assert_eq!(RouteSlot::Audio.queue_output(), "src_1");
    assert_eq!(RouteSlot::Audio.parser(), "aacparse");
}
