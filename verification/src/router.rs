//! Routing of the elementary streams that the demultiplexer discovers: each
//! goes to the branch kept for its kind of media, and each branch takes one
//! stream only.

use vstd::prelude::*;
use crate::text::has_prefix;

verus! {

/// A branch of the pipeline that waits for one elementary stream.
#[derive(Debug, Clone, Copy, PartialEq, Eq, Hash, Structural)]
pub enum RouteSlot {
    /// The branch for H.264 video.
    Video,
    /// The branch for AAC audio.
    Audio,
}

impl RouteSlot {
    /// How the media type of a stream for this branch begins.
    pub open spec fn prefix_spec(self) -> Seq<char> {
        match self {
            RouteSlot::Video => "video/x-h264"@,
            RouteSlot::Audio => "audio/mpeg"@,
        }
    }

    /// Name of the queue's input that is kept for this branch.
    pub open spec fn queue_input_spec(self) -> Seq<char> {
        match self {
            RouteSlot::Video => "sink_0"@,
            RouteSlot::Audio => "sink_1"@,
        }
    }

    /// Name of the queue's output that belongs to this branch's input.
    pub open spec fn queue_output_spec(self) -> Seq<char> {
        match self {
            RouteSlot::Video => "src_0"@,
            RouteSlot::Audio => "src_1"@,
        }
    }

    /// Name of the element that parses this branch's stream.
    pub open spec fn parser_spec(self) -> Seq<char> {
        match self {
            RouteSlot::Video => "h264parse"@,
            RouteSlot::Audio => "aacparse"@,
        }
    }

    /// How the media type of a stream for this branch begins.
    pub fn prefix(self) -> (r: &'static str)
        ensures
            r@ == self.prefix_spec(),
    {
        match self {
            RouteSlot::Video => "video/x-h264",
            RouteSlot::Audio => "audio/mpeg",
        }
    }

    /// Name of the queue's input that is kept for this branch.
    pub fn queue_input(self) -> (r: &'static str)
        ensures
            r@ == self.queue_input_spec(),
    {
        match self {
            RouteSlot::Video => "sink_0",
            RouteSlot::Audio => "sink_1",
        }
    }

    /// Name of the queue's output that belongs to this branch's input.
    pub fn queue_output(self) -> (r: &'static str)
        ensures
            r@ == self.queue_output_spec(),
    {
        match self {
            RouteSlot::Video => "src_0",
            RouteSlot::Audio => "src_1",
        }
    }

    /// Name of the element that parses this branch's stream.
    pub fn parser(self) -> (r: &'static str)
        ensures
            r@ == self.parser_spec(),
    {
        match self {
            RouteSlot::Video => "h264parse",
            RouteSlot::Audio => "aacparse",
        }
    }
}

/// The branch for a media type: video where the type begins as video does,
/// else audio where it begins as audio does, else none.
pub open spec fn classify_spec(media_type: Seq<char>) -> Option<RouteSlot> {
    if RouteSlot::Video.prefix_spec().is_prefix_of(media_type) {
        Some(RouteSlot::Video)
    } else if RouteSlot::Audio.prefix_spec().is_prefix_of(media_type) {
        Some(RouteSlot::Audio)
    } else {
        None
    }
}

/// Finds the branch for a media type.
pub fn classify(media_type: &str) -> (r: Option<RouteSlot>)
    ensures
        r == classify_spec(media_type@),
{
    if has_prefix(media_type, RouteSlot::Video.prefix()) {
        Some(RouteSlot::Video)
    } else if has_prefix(media_type, RouteSlot::Audio.prefix()) {
        Some(RouteSlot::Audio)
    } else {
        None
    }
}

/// Why a stream could not be connected to a branch.
#[derive(Debug, Clone, Copy, PartialEq, Eq, Structural)]
pub enum LinkError {
    /// The two ends have no common ancestor in the graph.
    WrongHierarchy,
    /// One of the ends was connected already.
    WasLinked,
    /// The ends do not face each other as source and sink.
    WrongDirection,
    /// The ends share no format.
    NoFormat,
    /// The ends cannot agree on how to schedule.
    NoSched,
    /// The connection was refused for another reason.
    Refused,
}

/// What became of a discovered stream.
#[derive(Debug, Clone, Copy, PartialEq, Eq, Structural)]
pub enum RoutingOutcome {
    /// The stream was connected to the branch.
    Bound(RouteSlot),
    /// No branch takes streams of this media type; nothing was connected.
    Unhandled,
    /// The branch had its stream already; nothing was connected.
    AlreadyBound(RouteSlot),
    /// The branch was free, but the connection failed.
    LinkFailed(RouteSlot, LinkError),
}

/// What is to be done with a discovered stream.
#[derive(Debug, Clone, Copy, PartialEq, Eq, Structural)]
pub enum RoutingPlan {
    /// Nothing: no branch takes streams of this media type.
    Unhandled,
    /// Nothing: the branch has its stream already.
    AlreadyBound(RouteSlot),
    /// The stream is to be connected to the branch.
    Link(RouteSlot),
}

/// A stream that the demultiplexer found: the handle by which the graph
/// knows it, and the media type that was negotiated for it.
pub struct DiscoveredStream<H> {
    pub handle: H,
    pub media_type: String,
}

/// The branches and whether each has its stream.
#[derive(Debug)]
pub struct Router {
    video_bound: bool,
    audio_bound: bool,
}

impl View for Router {
    type V = Set<RouteSlot>;

    /// The branches that have their stream.
    closed spec fn view(&self) -> Set<RouteSlot> {
        Set::new(
            |slot: RouteSlot|
                match slot {
                    RouteSlot::Video => self.video_bound,
                    RouteSlot::Audio => self.audio_bound,
                },
        )
    }
}

/// What is to be done with a stream of the given media type while the
/// branches in `bound` have their streams.
pub open spec fn plan_spec(bound: Set<RouteSlot>, media_type: Seq<char>) -> RoutingPlan {
    match classify_spec(media_type) {
        None => RoutingPlan::Unhandled,
        Some(slot) => if bound.contains(slot) {
            RoutingPlan::AlreadyBound(slot)
        } else {
            RoutingPlan::Link(slot)
        },
    }
}

/// The branches that have their streams, and the outcome, once the attempt
/// to connect a stream to `slot` has ended as `link` says. A branch that has
/// its stream keeps it and takes no other.
pub open spec fn conclude_spec(bound: Set<RouteSlot>, slot: RouteSlot, link: Result<(), LinkError>) -> (
    Set<RouteSlot>,
    RoutingOutcome,
) {
    if bound.contains(slot) {
        (bound, RoutingOutcome::AlreadyBound(slot))
    } else {
        match link {
            Ok(_) => (bound.insert(slot), RoutingOutcome::Bound(slot)),
            Err(cause) => (bound, RoutingOutcome::LinkFailed(slot, cause)),
        }
    }
}

/// The branches that have their streams, and the outcome, after a stream of
/// the given media type was discovered, where `link` is how the attempt to
/// connect it ends if one is made.
pub open spec fn route_spec(
    bound: Set<RouteSlot>,
    media_type: Seq<char>,
    link: Result<(), LinkError>,
) -> (Set<RouteSlot>, RoutingOutcome) {
    match plan_spec(bound, media_type) {
        RoutingPlan::Unhandled => (bound, RoutingOutcome::Unhandled),
        RoutingPlan::AlreadyBound(slot) => (bound, RoutingOutcome::AlreadyBound(slot)),
        RoutingPlan::Link(slot) => conclude_spec(bound, slot, link),
    }
}

impl Router {
    /// A router none of whose branches has a stream.
    pub fn new() -> (r: Router)
        ensures
            r@ == Set::<RouteSlot>::empty(),
    {
        Router { video_bound: false, audio_bound: false }
    }

    /// Whether the branch has its stream.
    pub fn is_bound(&self, slot: RouteSlot) -> (r: bool)
        ensures
            r == self@.contains(slot),
    {
        match slot {
            RouteSlot::Video => self.video_bound,
            RouteSlot::Audio => self.audio_bound,
        }
    }

    /// Decides what is to be done with a stream of the given media type.
    pub fn plan(&self, media_type: &str) -> (r: RoutingPlan)
        ensures
            r == plan_spec(self@, media_type@),
    {
        match classify(media_type) {
            None => RoutingPlan::Unhandled,
            Some(slot) => if self.is_bound(slot) {
                RoutingPlan::AlreadyBound(slot)
            } else {
                RoutingPlan::Link(slot)
            },
        }
    }

    /// Routes a discovered stream. Its media type decides the branch. Where
    /// that branch is free, `link` is called, once, to connect the stream to
    /// it, and the branch has its stream if the connection succeeds. In every
    /// other case `link` is not called and the router stays as it was. The
    /// router is held exclusively for the whole step, so that no other
    /// discovery comes between finding the branch free and giving it its stream.
    pub fn on_stream_discovered<H, F: FnOnce(H, RouteSlot) -> Result<(), LinkError>>(
        &mut self,
        stream: DiscoveredStream<H>,
        link: F,
    ) -> (r: RoutingOutcome)
        requires
            plan_spec(old(self)@, stream.media_type@) matches RoutingPlan::Link(slot)
                ==> call_requires(link, (stream.handle, slot)),
        ensures
            exists|result: Result<(), LinkError>|
                (plan_spec(old(self)@, stream.media_type@) matches RoutingPlan::Link(slot)
                    ==> call_ensures(link, (stream.handle, slot), result)) && (final(self)@, r)
                    == #[trigger] route_spec(old(self)@, stream.media_type@, result),
            classify_spec(stream.media_type@) is None ==> r == RoutingOutcome::Unhandled
                && final(self)@ == old(self)@,
            classify_spec(stream.media_type@) matches Some(slot) ==> (old(self)@.contains(slot)
                ==> r == RoutingOutcome::AlreadyBound(slot) && final(self)@ == old(self)@),
    {
        let ghost before = self@;
        match self.plan(stream.media_type.as_str()) {
            RoutingPlan::Unhandled => {
                assert((before, RoutingOutcome::Unhandled) == route_spec(
                    before,
                    stream.media_type@,
                    Ok(()),
                ));
                RoutingOutcome::Unhandled
            },
            RoutingPlan::AlreadyBound(slot) => {
                assert((before, RoutingOutcome::AlreadyBound(slot)) == route_spec(
                    before,
                    stream.media_type@,
                    Ok(()),
                ));
                RoutingOutcome::AlreadyBound(slot)
            },
            RoutingPlan::Link(slot) => {
                let result = link(stream.handle, slot);
                let outcome = self.conclude(slot, result);
                assert((self@, outcome) == route_spec(before, stream.media_type@, result));
                outcome
            },
        }
    }

    /// Records how the attempt to connect a stream to `slot` ended. The
    /// branch is looked at again here, so that it takes its stream in the same
    /// step in which it is found free.
    pub fn conclude(&mut self, slot: RouteSlot, link: Result<(), LinkError>) -> (r: RoutingOutcome)
        ensures
            (final(self)@, r) == conclude_spec(old(self)@, slot, link),
    {
        if self.is_bound(slot) {
            return RoutingOutcome::AlreadyBound(slot);
        }
        match link {
            Ok(_) => {
                match slot {
                    RouteSlot::Video => {
                        self.video_bound = true;
                    },
                    RouteSlot::Audio => {
                        self.audio_bound = true;
                    },
                }
                RoutingOutcome::Bound(slot)
            },
            Err(cause) => RoutingOutcome::LinkFailed(slot, cause),
        }
    }
}

impl RoutingOutcome {
    /// The branch that this outcome leaves without the stream that was meant
    /// for it, if it does so.
    pub fn degraded_branch(self) -> (r: Option<RouteSlot>)
        ensures
            r == match self {
                RoutingOutcome::AlreadyBound(slot) => Some(slot),
                RoutingOutcome::LinkFailed(slot, _) => Some(slot),
                _ => None,
            },
    {
        match self {
            RoutingOutcome::AlreadyBound(slot) => Some(slot),
            RoutingOutcome::LinkFailed(slot, _) => Some(slot),
            _ => None,
        }
    }
}

/// A stream whose media type begins as neither video nor audio does is left
/// unhandled, and the branches stay as they were: those that were free are
/// still free.
pub proof fn lemma_unrecognized_is_unhandled(
    bound: Set<RouteSlot>,
    media_type: Seq<char>,
    link: Result<(), LinkError>,
)
    requires
        !RouteSlot::Video.prefix_spec().is_prefix_of(media_type),
        !RouteSlot::Audio.prefix_spec().is_prefix_of(media_type),
    ensures
        route_spec(bound, media_type, link) == (bound, RoutingOutcome::Unhandled),
{
}

/// A step of the router never frees a branch, and gives a stream to none
/// but the branch that its outcome names as bound.
pub proof fn lemma_bindings_only_grow(
    bound: Set<RouteSlot>,
    media_type: Seq<char>,
    link: Result<(), LinkError>,
)
    ensures
        bound.subset_of(route_spec(bound, media_type, link).0),
        match route_spec(bound, media_type, link).1 {
            RoutingOutcome::Bound(slot) => !bound.contains(slot) && route_spec(
                bound,
                media_type,
                link,
            ).0 == bound.insert(slot),
            _ => route_spec(bound, media_type, link).0 == bound,
        },
{
}

/// Of two discoveries, one after the other, for the same branch, at most one
/// ends with the stream bound, however the attempts to connect end.
pub proof fn lemma_no_double_bind(
    bound: Set<RouteSlot>,
    first: Seq<char>,
    first_link: Result<(), LinkError>,
    second: Seq<char>,
    second_link: Result<(), LinkError>,
)
    requires
        classify_spec(first) is Some,
        classify_spec(first) == classify_spec(second),
    ensures
        ({
            let (between, first_outcome) = route_spec(bound, first, first_link);
            let (after, second_outcome) = route_spec(between, second, second_link);
            !(first_outcome is Bound && second_outcome is Bound)
        }),
{
}

/// Of two discoveries, one after the other, for the same free branch, the
/// first binds it, provided that its connection succeeds, and the second
/// is turned down as already bound, whether or not it could be connected.
pub proof fn lemma_second_discovery_is_rejected(
    bound: Set<RouteSlot>,
    first: Seq<char>,
    second: Seq<char>,
    second_link: Result<(), LinkError>,
)
    requires
        classify_spec(first) matches Some(slot) && !bound.contains(slot),
        classify_spec(first) == classify_spec(second),
    ensures
        ({
            let slot = classify_spec(first)->0;
            let (between, first_outcome) = route_spec(bound, first, Ok(()));
            let (after, second_outcome) = route_spec(between, second, second_link);
            &&& first_outcome == RoutingOutcome::Bound(slot)
            &&& second_outcome == RoutingOutcome::AlreadyBound(slot)
            &&& after == bound.insert(slot)
        }),
{
}

} // verus!
