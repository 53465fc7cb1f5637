//! Supervision of the pipeline: the states it goes through from assembly to
//! release, and what each event on its message bus does to them.

use vstd::prelude::*;
use crate::router::RouteSlot;

verus! {

/// The states of the pipeline.
#[derive(Debug, Clone, Copy, PartialEq, Eq, Structural)]
pub enum Lifecycle {
    /// The graph is being put together; nothing flows yet.
    Assembling,
    /// The graph is processing.
    Playing,
    /// An element failed; the graph awaits its release.
    Error,
    /// The stream ended; the graph awaits its release.
    Eos,
    /// The graph has released its resources.
    Stopped,
}

/// What the control loop is to do next.
#[derive(Debug, Clone, Copy, PartialEq, Eq, Structural)]
pub enum Directive {
    /// Put the graph together and ask it to play.
    Start,
    /// Wait for the next event; statistics may be sampled meanwhile.
    Poll,
    /// Stop waiting and release the graph.
    Teardown,
    /// Leave: nothing is left to do.
    Exit,
}

/// A message from the pipeline's bus, or from the router.
#[derive(Debug, Clone, PartialEq, Eq)]
pub enum BusEvent {
    /// An element failed for good.
    Error { source: String, cause: String },
    /// The stream ended.
    Eos,
    /// A branch is left without the stream that was meant for it.
    Degraded(RouteSlot),
    /// Any other message.
    Other,
}

/// A [`BusEvent`] as a plain value.
pub enum EventView {
    Error { source: Seq<char>, cause: Seq<char> },
    Eos,
    Degraded(RouteSlot),
    Other,
}

impl View for BusEvent {
    type V = EventView;

    open spec fn view(&self) -> EventView {
        match self {
            BusEvent::Error { source, cause } => EventView::Error {
                source: source@,
                cause: cause@,
            },
            BusEvent::Eos => EventView::Eos,
            BusEvent::Degraded(slot) => EventView::Degraded(*slot),
            BusEvent::Other => EventView::Other,
        }
    }
}

/// The failure that ended a run: the element that failed, and why.
#[derive(Debug, Clone, PartialEq, Eq)]
pub struct PipelineError {
    pub source: String,
    pub cause: String,
}

/// A [`PipelineError`] as a plain value.
pub struct FaultView {
    pub source: Seq<char>,
    pub cause: Seq<char>,
}

impl View for PipelineError {
    type V = FaultView;

    open spec fn view(&self) -> FaultView {
        FaultView { source: self.source@, cause: self.cause@ }
    }
}

/// Why a release of the graph was turned down.
#[derive(Debug, Clone, Copy, PartialEq, Eq, Structural)]
pub enum TeardownError {
    /// The pipeline has not come to an end: it is assembling or playing.
    NotFinished,
}

/// A [`Supervisor`] as a plain value.
pub struct SupervisorView {
    /// The state of the pipeline.
    pub state: Lifecycle,
    /// The failure that ended the run, if one did.
    pub fault: Option<FaultView>,
}

impl SupervisorView {
    /// A failure is on record exactly from the state `Error` on: never while
    /// assembling or playing, nor after the stream has ended.
    pub open spec fn wf(self) -> bool {
        match self.state {
            Lifecycle::Assembling | Lifecycle::Playing | Lifecycle::Eos => self.fault is None,
            Lifecycle::Error => self.fault is Some,
            Lifecycle::Stopped => true,
        }
    }

    /// The supervisor of a pipeline that is yet to be assembled.
    pub open spec fn initial() -> SupervisorView {
        SupervisorView { state: Lifecycle::Assembling, fault: None }
    }

    /// After the graph was asked to play: playing, if it was assembling and
    /// the graph did enter that state; as before in every other case.
    pub open spec fn play(self, entered: bool) -> SupervisorView {
        if self.state == Lifecycle::Assembling && entered {
            SupervisorView { state: Lifecycle::Playing, fault: self.fault }
        } else {
            self
        }
    }

    /// After an event. Only a playing pipeline heeds events: a fatal error
    /// takes it to `Error` and is put on record, the end of the stream takes it
    /// to `Eos`, and anything else leaves it playing.
    pub open spec fn on_event(self, event: EventView) -> SupervisorView {
        if self.state == Lifecycle::Playing {
            match event {
                EventView::Error { source, cause } => SupervisorView {
                    state: Lifecycle::Error,
                    fault: Some(FaultView { source, cause }),
                },
                EventView::Eos => SupervisorView { state: Lifecycle::Eos, fault: self.fault },
                _ => self,
            }
        } else {
            self
        }
    }

    /// Whether the graph may be released: once the run has ended, and again
    /// after that.
    pub open spec fn may_teardown(self) -> bool {
        self.state == Lifecycle::Error || self.state == Lifecycle::Eos || self.state
            == Lifecycle::Stopped
    }

    /// After a release of the graph: stopped, where the release is allowed;
    /// as before where it is not.
    pub open spec fn teardown(self) -> SupervisorView {
        if self.may_teardown() {
            SupervisorView { state: Lifecycle::Stopped, fault: self.fault }
        } else {
            self
        }
    }

    /// What the control loop is to do next.
    pub open spec fn directive(self) -> Directive {
        match self.state {
            Lifecycle::Assembling => Directive::Start,
            Lifecycle::Playing => Directive::Poll,
            Lifecycle::Error | Lifecycle::Eos => Directive::Teardown,
            Lifecycle::Stopped => Directive::Exit,
        }
    }
}

/// The state of a pipeline and the failure that ended its run, if one did.
#[derive(Debug)]
pub struct Supervisor {
    state: Lifecycle,
    fault: Option<PipelineError>,
}

impl View for Supervisor {
    type V = SupervisorView;

    closed spec fn view(&self) -> SupervisorView {
        SupervisorView {
            state: self.state,
            fault: match self.fault {
                Some(fault) => Some(fault@),
                None => None,
            },
        }
    }
}

impl Supervisor {
    #[verifier::type_invariant]
    spec fn inv(&self) -> bool {
        self@.wf()
    }

    /// The supervisor of a pipeline that is yet to be assembled.
    pub fn new() -> (r: Supervisor)
        ensures
            r@ == SupervisorView::initial(),
    {
        Supervisor { state: Lifecycle::Assembling, fault: None }
    }

    /// The state of the pipeline.
    pub fn state(&self) -> (r: Lifecycle)
        ensures
            r == self@.state,
            self@.wf(),
    {
        proof {
            use_type_invariant(self);
        }
        self.state
    }

    /// The failure that ended the run, if one did.
    pub fn fault(&self) -> (r: Option<&PipelineError>)
        ensures
            self@.wf(),
            match r {
                Some(fault) => self@.fault == Some(fault@),
                None => self@.fault is None,
            },
    {
        proof {
            use_type_invariant(self);
        }
        self.fault.as_ref()
    }

    /// What the control loop is to do next.
    pub fn directive(&self) -> (r: Directive)
        ensures
            r == self@.directive(),
    {
        match self.state {
            Lifecycle::Assembling => Directive::Start,
            Lifecycle::Playing => Directive::Poll,
            Lifecycle::Error | Lifecycle::Eos => Directive::Teardown,
            Lifecycle::Stopped => Directive::Exit,
        }
    }

    /// Takes note of how the request to play ended. Tells whether the
    /// pipeline is playing now because of it; where it is not, startup has
    /// failed.
    pub fn play(&mut self, entered: bool) -> (r: bool)
        ensures
            final(self)@ == old(self)@.play(entered),
            r == (old(self)@.state == Lifecycle::Assembling && entered),
    {
        proof {
            use_type_invariant(&*self);
        }
        if entered {
            if let Lifecycle::Assembling = self.state {
                self.state = Lifecycle::Playing;
                return true;
            }
        }
        false
    }

    /// Takes note of an event and tells what the control loop is to do next.
    pub fn on_event(&mut self, event: BusEvent) -> (r: Directive)
        ensures
            final(self)@ == old(self)@.on_event(event@),
            r == final(self)@.directive(),
    {
        proof {
            use_type_invariant(&*self);
        }
        if let Lifecycle::Playing = self.state {
            match event {
                BusEvent::Error { source, cause } => {
                    *self = Supervisor {
                        state: Lifecycle::Error,
                        fault: Some(PipelineError { source, cause }),
                    };
                },
                BusEvent::Eos => {
                    self.state = Lifecycle::Eos;
                },
                _ => {},
            }
        }
        self.directive()
    }

    /// Takes note that the graph is being released. This is in order once
    /// the run has ended, and any number of times after that.
    pub fn teardown(&mut self) -> (r: Result<(), TeardownError>)
        ensures
            final(self)@ == old(self)@.teardown(),
            r is Ok <==> old(self)@.may_teardown(),
            r is Err ==> r == Err::<(), TeardownError>(TeardownError::NotFinished),
    {
        proof {
            use_type_invariant(&*self);
        }
        match self.state {
            Lifecycle::Error | Lifecycle::Eos | Lifecycle::Stopped => {
                self.state = Lifecycle::Stopped;
                Ok(())
            },
            _ => Err(TeardownError::NotFinished),
        }
    }
}

/// The failure on record goes with the state: the first supervisor has none,
/// and no step puts one on record or drops one but as the states allow.
pub proof fn lemma_steps_keep_wf(before: SupervisorView, entered: bool, event: EventView)
    requires
        before.wf(),
    ensures
        SupervisorView::initial().wf(),
        before.play(entered).wf(),
        before.on_event(event).wf(),
        before.teardown().wf(),
{
}

/// A fatal error or the end of the stream ends a playing pipeline's run: it
/// is in `Error` or in `Eos` after it, the control loop is told to tear down,
/// and the release that follows leaves it stopped.
pub proof fn lemma_run_ends_stopped(playing: SupervisorView, event: EventView)
    requires
        playing.state == Lifecycle::Playing,
        event is Error || event is Eos,
    ensures
        playing.on_event(event).state == (if event is Error {
            Lifecycle::Error
        } else {
            Lifecycle::Eos
        }),
        event matches EventView::Error { source, cause } ==> playing.on_event(event).fault == Some(
            FaultView { source, cause },
        ),
        playing.on_event(event).directive() == Directive::Teardown,
        playing.on_event(event).may_teardown(),
        playing.on_event(event).teardown().state == Lifecycle::Stopped,
        playing.on_event(event).teardown().fault == playing.on_event(event).fault,
{
}

/// `Stopped` is reached from `Error` and from `Eos` alike.
pub proof fn lemma_stopped_from_both(ended: SupervisorView)
    requires
        ended.state == Lifecycle::Error || ended.state == Lifecycle::Eos,
    ensures
        ended.may_teardown(),
        ended.teardown().state == Lifecycle::Stopped,
{
}

/// A release may be repeated: where the first was in order so is the second,
/// and the second changes nothing.
pub proof fn lemma_teardown_is_idempotent(before: SupervisorView)
    ensures
        before.may_teardown() ==> before.teardown().may_teardown(),
        before.teardown().teardown() == before.teardown(),
{
}

/// Nothing but a fatal error or the end of the stream moves a playing
/// pipeline: a lost branch and every other message leave it playing.
pub proof fn lemma_other_events_keep_playing(before: SupervisorView, event: EventView)
    requires
        !(event is Error),
        !(event is Eos),
    ensures
        before.on_event(event) == before,
{
}

/// A run that has ended is not taken up again: no event and no request to
/// play brings the pipeline back to assembling or playing.
pub proof fn lemma_ended_run_stays_ended(ended: SupervisorView, entered: bool, event: EventView)
    requires
        ended.may_teardown(),
    ensures
        ended.play(entered) == ended,
        ended.on_event(event) == ended,
        ended.teardown().may_teardown(),
{
}

} // verus!
