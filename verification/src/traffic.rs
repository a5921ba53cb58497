//! The subscription to the traffic rate of the proxy core (shown in the macOS tray), and
//! the decisions of the task that follows the traffic stream. The application performs
//! each action and reports what came of it as the next event.
use vstd::prelude::*;

verus! {

/// Whether the tray follows the traffic stream, and the sender whose drop tells the
/// following task to stop.
pub struct TrafficSubscription<S> {
    subscribed: bool,
    shutdown: Option<S>,
}

pub struct SubscriptionView<S> {
    pub subscribed: bool,
    pub shutdown: Option<S>,
}

impl<S> View for TrafficSubscription<S> {
    type V = SubscriptionView<S>;

    closed spec fn view(&self) -> SubscriptionView<S> {
        SubscriptionView { subscribed: self.subscribed, shutdown: self.shutdown }
    }
}

/// The state after `subscribe_traffic` with a new sender, and the sender it hands back.
pub open spec fn spec_subscribe<S>(s: SubscriptionView<S>, shutdown: S) -> (SubscriptionView<S>, Option<S>) {
    (SubscriptionView { subscribed: true, shutdown: Some(shutdown) }, s.shutdown)
}

/// The state after `unsubscribe_traffic`, and the sender it hands back.
pub open spec fn spec_unsubscribe<S>(s: SubscriptionView<S>) -> (SubscriptionView<S>, Option<S>) {
    (SubscriptionView { subscribed: false, shutdown: None }, s.shutdown)
}

impl<S> TrafficSubscription<S> {
    /// No subscription.
    pub fn new() -> (r: TrafficSubscription<S>)
        ensures
            r@ == (SubscriptionView { subscribed: false, shutdown: None::<S> }),
    {
        TrafficSubscription { subscribed: false, shutdown: None }
    }

    /// Whether the tray follows the traffic stream.
    pub fn is_subscribed(&self) -> (r: bool)
        ensures
            r == self@.subscribed,
    {
        self.subscribed
    }

    /// Ends the subscription: returns the shutdown sender, whose drop stops the task.
    pub fn unsubscribe_traffic(&mut self) -> (released: Option<S>)
        ensures
            (final(self)@, released) == spec_unsubscribe(old(self)@),
    {
        self.subscribed = false;
        self.shutdown.take()
    }

    /// Starts a subscription with the shutdown sender of the new task, ending the one
    /// under way if any; returns the sender of the previous task, to drop.
    pub fn subscribe_traffic(&mut self, shutdown: S) -> (released: Option<S>)
        ensures
            (final(self)@, released) == spec_subscribe(old(self)@, shutdown),
    {
        let released = if self.subscribed {
            self.unsubscribe_traffic()
        } else {
            self.shutdown.take()
        };
        self.shutdown = Some(shutdown);
        self.subscribed = true;
        released
    }
}

/// Where the task that follows the traffic stream stands.
#[derive(Debug, Clone, Copy, PartialEq, Eq)]
pub enum TrafficPhase {
    /// Opening the traffic stream.
    Connecting,
    /// Waiting before trying again, after the stream could not be opened.
    Retrying,
    /// Reading samples; a shutdown signal stops it.
    Streaming,
    /// The stream has ended; waiting for the shutdown signal.
    Draining,
    Stopped,
}

/// What the application saw.
#[derive(Debug, Clone, Copy, PartialEq, Eq)]
pub enum TrafficEvent {
    Connected,
    ConnectFailed,
    /// The wait after a failure is over; whether the tray is still subscribed.
    RetryDelayElapsed { still_subscribed: bool },
    /// A sample arrived: whether it could be read, whether the rate is shown, and whether
    /// a rate meter exists.
    Sample { readable: bool, speed_enabled: bool, meter_present: bool },
    /// The rate meter took the sample; whether the rate it shows changed.
    RateMeasured { changed: bool },
    /// The icon was redrawn.
    IconRedrawn,
    StreamEnded,
    ShutdownSignal,
}

/// What the application does next.
#[derive(Debug, Clone, Copy, PartialEq, Eq)]
pub enum TrafficAction {
    /// Open the traffic stream.
    Connect,
    /// Wait one second, then report whether the tray is still subscribed.
    WaitOneSecond,
    /// Wait for the next sample, the end of the stream or the shutdown signal.
    AwaitNext,
    /// Wait for the shutdown signal only.
    AwaitShutdown,
    /// Give the sample to the rate meter and report whether the rate changed.
    FeedMeter,
    /// Redraw the tray icon with the new rate.
    RedrawIcon,
    /// End the task.
    Stop,
}

/// The next phase and action of the task after `event` in `phase`. An event that cannot
/// occur in a phase changes nothing.
pub open spec fn spec_traffic_step(phase: TrafficPhase, event: TrafficEvent) -> (
    TrafficPhase,
    TrafficAction,
) {
    match (phase, event) {
        (TrafficPhase::Connecting, TrafficEvent::Connected) => (
            TrafficPhase::Streaming,
            TrafficAction::AwaitNext,
        ),
        (TrafficPhase::Connecting, TrafficEvent::ConnectFailed) => (
            TrafficPhase::Retrying,
            TrafficAction::WaitOneSecond,
        ),
        (TrafficPhase::Retrying, TrafficEvent::RetryDelayElapsed { still_subscribed }) => {
            if still_subscribed {
                (TrafficPhase::Connecting, TrafficAction::Connect)
            } else {
                (TrafficPhase::Stopped, TrafficAction::Stop)
            }
        },
        (TrafficPhase::Streaming, TrafficEvent::Sample { readable, speed_enabled, meter_present }) => {
            if readable && speed_enabled && meter_present {
                (TrafficPhase::Streaming, TrafficAction::FeedMeter)
            } else {
                (TrafficPhase::Streaming, TrafficAction::AwaitNext)
            }
        },
        (TrafficPhase::Streaming, TrafficEvent::RateMeasured { changed }) => {
            if changed {
                (TrafficPhase::Streaming, TrafficAction::RedrawIcon)
            } else {
                (TrafficPhase::Streaming, TrafficAction::AwaitNext)
            }
        },
        (TrafficPhase::Streaming, TrafficEvent::IconRedrawn) => (
            TrafficPhase::Streaming,
            TrafficAction::AwaitNext,
        ),
        (TrafficPhase::Streaming, TrafficEvent::StreamEnded) => (
            TrafficPhase::Draining,
            TrafficAction::AwaitShutdown,
        ),
        (TrafficPhase::Streaming, TrafficEvent::ShutdownSignal) => (
            TrafficPhase::Stopped,
            TrafficAction::Stop,
        ),
        (TrafficPhase::Draining, TrafficEvent::ShutdownSignal) => (
            TrafficPhase::Stopped,
            TrafficAction::Stop,
        ),
        (p, _) => (p, spec_waiting_action(p)),
    }
}

/// What the task keeps doing in `phase` when nothing new happens.
pub open spec fn spec_waiting_action(phase: TrafficPhase) -> TrafficAction {
    match phase {
        TrafficPhase::Connecting => TrafficAction::Connect,
        TrafficPhase::Retrying => TrafficAction::WaitOneSecond,
        TrafficPhase::Streaming => TrafficAction::AwaitNext,
        TrafficPhase::Draining => TrafficAction::AwaitShutdown,
        TrafficPhase::Stopped => TrafficAction::Stop,
    }
}

/// The phase the task starts in, and its first action.
pub fn traffic_start() -> (r: (TrafficPhase, TrafficAction))
    ensures
        r == (TrafficPhase::Connecting, TrafficAction::Connect),
{
    (TrafficPhase::Connecting, TrafficAction::Connect)
}

fn waiting_action(phase: TrafficPhase) -> (r: TrafficAction)
    ensures
        r == spec_waiting_action(phase),
{
    match phase {
        TrafficPhase::Connecting => TrafficAction::Connect,
        TrafficPhase::Retrying => TrafficAction::WaitOneSecond,
        TrafficPhase::Streaming => TrafficAction::AwaitNext,
        TrafficPhase::Draining => TrafficAction::AwaitShutdown,
        TrafficPhase::Stopped => TrafficAction::Stop,
    }
}

/// The next phase and action of the task after `event` in `phase`.
pub fn traffic_step(phase: TrafficPhase, event: TrafficEvent) -> (r: (TrafficPhase, TrafficAction))
    ensures
        r == spec_traffic_step(phase, event),
{
    match (phase, event) {
        (TrafficPhase::Connecting, TrafficEvent::Connected) => (
            TrafficPhase::Streaming,
            TrafficAction::AwaitNext,
        ),
        (TrafficPhase::Connecting, TrafficEvent::ConnectFailed) => (
            TrafficPhase::Retrying,
            TrafficAction::WaitOneSecond,
        ),
        (TrafficPhase::Retrying, TrafficEvent::RetryDelayElapsed { still_subscribed }) => {
            if still_subscribed {
                (TrafficPhase::Connecting, TrafficAction::Connect)
            } else {
                (TrafficPhase::Stopped, TrafficAction::Stop)
            }
        },
        (TrafficPhase::Streaming, TrafficEvent::Sample { readable, speed_enabled, meter_present }) => {
            if readable && speed_enabled && meter_present {
                (TrafficPhase::Streaming, TrafficAction::FeedMeter)
            } else {
                (TrafficPhase::Streaming, TrafficAction::AwaitNext)
            }
        },
        (TrafficPhase::Streaming, TrafficEvent::RateMeasured { changed }) => {
            if changed {
                (TrafficPhase::Streaming, TrafficAction::RedrawIcon)
            } else {
                (TrafficPhase::Streaming, TrafficAction::AwaitNext)
            }
        },
        (TrafficPhase::Streaming, TrafficEvent::IconRedrawn) => (
            TrafficPhase::Streaming,
            TrafficAction::AwaitNext,
        ),
        (TrafficPhase::Streaming, TrafficEvent::StreamEnded) => (
            TrafficPhase::Draining,
            TrafficAction::AwaitShutdown,
        ),
        (TrafficPhase::Streaming, TrafficEvent::ShutdownSignal) => (
            TrafficPhase::Stopped,
            TrafficAction::Stop,
        ),
        (TrafficPhase::Draining, TrafficEvent::ShutdownSignal) => (
            TrafficPhase::Stopped,
            TrafficAction::Stop,
        ),
        (p, _) => (p, waiting_action(p)),
    }
}

/// Once stopped, the task stays stopped whatever it is told.
pub proof fn lemma_stopped_is_final(event: TrafficEvent)
    ensures
        spec_traffic_step(TrafficPhase::Stopped, event) == (TrafficPhase::Stopped, TrafficAction::Stop),
{
}

/// The task stops exactly on a shutdown signal while it follows the stream, or when a
/// retry finds the tray unsubscribed (or when it had stopped already).
pub proof fn lemma_stop_conditions(phase: TrafficPhase, event: TrafficEvent)
    ensures
        (spec_traffic_step(phase, event).1 == TrafficAction::Stop) <==> (
            phase == TrafficPhase::Stopped
            || ((phase == TrafficPhase::Streaming || phase == TrafficPhase::Draining)
                && event == TrafficEvent::ShutdownSignal)
            || (phase == TrafficPhase::Retrying
                && event == (TrafficEvent::RetryDelayElapsed { still_subscribed: false }))),
{
}

/// The icon is redrawn only after the rate meter reported a change, while streaming; the
/// meter is fed only samples that were read while the rate is shown and a meter exists.
pub proof fn lemma_redraw_needs_change(phase: TrafficPhase, event: TrafficEvent)
    ensures
        spec_traffic_step(phase, event).1 == TrafficAction::RedrawIcon ==> phase
            == TrafficPhase::Streaming && event == (TrafficEvent::RateMeasured { changed: true }),
        spec_traffic_step(phase, event).1 == TrafficAction::FeedMeter ==> phase
            == TrafficPhase::Streaming && event == (TrafficEvent::Sample {
            readable: true,
            speed_enabled: true,
            meter_present: true,
        }),
{
}

/// Subscribing twice hands back the first task's sender on the second call, so that the
/// first task stops; unsubscribing after a subscription hands back its sender and leaves
/// the tray unsubscribed.
pub proof fn lemma_resubscribe_releases<S>(s: SubscriptionView<S>, first: S, second: S)
    ensures
        spec_subscribe(spec_subscribe(s, first).0, second).1 == Some(first),
        spec_unsubscribe(spec_subscribe(s, first).0) == (
            SubscriptionView { subscribed: false, shutdown: None::<S> },
            Some(first),
        ),
{
}

/// While the stream is followed, only its end or a shutdown signal leaves the streaming
/// phase: every other event keeps the task reading, feeding the meter or redrawing, and
/// after a redraw the task goes back to waiting for the next sample. Once the stream has
/// ended, only a shutdown signal ends the wait.
pub proof fn lemma_streaming_continues(event: TrafficEvent)
    ensures
        event != TrafficEvent::StreamEnded && event != TrafficEvent::ShutdownSignal ==> {
            let (phase, action) = spec_traffic_step(TrafficPhase::Streaming, event);
            &&& phase == TrafficPhase::Streaming
            &&& (action == TrafficAction::AwaitNext || action == TrafficAction::FeedMeter
                || action == TrafficAction::RedrawIcon)
        },
        spec_traffic_step(TrafficPhase::Streaming, TrafficEvent::IconRedrawn) == (
            TrafficPhase::Streaming,
            TrafficAction::AwaitNext,
        ),
        spec_traffic_step(TrafficPhase::Streaming, TrafficEvent::StreamEnded).0
            == TrafficPhase::Draining,
        event != TrafficEvent::ShutdownSignal ==> spec_traffic_step(TrafficPhase::Draining, event)
            == (TrafficPhase::Draining, TrafficAction::AwaitShutdown),
{
}

} // verus!
