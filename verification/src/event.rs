//! Events of the main loop and the channel for background results.

use std::sync::mpsc::{Receiver, Sender};
use std::time::Duration;
use vstd::prelude::*;

use crate::app::effect::{effects_view, Effect, EffectView};
use crate::app::state::{App, AppView};
use crate::clock::{duration_from_millis, millis_duration};
use crate::input::key::{handle_key_event, key_admissible, key_step};
use crate::input::keys::KeyInput;
use crate::input::mouse::{handle_mouse_event, mouse_step, opt_layout, MouseEvent, MouseState, PanelLayout};

verus! {

#[verifier::external_type_specification]
#[verifier::external_body]
#[verifier::reject_recursive_types(T)]
pub struct ExSender<T>(Sender<T>);

#[verifier::external_type_specification]
#[verifier::external_body]
#[verifier::reject_recursive_types(T)]
pub struct ExReceiver<T>(Receiver<T>);

/// Outcomes from background operations (fetch / push / pull / message
/// generation): a message on success, the error text otherwise.
#[derive(Debug)]
pub enum AsyncResult {
    FetchComplete(Result<String, String>),
    PushComplete(Result<String, String>),
    PullComplete(Result<String, String>),
    AiCommitMessage(Result<String, String>),
}

/// High-level events consumed by the main loop.
#[derive(Debug)]
pub enum AppEvent {
    /// A keyboard event.
    Key(KeyInput),
    /// A mouse event.
    Mouse(MouseEvent),
    /// Periodic tick (notification expiry and the like).
    Tick,
    /// Terminal was resized.
    Resize(u16, u16),
    /// A background operation completed.
    AsyncResult(AsyncResult),
}

/// `std::sync::mpsc::channel`: a new channel; nothing is promised of the
/// two ends beyond their types.
#[verifier::external_body]
fn async_channel() -> (r: (Sender<AsyncResult>, Receiver<AsyncResult>)) {
    std::sync::mpsc::channel()
}

/// `Sender::clone`: another sending end of the same channel; nothing is
/// promised of it beyond its type.
#[verifier::external_body]
fn clone_sender(s: &Sender<AsyncResult>) -> (r: Sender<AsyncResult>) {
    s.clone()
}

/// `Receiver::try_recv`, without the error: a result that is waiting, if
/// any. What is waiting depends on other threads, so nothing is promised.
#[verifier::external_body]
fn try_receive(r: &Receiver<AsyncResult>) -> (o: Option<AsyncResult>) {
    r.try_recv().ok()
}

/// The source of background results and the tick rate of the main loop.
pub struct EventHandler {
    /// How long to wait before emitting a Tick when no real event arrives.
    tick_rate: Duration,
    async_rx: Receiver<AsyncResult>,
    async_tx: Sender<AsyncResult>,
}

impl EventHandler {
    /// How long the main loop waits for an event before it ticks.
    pub closed spec fn wait(self) -> Duration {
        self.tick_rate
    }

    /// How long the main loop waits for an event before it ticks.
    pub fn tick_rate(&self) -> (r: Duration)
        ensures
            r == self.wait(),
    {
        self.tick_rate
    }

    /// A handler with the default tick rate of 250 ms.
    ///
    /// Its channel for background results starts empty, as std documents a
    /// new channel; the contract does not say so, because what is waiting
    /// later depends on other threads sending through senders from
    /// [`EventHandler::async_sender`], which leave no trace on the handler.
    pub fn new() -> (r: Self)
        ensures
            r.wait() == millis_duration(250),
    {
        let (tx, rx) = async_channel();
        EventHandler { tick_rate: duration_from_millis(250), async_rx: rx, async_tx: tx }
    }

    /// A handler with a custom tick rate; its channel starts empty, as for
    /// [`EventHandler::new`] (not stated in the contract, for the same
    /// reason).
    pub fn with_tick_rate(tick_rate: Duration) -> (r: Self)
        ensures
            r.wait() == tick_rate,
    {
        let (tx, rx) = async_channel();
        EventHandler { tick_rate, async_rx: rx, async_tx: tx }
    }

    /// A sender for background results.
    pub fn async_sender(&self) -> Sender<AsyncResult> {
        clone_sender(&self.async_tx)
    }

    /// A background result that is waiting, if any (without blocking).
    pub fn poll_async(&self) -> Option<AsyncResult> {
        try_receive(&self.async_rx)
    }
}

impl Default for EventHandler {
    fn default() -> (r: Self)
        ensures
            r.wait() == millis_duration(250),
    {
        EventHandler::new()
    }
}

impl App {
    /// A background operation finished: its status line goes and the
    /// repository is read again.
    pub fn finish_async(&mut self) -> (r: Vec<Effect>)
        ensures
            final(self)@ == (AppView { async_status: None, ..old(self)@ }),
            effects_view(r@) == seq![EffectView::Refresh],
    {
        self.async_status = None;
        let r = vec![Effect::Refresh];
        assert(effects_view(r@) =~= seq![EffectView::Refresh]);
        r
    }
}

/// Dispatch one event of the main loop to the state: keys and mouse events
/// to their handlers, ticks to the notification clock, finished background
/// work to a refresh. Returns the effects for the host to carry out.
#[verifier::spinoff_prover]
#[verifier::rlimit(60)]
pub fn handle_event(
    app: &mut App,
    event: AppEvent,
    layout: Option<&PanelLayout>,
    mouse_state: &mut MouseState,
) -> (r: Vec<Effect>)
    requires
        event matches AppEvent::Key(k) ==> key_admissible(old(app)@, k),
    ensures
        match event {
            AppEvent::Key(k) => (final(app)@, effects_view(r@)) == key_step(old(app)@, k)
                && *final(mouse_state) == *old(mouse_state),
            AppEvent::Mouse(m) => exists|now: std::time::Instant, since: Option<u128>|
                (final(app)@, *final(mouse_state), effects_view(r@)) == #[trigger] mouse_step(
                    old(app)@,
                    *old(mouse_state),
                    m,
                    opt_layout(layout),
                    now,
                    since,
                ),
            AppEvent::Tick => (final(app)@ == old(app)@ || final(app)@ == (AppView {
                notification: None,
                ..old(app)@
            })) && effects_view(r@) == Seq::<EffectView>::empty() && *final(mouse_state) == *old(
                mouse_state,
            ),
            AppEvent::Resize(_, _) => final(app)@ == old(app)@ && effects_view(r@) == Seq::<
                EffectView,
            >::empty() && *final(mouse_state) == *old(mouse_state),
            AppEvent::AsyncResult(_) => final(app)@ == (AppView { async_status: None, ..old(app)@ })
                && effects_view(r@) == seq![EffectView::Refresh] && *final(mouse_state) == *old(
                mouse_state,
            ),
        },
{
    match event {
        AppEvent::Key(k) => handle_key_event(app, k),
        AppEvent::Mouse(m) => handle_mouse_event(app, m, layout, mouse_state),
        AppEvent::Tick => {
            app.tick_notification();
            let r: Vec<Effect> = Vec::new();
            assert(effects_view(r@) =~= Seq::<EffectView>::empty());
            r
        },
        AppEvent::Resize(_, _) => {
            let r: Vec<Effect> = Vec::new();
            assert(effects_view(r@) =~= Seq::<EffectView>::empty());
            r
        },
        AppEvent::AsyncResult(_) => app.finish_async(),
    }
}

} // verus!
