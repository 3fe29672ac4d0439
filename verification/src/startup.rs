//! The readiness indicator shown while the server starts.
//!
//! The indicator is cosmetic. It runs beside the startup, hears of its end
//! through a channel that carries a single signal, and never touches the
//! configuration or the services. Showing it is the caller's work; whether
//! it is shown, and what a signal that could not be delivered means, is
//! decided here.

use tokio::sync::oneshot::channel;
use tokio::sync::oneshot::Receiver;
use tokio::sync::oneshot::Sender;
use vstd::prelude::*;

verus! {

/// The two halves of the channel between the startup and its indicator.
pub struct Spinner {
    /// Kept by the startup, which signals through it once the routes stand.
    pub canceller: Sender<()>,
    /// Handed to the task that shows the indicator until the signal comes.
    pub stop: Receiver<()>,
}

/// What became of the signal that the startup is done.
#[derive(Clone, Copy, Debug, PartialEq, Eq, Structural)]
pub enum SignalOutcome {
    /// No indicator was started, so there was nothing to stop.
    NothingToStop,
    /// The indicator was told to stop.
    Stopped,
    /// The indicator was gone already. This is worth a warning and
    /// nothing more.
    ReceiverGone,
}

/// The text shown beside the indicator.
pub const STARTING: &'static str = "Starting...";

/// The warning for a signal that found nobody to receive it.
pub const CHANNEL_CLOSED: &'static str = "Spinner channel is closed";

/// What became of the signal, given whether an indicator was started and,
/// if so, whether the signal reached it.
pub open spec fn spec_signal_outcome(started: bool, delivered: bool) -> SignalOutcome {
    if !started {
        SignalOutcome::NothingToStop
    } else if delivered {
        SignalOutcome::Stopped
    } else {
        SignalOutcome::ReceiverGone
    }
}

#[verifier::when_used_as_spec(spec_signal_outcome)]
pub fn signal_outcome(started: bool, delivered: bool) -> (outcome: SignalOutcome)
    ensures
        outcome == spec_signal_outcome(started, delivered),
{
    if !started {
        SignalOutcome::NothingToStop
    } else if delivered {
        SignalOutcome::Stopped
    } else {
        SignalOutcome::ReceiverGone
    }
}

impl SignalOutcome {
    /// Whether the outcome is worth a warning. None of them is fatal.
    pub open spec fn spec_warrants_warning(self) -> bool {
        self == SignalOutcome::ReceiverGone
    }

    #[verifier::when_used_as_spec(spec_warrants_warning)]
    pub fn warrants_warning(self) -> (yes: bool)
        ensures
            yes == self.spec_warrants_warning(),
    {
        match self {
            SignalOutcome::ReceiverGone => true,
            _ => false,
        }
    }

    /// The warning that the outcome is worth, if it is worth one.
    pub fn warning(self) -> (text: Option<&'static str>)
        ensures
            text is Some <==> self.spec_warrants_warning(),
            text is Some ==> text.unwrap()@ == CHANNEL_CLOSED@,
    {
        match self {
            SignalOutcome::ReceiverGone => Some(CHANNEL_CLOSED),
            _ => None,
        }
    }
}

/// Opens the channel for a readiness indicator where one is wanted. Where
/// none is wanted nothing is set up, and the startup goes on all the same.
pub fn try_run_spinner(interactive: bool) -> (spinner: Option<Spinner>)
    ensures
        spinner is Some <==> interactive,
{
    if interactive {
        let (canceller, stop) = channel::<()>();
        Some(Spinner { canceller, stop })
    } else {
        None
    }
}

/// Signals that the startup is done. Without an indicator there is nothing
/// to signal; with one, the signal either reaches it or finds it gone, and
/// neither stops the startup.
pub fn stop_spinner(canceller: Option<Sender<()>>) -> (outcome: SignalOutcome)
    ensures
        canceller is None ==> outcome == SignalOutcome::NothingToStop,
        canceller is Some ==> outcome == SignalOutcome::Stopped || outcome
            == SignalOutcome::ReceiverGone,
{
    match canceller {
        None => signal_outcome(false, false),
        Some(sender) => {
            let delivered = sender.send(()).is_ok();
            signal_outcome(true, delivered)
        },
    }
}

} // verus!
