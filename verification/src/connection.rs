//! The connection lifecycle: a provider works while the consumer of its
//! frames is connected, and stops for good once the signal says otherwise.

use vstd::prelude::*;
use crate::channel::try_recv_signal;

verus! {

/// The most values of the signal that one check takes. It keeps a check
/// short however fast the sender writes; what is left is taken by the next.
pub const MAX_SIGNALS_PER_CHECK: usize = 64;

/// Whether a provider that was `connected` still is after it has seen
/// `signal`. Only an explicit `false` disconnects; no news, or the signal
/// having failed, changes nothing; nothing reconnects.
pub open spec fn still_connected(connected: bool, signal: Option<bool>) -> bool {
    connected && signal != Some(false)
}

/// Whether a provider is connected after it has seen each of `signals` in
/// turn, having started connected.
pub open spec fn connected_after(signals: Seq<Option<bool>>) -> bool
    decreases signals.len(),
{
    if signals.len() == 0 {
        true
    } else {
        still_connected(connected_after(signals.drop_last()), signals.last())
    }
}

/// Computes `still_connected`.
pub fn next_connected(connected: bool, signal: Option<bool>) -> (next: bool)
    ensures
        next == still_connected(connected, signal),
{
    match signal {
        Some(false) => false,
        _ => connected,
    }
}

/// Disconnection is terminal: once a signal has said `false`, the provider is
/// disconnected after every longer run of signals, whatever these say.
pub proof fn disconnect_is_terminal(signals: Seq<Option<bool>>, at: int, upto: int)
    requires
        0 <= at < upto <= signals.len(),
        signals[at] == Some(false),
    ensures
        !connected_after(signals.take(upto)),
    decreases upto,
{
    let seen = signals.take(upto);
    assert(seen.last() == signals[upto - 1]);
    if at + 1 < upto {
        assert(seen.drop_last() =~= signals.take(upto - 1));
        disconnect_is_terminal(signals, at, upto - 1);
    }
}

/// One provider's own subscription to the connection signal, with the flag
/// it derives from it.
pub struct ConnectionWatch {
    receiver: tokio::sync::broadcast::Receiver<bool>,
    connected: bool,
}

impl ConnectionWatch {
    /// Whether the provider is still connected, as far as it has looked.
    pub closed spec fn is_connected(&self) -> bool {
        self.connected
    }

    /// A watch on a fresh subscription: connected until told otherwise.
    pub fn new(receiver: tokio::sync::broadcast::Receiver<bool>) -> (watch: ConnectionWatch)
        ensures
            watch.is_connected(),
    {
        ConnectionWatch { receiver, connected: true }
    }

    pub fn connected(&self) -> (connected: bool)
        ensures
            connected == self.is_connected(),
    {
        self.connected
    }

    /// Takes note of one value of the signal.
    pub fn observe(&mut self, signal: Option<bool>)
        ensures
            final(self).is_connected() == still_connected(old(self).is_connected(), signal),
    {
        self.connected = next_connected(self.connected, signal);
    }

    /// Looks at the signal without waiting and says whether the provider may
    /// go on. It takes the values that are waiting, oldest first, until none
    /// is left, one of them is `false`, or `MAX_SIGNALS_PER_CHECK` have been
    /// taken, and notes each as `observe` does: values of `true` that were
    /// sent before a `false` do not put the `false` off to a later check. A
    /// watch that has disconnected stays so and does not look again.
    pub fn check(&mut self) -> (connected: bool)
        ensures
            connected == final(self).is_connected(),
            !old(self).is_connected() ==> !connected,
    {
        let ghost was_connected = self.connected;
        let mut taken: usize = 0;
        while self.connected && taken < MAX_SIGNALS_PER_CHECK
            invariant
                taken <= MAX_SIGNALS_PER_CHECK,
                !was_connected ==> !self.connected,
            decreases MAX_SIGNALS_PER_CHECK - taken,
        {
            let pending = try_recv_signal(&mut self.receiver);
            self.observe(pending.value());
            if !pending.may_hold_more() {
                break ;
            }
            taken = taken + 1;
        }
        self.connected
    }
}

} // verus!
