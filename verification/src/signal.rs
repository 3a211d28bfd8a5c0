//! The cancellation signal: a flag that is set once and never reset.
//!
//! The flag is shared through a `tokio_util` token, so that a holder in another
//! task can set it. What this holder has set itself it also remembers, and
//! that much is known of every later reading.

use tokio_util::sync::CancellationToken;
use vstd::prelude::*;

verus! {

/// The cancellation token of `tokio_util`.
#[verifier::external_type_specification]
#[verifier::external_body]
pub struct ExCancellationToken(CancellationToken);

/// Calls `CancellationToken::is_cancelled`. The answer depends on what every
/// holder of the token has done so far, so nothing is promised of it.
#[verifier::external_body]
fn token_is_cancelled(token: &CancellationToken) -> (cancelled: bool) {
    token.is_cancelled()
}

/// Calls `CancellationToken::cancel`, which sets the shared flag and wakes
/// those who wait for it. The token is shared, so nothing is stated of it.
#[verifier::external_body]
fn token_cancel(token: &CancellationToken) {
    token.cancel()
}

/// The state of the flag after it is set, whatever it was before.
pub open spec fn raise(raised: bool) -> bool {
    true
}

/// Setting the signal twice leaves it as setting it once does.
pub proof fn lemma_raise_is_idempotent(raised: bool)
    ensures
        raise(raised),
        raise(raise(raised)) == raise(raised),
{
}

/// What a reading of the signal gives, where `shared` is what the token says
/// at that moment: the signal is set once this holder has set it, and before
/// that as soon as the token is.
pub open spec fn reading(raised: bool, shared: bool) -> bool {
    raised || shared
}

/// A cancellation signal. Its view tells whether this holder has set it.
pub struct CancellationSignal {
    token: CancellationToken,
    raised: bool,
}

impl View for CancellationSignal {
    type V = bool;

    closed spec fn view(&self) -> bool {
        self.raised
    }
}

impl CancellationSignal {
    /// The token through which the signal is shared.
    pub closed spec fn token(&self) -> CancellationToken {
        self.token
    }

    /// A signal over `token`, not set by this holder.
    pub fn new(token: CancellationToken) -> (signal: CancellationSignal)
        ensures
            !signal@,
            signal.token() == token,
    {
        CancellationSignal { token, raised: false }
    }

    /// Sets the signal, for this holder and for every holder of the token.
    pub fn cancel(&mut self)
        ensures
            final(self)@ == raise(old(self)@),
            final(self).token() == old(self).token(),
    {
        token_cancel(&self.token);
        self.raised = true;
    }

    /// The reading of the signal, given what its token says.
    pub fn is_cancelled_given(&self, shared: bool) -> (cancelled: bool)
        ensures
            cancelled == reading(self@, shared),
    {
        self.raised || shared
    }

    /// Whether the signal is set: the reading of the signal with what its
    /// token says now. What the token says is other holders' doing; once this
    /// holder has set the signal, the answer is `true` whatever they did.
    pub fn is_cancelled(&self) -> (cancelled: bool)
        ensures
            self@ ==> cancelled,
    {
        let shared = token_is_cancelled(&self.token);
        self.is_cancelled_given(shared)
    }
}

} // verus!
