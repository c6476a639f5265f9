//! Death notices: how a pool tells each of its threads to stop.

use vstd::prelude::*;

use crate::channel::bounded_channel;

verus! {

/// The sending ends of the death channels of a pool, one per token handed out.
pub struct DeathController(Vec<flume::Sender<()>>);

/// The receiving end of one death channel, held by one thread.
pub struct DeathToken(flume::Receiver<()>);

impl DeathController {
    /// A controller that has handed out no token.
    pub fn new() -> (c: Self)
        ensures
            c.senders().len() == 0,
    {
        DeathController(Vec::new())
    }

    /// The senders of the tokens handed out so far, in the order of the tokens.
    pub closed spec fn senders(&self) -> Seq<flume::Sender<()>> {
        self.0@
    }

    /// Hands out a token on a new rendezvous channel, whose sending end the
    /// controller keeps after those it already had.
    pub fn token(&mut self) -> (t: DeathToken)
        ensures
            final(self).senders().len() == old(self).senders().len() + 1,
            final(self).senders().take(old(self).senders().len() as int) == old(self).senders(),
    {
        let (tx, rx) = bounded_channel(0);
        self.0.push(tx);
        proof {
            assert(self.senders().take(old(self).senders().len() as int) =~= old(self).senders());
        }
        DeathToken(rx)
    }

    /// The sending ends of all tokens handed out, in the order of the tokens.
    pub fn notifiers(&self) -> (s: &Vec<flume::Sender<()>>)
        ensures
            s@ == self.senders(),
    {
        &self.0
    }
}

impl Default for DeathController {
    fn default() -> Self {
        DeathController::new()
    }
}

impl DeathToken {
    /// The channel on which the death notice arrives.
    pub fn listen(&self) -> (r: &flume::Receiver<()>)
        ensures
            *r == self.receiver(),
    {
        &self.0
    }

    /// The receiving end of the token's channel.
    pub closed spec fn receiver(&self) -> flume::Receiver<()> {
        self.0
    }
}

} // verus!
