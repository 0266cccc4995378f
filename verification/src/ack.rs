//! Acknowledgement handles.
//!
//! Every batch produced by an input travels with an `Ack`. The runtime fires
//! the ack exactly once, after every output batch derived from the input batch
//! has been written successfully; otherwise the ack is never fired and the
//! source may redeliver.
//!
//! An ack is identified by the delivery tokens it carries: a no-op ack carries
//! none, a source ack carries one, and a merged (fan-out) ack carries the
//! tokens of all its constituents. Firing an ack yields its tokens, in order;
//! the embedding is expected to report each token to the source it came from.

use vstd::prelude::*;

verus! {

/// An acknowledgement handle: the ordered delivery tokens it fans out to.
pub struct Ack {
    tokens: Vec<u64>,
}

/// The tokens of a list of acks, concatenated in order.
pub open spec fn tokens_of_list(s: Seq<Ack>) -> Seq<u64>
    decreases s.len(),
{
    if s.len() == 0 {
        Seq::empty()
    } else {
        tokens_of_list(s.drop_last()) + s.last()@
    }
}

/// Ack fan-out width: a merged ack over constituents that each carry one
/// token fans out to exactly one token per constituent — one underlying
/// acknowledgement each, and none before the merged ack is fired.
pub proof fn lemma_fanout_width(children: Seq<Ack>)
    requires
        forall|i: int| 0 <= i < children.len() ==> (#[trigger] children[i])@.len() == 1,
    ensures
        tokens_of_list(children).len() == children.len(),
    decreases children.len(),
{
    if children.len() > 0 {
        let prefix = children.drop_last();
        assert(forall|i: int| 0 <= i < prefix.len() ==> (#[trigger] prefix[i])@.len() == 1) by {
            assert(forall|i: int| 0 <= i < prefix.len() ==> prefix[i] == children[i]);
        }
        lemma_fanout_width(prefix);
    }
}

impl View for Ack {
    type V = Seq<u64>;

    closed spec fn view(&self) -> Seq<u64> {
        self.tokens@
    }
}

impl Ack {
    /// An ack for a source without delivery tracking: firing it does nothing.
    pub fn noop() -> (r: Ack)
        ensures
            r@ == Seq::<u64>::empty(),
    {
        Ack { tokens: Vec::new() }
    }

    /// An ack that reports one delivery token back to its source.
    pub fn source(token: u64) -> (r: Ack)
        ensures
            r@ == seq![token],
    {
        let mut tokens: Vec<u64> = Vec::new();
        tokens.push(token);
        Ack { tokens }
    }

    /// The aggregate ack of a merged batch: it fans out to every constituent
    /// ack, in the order they were merged.
    pub fn fanout(children: Vec<Ack>) -> (r: Ack)
        ensures
            r@ == tokens_of_list(children@),
    {
        let mut tokens: Vec<u64> = Vec::new();
        let n = children.len();
        for i in 0..n
            invariant
                n == children@.len(),
                tokens@ == tokens_of_list(children@.take(i as int)),
        {
            let mut child_tokens = children[i].fire();
            proof {
                assert(children@.take(i + 1 as int).drop_last() =~= children@.take(i as int));
                assert(children@.take(i + 1 as int).last() == children@[i as int]);
            }
            tokens.append(&mut child_tokens);
        }
        proof {
            assert(children@.take(n as int) =~= children@);
        }
        Ack { tokens }
    }

    /// Fire the ack: the tokens to report, one per constituent source ack.
    /// A fan-out ack over `N` sources yields exactly their `N` tokens; a no-op
    /// ack yields none.
    pub fn fire(&self) -> (r: Vec<u64>)
        ensures
            r@ == self@,
    {
        let mut r: Vec<u64> = Vec::new();
        let n = self.tokens.len();
        for i in 0..n
            invariant
                n == self.tokens@.len(),
                r@ == self.tokens@.take(i as int),
        {
            r.push(self.tokens[i]);
        }
        proof {
            assert(self.tokens@.take(n as int) =~= self.tokens@);
        }
        r
    }

    /// How many underlying acknowledgements this handle fans out to.
    pub fn width(&self) -> (r: usize)
        ensures
            r == self@.len(),
    {
        self.tokens.len()
    }
}

} // verus!
