use rand::seq::SliceRandom;
use vstd::prelude::*;

verus! {

/// A source of independent boolean draws. The game's randomness primitive is
/// injected through this trait so that trial-consuming operations can be run
/// against a deterministic source in tests.
pub trait TrialSource {
    fn next_bool(&mut self) -> bool;
}

/// The production source, backed by the process-wide random number generator.
pub struct SystemTrialSource;

impl TrialSource for SystemTrialSource {
    fn next_bool(&mut self) -> bool {
        system_random_bool()
    }
}

/// Relies on rand::random::<bool>: one uniform boolean draw.
#[verifier::external_body]
fn system_random_bool() -> bool {
    rand::random::<bool>()
}

/// Relies on rand's SliceRandom::shuffle: permutes the five flags in place,
/// so their length and the number of `true` entries are unchanged.
#[verifier::external_body]
fn shuffle_flags(v: &mut Vec<bool>)
    requires
        old(v)@.len() == 5,
    ensures
        final(v)@.len() == 5,
        count_trues5(final(v)@) == count_trues5(old(v)@),
{
    v.shuffle(&mut rand::thread_rng());
}

/// The number of `true` entries among the first five of a boolean sequence.
pub open spec fn count_trues5(s: Seq<bool>) -> int {
    (if s[0] { 1int } else { 0int }) + (if s[1] { 1int } else { 0int })
        + (if s[2] { 1int } else { 0int }) + (if s[3] { 1int } else { 0int })
        + (if s[4] { 1int } else { 0int })
}

/// One cast of the five throwing sticks: five independent boolean outcomes,
/// kept in order so that clients can animate the cast.
#[derive(Debug, PartialEq, Eq, Clone, Copy, Structural)]
pub struct Ciurl(pub bool, pub bool, pub bool, pub bool, pub bool);

impl Ciurl {
    /// Casts the five sticks: the components are the source's next five
    /// draws, in order. With a fair source each stick is an independent
    /// uniform boolean, so the face-up count is binomial over zero to five;
    /// that is a property of the source, not one the trait can promise.
    pub fn new<S: TrialSource>(source: &mut S) -> (c: Ciurl) {
        Ciurl(
            source.next_bool(),
            source.next_bool(),
            source.next_bool(),
            source.next_bool(),
            source.next_bool(),
        )
    }

    /// Builds a cast showing exactly `cnt` face-up sticks, in a random order.
    pub fn from_count(cnt: usize) -> (c: Ciurl)
        requires
            cnt <= 5,
        ensures
            c.spec_count() == cnt,
    {
        let mut v: Vec<bool> = Vec::new();
        v.push(cnt > 0);
        v.push(cnt > 1);
        v.push(cnt > 2);
        v.push(cnt > 3);
        v.push(cnt > 4);
        assert(count_trues5(v@) == cnt);
        shuffle_flags(&mut v);
        let c = Ciurl(v[0], v[1], v[2], v[3], v[4]);
        assert(c.spec_count() == count_trues5(v@));
        c
    }

    /// How many of the five sticks came up face-up.
    pub fn count(self) -> (n: usize)
        ensures
            n == self.spec_count(),
    {
        self.0 as usize + self.1 as usize + self.2 as usize + self.3 as usize + self.4 as usize
    }

    pub open spec fn spec_count(self) -> int {
        (if self.0 { 1int } else { 0int }) + (if self.1 { 1int } else { 0int })
            + (if self.2 { 1int } else { 0int }) + (if self.3 { 1int } else { 0int })
            + (if self.4 { 1int } else { 0int })
    }

    /// The cast as an order-significant boolean sequence, the form in which a
    /// trial travels over the wire.
    pub fn to_flags(self) -> (v: Vec<bool>)
        ensures
            v@ =~= seq![self.0, self.1, self.2, self.3, self.4],
    {
        let mut v: Vec<bool> = Vec::new();
        v.push(self.0);
        v.push(self.1);
        v.push(self.2);
        v.push(self.3);
        v.push(self.4);
        v
    }
}

/// One simultaneous pair of casts, one for each seat, drawn while deciding who
/// moves first.
#[derive(Debug, PartialEq, Eq, Clone, Copy, Structural)]
pub struct CiurlPair {
    /// The cast belonging to the side from whose perspective the decision is read.
    pub first: Ciurl,
    /// The cast belonging to the opposing side.
    pub second: Ciurl,
}

/// The outcome of the turn-order resolution: paired casts are drawn until one
/// side shows strictly more face-up sticks, and the full history is kept.
#[derive(Debug, PartialEq, Eq, Clone)]
pub struct WhoGoesFirst {
    pub result: bool,
    pub process: Vec<CiurlPair>,
}

/// Says that `b` is `a` reread from the opposing perspective: every pair is
/// swapped and the verdict is flipped.
pub open spec fn is_negation(a: WhoGoesFirst, b: WhoGoesFirst) -> bool {
    &&& b.result == !a.result
    &&& b.process@.len() == a.process@.len()
    &&& forall|i: int|
        0 <= i < a.process@.len() ==> b.process@[i].first == a.process@[i].second
            && b.process@[i].second == a.process@[i].first
}

impl WhoGoesFirst {
    /// The invariant of a finished decision: at least one pair was drawn, every
    /// pair before the last was a tie, the last pair is not a tie, and the
    /// verdict says whose cast in the last pair was strictly greater.
    pub open spec fn wf(self) -> bool {
        &&& self.process@.len() > 0
        &&& forall|i: int|
            0 <= i < self.process@.len() - 1 ==> #[trigger] self.process@[i].first.spec_count()
                == self.process@[i].second.spec_count()
        &&& self.process@.last().first.spec_count() != self.process@.last().second.spec_count()
        &&& self.result == (self.process@.last().first.spec_count()
            > self.process@.last().second.spec_count())
    }

    /// Draws paired casts until a strict majority emerges; ties are recorded
    /// and redrawn. A fair source ends this with probability one almost
    /// immediately; after an astronomically long run of ties the decision is
    /// forced with one maximal final pair instead of looping without bound.
    pub fn new<S: TrialSource>(source: &mut S) -> (w: WhoGoesFirst)
        ensures
            w.wf(),
    {
        let mut process: Vec<CiurlPair> = Vec::new();
        let mut tries: u64 = 0;
        while tries < 0xffff_ffff
            invariant
                forall|i: int|
                    0 <= i < process@.len() ==> #[trigger] process@[i].first.spec_count()
                        == process@[i].second.spec_count(),
            decreases 0xffff_ffff - tries,
        {
            let ciurl1 = Ciurl::new(source);
            let ciurl2 = Ciurl::new(source);
            process.push(CiurlPair { first: ciurl1, second: ciurl2 });
            if ciurl1.count() > ciurl2.count() {
                return WhoGoesFirst { process, result: true };
            }
            if ciurl1.count() < ciurl2.count() {
                return WhoGoesFirst { process, result: false };
            }
            tries = tries + 1;
        }
        let first = Ciurl(true, true, true, true, true);
        let second = Ciurl(false, false, false, false, false);
        process.push(CiurlPair { first, second });
        WhoGoesFirst { process, result: true }
    }

    /// An observably equal copy of the decision.
    pub fn duplicate(&self) -> (r: WhoGoesFirst)
        ensures
            r.result == self.result,
            r.process@ == self.process@,
            self.wf() ==> r.wf(),
    {
        let mut process: Vec<CiurlPair> = Vec::new();
        let mut i: usize = 0;
        while i < self.process.len()
            invariant
                i <= self.process@.len(),
                process@.len() == i,
                forall|j: int| 0 <= j < i ==> process@[j] == self.process@[j],
            decreases self.process@.len() - i,
        {
            let pair = self.process[i];
            process.push(pair);
            i = i + 1;
        }
        proof {
            assert(process@ =~= self.process@);
        }
        WhoGoesFirst { process, result: self.result }
    }

    /// The decision as seen from the other side: swaps each recorded pair and
    /// flips the verdict, without redrawing anything.
    pub fn not(&self) -> (n: WhoGoesFirst)
        ensures
            is_negation(*self, n),
            self.wf() ==> n.wf(),
    {
        let mut process: Vec<CiurlPair> = Vec::new();
        let mut i: usize = 0;
        while i < self.process.len()
            invariant
                i <= self.process@.len(),
                process@.len() == i,
                forall|j: int|
                    0 <= j < i ==> process@[j].first == self.process@[j].second
                        && process@[j].second == self.process@[j].first,
            decreases self.process@.len() - i,
        {
            let pair = self.process[i];
            process.push(CiurlPair { first: pair.second, second: pair.first });
            i = i + 1;
        }
        WhoGoesFirst { process, result: !self.result }
    }
}

/// Negating a decision twice gives back the original decision: the verdict
/// and the recorded history are both restored.
pub proof fn lemma_negation_involutive(a: WhoGoesFirst, b: WhoGoesFirst, c: WhoGoesFirst)
    requires
        is_negation(a, b),
        is_negation(b, c),
    ensures
        c.result == a.result,
        c.process@ == a.process@,
{
    assert(c.process@ =~= a.process@);
}

} // verus!
