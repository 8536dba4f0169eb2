//! Gathers the outcomes of a batch: decides which messages to acknowledge,
//! caches the acknowledgment endpoint of each message source, and reports
//! the batch as a whole once every unit has reported.
use vstd::prelude::*;
use vstd::string::StrSliceExecFns;
use crate::dispatch::{Outcome, ProcessError};

verus! {

/// An acknowledgment (deletion) to issue. Where the source's endpoint is
/// not known yet, `endpoint` is `None`: resolve it, hand it to
/// `Collector::remember`, then delete.
#[derive(Debug)]
pub struct Acknowledge {
    pub token: String,
    pub source: String,
    pub endpoint: Option<String>,
}

/// The batch failed: the failures of every message that failed, in the
/// order their outcomes arrived.
#[derive(Debug)]
pub struct BatchError {
    pub failures: Vec<ProcessError>,
}

/// What the collector has seen of a batch.
pub struct CollectorView {
    /// How many units were dispatched.
    pub expected: nat,
    /// How many outcomes arrived.
    pub received: nat,
    /// The tokens of the messages acknowledged, in order.
    pub acknowledged: Seq<Seq<char>>,
    pub failures: Seq<ProcessError>,
    /// Resolved endpoints, by source.
    pub endpoints: Seq<(Seq<char>, Seq<char>)>,
}

/// The endpoint first recorded for `source`.
pub open spec fn cached(endpoints: Seq<(Seq<char>, Seq<char>)>, source: Seq<char>) -> Option<Seq<char>>
    decreases endpoints.len(),
{
    if endpoints.len() == 0 {
        None
    } else if endpoints[0].0 == source {
        Some(endpoints[0].1)
    } else {
        cached(endpoints.drop_first(), source)
    }
}

/// The collector after one more outcome: a success is acknowledged, a
/// failure is recorded and never acknowledged.
pub open spec fn step(v: CollectorView, o: Outcome) -> CollectorView {
    match o {
        Outcome::Success { token, source } => CollectorView {
            received: v.received + 1,
            acknowledged: v.acknowledged.push(token@),
            ..v
        },
        Outcome::Failure { error } => CollectorView {
            received: v.received + 1,
            failures: v.failures.push(error),
            ..v
        },
    }
}

/// The collector after the outcomes `os`, in order.
pub open spec fn run(v: CollectorView, os: Seq<Outcome>) -> CollectorView
    decreases os.len(),
{
    if os.len() == 0 {
        v
    } else {
        step(run(v, os.drop_last()), os.last())
    }
}

/// The tokens of the successful outcomes among `os`, in order.
pub open spec fn success_tokens(os: Seq<Outcome>) -> Seq<Seq<char>>
    decreases os.len(),
{
    if os.len() == 0 {
        Seq::empty()
    } else {
        match os.last() {
            Outcome::Success { token, .. } => success_tokens(os.drop_last()).push(token@),
            Outcome::Failure { .. } => success_tokens(os.drop_last()),
        }
    }
}

/// The collector of a batch of `n` units before any outcome.
pub open spec fn fresh(n: nat) -> CollectorView {
    CollectorView {
        expected: n,
        received: 0,
        acknowledged: Seq::empty(),
        failures: Seq::empty(),
        endpoints: Seq::empty(),
    }
}

/// A batch of `n` messages with any mix of outcomes: once all `n` have
/// arrived, exactly the successful messages are acknowledged, the others
/// are all recorded as failures, and the batch is complete.
pub proof fn lemma_batch_acknowledges_successes(n: nat, os: Seq<Outcome>)
    requires
        os.len() == n,
    ensures
        run(fresh(n), os).received == n,
        run(fresh(n), os).acknowledged == success_tokens(os),
        run(fresh(n), os).acknowledged.len() + run(fresh(n), os).failures.len() == n,
        run(fresh(n), os).failures.len() == 0 <==> success_tokens(os).len() == n,
        run(fresh(n), os).expected == n,
    decreases os.len(),
{
    lemma_run_counts(fresh(n), os);
}

proof fn lemma_run_counts(v: CollectorView, os: Seq<Outcome>)
    ensures
        run(v, os).received == v.received + os.len(),
        run(v, os).expected == v.expected,
        run(v, os).acknowledged == v.acknowledged + success_tokens(os),
        run(v, os).acknowledged.len() + run(v, os).failures.len() == v.acknowledged.len()
            + v.failures.len() + os.len(),
    decreases os.len(),
{
    if os.len() > 0 {
        lemma_run_counts(v, os.drop_last());
        match os.last() {
            Outcome::Success { token, .. } => {
                assert(v.acknowledged + success_tokens(os) =~= (v.acknowledged + success_tokens(
                    os.drop_last(),
                )).push(token@));
            },
            Outcome::Failure { .. } => {},
        }
    } else {
        assert(v.acknowledged + success_tokens(os) =~= v.acknowledged);
    }
}

/// Collects the outcomes of one batch.
pub struct Collector {
    expected: usize,
    received: usize,
    acknowledged: Vec<String>,
    failures: Vec<ProcessError>,
    endpoints: Vec<(String, String)>,
}

pub open spec fn string_views(s: Seq<String>) -> Seq<Seq<char>> {
    s.map_values(|x: String| x@)
}

pub open spec fn pair_views(s: Seq<(String, String)>) -> Seq<(Seq<char>, Seq<char>)> {
    s.map_values(|p: (String, String)| (p.0@, p.1@))
}

impl View for Collector {
    type V = CollectorView;

    closed spec fn view(&self) -> CollectorView {
        CollectorView {
            expected: self.expected as nat,
            received: self.received as nat,
            acknowledged: string_views(self.acknowledged@),
            failures: self.failures@,
            endpoints: pair_views(self.endpoints@),
        }
    }
}

impl Collector {
    /// A collector for a batch of `expected` units.
    pub fn new(expected: usize) -> (c: Collector)
        ensures
            c@ == fresh(expected as nat),
    {
        let c = Collector {
            expected,
            received: 0,
            acknowledged: Vec::new(),
            failures: Vec::new(),
            endpoints: Vec::new(),
        };
        assert(c@.acknowledged =~= Seq::<Seq<char>>::empty());
        assert(c@.endpoints =~= Seq::<(Seq<char>, Seq<char>)>::empty());
        c
    }

    /// Every dispatched unit has reported.
    pub fn is_complete(&self) -> (r: bool)
        ensures
            r == (self@.received == self@.expected),
    {
        proof {
            reveal_view(self);
        }
        self.received == self.expected
    }

    /// The endpoint recorded for `source`, if any.
    fn endpoint_of(&self, source: &String) -> (r: Option<String>)
        ensures
            match r {
                Some(e) => cached(self@.endpoints, source@) == Some(e@),
                None => cached(self@.endpoints, source@) is None,
            },
    {
        let ghost all = pair_views(self.endpoints@);
        let mut i: usize = 0;
        assert(all.skip(0) =~= all);
        while i < self.endpoints.len()
            invariant
                i <= self.endpoints@.len(),
                all == pair_views(self.endpoints@),
                all == self@.endpoints,
                cached(all, source@) == cached(all.skip(i as int), source@),
            decreases self.endpoints@.len() - i,
        {
            assert(all.skip(i as int).drop_first() =~= all.skip(i + 1));
            assert(all.skip(i as int)[0] == all[i as int]);
            if self.endpoints[i].0 == *source {
                return Some(self.endpoints[i].1.clone());
            }
            i = i + 1;
        }
        None
    }

    /// Takes one outcome. A success is acknowledged, with the endpoint of its
    /// source when that is known; a failure is recorded and not acknowledged.
    pub fn receive(&mut self, outcome: Outcome) -> (r: Option<Acknowledge>)
        requires
            old(self)@.received < old(self)@.expected,
        ensures
            final(self)@ == step(old(self)@, outcome),
            match outcome {
                Outcome::Success { token, source } => r is Some && r->Some_0.token@ == token@
                    && r->Some_0.source@ == source@ && crate::graph::opt_view(r->Some_0.endpoint)
                    == cached(old(self)@.endpoints, source@),
                Outcome::Failure { .. } => r is None,
            },
    {
        proof {
            reveal_view(self);
        }
        match outcome {
            Outcome::Success { token, source } => {
                let endpoint = self.endpoint_of(&source);
                let ghost before = self.acknowledged@;
                self.acknowledged.push(token.clone());
                self.received = self.received + 1;
                assert(string_views(self.acknowledged@) =~= string_views(before).push(token@));
                Some(Acknowledge { token, source, endpoint })
            },
            Outcome::Failure { error } => {
                self.failures.push(error);
                self.received = self.received + 1;
                None
            },
        }
    }

    /// Records the endpoint resolved for `source`; the first one recorded for
    /// a source stays.
    pub fn remember(&mut self, source: String, endpoint: String)
        ensures
            final(self)@ == (CollectorView {
                endpoints: if cached(old(self)@.endpoints, source@) is None {
                    old(self)@.endpoints.push((source@, endpoint@))
                } else {
                    old(self)@.endpoints
                },
                ..old(self)@
            }),
    {
        proof {
            reveal_view(self);
        }
        if self.endpoint_of(&source).is_none() {
            let ghost before = self.endpoints@;
            let ghost entry = (source@, endpoint@);
            self.endpoints.push((source, endpoint));
            assert(pair_views(self.endpoints@) =~= pair_views(before).push(entry));
        }
    }

    /// The batch result, once every unit has reported: success exactly when
    /// no message failed.
    pub fn finish(self) -> (r: Result<(), BatchError>)
        requires
            self@.received == self@.expected,
        ensures
            r is Ok <==> self@.failures.len() == 0,
            r is Err ==> r->Err_0.failures@ == self@.failures,
    {
        proof {
            reveal_view(&self);
        }
        if self.failures.len() == 0 {
            Ok(())
        } else {
            Err(BatchError { failures: self.failures })
        }
    }
}

proof fn reveal_view(c: &Collector)
    ensures
        c@ == (CollectorView {
            expected: c.expected as nat,
            received: c.received as nat,
            acknowledged: string_views(c.acknowledged@),
            failures: c.failures@,
            endpoints: pair_views(c.endpoints@),
        }),
{
}

/// The name of a queue: the text after the last ':' of its ARN.
pub open spec fn queue_name(arn: Seq<char>) -> Seq<char>
    decreases arn.len(),
{
    if arn.len() == 0 {
        arn
    } else if arn.last() == ':' {
        Seq::empty()
    } else {
        queue_name(arn.drop_last()).push(arn.last())
    }
}

/// The queue name that a source ARN ends in, from which its endpoint is
/// resolved.
pub fn queue_name_from_arn(arn: &str) -> (r: String)
    ensures
        r@ == queue_name(arn@),
{
    let n = arn.unicode_len();
    let mut start: usize = n;
    while start > 0 && arn.get_char(start - 1) != ':'
        invariant
            start <= n,
            n == arn@.len(),
            forall|j: int| start <= j < n ==> arn@[j] != ':',
        decreases start,
    {
        start = start - 1;
    }
    proof {
        lemma_queue_name_suffix(arn@, start as int, n as int);
        assert(arn@.subrange(0, n as int) =~= arn@);
    }
    arn.substring_char(start, n).to_owned()
}

/// After the last ':' (or from the start, without one), a prefix of the ARN
/// ends in the same name as the characters from there.
proof fn lemma_queue_name_suffix(s: Seq<char>, start: int, end: int)
    requires
        0 <= start <= end <= s.len(),
        start == 0 || s[start - 1] == ':',
        forall|j: int| start <= j < end ==> s[j] != ':',
    ensures
        queue_name(s.subrange(0, end)) == s.subrange(start, end),
    decreases end - start,
{
    if end > start {
        lemma_queue_name_suffix(s, start, end - 1);
        assert(s.subrange(0, end).drop_last() =~= s.subrange(0, end - 1));
        assert(s.subrange(start, end) =~= s.subrange(start, end - 1).push(s[end - 1]));
    } else if start == 0 {
        assert(s.subrange(0, end) =~= Seq::<char>::empty());
        assert(s.subrange(start, end) =~= Seq::<char>::empty());
    } else {
        assert(s.subrange(0, end).last() == ':');
        assert(s.subrange(start, end) =~= Seq::<char>::empty());
    }
}

} // verus!
