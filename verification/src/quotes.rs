//! The passage catalogue: quotes bucketed by length, with random selection.
//! The catalogue is handed its quotes already decoded; only the draw of a
//! random index goes outside.

use vstd::prelude::*;

verus! {

/// A passage with its attribution.
#[derive(Debug, Clone)]
pub struct Quote {
    pub text: String,
    pub source: String,
    pub length: usize,
    pub id: usize,
}

/// A length bucket for selecting passages.
#[derive(Debug, Clone, Copy, PartialEq, Eq, Structural)]
pub enum QuoteMode {
    Short,
    Medium,
    Long,
}

/// The bounds of a bucket: a quote belongs when its recorded length is at
/// least the lower bound and strictly below the upper.
pub open spec fn spec_length_range(mode: QuoteMode) -> (usize, usize) {
    match mode {
        QuoteMode::Short => (0usize, 100usize),
        QuoteMode::Medium => (101usize, 300usize),
        QuoteMode::Long => (301usize, usize::MAX),
    }
}

/// Whether a quote falls in a bucket.
pub open spec fn in_mode(q: Quote, mode: QuoteMode) -> bool {
    spec_length_range(mode).0 <= q.length < spec_length_range(mode).1
}

/// How many of the quotes fall in the bucket.
pub open spec fn count_in_mode(qs: Seq<Quote>, mode: QuoteMode) -> nat
    decreases qs.len(),
{
    if qs.len() == 0 {
        0
    } else {
        count_in_mode(qs.drop_last(), mode) + (if in_mode(qs.last(), mode) {
            1nat
        } else {
            0nat
        })
    }
}

/// The position of the first quote carrying `id`, or the length if none does.
pub open spec fn first_with_id(qs: Seq<Quote>, id: usize) -> int
    decreases qs.len(),
{
    if qs.len() == 0 {
        0
    } else if qs[0].id == id {
        0
    } else {
        1 + first_with_id(qs.drop_first(), id)
    }
}

/// The first position carrying `id` lies in the sequence, bears `id`, and
/// nothing before it does; when no position bears `id` it is the length.
pub proof fn lemma_first_with_id(qs: Seq<Quote>, id: usize)
    ensures
        0 <= first_with_id(qs, id) <= qs.len(),
        first_with_id(qs, id) < qs.len() ==> qs[first_with_id(qs, id)].id == id,
        forall|m: int| 0 <= m < first_with_id(qs, id) ==> qs[m].id != id,
    decreases qs.len(),
{
    if qs.len() > 0 && qs[0].id != id {
        lemma_first_with_id(qs.drop_first(), id);
        assert forall|m: int| 0 <= m < first_with_id(qs, id) implies qs[m].id != id by {
            if m > 0 {
                assert(qs[m] == qs.drop_first()[m - 1]);
            }
        }
    }
}

impl QuoteMode {
    /// The `[min, max)` length range of this bucket.
    pub fn length_range(&self) -> (r: (usize, usize))
        ensures
            r == spec_length_range(*self),
    {
        match self {
            QuoteMode::Short => (0, 100),
            QuoteMode::Medium => (101, 300),
            QuoteMode::Long => (301, usize::MAX),
        }
    }

    /// The next bucket in the cycle: short, medium, long, and around again.
    pub fn cycle(&self) -> (r: QuoteMode)
        ensures
            r == (match *self {
                QuoteMode::Short => QuoteMode::Medium,
                QuoteMode::Medium => QuoteMode::Long,
                QuoteMode::Long => QuoteMode::Short,
            }),
    {
        match self {
            QuoteMode::Short => QuoteMode::Medium,
            QuoteMode::Medium => QuoteMode::Long,
            QuoteMode::Long => QuoteMode::Short,
        }
    }
}

/// Relies on rand::random_range (Rng::random_range on the thread-local
/// generator): a sample from `0..n` is uniformly distributed in that range,
/// so strictly below `n`; the call panics on an empty range, which `n >= 1`
/// rules out.
#[verifier::external_body]
fn random_below(n: usize) -> (r: usize)
    requires
        n >= 1,
    ensures
        r < n,
{
    rand::random_range(0..n)
}

/// Holds the decoded quote catalogue and answers selection queries.
pub struct QuoteManager {
    quotes: Vec<Quote>,
}

impl QuoteManager {
    /// The catalogue's quotes, in order.
    pub closed spec fn spec_quotes(&self) -> Seq<Quote> {
        self.quotes@
    }

    /// Build the catalogue from already-decoded quotes.
    pub fn new(quotes: Vec<Quote>) -> (r: Self)
        ensures
            r.spec_quotes() == quotes@,
    {
        Self { quotes }
    }

    /// A uniformly random quote from the requested bucket, or `None` when
    /// the bucket is empty.
    pub fn get_random_quote(&self, mode: QuoteMode) -> (r: Option<&Quote>)
        ensures
            r is Some <==> exists|k: int|
                0 <= k < self.spec_quotes().len() && in_mode(#[trigger] self.spec_quotes()[k], mode),
            r matches Some(q) ==> in_mode(*q, mode) && exists|k: int|
                0 <= k < self.spec_quotes().len() && #[trigger] self.spec_quotes()[k] == *q,
    {
        let mut candidates: Vec<usize> = Vec::new();
        let mut i: usize = 0;
        let n = self.quotes.len();
        let (min, max) = match mode {
            QuoteMode::Short => (0, 100),
            QuoteMode::Medium => (101, 300),
            QuoteMode::Long => (301, usize::MAX),
        };
        while i < n
            invariant
                n == self.quotes@.len(),
                (min, max) == spec_length_range(mode),
                i <= n,
                forall|c: int|
                    0 <= c < candidates@.len() ==> #[trigger] candidates@[c] < n && in_mode(
                        self.quotes@[candidates@[c] as int],
                        mode,
                    ),
                candidates@.len() > 0 <==> exists|k: int|
                    0 <= k < i && in_mode(#[trigger] self.quotes@[k], mode),
            decreases n - i,
        {
            let q = &self.quotes[i];
            if q.length >= min && q.length < max {
                candidates.push(i);
            }
            i = i + 1;
        }
        if candidates.len() == 0 {
            return None;
        }
        let pick = random_below(candidates.len());
        let idx = candidates[pick];
        proof {
            assert(candidates@[pick as int] < n && in_mode(
                self.quotes@[candidates@[pick as int] as int],
                mode,
            ));
        }
        let chosen = &self.quotes[idx];
        proof {
            assert(self.spec_quotes()[idx as int] == *chosen);
        }
        Some(chosen)
    }

    /// The first quote carrying `id`, or `None` when no quote does.
    pub fn get_quote_by_id(&self, id: usize) -> (r: Option<&Quote>)
        ensures
            first_with_id(self.spec_quotes(), id) < self.spec_quotes().len() ==> (r matches Some(q)
                && *q == self.spec_quotes()[first_with_id(self.spec_quotes(), id)]),
            first_with_id(self.spec_quotes(), id) == self.spec_quotes().len() ==> r is None,
    {
        proof {
            lemma_first_with_id(self.quotes@, id);
        }
        let mut i: usize = 0;
        let n = self.quotes.len();
        while i < n
            invariant
                n == self.quotes@.len(),
                i <= n,
                forall|m: int| 0 <= m < i ==> #[trigger] self.quotes@[m].id != id,
                i <= first_with_id(self.quotes@, id),
            decreases n - i,
        {
            if self.quotes[i].id == id {
                proof {
                    lemma_first_with_id(self.quotes@, id);
                }
                return Some(&self.quotes[i]);
            }
            i = i + 1;
            proof {
                lemma_first_with_id(self.quotes@, id);
            }
        }
        None
    }

    /// How many quotes the bucket holds.
    pub fn count_by_mode(&self, mode: QuoteMode) -> (r: usize)
        ensures
            r == count_in_mode(self.spec_quotes(), mode),
    {
        let (min, max) = match mode {
            QuoteMode::Short => (0, 100),
            QuoteMode::Medium => (101, 300),
            QuoteMode::Long => (301, usize::MAX),
        };
        let mut count: usize = 0;
        let mut i: usize = 0;
        let n = self.quotes.len();
        while i < n
            invariant
                n == self.quotes@.len(),
                (min, max) == spec_length_range(mode),
                i <= n,
                count == count_in_mode(self.quotes@.take(i as int), mode),
                count <= i,
            decreases n - i,
        {
            proof {
                assert(self.quotes@.take(i + 1).drop_last() =~= self.quotes@.take(i as int));
                assert(self.quotes@.take(i + 1).last() == self.quotes@[i as int]);
            }
            let q = &self.quotes[i];
            if q.length >= min && q.length < max {
                count = count + 1;
            }
            i = i + 1;
        }
        proof {
            assert(self.quotes@.take(n as int) =~= self.quotes@);
        }
        count
    }
}

} // verus!
