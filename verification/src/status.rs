//! The rotating-status strategy: a non-empty sequence of status codes and a
//! fetch-and-increment counter. The counter value taken by a request, modulo
//! the sequence length, selects the code that request answers with.

use vstd::prelude::*;
use vstd::arithmetic::div_mod::lemma_add_mod_noop;
use vstd::arithmetic::div_mod::lemma_mod_bound;
use vstd::arithmetic::div_mod::lemma_mod_sub_multiples_vanish;
use vstd::arithmetic::div_mod::lemma_small_mod;
use vstd::seq_lib::lemma_multiset_commutative;
use crate::config::ConfigError;
use crate::response::Response;

verus! {

/// The code used when no status codes are given on the command line.
pub const DEFAULT_STATUS: u16 = 200;

/// The accepted range of a configured status code.
pub open spec fn valid_code(c: u16) -> bool {
    1 <= c <= 599
}

/// An ordered, non-empty sequence of status codes, immutable once built.
pub struct StatusSequence {
    codes: Vec<u16>,
}

impl View for StatusSequence {
    type V = Seq<u16>;

    closed spec fn view(&self) -> Seq<u16> {
        self.codes@
    }
}

/// The code a request answers with when it takes the given counter value:
/// the entry at the counter modulo the sequence length.
pub open spec fn spec_code_at(s: Seq<u16>, counter: nat) -> u16
    recommends
        0 < s.len(),
{
    s[(counter % s.len()) as int]
}

impl StatusSequence {
    /// Non-empty, and every entry within the accepted range.
    pub open spec fn wf(&self) -> bool {
        &&& 0 < self@.len()
        &&& forall|i: int| 0 <= i < self@.len() ==> valid_code(self@[i])
    }

    /// Build the sequence from the configured codes. An empty configuration
    /// falls back to the single default code, so the sequence is never empty;
    /// a code outside the accepted range is a configuration error.
    pub fn new(codes: Vec<u16>) -> (r: Result<StatusSequence, ConfigError>)
        ensures
            (forall|i: int| 0 <= i < codes@.len() ==> valid_code(codes@[i])) <==> r is Ok,
            r matches Ok(s) ==> s.wf(),
            r matches Ok(s) ==> (codes@.len() > 0 ==> s@ == codes@) && (codes@.len() == 0
                ==> s@ =~= seq![DEFAULT_STATUS]),
            r is Err ==> r == Err::<StatusSequence, ConfigError>(ConfigError::InvalidStatusCode),
    {
        let n = codes.len();
        for i in 0..n
            invariant
                n == codes@.len(),
                forall|j: int| 0 <= j < i ==> valid_code(codes@[j]),
        {
            let c = codes[i];
            if c < 1 || c > 599 {
                return Err(ConfigError::InvalidStatusCode);
            }
        }
        if codes.len() == 0 {
            let mut one: Vec<u16> = Vec::new();
            one.push(DEFAULT_STATUS);
            Ok(StatusSequence { codes: one })
        } else {
            Ok(StatusSequence { codes })
        }
    }

    /// How many codes the rotation cycles through.
    pub fn len(&self) -> (n: usize)
        ensures
            n == self@.len(),
    {
        self.codes.len()
    }

    /// Whether the sequence upholds its invariant. The constructor only ever
    /// hands out well-formed sequences; an unverified caller can still test
    /// the condition before entering the request path.
    pub fn is_well_formed(&self) -> (b: bool)
        ensures
            b == self.wf(),
    {
        let n = self.codes.len();
        if n == 0 {
            return false;
        }
        for i in 0..n
            invariant
                n == self.codes@.len(),
                forall|j: int| 0 <= j < i ==> valid_code(self.codes@[j]),
        {
            let c = self.codes[i];
            if c < 1 || c > 599 {
                return false;
            }
        }
        true
    }

    /// The code selected by one counter value.
    pub fn code_at(&self, counter: usize) -> (r: u16)
        requires
            self.wf(),
        ensures
            r == spec_code_at(self@, counter as nat),
            valid_code(r),
    {
        let idx = counter % self.codes.len();
        self.codes[idx]
    }
}

/// The shared rotation counter: each request takes its current value and
/// steps it by one, wrapping only at the machine limit. No value is skipped
/// and none is handed out twice within one machine-word cycle.
pub struct RotationCounter {
    value: usize,
}

impl RotationCounter {
    /// The counter's current value.
    pub closed spec fn spec_value(&self) -> nat {
        self.value as nat
    }

    /// A fresh counter, starting at zero.
    pub fn new() -> (c: RotationCounter)
        ensures
            c.spec_value() == 0,
    {
        RotationCounter { value: 0 }
    }

    /// The counter always fits a machine word, so exactly one arm of
    /// `fetch_increment`'s wrap alternative applies to any counter a caller
    /// holds.
    pub proof fn lemma_value_bounded(&self)
        ensures
            self.spec_value() <= usize::MAX,
    {
    }

    /// Take the current value and step the counter by one. This is the
    /// sequential face of an atomic fetch-and-increment: the caller owns the
    /// counter exclusively for the duration of the call.
    pub fn fetch_increment(&mut self) -> (prev: usize)
        ensures
            prev as nat == old(self).spec_value(),
            old(self).spec_value() < usize::MAX ==> final(self).spec_value() == old(
                self,
            ).spec_value() + 1,
            old(self).spec_value() == usize::MAX ==> final(self).spec_value() == 0,
    {
        let prev = self.value;
        self.value = if self.value == usize::MAX {
            0
        } else {
            self.value + 1
        };
        prev
    }
}

/// Answer one request in status mode, given the counter value that request
/// took: the selected code on the status line and an empty body. No failure
/// path exists once the sequence is built.
pub fn status_response(seq: &StatusSequence, counter: usize) -> (r: Response)
    requires
        seq.wf(),
    ensures
        r.status == spec_code_at(seq@, counter as nat),
        r.body@ =~= Seq::<u8>::empty(),
{
    Response::status_only(seq.code_at(counter))
}

/// Answer one request in status mode and advance the shared counter, as a
/// single step: the response carries the code selected by the counter value
/// this request took.
pub fn next_status(seq: &StatusSequence, counter: &mut RotationCounter) -> (r: Response)
    requires
        seq.wf(),
    ensures
        r.status == spec_code_at(seq@, old(counter).spec_value()),
        r.body@ =~= Seq::<u8>::empty(),
        old(counter).spec_value() < usize::MAX ==> final(counter).spec_value() == old(
            counter,
        ).spec_value() + 1,
        old(counter).spec_value() == usize::MAX ==> final(counter).spec_value() == 0,
{
    let prev = counter.fetch_increment();
    status_response(seq, prev)
}

/// The codes served, in counter order, by `n` successive counter values
/// starting at `k`.
pub open spec fn served_window(s: Seq<u16>, k: nat, n: nat) -> Seq<u16>
    decreases n,
{
    if n == 0 {
        Seq::empty()
    } else {
        served_window(s, k, (n - 1) as nat).push(spec_code_at(s, (k + n - 1) as nat))
    }
}

/// Round-robin coverage: the window served by `n` successive counter values
/// starting at `k` is, entry for entry, the sequence walked onward from
/// index `k` modulo its length. Since every request takes exactly one
/// counter value, the multiset of codes that `n` requests receive is the
/// multiset of this window, whatever order the requests complete in.
pub proof fn lemma_round_robin_window(s: Seq<u16>, k: nat, n: nat)
    requires
        0 < s.len(),
    ensures
        served_window(s, k, n).len() == n,
        forall|i: int|
            0 <= i < n ==> served_window(s, k, n)[i] == s[(((k + i) as nat) % s.len()) as int],
    decreases n,
{
    if n > 0 {
        lemma_round_robin_window(s, k, (n - 1) as nat);
    }
}

/// The multiset form of round-robin coverage: the codes served by `n`
/// successive counter values starting at `k` are exactly the entries at
/// indices `k`, `k + 1`, ..., `k + n - 1` modulo the length, as a multiset.
pub proof fn lemma_window_multiset(s: Seq<u16>, k: nat, n: nat)
    ensures
        0 < s.len() ==> served_window(s, k, n).to_multiset() == Seq::new(
            n,
            |i: int| spec_code_at(s, (k + i) as nat),
        ).to_multiset(),
{
    if 0 < s.len() {
        lemma_round_robin_window(s, k, n);
        assert(served_window(s, k, n) =~= Seq::new(n, |i: int| spec_code_at(s, (k + i) as nat)));
    }
}

/// One full cycle serves every code exactly once: the multiset of codes
/// served by `s.len()` successive counter values is the multiset of the
/// sequence itself, wherever in the rotation the cycle starts.
pub proof fn lemma_full_cycle_serves_all(s: Seq<u16>, k: nat)
    requires
        0 < s.len(),
    ensures
        served_window(s, k, s.len()).to_multiset() == s.to_multiset(),
{
    broadcast use vstd::multiset::group_multiset_axioms;

    let len = s.len() as int;
    let m = (k % s.len()) as int;
    lemma_mod_bound(k as int, len);
    lemma_round_robin_window(s, k, s.len());
    let w = served_window(s, k, s.len());
    let rot = s.skip(m) + s.take(m);
    assert forall|i: int| 0 <= i < len implies w[i] == rot[i] by {
        lemma_add_mod_noop(k as int, i, len);
        lemma_small_mod(i as nat, s.len());
        if m + i < len {
            lemma_small_mod((m + i) as nat, s.len());
        } else {
            lemma_mod_sub_multiples_vanish(m + i, len);
            lemma_small_mod((m + i - len) as nat, s.len());
        }
    }
    assert(w =~= rot);
    lemma_multiset_commutative(s.skip(m), s.take(m));
    lemma_multiset_commutative(s.take(m), s.skip(m));
    assert(s.skip(m).to_multiset().add(s.take(m).to_multiset()) =~= s.take(m).to_multiset().add(
        s.skip(m).to_multiset(),
    ));
    assert(s.take(m) + s.skip(m) =~= s);
}

/// Within one full cycle of the sequence, successive counter values select
/// pairwise distinct indices: modulo-cycling repeats no index and skips none
/// until the whole sequence has been walked once.
pub proof fn lemma_distinct_within_cycle(s: Seq<u16>, k: nat, i: nat, j: nat)
    requires
        0 < s.len(),
        i < j,
        j - i < s.len(),
    ensures
        (k + i) % s.len() != (k + j) % s.len(),
{
    let len = s.len() as int;
    let a = (k + i) as int;
    let d = (j - i) as int;
    let m = a % len;
    lemma_mod_bound(a, len);
    lemma_add_mod_noop(a, d, len);
    lemma_small_mod((j - i) as nat, s.len());
    if m + d < len {
        lemma_small_mod((m + d) as nat, s.len());
    } else {
        lemma_mod_sub_multiples_vanish(m + d, len);
        lemma_small_mod((m + d - len) as nat, s.len());
    }
}

/// A single-code sequence answers every request with that one code,
/// whatever value the counter holds.
pub proof fn lemma_single_code(s: Seq<u16>, k: nat)
    requires
        s.len() == 1,
    ensures
        spec_code_at(s, k) == s[0],
{
    lemma_mod_bound(k as int, 1);
}

} // verus!
