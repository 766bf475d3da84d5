//! The token-by-token generation loop: accumulate detokenized pieces, cap
//! emission at the request's token budget, stop and truncate on stop
//! substrings, and hand each emitted piece to the caller in order.
//!
//! The native runtime produces the pieces; this module owns every decision
//! the loop makes about them.

use vstd::prelude::*;
use vstd::string::StrSliceExecFns;
use vstd::string::StringExecFns;
use crate::engine::GenOptions;
use crate::strutil::{
    match_at, contains_seq, spec_find, lemma_spec_find_from, lemma_spec_find_contains,
    str_index_of, str_contains,
};

verus! {

/// The stop substrings of a request, as sequences.
pub open spec fn spec_stops(opts: GenOptions) -> Seq<Seq<char>> {
    opts.stop_tokens.deep_view()
}

/// Some stop substring occurs in `out`.
pub open spec fn spec_any_stop(out: Seq<char>, stops: Seq<Seq<char>>) -> bool {
    exists|k: int| 0 <= k < stops.len() && contains_seq(out, stops[k])
}

/// Index of the first stop substring, in list order at or after `k`, that is
/// contained in `out`; -1 when none is.
pub open spec fn spec_matched_stop_from(out: Seq<char>, stops: Seq<Seq<char>>, k: int) -> int
    decreases stops.len() + 1 - k,
{
    if k < 0 || k >= stops.len() {
        -1
    } else if contains_seq(out, stops[k]) {
        k
    } else {
        spec_matched_stop_from(out, stops, k + 1)
    }
}

/// Index of the first stop substring (in list order) contained in `out`, or -1.
pub open spec fn spec_matched_stop(out: Seq<char>, stops: Seq<Seq<char>>) -> int {
    spec_matched_stop_from(out, stops, 0)
}

pub proof fn lemma_spec_matched_stop_from(out: Seq<char>, stops: Seq<Seq<char>>, k: int)
    requires
        0 <= k,
    ensures
        ({
            let r = spec_matched_stop_from(out, stops, k);
            &&& -1 <= r < stops.len()
            &&& (r == -1 ==> forall|j: int| k <= j < stops.len() ==> !contains_seq(out, stops[j]))
            &&& (r >= 0 ==> k <= r && contains_seq(out, stops[r]) && forall|j: int|
                k <= j < r ==> !contains_seq(out, stops[j]))
        }),
    decreases stops.len() + 1 - k,
{
    if k >= stops.len() {
    } else if contains_seq(out, stops[k]) {
    } else {
        lemma_spec_matched_stop_from(out, stops, k + 1);
    }
}

/// The first matched stop characterizes whether any stop occurs.
pub proof fn lemma_matched_stop_any(out: Seq<char>, stops: Seq<Seq<char>>)
    ensures
        (spec_matched_stop(out, stops) >= 0) == spec_any_stop(out, stops),
{
    lemma_spec_matched_stop_from(out, stops, 0);
    let r = spec_matched_stop(out, stops);
    if r == -1 && spec_any_stop(out, stops) {
        let k = choose|k: int| 0 <= k < stops.len() && contains_seq(out, stops[k]);
        assert(!contains_seq(out, stops[k]));
    }
}

/// The output after stop truncation: everything before the earliest
/// occurrence of the first matched stop substring.
pub open spec fn spec_truncated(t: Seq<char>, stops: Seq<Seq<char>>) -> Seq<char> {
    let k = spec_matched_stop(t, stops);
    let p = spec_find(t, stops[k]);
    t.subrange(0, p)
}

/// One generation from a sequence of pieces the model would emit: the final
/// output, the deltas handed to the callback in order, and whether a stop
/// substring ended the run.
pub open spec fn spec_gen(
    pieces: Seq<Seq<char>>,
    out: Seq<char>,
    count: int,
    max: int,
    stops: Seq<Seq<char>>,
) -> (Seq<char>, Seq<Seq<char>>, bool)
    decreases pieces.len(),
{
    if count >= max || pieces.len() == 0 {
        (out, Seq::empty(), false)
    } else {
        let t = out + pieces[0];
        if spec_any_stop(t, stops) {
            (spec_truncated(t, stops), Seq::empty(), true)
        } else {
            let rest = spec_gen(pieces.drop_first(), t, count + 1, max, stops);
            (rest.0, seq![pieces[0]] + rest.1, rest.2)
        }
    }
}

/// Find the first stop substring of the request (in list order) contained in
/// `out`.
fn first_contained_stop(out: &str, stops: &Vec<String>) -> (r: Option<usize>)
    ensures
        match r {
            Some(k) => k < stops.len() && k as int == spec_matched_stop(out@, stops.deep_view())
                && contains_seq(out@, stops.deep_view()[k as int]),
            None => spec_matched_stop(out@, stops.deep_view()) == -1 && !spec_any_stop(
                out@,
                stops.deep_view(),
            ),
        },
{
    let n = stops.len();
    let mut k: usize = 0;
    while k < n
        invariant
            n == stops.len(),
            k <= n,
            forall|j: int| 0 <= j < k ==> !contains_seq(out@, stops.deep_view()[j]),
        decreases n - k,
    {
        if str_contains(out, stops[k].as_str()) {
            proof {
                assert(stops.deep_view()[k as int] == stops@[k as int]@);
                lemma_spec_matched_stop_from(out@, stops.deep_view(), 0);
                let r = spec_matched_stop(out@, stops.deep_view());
                if r >= 0 && r < k as int {
                    assert(contains_seq(out@, stops.deep_view()[r]));
                }
            }
            return Some(k);
        }
        k += 1;
    }
    proof {
        lemma_spec_matched_stop_from(out@, stops.deep_view(), 0);
        lemma_matched_stop_any(out@, stops.deep_view());
    }
    None
}

/// The running state of one generation: the accumulated output, how many
/// pieces have been emitted to the callback, and whether the run has ended
/// (and if so, whether a stop substring ended it).
pub struct GenState {
    /// Accumulated output.
    pub out: String,
    /// Pieces emitted to the callback so far.
    pub emitted: usize,
    /// The run has ended (end-of-generation marker or stop substring).
    pub finished: bool,
    /// The run ended because a stop substring appeared.
    pub stopped: bool,
}

impl GenState {
    /// Fresh state: empty output, nothing emitted, still running.
    pub fn new() -> (s: Self)
        ensures
            s.out@ == Seq::<char>::empty(),
            s.emitted == 0,
            !s.finished,
            !s.stopped,
    {
        GenState { out: String::new(), emitted: 0, finished: false, stopped: false }
    }

    /// The loop should ask the model for another token: the run has not
    /// ended and the token budget is not exhausted.
    pub fn wants_more(&self, opts: &GenOptions) -> (b: bool)
        ensures
            b == (!self.finished && self.emitted < opts.max_tokens),
    {
        !self.finished && self.emitted < opts.max_tokens
    }

    /// The model produced its end-of-generation marker: the run ends with
    /// the output as it stands.
    pub fn finish_eog(&mut self)
        ensures
            final(self).out == old(self).out,
            final(self).emitted == old(self).emitted,
            final(self).finished,
            final(self).stopped == old(self).stopped,
    {
        self.finished = true;
    }

    /// One loop step on a freshly detokenized piece. The piece is appended;
    /// if a stop substring now occurs in the output, the output is cut at
    /// the earliest occurrence of the first matched stop and the run ends
    /// with nothing handed to the callback; otherwise the piece itself is
    /// the delta to hand to the callback, before any further piece is
    /// accepted.
    pub fn accept_piece(&mut self, piece: &str, opts: &GenOptions) -> (r: Option<String>)
        requires
            !old(self).finished,
            !old(self).stopped,
            old(self).emitted < opts.max_tokens,
        ensures
            ({
                let t = old(self).out@ + piece@;
                let stops = spec_stops(*opts);
                &&& final(self).stopped == spec_any_stop(t, stops)
                &&& final(self).finished == spec_any_stop(t, stops)
                &&& (spec_any_stop(t, stops) ==> {
                    &&& final(self).out@ == spec_truncated(t, stops)
                    &&& final(self).emitted == old(self).emitted
                    &&& r is None
                })
                &&& (!spec_any_stop(t, stops) ==> {
                    &&& final(self).out@ == t
                    &&& final(self).emitted == old(self).emitted + 1
                    &&& (r matches Some(d) && d@ == piece@)
                })
            }),
    {
        self.out.append(piece);
        let ghost t = self.out@;
        let ghost stops = spec_stops(*opts);
        match first_contained_stop(self.out.as_str(), &opts.stop_tokens) {
            Some(k) => {
                proof {
                    assert(stops[k as int] == opts.stop_tokens@[k as int]@);
                    lemma_matched_stop_any(t, stops);
                    lemma_spec_find_contains(t, stops[k as int]);
                }
                let p: usize = match str_index_of(self.out.as_str(), opts.stop_tokens[k].as_str()) {
                    Some(p) => p,
                    None => vstd::pervasive::unreached(),
                };
                let truncated = String::from_str(self.out.as_str().substring_char(0, p));
                self.out = truncated;
                self.finished = true;
                self.stopped = true;
                None
            },
            None => {
                proof {
                    lemma_matched_stop_any(t, stops);
                }
                self.emitted = self.emitted + 1;
                Some(String::from_str(piece))
            },
        }
    }
}

/// Emission is capped: the callback receives at most `max - count` deltas,
/// and they are exactly the first pieces, verbatim and in order.
pub proof fn lemma_gen_deltas(
    pieces: Seq<Seq<char>>,
    out: Seq<char>,
    count: int,
    max: int,
    stops: Seq<Seq<char>>,
)
    ensures
        ({
            let g = spec_gen(pieces, out, count, max, stops);
            &&& g.1.len() <= (if max - count >= 0 {
                max - count
            } else {
                0
            })
            &&& g.1.len() <= pieces.len()
            &&& g.1 == pieces.take(g.1.len() as int)
        }),
    decreases pieces.len(),
{
    let g = spec_gen(pieces, out, count, max, stops);
    if count >= max || pieces.len() == 0 {
        assert(g.1 =~= pieces.take(0));
    } else {
        let t = out + pieces[0];
        if spec_any_stop(t, stops) {
            assert(g.1 =~= pieces.take(0));
        } else {
            lemma_gen_deltas(pieces.drop_first(), t, count + 1, max, stops);
            let rest = spec_gen(pieces.drop_first(), t, count + 1, max, stops);
            assert(rest.1 == pieces.drop_first().take(rest.1.len() as int));
            assert(g.1 =~= pieces.take(g.1.len() as int));
        }
    }
}

/// Callback-order law: when no stop substring ends the run, concatenating
/// the deltas handed to the callback, in order, gives exactly what the run
/// appended to the output.
pub proof fn lemma_callback_concat(
    pieces: Seq<Seq<char>>,
    out: Seq<char>,
    count: int,
    max: int,
    stops: Seq<Seq<char>>,
)
    ensures
        ({
            let g = spec_gen(pieces, out, count, max, stops);
            !g.2 ==> g.0 == out + g.1.flatten()
        }),
    decreases pieces.len(),
{
    let g = spec_gen(pieces, out, count, max, stops);
    if count >= max || pieces.len() == 0 {
        assert(out + Seq::<Seq<char>>::empty().flatten() =~= out);
    } else {
        let t = out + pieces[0];
        if !spec_any_stop(t, stops) {
            lemma_callback_concat(pieces.drop_first(), t, count + 1, max, stops);
            let rest = spec_gen(pieces.drop_first(), t, count + 1, max, stops);
            if !rest.2 {
                let d = seq![pieces[0]] + rest.1;
                assert(d.drop_first() =~= rest.1);
                assert(d.flatten() == d.first() + d.drop_first().flatten());
                assert(out + d.flatten() =~= (out + pieces[0]) + rest.1.flatten());
            }
        }
    }
}

/// Nothing past a stop reaches the callback: if the starting output holds no
/// stop substring, then neither does the concatenation of everything handed
/// to the callback.
pub proof fn lemma_deltas_clean(
    pieces: Seq<Seq<char>>,
    out: Seq<char>,
    count: int,
    max: int,
    stops: Seq<Seq<char>>,
)
    requires
        !spec_any_stop(out, stops),
    ensures
        ({
            let g = spec_gen(pieces, out, count, max, stops);
            !spec_any_stop(out + g.1.flatten(), stops)
        }),
    decreases pieces.len(),
{
    let g = spec_gen(pieces, out, count, max, stops);
    if count >= max || pieces.len() == 0 {
        assert(out + Seq::<Seq<char>>::empty().flatten() =~= out);
    } else {
        let t = out + pieces[0];
        if spec_any_stop(t, stops) {
            assert(out + Seq::<Seq<char>>::empty().flatten() =~= out);
        } else {
            lemma_deltas_clean(pieces.drop_first(), t, count + 1, max, stops);
            let rest = spec_gen(pieces.drop_first(), t, count + 1, max, stops);
            let d = seq![pieces[0]] + rest.1;
            assert(d.drop_first() =~= rest.1);
            assert(d.flatten() == d.first() + d.drop_first().flatten());
            assert(out + d.flatten() =~= t + rest.1.flatten());
        }
    }
}

/// With a single, non-empty stop substring, truncation removes it entirely:
/// the returned output contains no occurrence of it, and is a prefix of the
/// accumulated text.
pub proof fn lemma_single_stop_truncated(t: Seq<char>, stops: Seq<Seq<char>>)
    requires
        stops.len() == 1,
        stops[0].len() > 0,
        spec_any_stop(t, stops),
    ensures
        !contains_seq(spec_truncated(t, stops), stops[0]),
        spec_truncated(t, stops).is_prefix_of(t),
{
    lemma_matched_stop_any(t, stops);
    lemma_spec_matched_stop_from(t, stops, 0);
    let k = spec_matched_stop(t, stops);
    assert(k == 0);
    lemma_spec_find_from(t, stops[0], 0);
    lemma_spec_find_contains(t, stops[0]);
    let p = spec_find(t, stops[0]);
    assert(p >= 0);
    let tr = t.subrange(0, p);
    assert(tr.is_prefix_of(t));
    if contains_seq(tr, stops[0]) {
        let q = choose|q: int| match_at(tr, stops[0], q);
        assert(match_at(t, stops[0], q)) by {
            assert(tr.subrange(q, q + stops[0].len() as int) =~= t.subrange(
                q,
                q + stops[0].len() as int,
            ));
        }
        assert(!match_at(t, stops[0], q));
    }
}

/// The returned output never goes past the delivered deltas and the one
/// piece whose arrival triggered the stop.
pub proof fn lemma_output_prefix(
    pieces: Seq<Seq<char>>,
    out: Seq<char>,
    count: int,
    max: int,
    stops: Seq<Seq<char>>,
)
    ensures
        ({
            let g = spec_gen(pieces, out, count, max, stops);
            g.2 ==> g.1.len() < pieces.len() && g.0.is_prefix_of(
                out + g.1.flatten() + pieces[g.1.len() as int],
            )
        }),
    decreases pieces.len(),
{
    let g = spec_gen(pieces, out, count, max, stops);
    if count >= max || pieces.len() == 0 {
    } else {
        let t = out + pieces[0];
        if spec_any_stop(t, stops) {
            lemma_matched_stop_any(t, stops);
            lemma_spec_matched_stop_from(t, stops, 0);
            let k = spec_matched_stop(t, stops);
            lemma_spec_find_contains(t, stops[k]);
            let p = spec_find(t, stops[k]);
            assert(p >= 0);
            assert(out + Seq::<Seq<char>>::empty().flatten() + pieces[0] =~= t);
            assert(g.0.is_prefix_of(t));
        } else {
            lemma_output_prefix(pieces.drop_first(), t, count + 1, max, stops);
            let rest = spec_gen(pieces.drop_first(), t, count + 1, max, stops);
            if rest.2 {
                let d = seq![pieces[0]] + rest.1;
                assert(d.drop_first() =~= rest.1);
                assert(d.flatten() == d.first() + d.drop_first().flatten());
                assert(pieces[d.len() as int] == pieces.drop_first()[rest.1.len() as int]);
                assert(out + d.flatten() + pieces[d.len() as int] =~= t + rest.1.flatten()
                    + pieces.drop_first()[rest.1.len() as int]);
            }
        }
    }
}

/// One stage of the sampler chain, with fractional parameters carried in
/// thousandths.
#[derive(Debug, Clone, Copy, PartialEq, Eq, Structural)]
pub enum SamplerStage {
    /// Temperature scaling.
    Temperature(u32),
    /// Nucleus sampling, keeping at least `min_keep` candidates.
    TopP { milli: u32, min_keep: u32 },
    /// Top-k cutoff.
    TopK(i32),
    /// Repetition penalty over the last `last_n` tokens, with frequency and
    /// presence penalties in thousandths.
    Penalties { last_n: i32, freq_milli: u32, presence_milli: u32, penalty_milli: u32 },
    /// Greedy terminal selection.
    Greedy,
}

/// The sampler chain for a request, in its fixed order: temperature, top-p
/// with minimum-keep one, top-k, repeat penalty over a 64-token window with
/// zero frequency and presence penalties, then greedy terminal selection.
pub fn sampler_plan(opts: &GenOptions) -> (v: Vec<SamplerStage>)
    ensures
        v@ == seq![
            SamplerStage::Temperature(opts.temperature_milli),
            SamplerStage::TopP { milli: opts.top_p_milli, min_keep: 1 },
            SamplerStage::TopK(opts.top_k),
            (SamplerStage::Penalties {
                last_n: 64,
                freq_milli: 0,
                presence_milli: 0,
                penalty_milli: opts.repeat_penalty_milli,
            }),
            SamplerStage::Greedy,
        ],
{
    let mut v: Vec<SamplerStage> = Vec::new();
    v.push(SamplerStage::Temperature(opts.temperature_milli));
    v.push(SamplerStage::TopP { milli: opts.top_p_milli, min_keep: 1 });
    v.push(SamplerStage::TopK(opts.top_k));
    v.push(
        SamplerStage::Penalties {
            last_n: 64,
            freq_milli: 0,
            presence_milli: 0,
            penalty_milli: opts.repeat_penalty_milli,
        },
    );
    v.push(SamplerStage::Greedy);
    proof {
        assert(v@ =~= seq![
            SamplerStage::Temperature(opts.temperature_milli),
            SamplerStage::TopP { milli: opts.top_p_milli, min_keep: 1 },
            SamplerStage::TopK(opts.top_k),
            (SamplerStage::Penalties {
                last_n: 64,
                freq_milli: 0,
                presence_milli: 0,
                penalty_milli: opts.repeat_penalty_milli,
            }),
            SamplerStage::Greedy,
        ]);
    }
    v
}

/// Which positions of the initial prompt batch request logits: only the
/// last one, to bound compute.
pub fn prompt_logits_flags(n_prompt_tokens: usize) -> (v: Vec<bool>)
    ensures
        v@.len() == n_prompt_tokens,
        forall|i: int| 0 <= i < n_prompt_tokens ==> v@[i] == (i == n_prompt_tokens - 1),
{
    let mut v: Vec<bool> = Vec::new();
    let mut i: usize = 0;
    while i < n_prompt_tokens
        invariant
            i <= n_prompt_tokens,
            v@.len() == i,
            forall|j: int| 0 <= j < i ==> v@[j] == (j == n_prompt_tokens - 1),
        decreases n_prompt_tokens - i,
    {
        v.push(i == n_prompt_tokens - 1);
        i += 1;
    }
    v
}

/// The result of one whole generation: the returned output, the deltas
/// handed to the callback in order, and whether a stop substring ended it.
pub struct GenRun {
    pub output: String,
    pub deltas: Vec<String>,
    pub stopped: bool,
}

/// Drive one whole generation over the pieces the model would emit, in
/// order. The run ends at the token budget, at a stop substring, or when the
/// pieces run out (the model's end-of-generation marker).
pub fn run_generation(pieces: &Vec<String>, opts: &GenOptions) -> (r: GenRun)
    ensures
        ({
            let g = spec_gen(
                pieces.deep_view(),
                Seq::<char>::empty(),
                0,
                opts.max_tokens as int,
                spec_stops(*opts),
            );
            &&& r.output@ == g.0
            &&& r.deltas.deep_view() == g.1
            &&& r.stopped == g.2
        }),
{
    let ghost full = pieces.deep_view();
    let ghost stops = spec_stops(*opts);
    let ghost max = opts.max_tokens as int;
    let ghost g_full = spec_gen(full, Seq::<char>::empty(), 0, max, stops);
    let mut st = GenState::new();
    let mut deltas: Vec<String> = Vec::new();
    let mut i: usize = 0;
    proof {
        assert(full.skip(0) =~= full);
    }
    while i < pieces.len() && !st.finished && st.emitted < opts.max_tokens
        invariant
            i <= pieces.len(),
            full == pieces.deep_view(),
            stops == spec_stops(*opts),
            max == opts.max_tokens as int,
            g_full == spec_gen(full, Seq::<char>::empty(), 0, max, stops),
            st.stopped ==> st.finished,
            !st.finished ==> ({
                let g = spec_gen(full.skip(i as int), st.out@, st.emitted as int, max, stops);
                &&& g_full.0 == g.0
                &&& g_full.1 == deltas.deep_view() + g.1
                &&& g_full.2 == g.2
            }),
            st.finished ==> g_full.0 == st.out@ && g_full.1 == deltas.deep_view() && g_full.2
                == st.stopped,
        decreases pieces.len() - i,
    {
        let ghost out0 = st.out@;
        let ghost c0 = st.emitted as int;
        let ghost deltas0 = deltas.deep_view();
        let ghost rem = full.skip(i as int);
        let piece: &String = &pieces[i];
        proof {
            assert(rem[0] == piece@);
            assert(rem.drop_first() =~= full.skip(i as int + 1));
        }
        let d = st.accept_piece(piece.as_str(), opts);
        match d {
            Some(dd) => {
                deltas.push(dd);
                proof {
                    assert(deltas.deep_view() =~= deltas0.push(piece@));
                    let t = out0 + piece@;
                    let rest = spec_gen(rem.drop_first(), t, c0 + 1, max, stops);
                    assert(spec_gen(rem, out0, c0, max, stops) == (
                        rest.0,
                        seq![rem[0]] + rest.1,
                        rest.2,
                    ));
                    assert(deltas0 + (seq![piece@] + rest.1) =~= deltas0.push(piece@) + rest.1);
                }
            },
            None => {
                proof {
                    let t = out0 + piece@;
                    assert(spec_gen(rem, out0, c0, max, stops) == (
                        spec_truncated(t, stops),
                        Seq::<Seq<char>>::empty(),
                        true,
                    ));
                    assert(deltas0 + Seq::<Seq<char>>::empty() =~= deltas0);
                }
            },
        }
        i += 1;
    }
    proof {
        if !st.finished {
            let g = spec_gen(full.skip(i as int), st.out@, st.emitted as int, max, stops);
            assert(g == (st.out@, Seq::<Seq<char>>::empty(), false));
            assert(deltas.deep_view() + Seq::<Seq<char>>::empty() =~= deltas.deep_view());
        }
    }
    GenRun { output: st.out, deltas, stopped: st.stopped }
}

} // verus!
