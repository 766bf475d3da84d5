//! Run-time invariant checks with an audit log: each check records which
//! invariant it examined, so a test can assert both that the condition held
//! and that the right invariants were actually consulted.

use vstd::prelude::*;
use vstd::string::StringExecFns;
use crate::strutil::{contains_seq, lower_seq, str_contains, str_eq, ends_with_lower};

verus! {

/// `d` occurs (as a substring) in some recorded entry.
pub open spec fn spec_has_checked(log: Seq<Seq<char>>, d: Seq<char>) -> bool {
    exists|i: int| 0 <= i < log.len() && contains_seq(log[i], d)
}

/// The audit log of invariant descriptions that were checked.
pub struct InvariantLog {
    pub checked: Vec<String>,
}

impl InvariantLog {
    /// An empty log.
    pub fn new() -> (r: Self)
        ensures
            r.checked.deep_view() == Seq::<Seq<char>>::empty(),
    {
        InvariantLog { checked: Vec::new() }
    }

    /// Forget everything recorded so far.
    pub fn clear(&mut self)
        ensures
            final(self).checked.deep_view() == Seq::<Seq<char>>::empty(),
    {
        self.checked = Vec::new();
    }

    /// Record that one invariant was checked.
    fn note(&mut self, desc: &str)
        ensures
            final(self).checked.deep_view() == old(self).checked.deep_view().push(desc@),
    {
        let ghost before = self.checked.deep_view();
        self.checked.push(String::from_str(desc));
        proof {
            assert(self.checked.deep_view() =~= before.push(desc@));
        }
    }

    /// The descriptions recorded so far.
    pub fn checked_invariants(&self) -> (r: &Vec<String>)
        ensures
            r.deep_view() == self.checked.deep_view(),
    {
        &self.checked
    }

    /// Was an invariant whose description contains `desc` checked?
    pub fn has_checked(&self, desc: &str) -> (b: bool)
        ensures
            b == spec_has_checked(self.checked.deep_view(), desc@),
    {
        let n = self.checked.len();
        let mut i: usize = 0;
        while i < n
            invariant
                n == self.checked.len(),
                i <= n,
                forall|j: int| 0 <= j < i ==> !contains_seq(self.checked.deep_view()[j], desc@),
            decreases n - i,
        {
            if str_contains(self.checked[i].as_str(), desc) {
                assert(contains_seq(self.checked.deep_view()[i as int], desc@));
                return true;
            }
            i += 1;
        }
        false
    }

    /// Were all the required invariants checked at some point? The name
    /// identifies the contract under test and is not interpreted.
    pub fn contract_test(&self, _name: &str, required: &[&str]) -> (b: bool)
        ensures
            b == (forall|i: int|
                0 <= i < required@.len() ==> spec_has_checked(
                    self.checked.deep_view(),
                    required@[i]@,
                )),
    {
        let n = required.len();
        let mut i: usize = 0;
        while i < n
            invariant
                n == required@.len(),
                i <= n,
                forall|j: int|
                    0 <= j < i ==> spec_has_checked(self.checked.deep_view(), required@[j]@),
            decreases n - i,
        {
            let d: &&str = match required.get(i) {
                Some(d) => d,
                None => vstd::pervasive::unreached(),
            };
            if !self.has_checked(*d) {
                return false;
            }
            i += 1;
        }
        true
    }
}

/// Check the model-loading invariants: the name is non-empty and the load
/// succeeded. Both checks are recorded.
pub fn assert_model_loaded(log: &mut InvariantLog, name: &str, loaded: bool) -> (ok: bool)
    ensures
        ok == (name@.len() > 0 && loaded),
        final(log).checked.deep_view() == old(log).checked.deep_view().push(
            "Model name must not be empty"@,
        ).push("Model loaded successfully"@),
{
    log.note("Model name must not be empty");
    let name_ok = !name.is_empty();
    log.note("Model loaded successfully");
    name_ok && loaded
}

/// Check the generation invariants: a non-empty prompt, a non-empty
/// response, and output actually produced. All three checks are recorded.
pub fn assert_generation_valid(log: &mut InvariantLog, prompt: &str, response: &str) -> (ok: bool)
    ensures
        ok == (prompt@.len() > 0 && response@.len() > 0),
        final(log).checked.deep_view() == old(log).checked.deep_view().push(
            "Generation prompt must not be empty"@,
        ).push("Generation response must not be empty"@).push("Generation must produce output"@),
{
    log.note("Generation prompt must not be empty");
    let prompt_ok = !prompt.is_empty();
    log.note("Generation response must not be empty");
    let response_ok = !response.is_empty();
    log.note("Generation must produce output");
    prompt_ok && response_ok
}

/// Check the API-response invariants: a valid HTTP status code, and a body
/// unless the status says there is none. Both checks are recorded.
pub fn assert_api_response_valid(log: &mut InvariantLog, status: u16, body: &str) -> (ok: bool)
    ensures
        ok == ((100 <= status < 600) && (status == 204 || body@.len() > 0)),
        final(log).checked.deep_view() == old(log).checked.deep_view().push(
            "API response status must be valid HTTP code"@,
        ).push("API response body must exist (unless 204)"@),
{
    log.note("API response status must be valid HTTP code");
    let status_ok = 100 <= status && status < 600;
    log.note("API response body must exist (unless 204)");
    let body_ok = status == 204 || !body.is_empty();
    status_ok && body_ok
}

/// A path names quantized weights: lower-cased, it ends in `.gguf`.
pub open spec fn spec_is_gguf_path(p: Seq<char>) -> bool {
    ".gguf"@.is_suffix_of(lower_seq(p))
}

/// Check the backend-selection invariants: a non-empty path, a non-empty
/// backend, and — for quantized weight files — that the quantized runtime
/// was selected. The first two checks are always recorded; the quantized
/// check only when the path names quantized weights.
pub fn assert_backend_selection_valid(log: &mut InvariantLog, file_path: &str, backend: &str) -> (ok:
    bool)
    ensures
        ok == (file_path@.len() > 0 && backend@.len() > 0 && (spec_is_gguf_path(file_path@)
            ==> backend@ == "llama"@)),
        ({
            let base = old(log).checked.deep_view().push(
                "File path for backend selection must not be empty"@,
            ).push("Selected backend must not be empty"@);
            final(log).checked.deep_view() == if spec_is_gguf_path(file_path@) {
                base.push("GGUF files must use Llama backend"@)
            } else {
                base
            }
        }),
{
    log.note("File path for backend selection must not be empty");
    let path_ok = !file_path.is_empty();
    log.note("Selected backend must not be empty");
    let backend_ok = !backend.is_empty();
    let mut gguf_ok = true;
    if ends_with_lower(file_path, ".gguf") {
        log.note("GGUF files must use Llama backend");
        gguf_ok = str_eq(backend, "llama");
    }
    path_ok && backend_ok && gguf_ok
}

/// Check the discovery invariant: the reported model count is plausible for
/// one machine. The check is recorded.
pub fn assert_discovery_valid(log: &mut InvariantLog, count: usize) -> (ok: bool)
    ensures
        ok == (count <= 10000),
        final(log).checked.deep_view() == old(log).checked.deep_view().push(
            "Model discovery must return reasonable count"@,
        ),
{
    log.note("Model discovery must return reasonable count");
    count <= 10000
}

} // verus!
