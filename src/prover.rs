//! The prover: where the circuit lives, and how each run gets a working
//! directory of its own.

use vstd::prelude::*;
use crate::pipeline::{artifact_path, Action, ActionView, ProofRun, RunView, Stage, texts};
use crate::response::ProofRequest;
use crate::text::{decimal, digit_char, is_digit, push_decimal};

verus! {

/// The circuit directory inside the container image.
pub open spec fn container_circuit_path() -> Seq<char> {
    "/app/noir-circuit"@
}

/// The circuit directory beside a checkout of the server.
pub open spec fn local_circuit_path() -> Seq<char> {
    "../noir-circuit"@
}

/// The working directory of run `id` of the circuit in `base`.
pub open spec fn run_dir(base: Seq<char>, id: u64) -> Seq<char> {
    base + ".run-"@ + decimal(id as nat)
}

/// What a working directory takes over from the circuit directory: the
/// package manifest, the circuit's sources and its compiled definition.
pub open spec fn circuit_entries() -> Seq<Seq<char>> {
    seq!["Nargo.toml"@, "src"@, "target/insurance_verifier.json"@]
}

/// Drives the circuit executor and the prover for the circuit it holds.
pub struct NoirProver {
    pub circuit_path: String,
}

impl NoirProver {
    /// The prover for the circuit of the container image, where that image's
    /// circuit directory is present, else for the one beside the checkout.
    pub fn new(in_container: bool) -> (r: Self)
        ensures
            r.circuit_path@ == if in_container {
                container_circuit_path()
            } else {
                local_circuit_path()
            },
    {
        let circuit_path = if in_container {
            String::from_str("/app/noir-circuit")
        } else {
            String::from_str("../noir-circuit")
        };
        NoirProver { circuit_path }
    }

    /// The prover for the circuit in `circuit_path`.
    pub fn with_circuit_path(circuit_path: String) -> (r: Self)
        ensures
            r.circuit_path@ == circuit_path@,
    {
        NoirProver { circuit_path }
    }

    /// The working directory of run `id`.
    pub fn run_dir(&self, id: u64) -> (r: String)
        ensures
            r@ == run_dir(self.circuit_path@, id),
    {
        let mut out = self.circuit_path.clone();
        out.append(".run-");
        push_decimal(&mut out, id);
        out
    }

    /// Starts run `id` of `request`: the run waits for its working directory
    /// to be prepared from the circuit directory.
    pub fn generate_proof(&self, id: u64, request: ProofRequest) -> (r: (ProofRun, Action))
        ensures
            r.0@ == (RunView {
                dir: run_dir(self.circuit_path@, id),
                request,
                stage: Stage::Preparing,
                proof_hex: Seq::empty(),
                outcome: None,
            }),
            r.0@.wf(),
            r.1@ == (ActionView::Prepare {
                source: self.circuit_path@,
                target: run_dir(self.circuit_path@, id),
                entries: circuit_entries(),
            }),
    {
        let target = self.run_dir(id);
        let mut entries: Vec<String> = Vec::new();
        entries.push(String::from_str("Nargo.toml"));
        entries.push(String::from_str("src"));
        entries.push(String::from_str("target/insurance_verifier.json"));
        assert(texts(entries@) =~= circuit_entries());
        let run = ProofRun::new(target.clone(), request);
        let action = Action::Prepare { source: self.circuit_path.clone(), target, entries };
        (run, action)
    }
}

/// Hands out the ids of runs, each at most once: every id handed out lies
/// below the next one, which only grows.
pub struct RunIds {
    next: u64,
}

impl View for RunIds {
    type V = u64;

    /// The next id to hand out.
    closed spec fn view(&self) -> u64 {
        self.next
    }
}

impl RunIds {
    /// An allocator whose first id is `first`.
    pub fn new(first: u64) -> (r: RunIds)
        ensures
            r@ == first,
    {
        RunIds { next: first }
    }

    /// The next unused id, or `None` once every id has been handed out.
    pub fn allocate(&mut self) -> (r: Option<u64>)
        ensures
            match r {
                Some(id) => id == old(self)@ && final(self)@ == old(self)@ + 1,
                None => old(self)@ == u64::MAX && final(self)@ == old(self)@,
            },
    {
        if self.next == u64::MAX {
            None
        } else {
            let id = self.next;
            self.next = self.next + 1;
            Some(id)
        }
    }
}

proof fn lemma_decimal_digits(n: nat)
    ensures
        decimal(n).len() >= 1,
        forall|i: int| 0 <= i < decimal(n).len() ==> is_digit(#[trigger] decimal(n)[i]),
    decreases n,
{
    if n >= 10 {
        lemma_decimal_digits(n / 10);
        let d = decimal(n);
        assert forall|i: int| 0 <= i < d.len() implies is_digit(#[trigger] d[i]) by {
            if i < d.len() - 1 {
                assert(d[i] == decimal(n / 10)[i]);
            }
        }
    }
}

proof fn lemma_decimal_injective(a: nat, b: nat)
    requires
        decimal(a) == decimal(b),
    ensures
        a == b,
    decreases a,
{
    if a < 10 && b < 10 {
        assert(decimal(a)[0] == digit_char(a));
        assert(decimal(b)[0] == digit_char(b));
    } else if a < 10 {
        lemma_decimal_digits(b / 10);
    } else if b < 10 {
        lemma_decimal_digits(a / 10);
    } else {
        let da = decimal(a);
        let db = decimal(b);
        assert(da.last() == digit_char(a % 10));
        assert(db.last() == digit_char(b % 10));
        assert(decimal(a / 10) =~= da.drop_last());
        assert(decimal(b / 10) =~= db.drop_last());
        lemma_decimal_injective(a / 10, b / 10);
    }
}

/// Runs with different ids never share an artifact: no path under one run's
/// working directory names a file under the other's.
pub proof fn lemma_runs_keep_apart(base: Seq<char>, a: u64, b: u64, x: Seq<char>, y: Seq<char>)
    requires
        a != b,
    ensures
        artifact_path(run_dir(base, a), x) != artifact_path(run_dir(base, b), y),
{
    let p = base + ".run-"@;
    let l = p.len() as int;
    let da = decimal(a as nat);
    let la = da.len() as int;
    let db = decimal(b as nat);
    let lb = db.len() as int;
    let s1 = artifact_path(run_dir(base, a), x);
    let s2 = artifact_path(run_dir(base, b), y);
    lemma_decimal_digits(a as nat);
    lemma_decimal_digits(b as nat);
    if s1 == s2 {
        assert(s1 =~= p + da + seq!['/'] + x);
        assert(s2 =~= p + db + seq!['/'] + y);
        if la < lb {
            assert(s1[l + la] == '/');
            assert(s2[l + la] == db[la]);
        } else if lb < la {
            assert(s2[l + lb] == '/');
            assert(s1[l + lb] == da[lb]);
        } else {
            assert(s1.subrange(l, l + la) =~= da);
            assert(s2.subrange(l, l + lb) =~= db);
            lemma_decimal_injective(a as nat, b as nat);
        }
    }
}

} // verus!
