//! The general laws of the library, each proved from the contracts the
//! components state.

use vstd::prelude::*;

use crate::automation::AutomationV;
use crate::catalog::SchemaV;
use crate::generator::CompileErrorV;
use crate::generator::spec_generate;
use crate::json::JsonV;

verus! {

/// Idempotence of compilation: two compiles of one workspace against one
/// catalog snapshot yield the same result, byte for byte. Each call of
/// `generate_code` returns exactly `spec_generate` of its inputs, so two
/// results of such calls coincide.
pub proof fn lemma_generate_idempotent(
    cat: Map<Seq<char>, SchemaV>,
    ws: JsonV,
    r1: Result<Seq<char>, CompileErrorV>,
    r2: Result<Seq<char>, CompileErrorV>,
)
    requires
        r1 == spec_generate(cat, ws),
        r2 == spec_generate(cat, ws),
    ensures
        r1 == r2,
{
}

/// Determinism of compilation: the result — success with its text, or
/// failure with its error — depends on the catalog snapshot and the
/// workspace content alone, never on call order or prior calls. Two calls
/// against equal catalogs and equal workspaces answer the same way.
pub proof fn lemma_generate_deterministic(
    cat1: Map<Seq<char>, SchemaV>,
    cat2: Map<Seq<char>, SchemaV>,
    ws1: JsonV,
    ws2: JsonV,
    r1: Result<Seq<char>, CompileErrorV>,
    r2: Result<Seq<char>, CompileErrorV>,
)
    requires
        cat1 == cat2,
        ws1 == ws2,
        r1 == spec_generate(cat1, ws1),
        r2 == spec_generate(cat2, ws2),
    ensures
        r1 == r2,
{
}

/// Version monotonicity: a record is created at version one, and each
/// successful update grows the version by exactly one — as `create` and
/// `update` ensure — so the versions a record passes through are
/// `1, 2, 3, …`, and after `n` successful updates the version is `1 + n`.
/// The sequence holds the stored version after creation and after each
/// update in turn.
pub proof fn lemma_version_monotonic(versions: Seq<int>)
    requires
        versions.len() >= 1,
        versions[0] == 1,
        forall|i: int| 0 <= i < versions.len() - 1 ==> versions[i + 1] == #[trigger] versions[i]
            + 1,
    ensures
        versions.last() == versions.len(),
    decreases versions.len(),
{
    if versions.len() > 1 {
        lemma_version_monotonic(versions.drop_last());
    }
}

/// Optimistic concurrency: of two writers racing on one record with the
/// same expected version, at most one succeeds. Once the first writer's
/// update lands, the stored version has grown past the shared expectation,
/// so the second writer's expected version no longer matches — and
/// `update` ensures that a mismatched expectation is answered with
/// `VersionConflict` and leaves the record word for word as it was.
pub proof fn lemma_optimistic_concurrency(
    pre: Map<Seq<char>, AutomationV>,
    mid: Map<Seq<char>, AutomationV>,
    id: Seq<char>,
    expected: i32,
)
    requires
        pre.contains_key(id),
        expected == pre[id].version,
        mid.contains_key(id),
        mid[id].version == pre[id].version + 1,
    ensures
        expected != mid[id].version,
{
}

} // verus!
