//! Artifact naming. Every file the service touches lives under a blueprint's
//! directory in the artifacts root; per-proof files embed the proof
//! identifier so that concurrent proofs against one cached blueprint cannot
//! collide. The lemmas at the end state that discipline: distinct proof
//! identifiers give distinct per-proof names, and no per-proof name collides
//! with a shared artifact of the blueprint.

use vstd::prelude::*;

verus! {

/// The blueprint's directory under the artifacts root.
pub open spec fn blueprint_path_spec(blueprint_id: Seq<char>) -> Seq<char> {
    "artifacts/"@ + blueprint_id
}

pub fn blueprint_path(blueprint_id: &str) -> (r: String)
    ensures
        r@ == blueprint_path_spec(blueprint_id@),
{
    let mut s = String::from_str("artifacts/");
    s.append(blueprint_id);
    s
}

/// A file name inside a directory.
pub open spec fn path_join_spec(dir: Seq<char>, name: Seq<char>) -> Seq<char> {
    dir + "/"@ + name
}

pub fn path_join(dir: &str, name: &str) -> (r: String)
    ensures
        r@ == path_join_spec(dir@, name@),
{
    let mut s = String::from_str(dir);
    s.append("/");
    s.append(name);
    s
}

/// The per-proof circuit input document.
pub open spec fn input_file_name_spec(proof_id: Seq<char>) -> Seq<char> {
    "input_"@ + proof_id + ".json"@
}

pub fn input_file_name(proof_id: &str) -> (r: String)
    ensures
        r@ == input_file_name_spec(proof_id@),
{
    let mut s = String::from_str("input_");
    s.append(proof_id);
    s.append(".json");
    s
}

/// The per-proof witness file.
pub open spec fn witness_file_name_spec(proof_id: Seq<char>) -> Seq<char> {
    "witness_"@ + proof_id + ".wtns"@
}

pub fn witness_file_name(proof_id: &str) -> (r: String)
    ensures
        r@ == witness_file_name_spec(proof_id@),
{
    let mut s = String::from_str("witness_");
    s.append(proof_id);
    s.append(".wtns");
    s
}

/// The per-proof proof output file.
pub open spec fn proof_file_name_spec(proof_id: Seq<char>) -> Seq<char> {
    "proof_"@ + proof_id + ".json"@
}

pub fn proof_file_name(proof_id: &str) -> (r: String)
    ensures
        r@ == proof_file_name_spec(proof_id@),
{
    let mut s = String::from_str("proof_");
    s.append(proof_id);
    s.append(".json");
    s
}

/// The per-proof public-outputs file.
pub open spec fn public_file_name_spec(proof_id: Seq<char>) -> Seq<char> {
    "public_"@ + proof_id + ".json"@
}

pub fn public_file_name(proof_id: &str) -> (r: String)
    ensures
        r@ == public_file_name_spec(proof_id@),
{
    let mut s = String::from_str("public_");
    s.append(proof_id);
    s.append(".json");
    s
}

/// Concatenation on the left and on the right is cancellable: a text framed
/// by a fixed prefix and suffix determines the middle.
pub proof fn lemma_affix_injective(p: Seq<char>, s: Seq<char>, a: Seq<char>, b: Seq<char>)
    requires
        p + a + s == p + b + s,
    ensures
        a == b,
{
    assert((p + a + s).len() == p.len() + a.len() + s.len());
    assert((p + b + s).len() == p.len() + b.len() + s.len());
    assert(a.len() == b.len());
    assert forall|i: int| 0 <= i < a.len() implies a[i] == b[i] by {
        assert((p + a + s)[p.len() + i] == a[i]);
        assert((p + b + s)[p.len() + i] == b[i]);
    }
    assert(a =~= b);
}

/// Distinct proof identifiers give distinct per-proof file names of every
/// kind, so two proofs sharing one cached blueprint directory cannot touch
/// each other's files.
pub proof fn lemma_per_proof_names_injective(a: Seq<char>, b: Seq<char>)
    requires
        a != b,
    ensures
        input_file_name_spec(a) != input_file_name_spec(b),
        witness_file_name_spec(a) != witness_file_name_spec(b),
        proof_file_name_spec(a) != proof_file_name_spec(b),
        public_file_name_spec(a) != public_file_name_spec(b),
{
    if input_file_name_spec(a) == input_file_name_spec(b) {
        lemma_affix_injective("input_"@, ".json"@, a, b);
    }
    if witness_file_name_spec(a) == witness_file_name_spec(b) {
        lemma_affix_injective("witness_"@, ".wtns"@, a, b);
    }
    if proof_file_name_spec(a) == proof_file_name_spec(b) {
        lemma_affix_injective("proof_"@, ".json"@, a, b);
    }
    if public_file_name_spec(a) == public_file_name_spec(b) {
        lemma_affix_injective("public_"@, ".json"@, a, b);
    }
}

/// Appending to a fixed directory is cancellable.
pub proof fn lemma_path_join_injective(dir: Seq<char>, a: Seq<char>, b: Seq<char>)
    requires
        path_join_spec(dir, a) == path_join_spec(dir, b),
    ensures
        a == b,
{
    assert((dir + "/"@) + a + Seq::<char>::empty() =~= path_join_spec(dir, a));
    assert((dir + "/"@) + b + Seq::<char>::empty() =~= path_join_spec(dir, b));
    lemma_affix_injective(dir + "/"@, Seq::<char>::empty(), a, b);
}

/// No per-proof file name is one of the blueprint's shared artifacts: the
/// archives, the proving key, or the circuit executable. Selective cleanup of
/// per-proof files therefore never touches the shared, cached contents.
pub proof fn lemma_per_proof_names_not_shared(id: Seq<char>)
    ensures
        input_file_name_spec(id) != "circuit_cpp.zip"@,
        input_file_name_spec(id) != "zkey.zip"@,
        input_file_name_spec(id) != "circuit.zkey"@,
        input_file_name_spec(id) != "circuit"@,
        witness_file_name_spec(id) != "circuit_cpp.zip"@,
        witness_file_name_spec(id) != "zkey.zip"@,
        witness_file_name_spec(id) != "circuit.zkey"@,
        witness_file_name_spec(id) != "circuit"@,
        proof_file_name_spec(id) != "circuit_cpp.zip"@,
        proof_file_name_spec(id) != "zkey.zip"@,
        proof_file_name_spec(id) != "circuit.zkey"@,
        proof_file_name_spec(id) != "circuit"@,
        public_file_name_spec(id) != "circuit_cpp.zip"@,
        public_file_name_spec(id) != "zkey.zip"@,
        public_file_name_spec(id) != "circuit.zkey"@,
        public_file_name_spec(id) != "circuit"@,
{
    reveal_strlit("input_");
    reveal_strlit("witness_");
    reveal_strlit("proof_");
    reveal_strlit("public_");
    reveal_strlit("circuit_cpp.zip");
    reveal_strlit("zkey.zip");
    reveal_strlit("circuit.zkey");
    reveal_strlit("circuit");
    assert(input_file_name_spec(id)[0] == 'i');
    assert(witness_file_name_spec(id)[0] == 'w');
    assert(proof_file_name_spec(id)[0] == 'p');
    assert(public_file_name_spec(id)[0] == 'p');
    assert(proof_file_name_spec(id)[1] == 'r');
    assert(public_file_name_spec(id)[1] == 'u');
}

} // verus!
