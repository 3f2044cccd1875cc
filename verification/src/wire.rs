//! The wire formats of the proof objects. The prover writes the proof and
//! the public outputs as JSON files; this module gives that format as a
//! grammar over character sequences, parses the files into the `Proof` and
//! `PublicOutputs` structures, renders those structures back to JSON, and
//! proves the round trip: parsing a rendered value yields the value itself.

use vstd::prelude::*;
use crate::json::{
    sp_ws, sp_strbody, content_ok, lemma_strbody_content, is_ws, ws_from, strbody_from,
};
use crate::prove::{Proof, ProofModel, PublicOutputs};

verus! {

/// A string literal: the content between its two quotes.
pub open spec fn quoted(c: Seq<char>) -> Seq<char> {
    seq!['"'] + c + seq!['"']
}

/// The items of an array of strings, comma-separated, without the brackets.
pub open spec fn sarr_items(xs: Seq<Seq<char>>) -> Seq<char>
    decreases xs.len(),
{
    if xs.len() == 0 {
        Seq::<char>::empty()
    } else if xs.len() == 1 {
        quoted(xs[0])
    } else {
        quoted(xs[0]) + seq![','] + sarr_items(xs.skip(1))
    }
}

/// An array of strings in canonical form: no whitespace.
pub open spec fn sarr(xs: Seq<Seq<char>>) -> Seq<char> {
    seq!['['] + sarr_items(xs) + seq![']']
}

/// The rows of a matrix of strings, comma-separated, without the brackets.
pub open spec fn mat_items(m: Seq<Seq<Seq<char>>>) -> Seq<char>
    decreases m.len(),
{
    if m.len() == 0 {
        Seq::<char>::empty()
    } else if m.len() == 1 {
        sarr(m[0])
    } else {
        sarr(m[0]) + seq![','] + mat_items(m.skip(1))
    }
}

/// A matrix of strings in canonical form.
pub open spec fn mat(m: Seq<Seq<Seq<char>>>) -> Seq<char> {
    seq!['['] + mat_items(m) + seq![']']
}

pub open spec fn kq_pi_a() -> Seq<char> {
    seq!['"', 'p', 'i', '_', 'a', '"']
}

pub open spec fn kq_pi_b() -> Seq<char> {
    seq!['"', 'p', 'i', '_', 'b', '"']
}

pub open spec fn kq_pi_c() -> Seq<char> {
    seq!['"', 'p', 'i', '_', 'c', '"']
}

pub open spec fn kq_protocol() -> Seq<char> {
    seq!['"', 'p', 'r', 'o', 't', 'o', 'c', 'o', 'l', '"']
}

pub open spec fn kq_curve() -> Seq<char> {
    seq!['"', 'c', 'u', 'r', 'v', 'e', '"']
}

/// The canonical file rendering of a proof, with the prover's own field
/// names.
pub open spec fn proof_json(m: ProofModel) -> Seq<char> {
    seq!['{'] + kq_pi_a() + seq![':'] + sarr(m.pi_a) + seq![','] + kq_pi_b() + seq![':'] + mat(
        m.pi_b,
    ) + seq![','] + kq_pi_c() + seq![':'] + sarr(m.pi_c) + seq![','] + kq_protocol() + seq![':']
        + quoted(m.protocol) + (match m.curve {
        Some(cv) => seq![','] + kq_curve() + seq![':'] + quoted(cv),
        None => Seq::<char>::empty(),
    }) + seq!['}']
}

/// The canonical file rendering of the public outputs: a bare array of
/// decimal strings.
pub open spec fn public_json(xs: Seq<Seq<char>>) -> Seq<char> {
    sarr(xs)
}

/// Every string of the sequence may stand raw inside a string literal.
pub open spec fn contents_ok(xs: Seq<Seq<char>>) -> bool {
    forall|i: int| 0 <= i < xs.len() ==> content_ok(#[trigger] xs[i])
}

/// Every string of the matrix may stand raw inside a string literal.
pub open spec fn matrix_ok(m: Seq<Seq<Seq<char>>>) -> bool {
    forall|i: int| 0 <= i < m.len() ==> contents_ok(#[trigger] m[i])
}

/// A proof whose strings are all valid string-literal contents — true of
/// every proof this library parses or builds from decimal field elements.
pub open spec fn proof_wf(m: ProofModel) -> bool {
    &&& contents_ok(m.pi_a)
    &&& matrix_ok(m.pi_b)
    &&& contents_ok(m.pi_c)
    &&& content_ok(m.protocol)
    &&& match m.curve {
        Some(cv) => content_ok(cv),
        None => true,
    }
}

proof fn lemma_sarr_items_snoc(xs: Seq<Seq<char>>, x: Seq<char>)
    ensures
        sarr_items(xs.push(x)) == if xs.len() == 0 {
            quoted(x)
        } else {
            sarr_items(xs) + seq![','] + quoted(x)
        },
    decreases xs.len(),
{
    assert(sarr_items(seq![x]) == quoted(x)) by {
        assert(seq![x].len() == 1);
        assert(seq![x][0] == x);
    }
    if xs.len() == 0 {
        assert(xs.push(x) =~= seq![x]);
    } else if xs.len() == 1 {
        assert(xs.push(x).skip(1) =~= seq![x]);
        assert(xs.push(x)[0] == xs[0]);
        assert(xs.push(x).len() == 2);
    } else {
        lemma_sarr_items_snoc(xs.skip(1), x);
        assert(xs.push(x).skip(1) =~= xs.skip(1).push(x));
        assert(xs.push(x)[0] == xs[0]);
        assert(quoted(xs[0]) + seq![','] + (sarr_items(xs.skip(1)) + seq![','] + quoted(x)) =~= (
        quoted(xs[0]) + seq![','] + sarr_items(xs.skip(1))) + seq![','] + quoted(x));
    }
}

proof fn lemma_mat_items_snoc(m: Seq<Seq<Seq<char>>>, x: Seq<Seq<char>>)
    ensures
        mat_items(m.push(x)) == if m.len() == 0 {
            sarr(x)
        } else {
            mat_items(m) + seq![','] + sarr(x)
        },
    decreases m.len(),
{
    assert(mat_items(seq![x]) == sarr(x)) by {
        assert(seq![x].len() == 1);
        assert(seq![x][0] == x);
    }
    if m.len() == 0 {
        assert(m.push(x) =~= seq![x]);
    } else if m.len() == 1 {
        assert(m.push(x).skip(1) =~= seq![x]);
        assert(m.push(x)[0] == m[0]);
        assert(m.push(x).len() == 2);
    } else {
        lemma_mat_items_snoc(m.skip(1), x);
        assert(m.push(x).skip(1) =~= m.skip(1).push(x));
        assert(m.push(x)[0] == m[0]);
        assert(sarr(m[0]) + seq![','] + (mat_items(m.skip(1)) + seq![','] + sarr(x)) =~= (sarr(
            m[0],
        ) + seq![','] + mat_items(m.skip(1))) + seq![','] + sarr(x));
    }
}

fn render_quoted_into(out: &mut String, s: &str)
    ensures
        final(out)@ == old(out)@ + quoted(s@),
{
    out.append("\"");
    out.append(s);
    out.append("\"");
    proof {
        reveal_strlit("\"");
        assert("\""@ =~= seq!['"']);
        assert(final(out)@ =~= old(out)@ + quoted(s@));
    }
}

fn render_sarr_into(out: &mut String, xs: &Vec<String>)
    ensures
        final(out)@ == old(out)@ + sarr(xs.deep_view()),
{
    out.append("[");
    let ghost base = out@;
    let n = xs.len();
    let mut i: usize = 0;
    while i < n
        invariant
            n == xs.len(),
            i <= n,
            out@ == base + sarr_items(xs.deep_view().take(i as int)),
        decreases n - i,
    {
        if i > 0 {
            out.append(",");
            proof {
                reveal_strlit(",");
                assert(","@ =~= seq![',']);
            }
        }
        render_quoted_into(out, xs[i].as_str());
        proof {
            let v = xs.deep_view();
            assert(v.take(i + 1 as int) =~= v.take(i as int).push(v[i as int]));
            lemma_sarr_items_snoc(v.take(i as int), v[i as int]);
            assert(xs[i as int]@ == v[i as int]);
            assert(out@ =~= base + sarr_items(v.take(i + 1 as int)));
        }
        i = i + 1;
    }
    out.append("]");
    proof {
        reveal_strlit("[");
        reveal_strlit("]");
        assert("["@ =~= seq!['[']);
        assert("]"@ =~= seq![']']);
        assert(xs.deep_view().take(n as int) =~= xs.deep_view());
        assert(final(out)@ =~= old(out)@ + sarr(xs.deep_view()));
    }
}

fn render_mat_into(out: &mut String, m: &Vec<Vec<String>>)
    ensures
        final(out)@ == old(out)@ + mat(m.deep_view()),
{
    out.append("[");
    let ghost base = out@;
    let n = m.len();
    let mut i: usize = 0;
    while i < n
        invariant
            n == m.len(),
            i <= n,
            out@ == base + mat_items(m.deep_view().take(i as int)),
        decreases n - i,
    {
        if i > 0 {
            out.append(",");
            proof {
                reveal_strlit(",");
                assert(","@ =~= seq![',']);
            }
        }
        render_sarr_into(out, &m[i]);
        proof {
            let v = m.deep_view();
            assert(v.take(i + 1 as int) =~= v.take(i as int).push(v[i as int]));
            lemma_mat_items_snoc(v.take(i as int), v[i as int]);
            assert(m[i as int].deep_view() == v[i as int]);
            assert(out@ =~= base + mat_items(v.take(i + 1 as int)));
        }
        i = i + 1;
    }
    out.append("]");
    proof {
        reveal_strlit("[");
        reveal_strlit("]");
        assert("["@ =~= seq!['[']);
        assert("]"@ =~= seq![']']);
        assert(m.deep_view().take(n as int) =~= m.deep_view());
        assert(final(out)@ =~= old(out)@ + mat(m.deep_view()));
    }
}

/// Renders a proof to its canonical file form — the exact text whose parse
/// is the proof itself.
pub fn render_proof(p: &Proof) -> (r: String)
    ensures
        r@ == proof_json(p@),
{
    let mut out = String::new();
    out.append("{\"pi_a\":");
    proof {
        reveal_strlit("{\"pi_a\":");
        assert("{\"pi_a\":"@ =~= seq!['{'] + kq_pi_a() + seq![':']);
    }
    render_sarr_into(&mut out, &p.pi_a);
    out.append(",\"pi_b\":");
    proof {
        reveal_strlit(",\"pi_b\":");
        assert(",\"pi_b\":"@ =~= seq![','] + kq_pi_b() + seq![':']);
    }
    render_mat_into(&mut out, &p.pi_b);
    out.append(",\"pi_c\":");
    proof {
        reveal_strlit(",\"pi_c\":");
        assert(",\"pi_c\":"@ =~= seq![','] + kq_pi_c() + seq![':']);
    }
    render_sarr_into(&mut out, &p.pi_c);
    out.append(",\"protocol\":");
    proof {
        reveal_strlit(",\"protocol\":");
        assert(",\"protocol\":"@ =~= seq![','] + kq_protocol() + seq![':']);
    }
    render_quoted_into(&mut out, p.protocol.as_str());
    match &p.curve {
        Some(cv) => {
            out.append(",\"curve\":");
            proof {
                reveal_strlit(",\"curve\":");
                assert(",\"curve\":"@ =~= seq![','] + kq_curve() + seq![':']);
            }
            render_quoted_into(&mut out, cv.as_str());
        },
        None => {},
    }
    out.append("}");
    proof {
        reveal_strlit("}");
        assert("}"@ =~= seq!['}']);
        assert(out@ =~= proof_json(p@));
    }
    out
}

/// Renders public outputs to their canonical file form: a bare array.
pub fn render_public(o: &PublicOutputs) -> (r: String)
    ensures
        r@ == public_json(o@),
{
    let mut out = String::new();
    render_sarr_into(&mut out, &o.0);
    out
}

/// The inline response to a successful prove request: the proof and the
/// public outputs, each embedded verbatim in its canonical file form, so
/// that the inline payload and an uploaded pair of canonical files carry
/// byte-identical content.
pub open spec fn prove_response_body_spec(p: ProofModel, o: Seq<Seq<char>>) -> Seq<char> {
    seq!['{', '"', 'p', 'r', 'o', 'o', 'f', '"', ':'] + proof_json(p) + seq![','] + seq![
        '"',
        'p',
        'u',
        'b',
        'l',
        'i',
        'c',
        'O',
        'u',
        't',
        'p',
        'u',
        't',
        's',
        '"',
        ':',
    ] + public_json(o) + seq!['}']
}

/// Renders the inline response body for a successful prove request.
pub fn render_prove_response(p: &Proof, o: &PublicOutputs) -> (r: String)
    ensures
        r@ == prove_response_body_spec(p@, o@),
{
    let mut out = String::from_str("{\"proof\":");
    let pj = render_proof(p);
    out.append(pj.as_str());
    out.append(",\"publicOutputs\":");
    let oj = render_public(o);
    out.append(oj.as_str());
    out.append("}");
    proof {
        reveal_strlit("{\"proof\":");
        reveal_strlit(",\"publicOutputs\":");
        reveal_strlit("}");
        assert("{\"proof\":"@ =~= seq!['{', '"', 'p', 'r', 'o', 'o', 'f', '"', ':']);
        assert(",\"publicOutputs\":"@ =~= seq![','] + seq![
            '"',
            'p',
            'u',
            'b',
            'l',
            'i',
            'c',
            'O',
            'u',
            't',
            'p',
            'u',
            't',
            's',
            '"',
            ':',
        ]);
        assert("}"@ =~= seq!['}']);
        assert(out@ =~= prove_response_body_spec(p@, o@));
    }
    out
}

/// A string literal starting at `i`, yielding its raw content and the
/// position after the closing quote.
pub open spec fn sp_pstring(s: Seq<char>, i: int) -> Option<(Seq<char>, int)> {
    if 0 <= i < s.len() && s[i] == '"' {
        match sp_strbody(s, i + 1) {
            None => None,
            Some(e) => if i + 2 <= e <= s.len() {
                Some((s.subrange(i + 1, e - 1), e))
            } else {
                None
            },
        }
    } else {
        None
    }
}

/// One or more array strings starting at `i` (at the first string), up to
/// and including the closing bracket, with whitespace allowed around the
/// separators.
pub open spec fn sp_straritems(s: Seq<char>, i: int) -> Option<(Seq<Seq<char>>, int)>
    decreases s.len() - i,
{
    match sp_pstring(s, i) {
        None => None,
        Some((c, k)) => {
            if !(i < k <= s.len()) {
                None
            } else {
                let j = sp_ws(s, k);
                if !(k <= j <= s.len()) {
                    None
                } else if j < s.len() && s[j] == ',' {
                    let m = sp_ws(s, j + 1);
                    if !(j < m <= s.len()) {
                        None
                    } else {
                        match sp_straritems(s, m) {
                            None => None,
                            Some((rest, e)) => Some((seq![c] + rest, e)),
                        }
                    }
                } else if j < s.len() && s[j] == ']' {
                    Some((seq![c], j + 1))
                } else {
                    None
                }
            }
        },
    }
}

/// A whole array of strings starting at `i`.
pub open spec fn sp_strarray(s: Seq<char>, i: int) -> Option<(Seq<Seq<char>>, int)> {
    if 0 <= i < s.len() && s[i] == '[' {
        let j = sp_ws(s, i + 1);
        if j < s.len() && s[j] == ']' {
            Some((Seq::<Seq<char>>::empty(), j + 1))
        } else {
            sp_straritems(s, j)
        }
    } else {
        None
    }
}

/// One or more matrix rows starting at `i`, up to and including the closing
/// bracket.
pub open spec fn sp_matitems(s: Seq<char>, i: int) -> Option<(Seq<Seq<Seq<char>>>, int)>
    decreases s.len() - i,
{
    match sp_strarray(s, i) {
        None => None,
        Some((row, k)) => {
            if !(i < k <= s.len()) {
                None
            } else {
                let j = sp_ws(s, k);
                if !(k <= j <= s.len()) {
                    None
                } else if j < s.len() && s[j] == ',' {
                    let m = sp_ws(s, j + 1);
                    if !(j < m <= s.len()) {
                        None
                    } else {
                        match sp_matitems(s, m) {
                            None => None,
                            Some((rest, e)) => Some((seq![row] + rest, e)),
                        }
                    }
                } else if j < s.len() && s[j] == ']' {
                    Some((seq![row], j + 1))
                } else {
                    None
                }
            }
        },
    }
}

/// A whole matrix of strings starting at `i`.
pub open spec fn sp_matrix(s: Seq<char>, i: int) -> Option<(Seq<Seq<Seq<char>>>, int)> {
    if 0 <= i < s.len() && s[i] == '[' {
        let j = sp_ws(s, i + 1);
        if j < s.len() && s[j] == ']' {
            Some((Seq::<Seq<Seq<char>>>::empty(), j + 1))
        } else {
            sp_matitems(s, j)
        }
    } else {
        None
    }
}

/// The characters of `t` stand verbatim in `s` at position `i`.
pub open spec fn sp_exact(s: Seq<char>, i: int, t: Seq<char>) -> bool
    decreases t.len(),
{
    t.len() == 0 || (0 <= i < s.len() && s[i] == t[0] && sp_exact(s, i + 1, t.skip(1)))
}

/// A field's opening: whitespace, the quoted key, whitespace, a colon, and
/// whitespace, yielding the position of the field's value.
pub open spec fn sp_field_start(s: Seq<char>, i: int, key: Seq<char>) -> Option<int> {
    let k = sp_ws(s, i);
    if sp_exact(s, k, key) {
        let j = sp_ws(s, k + key.len());
        if 0 <= j < s.len() && s[j] == ':' {
            Some(sp_ws(s, j + 1))
        } else {
            None
        }
    } else {
        None
    }
}

/// The object closes at `i` and nothing but whitespace follows.
pub open spec fn sp_obj_end_at(s: Seq<char>, i: int) -> bool {
    let j = sp_ws(s, i);
    j < s.len() && s[j] == '}' && sp_ws(s, j + 1) == s.len()
}

/// The proof file grammar: one object with the fields `pi_a` (array of
/// strings), `pi_b` (matrix of strings), `pi_c` (array of strings),
/// `protocol` (string) and optionally `curve` (string), in that order, with
/// whitespace allowed between all tokens, spanning the whole text.
pub open spec fn sp_parse_proof(s: Seq<char>) -> Option<ProofModel> {
    let i0 = sp_ws(s, 0);
    if !(0 <= i0 < s.len() && s[i0] == '{') {
        None
    } else {
        match sp_field_start(s, i0 + 1, kq_pi_a()) {
            None => None,
            Some(m1) => match sp_strarray(s, m1) {
                None => None,
                Some((pia, p1)) => {
                    let j1 = sp_ws(s, p1);
                    if !(j1 < s.len() && s[j1] == ',') {
                        None
                    } else {
                        match sp_field_start(s, j1 + 1, kq_pi_b()) {
                            None => None,
                            Some(m2) => match sp_matrix(s, m2) {
                                None => None,
                                Some((pib, p2)) => {
                                    let j2 = sp_ws(s, p2);
                                    if !(j2 < s.len() && s[j2] == ',') {
                                        None
                                    } else {
                                        match sp_field_start(s, j2 + 1, kq_pi_c()) {
                                            None => None,
                                            Some(m3) => match sp_strarray(s, m3) {
                                                None => None,
                                                Some((pic, p3)) => sp_parse_proof_tail(
                                                    s,
                                                    p3,
                                                    pia,
                                                    pib,
                                                    pic,
                                                ),
                                            },
                                        }
                                    }
                                },
                            },
                        }
                    }
                },
            },
        }
    }
}

/// The tail of the proof object after `pi_c`: the `protocol` field, the
/// optional `curve` field, and the closing brace.
pub open spec fn sp_parse_proof_tail(
    s: Seq<char>,
    p3: int,
    pia: Seq<Seq<char>>,
    pib: Seq<Seq<Seq<char>>>,
    pic: Seq<Seq<char>>,
) -> Option<ProofModel> {
    let j3 = sp_ws(s, p3);
    if !(j3 < s.len() && s[j3] == ',') {
        None
    } else {
        match sp_field_start(s, j3 + 1, kq_protocol()) {
            None => None,
            Some(m4) => match sp_pstring(s, m4) {
                None => None,
                Some((prot, p4)) => {
                    let j4 = sp_ws(s, p4);
                    if j4 < s.len() && s[j4] == ',' {
                        match sp_field_start(s, j4 + 1, kq_curve()) {
                            None => None,
                            Some(m5) => match sp_pstring(s, m5) {
                                None => None,
                                Some((cv, p5)) => if sp_obj_end_at(s, p5) {
                                    Some(
                                        ProofModel {
                                            pi_a: pia,
                                            pi_b: pib,
                                            pi_c: pic,
                                            protocol: prot,
                                            curve: Some(cv),
                                        },
                                    )
                                } else {
                                    None
                                },
                            },
                        }
                    } else if j4 < s.len() && s[j4] == '}' {
                        if sp_ws(s, j4 + 1) == s.len() {
                            Some(
                                ProofModel {
                                    pi_a: pia,
                                    pi_b: pib,
                                    pi_c: pic,
                                    protocol: prot,
                                    curve: None,
                                },
                            )
                        } else {
                            None
                        }
                    } else {
                        None
                    }
                },
            },
        }
    }
}

/// The public-outputs file grammar: one bare array of strings, with any
/// surrounding whitespace, spanning the whole text.
pub open spec fn sp_parse_public(s: Seq<char>) -> Option<Seq<Seq<char>>> {
    let i0 = sp_ws(s, 0);
    match sp_strarray(s, i0) {
        None => None,
        Some((xs, p)) => if sp_ws(s, p) == s.len() {
            Some(xs)
        } else {
            None
        },
    }
}

fn pstring_from(s: &str, n: usize, i: usize) -> (r: Option<(String, usize)>)
    requires
        n == s@.len(),
        i <= n,
    ensures
        match r {
            Some(p) => sp_pstring(s@, i as int) == Some((p.0@, p.1 as int)) && i < p.1 <= n,
            None => sp_pstring(s@, i as int) is None,
        },
{
    if i < n && s.get_char(i) == '"' {
        match strbody_from(s, n, i + 1) {
            None => None,
            Some(e) => {
                let sub = s.substring_char(i + 1, e - 1);
                Some((String::from_str(sub), e))
            },
        }
    } else {
        None
    }
}

fn straritems_from(s: &str, n: usize, i: usize) -> (r: Option<(Vec<String>, usize)>)
    requires
        n == s@.len(),
        i <= n,
    ensures
        match r {
            Some(p) => sp_straritems(s@, i as int) == Some((p.0.deep_view(), p.1 as int)) && i
                < p.1 <= n,
            None => sp_straritems(s@, i as int) is None,
        },
    decreases n - i,
{
    let mut acc: Vec<String> = Vec::new();
    let mut cur = i;
    proof {
        assert(acc.deep_view() =~= Seq::<Seq<char>>::empty());
        match sp_straritems(s@, i as int) {
            Some((rest, e)) => {
                assert(Seq::<Seq<char>>::empty() + rest =~= rest);
            },
            None => {},
        }
    }
    loop
        invariant
            n == s@.len(),
            i <= cur <= n,
            sp_straritems(s@, i as int) == match sp_straritems(s@, cur as int) {
                Some((rest, e)) => Some((acc.deep_view() + rest, e)),
                None => None::<(Seq<Seq<char>>, int)>,
            },
        decreases n - cur,
    {
        match pstring_from(s, n, cur) {
            None => {
                return None;
            },
            Some((c, k)) => {
                let j = ws_from(s, n, k);
                if j < n && s.get_char(j) == ',' {
                    let m = ws_from(s, n, j + 1);
                    let ghost accv = acc.deep_view();
                    let ghost cc = c@;
                    acc.push(c);
                    proof {
                        assert(acc.deep_view() =~= accv + seq![cc]);
                        match sp_straritems(s@, m as int) {
                            Some((rest2, e)) => {
                                assert((accv + seq![cc]) + rest2 =~= accv + (seq![cc] + rest2));
                            },
                            None => {},
                        }
                    }
                    cur = m;
                } else if j < n && s.get_char(j) == ']' {
                    let ghost accv = acc.deep_view();
                    let ghost cc = c@;
                    acc.push(c);
                    proof {
                        assert(sp_straritems(s@, cur as int) == Some((seq![cc], j + 1 as int)));
                        assert(acc.deep_view() =~= accv + seq![cc]);
                    }
                    return Some((acc, j + 1));
                } else {
                    return None;
                }
            },
        }
    }
}

fn strarray_from(s: &str, n: usize, i: usize) -> (r: Option<(Vec<String>, usize)>)
    requires
        n == s@.len(),
        i <= n,
    ensures
        match r {
            Some(p) => sp_strarray(s@, i as int) == Some((p.0.deep_view(), p.1 as int)) && i < p.1
                <= n,
            None => sp_strarray(s@, i as int) is None,
        },
{
    if i < n && s.get_char(i) == '[' {
        let j = ws_from(s, n, i + 1);
        if j < n && s.get_char(j) == ']' {
            let empty: Vec<String> = Vec::new();
            proof {
                assert(empty.deep_view() =~= Seq::<Seq<char>>::empty());
            }
            Some((empty, j + 1))
        } else {
            straritems_from(s, n, j)
        }
    } else {
        None
    }
}

fn matitems_from(s: &str, n: usize, i: usize) -> (r: Option<(Vec<Vec<String>>, usize)>)
    requires
        n == s@.len(),
        i <= n,
    ensures
        match r {
            Some(p) => sp_matitems(s@, i as int) == Some((p.0.deep_view(), p.1 as int)) && i < p.1
                <= n,
            None => sp_matitems(s@, i as int) is None,
        },
{
    let mut acc: Vec<Vec<String>> = Vec::new();
    let mut cur = i;
    proof {
        assert(acc.deep_view() =~= Seq::<Seq<Seq<char>>>::empty());
        match sp_matitems(s@, i as int) {
            Some((rest, e)) => {
                assert(Seq::<Seq<Seq<char>>>::empty() + rest =~= rest);
            },
            None => {},
        }
    }
    loop
        invariant
            n == s@.len(),
            i <= cur <= n,
            sp_matitems(s@, i as int) == match sp_matitems(s@, cur as int) {
                Some((rest, e)) => Some((acc.deep_view() + rest, e)),
                None => None::<(Seq<Seq<Seq<char>>>, int)>,
            },
        decreases n - cur,
    {
        match strarray_from(s, n, cur) {
            None => {
                return None;
            },
            Some((row, k)) => {
                let j = ws_from(s, n, k);
                if j < n && s.get_char(j) == ',' {
                    let m = ws_from(s, n, j + 1);
                    let ghost accv = acc.deep_view();
                    let ghost rv = row.deep_view();
                    acc.push(row);
                    proof {
                        assert(acc.deep_view() =~= accv + seq![rv]);
                        match sp_matitems(s@, m as int) {
                            Some((rest2, e)) => {
                                assert((accv + seq![rv]) + rest2 =~= accv + (seq![rv] + rest2));
                            },
                            None => {},
                        }
                    }
                    cur = m;
                } else if j < n && s.get_char(j) == ']' {
                    let ghost accv = acc.deep_view();
                    let ghost rv = row.deep_view();
                    acc.push(row);
                    proof {
                        assert(sp_matitems(s@, cur as int) == Some((seq![rv], j + 1 as int)));
                        assert(acc.deep_view() =~= accv + seq![rv]);
                    }
                    return Some((acc, j + 1));
                } else {
                    return None;
                }
            },
        }
    }
}

fn matrix_from(s: &str, n: usize, i: usize) -> (r: Option<(Vec<Vec<String>>, usize)>)
    requires
        n == s@.len(),
        i <= n,
    ensures
        match r {
            Some(p) => sp_matrix(s@, i as int) == Some((p.0.deep_view(), p.1 as int)) && i < p.1
                <= n,
            None => sp_matrix(s@, i as int) is None,
        },
{
    if i < n && s.get_char(i) == '[' {
        let j = ws_from(s, n, i + 1);
        if j < n && s.get_char(j) == ']' {
            let empty: Vec<Vec<String>> = Vec::new();
            proof {
                assert(empty.deep_view() =~= Seq::<Seq<Seq<char>>>::empty());
            }
            Some((empty, j + 1))
        } else {
            matitems_from(s, n, j)
        }
    } else {
        None
    }
}

proof fn lemma_exact_needs_room(s: Seq<char>, i: int, t: Seq<char>)
    requires
        i + t.len() > s.len() || i < 0,
        t.len() > 0,
    ensures
        !sp_exact(s, i, t),
    decreases t.len(),
{
    if 0 <= i < s.len() && s[i] == t[0] {
        if t.len() > 1 {
            lemma_exact_needs_room(s, i + 1, t.skip(1));
        }
    }
}

fn exact_from(s: &str, n: usize, i: usize, t: &str, tl: usize) -> (r: bool)
    requires
        n == s@.len(),
        tl == t@.len(),
        i <= n,
    ensures
        r == sp_exact(s@, i as int, t@),
{
    if tl == 0 {
        return true;
    }
    if n - i < tl {
        proof {
            lemma_exact_needs_room(s@, i as int, t@);
        }
        return false;
    }
    let mut k: usize = 0;
    proof {
        assert(t@.skip(0) =~= t@);
    }
    while k < tl
        invariant
            n == s@.len(),
            tl == t@.len(),
            0 < tl,
            i + tl <= n,
            k <= tl,
            sp_exact(s@, i as int, t@) == sp_exact(s@, i + k as int, t@.skip(k as int)),
        decreases tl - k,
    {
        let cs = s.get_char(i + k);
        let ct = t.get_char(k);
        proof {
            assert(t@.skip(k as int)[0] == t@[k as int]);
        }
        if cs != ct {
            return false;
        }
        proof {
            assert(t@.skip(k as int).skip(1) =~= t@.skip(k + 1 as int));
        }
        k = k + 1;
    }
    proof {
        assert(t@.skip(tl as int).len() == 0);
    }
    true
}

/// Parses the prover's proof file. Yields the proof exactly when the text
/// matches the proof file grammar, and nothing otherwise.
pub fn parse_proof(s: &str) -> (r: Option<Proof>)
    ensures
        match r {
            Some(p) => sp_parse_proof(s@) == Some(p@),
            None => sp_parse_proof(s@) is None,
        },
{
    let n = s.unicode_len();
    proof {
        reveal_strlit("\"pi_a\"");
        reveal_strlit("\"pi_b\"");
        reveal_strlit("\"pi_c\"");
        reveal_strlit("\"protocol\"");
        reveal_strlit("\"curve\"");
        assert("\"pi_a\""@ =~= kq_pi_a());
        assert("\"pi_b\""@ =~= kq_pi_b());
        assert("\"pi_c\""@ =~= kq_pi_c());
        assert("\"protocol\""@ =~= kq_protocol());
        assert("\"curve\""@ =~= kq_curve());
    }
    let i0 = ws_from(s, n, 0);
    if !(i0 < n && s.get_char(i0) == '{') {
        return None;
    }
    let m1 = match field_start_from(s, n, i0 + 1, "\"pi_a\"", 6) {
        None => {
            return None;
        },
        Some(m1) => m1,
    };
    let (pia, p1) = match strarray_from(s, n, m1) {
        None => {
            return None;
        },
        Some(p) => p,
    };
    let j1 = ws_from(s, n, p1);
    if !(j1 < n && s.get_char(j1) == ',') {
        return None;
    }
    let m2 = match field_start_from(s, n, j1 + 1, "\"pi_b\"", 6) {
        None => {
            return None;
        },
        Some(m2) => m2,
    };
    let (pib, p2) = match matrix_from(s, n, m2) {
        None => {
            return None;
        },
        Some(p) => p,
    };
    let j2 = ws_from(s, n, p2);
    if !(j2 < n && s.get_char(j2) == ',') {
        return None;
    }
    let m3 = match field_start_from(s, n, j2 + 1, "\"pi_c\"", 6) {
        None => {
            return None;
        },
        Some(m3) => m3,
    };
    let (pic, p3) = match strarray_from(s, n, m3) {
        None => {
            return None;
        },
        Some(p) => p,
    };
    let j3 = ws_from(s, n, p3);
    if !(j3 < n && s.get_char(j3) == ',') {
        return None;
    }
    let m4 = match field_start_from(s, n, j3 + 1, "\"protocol\"", 10) {
        None => {
            return None;
        },
        Some(m4) => m4,
    };
    let (prot, p4) = match pstring_from(s, n, m4) {
        None => {
            return None;
        },
        Some(p) => p,
    };
    let j4 = ws_from(s, n, p4);
    if j4 < n && s.get_char(j4) == ',' {
        let m5 = match field_start_from(s, n, j4 + 1, "\"curve\"", 7) {
            None => {
                return None;
            },
            Some(m5) => m5,
        };
        let (cv, p5) = match pstring_from(s, n, m5) {
            None => {
                return None;
            },
            Some(p) => p,
        };
        let j5 = ws_from(s, n, p5);
        if j5 < n && s.get_char(j5) == '}' {
            let e = ws_from(s, n, j5 + 1);
            if e == n {
                return Some(
                    Proof { pi_a: pia, pi_b: pib, pi_c: pic, protocol: prot, curve: Some(cv) },
                );
            }
        }
        None
    } else if j4 < n && s.get_char(j4) == '}' {
        let e = ws_from(s, n, j4 + 1);
        if e == n {
            Some(Proof { pi_a: pia, pi_b: pib, pi_c: pic, protocol: prot, curve: None })
        } else {
            None
        }
    } else {
        None
    }
}

fn field_start_from(s: &str, n: usize, i: usize, key: &str, kl: usize) -> (r: Option<usize>)
    requires
        n == s@.len(),
        kl == key@.len(),
        0 < kl,
        i <= n,
    ensures
        match r {
            Some(m) => sp_field_start(s@, i as int, key@) == Some(m as int) && i <= m <= n,
            None => sp_field_start(s@, i as int, key@) is None,
        },
{
    let k = ws_from(s, n, i);
    if !exact_from(s, n, k, key, kl) {
        return None;
    }
    proof {
        if n - k < kl {
            lemma_exact_needs_room(s@, k as int, key@);
        }
    }
    let j = ws_from(s, n, k + kl);
    if j < n && s.get_char(j) == ':' {
        Some(ws_from(s, n, j + 1))
    } else {
        None
    }
}

proof fn lemma_ws_stop(s: Seq<char>, i: int)
    requires
        0 <= i,
        i >= s.len() || !is_ws(s[i]),
    ensures
        sp_ws(s, i) == i,
{
}

proof fn lemma_exact_self(s: Seq<char>, i: int, t: Seq<char>)
    requires
        0 <= i,
        i + t.len() <= s.len(),
        forall|k: int| 0 <= k < t.len() ==> s[i + k] == t[k],
    ensures
        sp_exact(s, i, t),
    decreases t.len(),
{
    if t.len() > 0 {
        assert(s[i] == t[0]);
        let t1 = t.skip(1);
        assert forall|k: int| 0 <= k < t1.len() implies s[i + 1 + k] == t1[k] by {
            assert(t1[k] == t[k + 1]);
        }
        lemma_exact_self(s, i + 1, t1);
    }
}

proof fn lemma_pstring_at(s: Seq<char>, i: int, c: Seq<char>)
    requires
        content_ok(c),
        0 <= i,
        i + c.len() + 2 <= s.len(),
        s[i] == '"',
        forall|k: int| 0 <= k < c.len() ==> s[i + 1 + k] == c[k],
        s[i + 1 + c.len()] == '"',
    ensures
        sp_pstring(s, i) == Some((c, i + c.len() + 2)),
{
    lemma_strbody_content(s, i + 1, c);
    assert(sp_strbody(s, i + 1) == Some(i + c.len() + 2));
    assert(s.subrange(i + 1, i + 1 + c.len()) =~= c);
}

proof fn lemma_straritems_at(s: Seq<char>, i: int, xs: Seq<Seq<char>>)
    requires
        xs.len() >= 1,
        contents_ok(xs),
        0 <= i,
        i + sarr_items(xs).len() + 1 <= s.len(),
        forall|k: int| 0 <= k < sarr_items(xs).len() ==> s[i + k] == sarr_items(xs)[k],
        s[i + sarr_items(xs).len()] == ']',
    ensures
        sp_straritems(s, i) == Some((xs, i + sarr_items(xs).len() + 1)),
    decreases xs.len(),
{
    let its = sarr_items(xs);
    let c0 = xs[0];
    assert(content_ok(c0));
    if xs.len() == 1 {
        assert(its == quoted(c0));
        assert(quoted(c0).len() == c0.len() + 2);
        assert(s[i] == '"') by {
            assert(its[0] == '"');
        }
        assert forall|k: int| 0 <= k < c0.len() implies s[i + 1 + k] == c0[k] by {
            assert(its[1 + k] == c0[k]);
        }
        assert(s[i + 1 + c0.len()] == '"') by {
            assert(its[c0.len() + 1 as int] == '"');
        }
        lemma_pstring_at(s, i, c0);
        let k = i + c0.len() + 2;
        assert(s[k] == ']');
        lemma_ws_stop(s, k);
        assert(seq![c0] =~= xs);
    } else {
        let rest = xs.skip(1);
        let its1 = sarr_items(rest);
        assert(its == quoted(c0) + seq![','] + its1);
        let q0 = c0.len() + 2 as int;
        assert(s[i] == '"') by {
            assert(its[0] == '"');
        }
        assert forall|k: int| 0 <= k < c0.len() implies s[i + 1 + k] == c0[k] by {
            assert(its[1 + k] == c0[k]);
        }
        assert(s[i + 1 + c0.len()] == '"') by {
            assert(its[c0.len() + 1 as int] == '"');
        }
        lemma_pstring_at(s, i, c0);
        assert(sp_pstring(s, i) == Some((c0, i + q0)));
        assert(s[i + q0] == ',') by {
            assert(its[q0] == ',');
        }
        lemma_ws_stop(s, i + q0);
        assert(rest.len() >= 1);
        assert(its1[0] == '"') by {
            assert(its1 == if rest.len() == 1 {
                quoted(rest[0])
            } else {
                quoted(rest[0]) + seq![','] + sarr_items(rest.skip(1))
            });
            assert(quoted(rest[0])[0] == '"');
        }
        assert(s[i + q0 + 1] == '"') by {
            assert(its[q0 + 1] == its1[0]);
        }
        lemma_ws_stop(s, i + q0 + 1);
        assert forall|k: int| 0 <= k < rest.len() implies content_ok(#[trigger] rest[k]) by {
            assert(rest[k] == xs[k + 1]);
        }
        assert forall|k: int| 0 <= k < its1.len() implies s[i + q0 + 1 + k] == its1[k] by {
            assert(its[q0 + 1 + k] == its1[k]);
        }
        assert(s[i + q0 + 1 + its1.len()] == ']') by {
            assert(its.len() == q0 + 1 + its1.len());
        }
        lemma_straritems_at(s, i + q0 + 1, rest);
        assert(sp_straritems(s, i + q0 + 1) == Some((rest, i + its.len() + 1)));
        assert(seq![c0] + rest =~= xs);
    }
}

proof fn lemma_sarr_at(s: Seq<char>, i: int, xs: Seq<Seq<char>>)
    requires
        contents_ok(xs),
        0 <= i,
        i + sarr(xs).len() <= s.len(),
        forall|k: int| 0 <= k < sarr(xs).len() ==> s[i + k] == sarr(xs)[k],
    ensures
        sp_strarray(s, i) == Some((xs, i + sarr(xs).len())),
{
    let a = sarr(xs);
    let its = sarr_items(xs);
    assert(a == seq!['['] + its + seq![']']);
    assert(s[i] == '[') by {
        assert(a[0] == '[');
    }
    if xs.len() == 0 {
        assert(its.len() == 0);
        assert(s[i + 1] == ']') by {
            assert(a[1] == ']');
        }
        lemma_ws_stop(s, i + 1);
    } else {
        assert(its[0] == '"') by {
            assert(its == if xs.len() == 1 {
                quoted(xs[0])
            } else {
                quoted(xs[0]) + seq![','] + sarr_items(xs.skip(1))
            });
            assert(quoted(xs[0])[0] == '"');
        }
        assert(s[i + 1] == '"') by {
            assert(a[1] == its[0]);
        }
        lemma_ws_stop(s, i + 1);
        assert forall|k: int| 0 <= k < its.len() implies s[i + 1 + k] == its[k] by {
            assert(a[1 + k] == its[k]);
        }
        assert(s[i + 1 + its.len() as int] == ']') by {
            assert(a[1 + its.len() as int] == ']');
        }
        lemma_straritems_at(s, i + 1, xs);
    }
}

proof fn lemma_matitems_at(s: Seq<char>, i: int, m: Seq<Seq<Seq<char>>>)
    requires
        m.len() >= 1,
        matrix_ok(m),
        0 <= i,
        i + mat_items(m).len() + 1 <= s.len(),
        forall|k: int| 0 <= k < mat_items(m).len() ==> s[i + k] == mat_items(m)[k],
        s[i + mat_items(m).len()] == ']',
    ensures
        sp_matitems(s, i) == Some((m, i + mat_items(m).len() + 1)),
    decreases m.len(),
{
    let its = mat_items(m);
    let r0 = m[0];
    assert(contents_ok(r0));
    if m.len() == 1 {
        assert(its == sarr(r0));
        assert forall|k: int| 0 <= k < sarr(r0).len() implies s[i + k] == sarr(r0)[k] by {
            assert(its[k] == sarr(r0)[k]);
        }
        lemma_sarr_at(s, i, r0);
        let k = i + sarr(r0).len();
        assert(s[k] == ']');
        lemma_ws_stop(s, k);
        assert(seq![r0] =~= m);
    } else {
        let rest = m.skip(1);
        let its1 = mat_items(rest);
        assert(its == sarr(r0) + seq![','] + its1);
        let q0 = sarr(r0).len() as int;
        assert forall|k: int| 0 <= k < q0 implies s[i + k] == sarr(r0)[k] by {
            assert(its[k] == sarr(r0)[k]);
        }
        lemma_sarr_at(s, i, r0);
        assert(sp_strarray(s, i) == Some((r0, i + q0)));
        assert(s[i + q0] == ',') by {
            assert(its[q0] == ',');
        }
        lemma_ws_stop(s, i + q0);
        assert(rest.len() >= 1);
        assert(its1[0] == '[') by {
            assert(its1 == if rest.len() == 1 {
                sarr(rest[0])
            } else {
                sarr(rest[0]) + seq![','] + mat_items(rest.skip(1))
            });
            assert(sarr(rest[0])[0] == '[');
        }
        assert(s[i + q0 + 1] == '[') by {
            assert(its[q0 + 1] == its1[0]);
        }
        lemma_ws_stop(s, i + q0 + 1);
        assert forall|k: int| 0 <= k < rest.len() implies contents_ok(#[trigger] rest[k]) by {
            assert(rest[k] == m[k + 1]);
        }
        assert forall|k: int| 0 <= k < its1.len() implies s[i + q0 + 1 + k] == its1[k] by {
            assert(its[q0 + 1 + k] == its1[k]);
        }
        assert(s[i + q0 + 1 + its1.len()] == ']') by {
            assert(its.len() == q0 + 1 + its1.len());
        }
        lemma_matitems_at(s, i + q0 + 1, rest);
        assert(seq![r0] + rest =~= m);
    }
}

proof fn lemma_mat_at(s: Seq<char>, i: int, m: Seq<Seq<Seq<char>>>)
    requires
        matrix_ok(m),
        0 <= i,
        i + mat(m).len() <= s.len(),
        forall|k: int| 0 <= k < mat(m).len() ==> s[i + k] == mat(m)[k],
    ensures
        sp_matrix(s, i) == Some((m, i + mat(m).len())),
{
    let a = mat(m);
    let its = mat_items(m);
    assert(a == seq!['['] + its + seq![']']);
    assert(s[i] == '[') by {
        assert(a[0] == '[');
    }
    if m.len() == 0 {
        assert(its.len() == 0);
        assert(s[i + 1] == ']') by {
            assert(a[1] == ']');
        }
        lemma_ws_stop(s, i + 1);
    } else {
        assert(its[0] == '[') by {
            assert(its == if m.len() == 1 {
                sarr(m[0])
            } else {
                sarr(m[0]) + seq![','] + mat_items(m.skip(1))
            });
            assert(sarr(m[0])[0] == '[');
        }
        assert(s[i + 1] == '[') by {
            assert(a[1] == its[0]);
        }
        lemma_ws_stop(s, i + 1);
        assert forall|k: int| 0 <= k < its.len() implies s[i + 1 + k] == its[k] by {
            assert(a[1 + k] == its[k]);
        }
        assert(s[i + 1 + its.len() as int] == ']') by {
            assert(a[1 + its.len() as int] == ']');
        }
        lemma_matitems_at(s, i + 1, m);
    }
}

proof fn lemma_seg_index(pre: Seq<char>, seg: Seq<char>, suf: Seq<char>, s: Seq<char>, k: int)
    requires
        s == pre + seg + suf,
        0 <= k < seg.len(),
    ensures
        s[pre.len() + k] == seg[k],
{
    assert((pre + seg + suf)[pre.len() + k] == seg[k]);
}

/// The header of the rendered proof object before the `pi_a` value.
pub open spec fn pj_h1() -> Seq<char> {
    seq!['{'] + kq_pi_a() + seq![':']
}

/// The separator and key before the `pi_b` value.
pub open spec fn pj_h2() -> Seq<char> {
    seq![','] + kq_pi_b() + seq![':']
}

/// The separator and key before the `pi_c` value.
pub open spec fn pj_h3() -> Seq<char> {
    seq![','] + kq_pi_c() + seq![':']
}

/// The separator and key before the `protocol` value.
pub open spec fn pj_h4() -> Seq<char> {
    seq![','] + kq_protocol() + seq![':']
}

/// The separator and key before the `curve` value.
pub open spec fn pj_h5() -> Seq<char> {
    seq![','] + kq_curve() + seq![':']
}

/// The optional curve field of the rendered proof object.
pub open spec fn pj_tail(m: ProofModel) -> Seq<char> {
    match m.curve {
        Some(cv) => pj_h5() + quoted(cv),
        None => Seq::<char>::empty(),
    }
}

/// The offset just past the `pi_a` value in the rendered proof object.
pub open spec fn pj_p1(m: ProofModel) -> int {
    8 + sarr(m.pi_a).len() as int
}

/// The offset of the `pi_b` value.
pub open spec fn pj_o2(m: ProofModel) -> int {
    pj_p1(m) + 8
}

/// The offset just past the `pi_b` value.
pub open spec fn pj_p2(m: ProofModel) -> int {
    pj_o2(m) + mat(m.pi_b).len() as int
}

/// The offset of the `pi_c` value.
pub open spec fn pj_o3(m: ProofModel) -> int {
    pj_p2(m) + 8
}

/// The offset just past the `pi_c` value.
pub open spec fn pj_p3(m: ProofModel) -> int {
    pj_o3(m) + sarr(m.pi_c).len() as int
}

/// The offset of the `protocol` value.
pub open spec fn pj_o4(m: ProofModel) -> int {
    pj_p3(m) + 12
}

/// The offset just past the `protocol` value.
pub open spec fn pj_p4(m: ProofModel) -> int {
    pj_o4(m) + quoted(m.protocol).len() as int
}

#[verifier::rlimit(100)]
proof fn lemma_pj_layout_head(m: ProofModel)
    ensures
        forall|k: int| 0 <= k < 8 ==> proof_json(m)[k] == #[trigger] pj_h1()[k],
        forall|k: int|
            0 <= k < sarr(m.pi_a).len() ==> proof_json(m)[8 + k] == #[trigger] sarr(m.pi_a)[k],
        forall|k: int| 0 <= k < 8 ==> proof_json(m)[pj_p1(m) + k] == #[trigger] pj_h2()[k],
        forall|k: int|
            0 <= k < mat(m.pi_b).len() ==> proof_json(m)[pj_o2(m) + k] == #[trigger] mat(m.pi_b)[k],
        forall|k: int| 0 <= k < 8 ==> proof_json(m)[pj_p2(m) + k] == #[trigger] pj_h3()[k],
{
    let s = proof_json(m);
    let a = sarr(m.pi_a);
    let b = mat(m.pi_b);
    let c = sarr(m.pi_c);
    let p = quoted(m.protocol);
    let t9 = seq!['}'];
    let t8 = pj_tail(m) + t9;
    let t7 = p + t8;
    let t6 = pj_h4() + t7;
    let t5 = c + t6;
    let t4 = pj_h3() + t5;
    let t3 = b + t4;
    let t2 = pj_h2() + t3;
    let t1 = a + t2;
    assert(s =~= Seq::<char>::empty() + pj_h1() + t1);
    assert forall|k: int| 0 <= k < 8 implies s[k] == pj_h1()[k] by {
        lemma_seg_index(Seq::<char>::empty(), pj_h1(), t1, s, k);
    }
    assert(s =~= pj_h1() + a + t2);
    assert forall|k: int| 0 <= k < a.len() implies s[8 + k] == a[k] by {
        lemma_seg_index(pj_h1(), a, t2, s, k);
    }
    assert(s =~= (pj_h1() + a) + pj_h2() + t3);
    assert forall|k: int| 0 <= k < 8 implies s[pj_p1(m) + k] == pj_h2()[k] by {
        lemma_seg_index(pj_h1() + a, pj_h2(), t3, s, k);
    }
    assert(s =~= (pj_h1() + a + pj_h2()) + b + t4);
    assert forall|k: int| 0 <= k < b.len() implies s[pj_o2(m) + k] == b[k] by {
        lemma_seg_index(pj_h1() + a + pj_h2(), b, t4, s, k);
    }
    assert(s =~= (pj_h1() + a + pj_h2() + b) + pj_h3() + t5);
    assert forall|k: int| 0 <= k < 8 implies s[pj_p2(m) + k] == pj_h3()[k] by {
        lemma_seg_index(pj_h1() + a + pj_h2() + b, pj_h3(), t5, s, k);
    }
}

#[verifier::rlimit(100)]
proof fn lemma_pj_layout_tail(m: ProofModel)
    ensures
        forall|k: int|
            0 <= k < sarr(m.pi_c).len() ==> proof_json(m)[pj_o3(m) + k] == #[trigger] sarr(
                m.pi_c,
            )[k],
        forall|k: int| 0 <= k < 12 ==> proof_json(m)[pj_p3(m) + k] == #[trigger] pj_h4()[k],
        forall|k: int|
            0 <= k < quoted(m.protocol).len() ==> proof_json(m)[pj_o4(m) + k] == #[trigger] quoted(
                m.protocol,
            )[k],
        forall|k: int|
            0 <= k < pj_tail(m).len() ==> proof_json(m)[pj_p4(m) + k] == #[trigger] pj_tail(m)[k],
        proof_json(m)[pj_p4(m) + pj_tail(m).len()] == '}',
        proof_json(m).len() == pj_p4(m) + pj_tail(m).len() + 1,
{
    let s = proof_json(m);
    let a = sarr(m.pi_a);
    let b = mat(m.pi_b);
    let c = sarr(m.pi_c);
    let p = quoted(m.protocol);
    let t9 = seq!['}'];
    let t8 = pj_tail(m) + t9;
    let t7 = p + t8;
    let t6 = pj_h4() + t7;
    assert(s =~= (pj_h1() + a + pj_h2() + b + pj_h3()) + c + t6);
    assert forall|k: int| 0 <= k < c.len() implies s[pj_o3(m) + k] == c[k] by {
        lemma_seg_index(pj_h1() + a + pj_h2() + b + pj_h3(), c, t6, s, k);
    }
    assert(s =~= (pj_h1() + a + pj_h2() + b + pj_h3() + c) + pj_h4() + t7);
    assert forall|k: int| 0 <= k < 12 implies s[pj_p3(m) + k] == pj_h4()[k] by {
        lemma_seg_index(pj_h1() + a + pj_h2() + b + pj_h3() + c, pj_h4(), t7, s, k);
    }
    assert(s =~= (pj_h1() + a + pj_h2() + b + pj_h3() + c + pj_h4()) + p + t8);
    assert forall|k: int| 0 <= k < p.len() implies s[pj_o4(m) + k] == p[k] by {
        lemma_seg_index(pj_h1() + a + pj_h2() + b + pj_h3() + c + pj_h4(), p, t8, s, k);
    }
    assert(s =~= (pj_h1() + a + pj_h2() + b + pj_h3() + c + pj_h4() + p) + pj_tail(m) + t9);
    assert forall|k: int| 0 <= k < pj_tail(m).len() implies s[pj_p4(m) + k] == pj_tail(m)[k] by {
        lemma_seg_index(pj_h1() + a + pj_h2() + b + pj_h3() + c + pj_h4() + p, pj_tail(m), t9, s, k);
    }
    assert(s =~= (pj_h1() + a + pj_h2() + b + pj_h3() + c + pj_h4() + p + pj_tail(m)) + t9
        + Seq::<char>::empty());
    assert(s[pj_p4(m) + pj_tail(m).len()] == '}') by {
        lemma_seg_index(
            pj_h1() + a + pj_h2() + b + pj_h3() + c + pj_h4() + p + pj_tail(m),
            t9,
            Seq::<char>::empty(),
            s,
            0,
        );
    }
}

#[verifier::rlimit(100)]
proof fn lemma_pj_walk_head(m: ProofModel)
    requires
        proof_wf(m),
    ensures
        sp_field_start(proof_json(m), 1, kq_pi_a()) == Some(8int),
        sp_strarray(proof_json(m), 8) == Some((m.pi_a, pj_p1(m))),
        sp_field_start(proof_json(m), pj_p1(m) + 1, kq_pi_b()) == Some(pj_o2(m)),
        sp_matrix(proof_json(m), pj_o2(m)) == Some((m.pi_b, pj_p2(m))),
        sp_field_start(proof_json(m), pj_p2(m) + 1, kq_pi_c()) == Some(pj_o3(m)),
        sp_strarray(proof_json(m), pj_o3(m)) == Some((m.pi_c, pj_p3(m))),
        proof_json(m)[0] == '{',
        proof_json(m)[pj_p1(m)] == ',',
        proof_json(m)[pj_p2(m)] == ',',
{
    let s = proof_json(m);
    let a = sarr(m.pi_a);
    let b = mat(m.pi_b);
    let c = sarr(m.pi_c);
    lemma_pj_layout_head(m);
    lemma_pj_layout_tail(m);
    let p1 = pj_p1(m);
    let o2 = pj_o2(m);
    let p2 = pj_p2(m);
    let o3 = pj_o3(m);
    assert(s.len() == pj_p4(m) + pj_tail(m).len() + 1);
    assert(s[0] == '{') by {
        assert(pj_h1()[0] == '{');
    }
    assert(s[1] == '"') by {
        assert(pj_h1()[1] == kq_pi_a()[0]);
    }
    lemma_ws_stop(s, 1);
    assert forall|k: int| 0 <= k < 6 implies s[1 + k] == kq_pi_a()[k] by {
        assert(pj_h1()[1 + k] == kq_pi_a()[k]);
    }
    lemma_exact_self(s, 1, kq_pi_a());
    assert(s[7] == ':') by {
        assert(pj_h1()[7] == ':');
    }
    lemma_ws_stop(s, 7);
    assert(s[8] == '[') by {
        assert(a[0] == '[');
    }
    lemma_ws_stop(s, 8);
    assert(sp_field_start(s, 1, kq_pi_a()) == Some(8int));
    lemma_sarr_at(s, 8, m.pi_a);
    assert(s[p1] == ',') by {
        assert(pj_h2()[0] == ',');
    }
    assert(s[p1 + 1] == '"') by {
        assert(pj_h2()[1] == kq_pi_b()[0]);
    }
    lemma_ws_stop(s, p1 + 1);
    assert forall|k: int| 0 <= k < 6 implies s[p1 + 1 + k] == kq_pi_b()[k] by {
        assert(pj_h2()[1 + k] == kq_pi_b()[k]);
    }
    lemma_exact_self(s, p1 + 1, kq_pi_b());
    assert(s[p1 + 7] == ':') by {
        assert(pj_h2()[7] == ':');
    }
    lemma_ws_stop(s, p1 + 7);
    assert(s[o2] == '[') by {
        assert(b[0] == '[');
    }
    lemma_ws_stop(s, o2);
    assert(sp_field_start(s, p1 + 1, kq_pi_b()) == Some(o2));
    lemma_mat_at(s, o2, m.pi_b);
    assert(s[p2] == ',') by {
        assert(pj_h3()[0] == ',');
    }
    assert(s[p2 + 1] == '"') by {
        assert(pj_h3()[1] == kq_pi_c()[0]);
    }
    lemma_ws_stop(s, p2 + 1);
    assert forall|k: int| 0 <= k < 6 implies s[p2 + 1 + k] == kq_pi_c()[k] by {
        assert(pj_h3()[1 + k] == kq_pi_c()[k]);
    }
    lemma_exact_self(s, p2 + 1, kq_pi_c());
    assert(s[p2 + 7] == ':') by {
        assert(pj_h3()[7] == ':');
    }
    lemma_ws_stop(s, p2 + 7);
    assert(s[o3] == '[') by {
        assert(c[0] == '[');
    }
    lemma_ws_stop(s, o3);
    assert(sp_field_start(s, p2 + 1, kq_pi_c()) == Some(o3));
    lemma_sarr_at(s, o3, m.pi_c);
}

#[verifier::rlimit(100)]
proof fn lemma_pj_walk_tail(m: ProofModel)
    requires
        proof_wf(m),
    ensures
        sp_parse_proof_tail(proof_json(m), pj_p3(m), m.pi_a, m.pi_b, m.pi_c) == Some(m),
{
    let s = proof_json(m);
    let p = quoted(m.protocol);
    lemma_pj_layout_tail(m);
    let p3 = pj_p3(m);
    let o4 = pj_o4(m);
    let p4 = pj_p4(m);
    assert(s.len() == p4 + pj_tail(m).len() + 1);
    assert(s[p3] == ',') by {
        assert(pj_h4()[0] == ',');
    }
    lemma_ws_stop(s, p3);
    assert(s[p3 + 1] == '"') by {
        assert(pj_h4()[1] == kq_protocol()[0]);
    }
    lemma_ws_stop(s, p3 + 1);
    assert forall|k: int| 0 <= k < 10 implies s[p3 + 1 + k] == kq_protocol()[k] by {
        assert(pj_h4()[1 + k] == kq_protocol()[k]);
    }
    lemma_exact_self(s, p3 + 1, kq_protocol());
    assert(s[p3 + 11] == ':') by {
        assert(pj_h4()[11] == ':');
    }
    lemma_ws_stop(s, p3 + 11);
    assert(s[o4] == '"') by {
        assert(p[0] == '"');
    }
    lemma_ws_stop(s, o4);
    assert(sp_field_start(s, p3 + 1, kq_protocol()) == Some(o4));
    assert forall|k: int| 0 <= k < m.protocol.len() implies s[o4 + 1 + k] == m.protocol[k] by {
        assert(p[1 + k] == m.protocol[k]);
    }
    assert(s[o4 + 1 + m.protocol.len()] == '"') by {
        assert(p[m.protocol.len() + 1 as int] == '"');
    }
    lemma_pstring_at(s, o4, m.protocol);
    assert(sp_pstring(s, o4) == Some((m.protocol, p4)));
    match m.curve {
        None => {
            assert(pj_tail(m).len() == 0);
            assert(s[p4] == '}');
            lemma_ws_stop(s, p4);
            assert(sp_ws(s, p4 + 1) == s.len());
        },
        Some(cv) => {
            let v = quoted(cv);
            assert(pj_h5().len() == 9);
            let o5 = p4 + 9;
            let p5 = o5 + v.len();
            assert forall|k: int| 0 <= k < 9 implies s[p4 + k] == pj_h5()[k] by {
                assert(pj_tail(m)[k] == pj_h5()[k]);
            }
            assert forall|k: int| 0 <= k < v.len() implies s[o5 + k] == v[k] by {
                assert(pj_tail(m)[9 + k] == v[k]);
            }
            assert(s[p4] == ',') by {
                assert(pj_h5()[0] == ',');
            }
            lemma_ws_stop(s, p4);
            assert(s[p4 + 1] == '"') by {
                assert(pj_h5()[1] == kq_curve()[0]);
            }
            lemma_ws_stop(s, p4 + 1);
            assert forall|k: int| 0 <= k < 7 implies s[p4 + 1 + k] == kq_curve()[k] by {
                assert(pj_h5()[1 + k] == kq_curve()[k]);
            }
            lemma_exact_self(s, p4 + 1, kq_curve());
            assert(s[p4 + 8] == ':') by {
                assert(pj_h5()[8] == ':');
            }
            lemma_ws_stop(s, p4 + 8);
            assert(s[o5] == '"') by {
                assert(v[0] == '"');
            }
            lemma_ws_stop(s, o5);
            assert(sp_field_start(s, p4 + 1, kq_curve()) == Some(o5));
            assert forall|k: int| 0 <= k < cv.len() implies s[o5 + 1 + k] == cv[k] by {
                assert(v[1 + k] == cv[k]);
            }
            assert(s[o5 + 1 + cv.len()] == '"') by {
                assert(v[cv.len() + 1 as int] == '"');
            }
            lemma_pstring_at(s, o5, cv);
            assert(sp_pstring(s, o5) == Some((cv, p5)));
            assert(s[p5] == '}') by {
                assert(pj_tail(m).len() == 9 + v.len());
            }
            lemma_ws_stop(s, p5);
            assert(sp_ws(s, p5 + 1) == s.len());
            assert(sp_obj_end_at(s, p5));
        },
    }
}

/// Round trip for the proof object: parsing the canonical rendering of any
/// well-formed proof yields exactly that proof.
pub proof fn lemma_proof_round_trip(m: ProofModel)
    requires
        proof_wf(m),
    ensures
        sp_parse_proof(proof_json(m)) == Some(m),
{
    let s = proof_json(m);
    lemma_pj_layout_head(m);
    lemma_pj_layout_tail(m);
    lemma_pj_walk_head(m);
    lemma_pj_walk_tail(m);
    assert(s[0] == '{');
    lemma_ws_stop(s, 0);
    assert(s.len() > 0);
    lemma_ws_stop(s, pj_p1(m));
    lemma_ws_stop(s, pj_p2(m));
}

/// What prove-and-push uploads and what prove returns inline agree. The
/// push variant delivers the prover's two output files as they are; the
/// inline variant embeds, for the same file contents, exactly those bytes:
/// for canonical files the parsed values render back to the files
/// themselves, and the inline body is the two files joined by the fixed
/// response frame.
#[verifier::rlimit(50)]
pub proof fn lemma_push_matches_prove(m: ProofModel, xs: Seq<Seq<char>>)
    requires
        proof_wf(m),
        contents_ok(xs),
    ensures
        sp_parse_proof(proof_json(m)) == Some(m),
        sp_parse_public(public_json(xs)) == Some(xs),
        prove_response_body_spec(m, xs) == seq!['{', '"', 'p', 'r', 'o', 'o', 'f', '"', ':']
            + proof_json(m) + seq![','] + seq![
            '"',
            'p',
            'u',
            'b',
            'l',
            'i',
            'c',
            'O',
            'u',
            't',
            'p',
            'u',
            't',
            's',
            '"',
            ':',
        ] + public_json(xs) + seq!['}'],
{
    assert(prove_response_body_spec(m, xs) == seq!['{', '"', 'p', 'r', 'o', 'o', 'f', '"', ':']
        + proof_json(m) + seq![','] + seq![
        '"',
        'p',
        'u',
        'b',
        'l',
        'i',
        'c',
        'O',
        'u',
        't',
        'p',
        'u',
        't',
        's',
        '"',
        ':',
    ] + public_json(xs) + seq!['}']);
    lemma_proof_round_trip(m);
    lemma_public_round_trip(xs);
}

/// Round trip for the public outputs: parsing the canonical rendering of any
/// well-formed outputs yields exactly those outputs.
pub proof fn lemma_public_round_trip(xs: Seq<Seq<char>>)
    requires
        contents_ok(xs),
    ensures
        sp_parse_public(public_json(xs)) == Some(xs),
{
    let s = public_json(xs);
    assert(s[0] == '[') by {
        assert(sarr(xs)[0] == '[');
    }
    lemma_ws_stop(s, 0);
    assert forall|k: int| 0 <= k < sarr(xs).len() implies s[0 + k] == sarr(xs)[k] by {
        assert(s == sarr(xs));
    }
    lemma_sarr_at(s, 0, xs);
    lemma_ws_stop(s, s.len() as int);
}

/// Parses the prover's public-outputs file. Yields the outputs exactly when
/// the text matches the public-outputs grammar, and nothing otherwise.
pub fn parse_public(s: &str) -> (r: Option<PublicOutputs>)
    ensures
        match r {
            Some(o) => sp_parse_public(s@) == Some(o@),
            None => sp_parse_public(s@) is None,
        },
{
    let n = s.unicode_len();
    let i0 = ws_from(s, n, 0);
    match strarray_from(s, n, i0) {
        None => None,
        Some((xs, p)) => {
            let e = ws_from(s, n, p);
            if e == n {
                Some(PublicOutputs(xs))
            } else {
                None
            }
        },
    }
}

} // verus!
