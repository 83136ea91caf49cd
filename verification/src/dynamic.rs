//! The dynamic key-value override pass: a flat `key=value` set applied
//! onto an already-resolved specification as a final patch, covering
//! fields the primary resolver does not reach.  Unknown keys are
//! ignored deliberately, and values that fail to parse are skipped
//! rather than failing the run.

use vstd::prelude::*;
use vstd::string::StrSliceExecFns;

use crate::conf::spec_find_char;
use crate::errors::KubeError;
use crate::kconfig::{KubernetesConfig, ServiceType, StorageConfig};
use crate::kv::{kv_extend, kv_get, kv_upsert, spec_kv_last_lookup, spec_kv_lookup};
use crate::model::{dup_opt_kv, opt_vec_view, ResourceRequirements};
use crate::text::{
    fmt_u64, parse_u64_digits, spec_all_digits, spec_dec, spec_digits_val, spec_trim,
    str_has_prefix, strip_prefix_str, trim_str,
};

verus! {

/// The index of the first `c`, when the text holds one in range.
fn find_char(s: &str, c: char) -> (r: Option<usize>)
    ensures
        match r {
            Some(i) => spec_find_char(s@, c, 0) == i && i < s@.len(),
            None => spec_find_char(s@, c, 0) == -1,
        },
{
    let len = s.unicode_len();
    let mut i: usize = 0;
    while i < len
        invariant
            len == s@.len(),
            i <= len,
            spec_find_char(s@, c, 0) == spec_find_char(s@, c, i as int),
        decreases len - i,
    {
        if s.get_char(i) == c {
            return Some(i);
        }
        i += 1;
    }
    None
}

/// The comma-separated pieces of a text, in order.
pub open spec fn spec_comma_pieces(s: Seq<char>) -> Seq<Seq<char>>
    decreases s.len(),
{
    let c = spec_find_char(s, ',', 0);
    if !(0 <= c < s.len()) {
        seq![s]
    } else {
        seq![s.take(c)] + spec_comma_pieces(s.skip(c + 1))
    }
}

/// What one piece contributes: the trimmed text before its first `=`
/// and the trimmed rest, or nothing when it has no `=`.
pub open spec fn spec_piece_pair(p: Seq<char>) -> Option<(Seq<char>, Seq<char>)> {
    let e = spec_find_char(p, '=', 0);
    if 0 <= e < p.len() {
        Some((spec_trim(p.take(e)), spec_trim(p.skip(e + 1))))
    } else {
        None
    }
}

/// The pairs a piece list contributes, in order.
pub open spec fn spec_pairs_from(pieces: Seq<Seq<char>>) -> Seq<(Seq<char>, Seq<char>)>
    decreases pieces.len(),
{
    if pieces.len() == 0 {
        Seq::empty()
    } else {
        let rest = spec_pairs_from(pieces.drop_last());
        match spec_piece_pair(pieces.last()) {
            Some(pr) => rest.push(pr),
            None => rest,
        }
    }
}

/// The key-value pairs a comma list carries.
pub open spec fn spec_kv_pairs(s: Seq<char>) -> Seq<(Seq<char>, Seq<char>)> {
    spec_pairs_from(spec_comma_pieces(s))
}

fn split_commas(s: &str) -> (r: Vec<String>)
    ensures
        r@.len() == spec_comma_pieces(s@).len(),
        forall|i: int| 0 <= i < r@.len() ==> (#[trigger] r@[i])@ == spec_comma_pieces(s@)[i],
    decreases s@.len(),
{
    let len = s.unicode_len();
    match find_char(s, ',') {
        None => {
            let mut out: Vec<String> = Vec::new();
            out.push(s.to_owned());
            out
        },
        Some(c) => {
            let head = s.substring_char(0, c).to_owned();
            let tail = s.substring_char(c + 1, len);
            let mut out: Vec<String> = Vec::new();
            out.push(head);
            let mut rest = split_commas(tail);
            let ghost restg = rest@;
            out.append(&mut rest);
            proof {
                assert(out@.len() == 1 + restg.len());
                assert(spec_comma_pieces(s@) =~= seq![s@.take(c as int)] + spec_comma_pieces(
                    s@.skip(c + 1),
                ));
                assert forall|i: int| 0 <= i < out@.len() implies (#[trigger] out@[i])@
                    == spec_comma_pieces(s@)[i] by {
                    if i > 0 {
                        assert(out@[i] == restg[i - 1]);
                    }
                }
            }
            out
        },
    }
}

/// Parses a comma list of `key=value` pairs: each piece that carries
/// an `=` contributes its trimmed key and trimmed value, in order;
/// pieces without an `=` contribute nothing.
pub fn parse_kv_pairs(input: &str) -> (r: Vec<(String, String)>)
    ensures
        r@.len() == spec_kv_pairs(input@).len(),
        forall|i: int|
            0 <= i < r@.len() ==> ((#[trigger] r@[i]).0@, r@[i].1@) == spec_kv_pairs(input@)[i],
{
    let pieces = split_commas(input);
    let ghost pcs = spec_comma_pieces(input@);
    let mut out: Vec<(String, String)> = Vec::new();
    let mut i: usize = 0;
    while i < pieces.len()
        invariant
            pieces@.len() == pcs.len(),
            forall|j: int| 0 <= j < pcs.len() ==> (#[trigger] pieces@[j])@ == pcs[j],
            i <= pcs.len(),
            out@.len() == spec_pairs_from(pcs.take(i as int)).len(),
            forall|j: int|
                0 <= j < out@.len() ==> ((#[trigger] out@[j]).0@, out@[j].1@) == spec_pairs_from(
                    pcs.take(i as int),
                )[j],
        decreases pcs.len() - i,
    {
        let piece = &pieces[i];
        let plen = piece.as_str().unicode_len();
        proof {
            assert(pcs.take(i + 1).drop_last() =~= pcs.take(i as int));
            assert(pcs.take(i + 1).last() == pcs[i as int]);
        }
        match find_char(piece.as_str(), '=') {
            Some(e) => {
                let key = trim_str(piece.as_str().substring_char(0, e).to_owned().as_str());
                let value = trim_str(
                    piece.as_str().substring_char(e + 1, plen).to_owned().as_str(),
                );
                out.push((key, value));
            },
            None => {},
        }
        i += 1;
    }
    proof {
        assert(pcs.take(pcs.len() as int) =~= pcs);
    }
    out
}

/// The message a malformed `-D` entry produces when it has no `=`.
pub open spec fn spec_bad_format_msg(c: Seq<char>) -> Seq<char> {
    "Invalid config format: '"@ + c + "'. Expected 'key=value'"@
}

/// The message a `-D` entry with an empty key produces.
pub open spec fn spec_empty_key_msg(c: Seq<char>) -> Seq<char> {
    "Empty key in config: '"@ + c + "'"@
}

/// Whether a `-D` entry parses: it carries an `=` and its trimmed key
/// is non-empty.
pub open spec fn spec_dyn_entry_ok(c: Seq<char>) -> bool {
    match spec_piece_pair(c) {
        Some(pr) => pr.0.len() > 0,
        None => false,
    }
}

/// Parses the `-D key=value` override arguments into an ordered list:
/// each entry's trimmed key and value, rejecting an entry without an
/// `=` or with an empty key.
pub fn parse_dynamic_configs(configs: &Vec<String>) -> (r: Result<
    Vec<(String, String)>,
    KubeError,
>)
    ensures
        r is Ok <==> (forall|i: int|
            0 <= i < configs@.len() ==> spec_dyn_entry_ok(#[trigger] configs@[i]@)),
        r matches Ok(v) ==> {
            &&& v@.len() == configs@.len()
            &&& forall|i: int|
                0 <= i < v@.len() ==> Some(((#[trigger] v@[i]).0@, v@[i].1@)) == spec_piece_pair(
                    configs@[i]@,
                )
        },
        r matches Err(e) ==> exists|i: int|
            0 <= i < configs@.len() && !spec_dyn_entry_ok(#[trigger] configs@[i]@) && (e matches
            KubeError::ConfigError(m) && (m@ == spec_bad_format_msg(configs@[i]@) || m@
                == spec_empty_key_msg(configs@[i]@))),
{
    let mut out: Vec<(String, String)> = Vec::new();
    let mut i: usize = 0;
    while i < configs.len()
        invariant
            i <= configs@.len(),
            out@.len() == i,
            forall|j: int| 0 <= j < i ==> spec_dyn_entry_ok(#[trigger] configs@[j]@),
            forall|j: int|
                0 <= j < i ==> Some(((#[trigger] out@[j]).0@, out@[j].1@)) == spec_piece_pair(
                    configs@[j]@,
                ),
        decreases configs@.len() - i,
    {
        let c = &configs[i];
        let clen = c.as_str().unicode_len();
        match find_char(c.as_str(), '=') {
            None => {
                let mut m = "Invalid config format: '".to_owned();
                m.append(c.as_str());
                m.append("'. Expected 'key=value'");
                return Err(KubeError::ConfigError(m));
            },
            Some(e) => {
                let key = trim_str(c.as_str().substring_char(0, e).to_owned().as_str());
                let value = trim_str(c.as_str().substring_char(e + 1, clen).to_owned().as_str());
                if key.as_str().unicode_len() == 0 {
                    let mut m = "Empty key in config: '".to_owned();
                    m.append(c.as_str());
                    m.append("'");
                    return Err(KubeError::ConfigError(m));
                }
                out.push((key, value));
            },
        }
        i += 1;
    }
    Ok(out)
}

/// A decimal-digit override parsed as a 32-bit replica count, when it
/// is one.
pub open spec fn spec_parse_u32(s: Seq<char>) -> Option<int> {
    if spec_all_digits(s) && spec_digits_val(s) <= u32::MAX {
        Some(spec_digits_val(s) as int)
    } else {
        None
    }
}

fn parse_u32_value(s: &str) -> (r: Option<u32>)
    ensures
        match r {
            Some(v) => spec_parse_u32(s@) == Some(v as int),
            None => spec_parse_u32(s@) is None,
        },
{
    match parse_u64_digits(s) {
        Some(v) => {
            if v <= 0xffff_ffff {
                Some(v as u32)
            } else {
                None
            }
        },
        None => {
            proof {
                if spec_all_digits(s@) {
                    assert(spec_digits_val(s@) > u64::MAX);
                }
            }
            None
        },
    }
}

/// A processor-count override in whole milli units: the integer part
/// times a thousand plus the first three fractional digits, when the
/// text is a plain decimal number.
pub open spec fn spec_parse_milli(s: Seq<char>) -> Option<int> {
    let dot = spec_find_char(s, '.', 0);
    if !(0 <= dot < s.len()) {
        match spec_parse_u32(s) {
            Some(v) => Some(v * 1000),
            None => None,
        }
    } else {
        let ip = s.take(dot);
        let fp = s.skip(dot + 1);
        if (ip.len() > 0 || fp.len() > 0) && (ip.len() == 0 || (spec_all_digits(ip)
            && spec_digits_val(ip) <= u32::MAX)) && (fp.len() == 0 || spec_all_digits(fp)) {
            Some((if ip.len() == 0 {
                0
            } else {
                spec_digits_val(ip) as int
            }) * 1000 + spec_frac_milli(fp))
        } else {
            None
        }
    }
}

/// The first three fractional digits as milli units.
pub open spec fn spec_frac_milli(fp: Seq<char>) -> int {
    if fp.len() == 0 {
        0
    } else if fp.len() == 1 {
        (spec_digits_val(fp) * 100) as int
    } else if fp.len() == 2 {
        (spec_digits_val(fp) * 10) as int
    } else {
        spec_digits_val(fp.take(3)) as int
    }
}

fn is_all_digits(s: &str) -> (r: bool)
    ensures
        r == spec_all_digits(s@),
{
    let len = s.unicode_len();
    if len == 0 {
        return false;
    }
    let mut i: usize = 0;
    while i < len
        invariant
            len == s@.len(),
            0 < len,
            i <= len,
            forall|j: int| 0 <= j < i ==> crate::text::spec_is_digit(s@[j]),
        decreases len - i,
    {
        let c = s.get_char(i);
        if !('0' <= c && c <= '9') {
            return false;
        }
        i += 1;
    }
    true
}

fn parse_milli_value(s: &str) -> (r: Option<u64>)
    ensures
        match r {
            Some(v) => spec_parse_milli(s@) == Some(v as int),
            None => spec_parse_milli(s@) is None,
        },
{
    let len = s.unicode_len();
    match find_char(s, '.') {
        None => {
            match parse_u32_value(s) {
                Some(v) => Some((v as u64) * 1000),
                None => None,
            }
        },
        Some(dot) => {
            let ip = s.substring_char(0, dot);
            let fp = s.substring_char(dot + 1, len);
            let iplen = ip.unicode_len();
            let fplen = fp.unicode_len();
            if iplen == 0 && fplen == 0 {
                return None;
            }
            let iv: u32 = if iplen == 0 {
                0
            } else {
                match parse_u32_value(ip) {
                    Some(v) => v,
                    None => {
                        return None;
                    },
                }
            };
            if fplen == 0 {
                return Some((iv as u64) * 1000);
            }
            if !is_all_digits(fp) {
                return None;
            }
            let cut = if fplen > 3 {
                3
            } else {
                fplen
            };
            let fp3 = fp.substring_char(0, cut);
            proof {
                if fplen >= 3 {
                    assert(fp3@ =~= fp@.take(3));
                } else {
                    assert(fp3@ =~= fp@);
                }
                assert(spec_all_digits(fp3@)) by {
                    assert(forall|j: int| 0 <= j < fp3@.len() ==> fp3@[j] == fp@[j]);
                }
                lemma_digits_bound(fp3@);
            }
            let fv = match parse_u64_digits(fp3) {
                Some(v) => v,
                None => {
                    proof {
                        assert(false);
                    }
                    return None;
                },
            };
            let milli: u64 = if fplen == 1 {
                fv * 100
            } else if fplen == 2 {
                fv * 10
            } else {
                fv
            };
            Some((iv as u64) * 1000 + milli)
        },
    }
}

spec fn spec_pow10(n: nat) -> nat
    decreases n,
{
    if n == 0 {
        1
    } else {
        10 * spec_pow10((n - 1) as nat)
    }
}

proof fn lemma_digits_lt_pow(s: Seq<char>)
    requires
        s.len() == 0 || spec_all_digits(s),
    ensures
        spec_digits_val(s) < spec_pow10(s.len()),
    decreases s.len(),
{
    if s.len() > 0 {
        let d = s.drop_last();
        assert(d.len() == 0 || spec_all_digits(d)) by {
            assert(forall|j: int| 0 <= j < d.len() ==> d[j] == s[j]);
        }
        lemma_digits_lt_pow(d);
        assert(crate::text::spec_digit_val(s.last()) <= 9) by {
            assert(crate::text::spec_is_digit(s.last()));
        }
        assert(spec_digits_val(d) * 10 <= (spec_pow10(d.len()) - 1) * 10) by (nonlinear_arith)
            requires
                spec_digits_val(d) < spec_pow10(d.len()),
        ;
    }
}

/// A digit string of at most three characters stays under a thousand.
proof fn lemma_digits_bound(s: Seq<char>)
    requires
        spec_all_digits(s),
        s.len() <= 3,
    ensures
        spec_digits_val(s) < 1000,
{
    lemma_digits_lt_pow(s);
    assert(spec_pow10(0) == 1);
    assert(spec_pow10(1) == 10);
    assert(spec_pow10(2) == 100);
    assert(spec_pow10(3) == 1000);
    if s.len() == 1 {
        assert(spec_digits_val(s) < 10);
    } else if s.len() == 2 {
        assert(spec_digits_val(s) < 100);
    }
}


/// The view of an optional text field.
pub open spec fn spec_opt_view(o: Option<String>) -> Option<Seq<char>> {
    match o {
        Some(v) => Some(v@),
        None => None,
    }
}

/// The last value under `q` among parsed pair views.
pub open spec fn spec_sv_last_lookup(
    ps: Seq<(Seq<char>, Seq<char>)>,
    q: Seq<char>,
) -> Option<Seq<char>>
    decreases ps.len(),
{
    if ps.len() == 0 {
        None
    } else if ps.last().0 == q {
        Some(ps.last().1)
    } else {
        spec_sv_last_lookup(ps.drop_last(), q)
    }
}

proof fn lemma_sv_last_lookup(r: Seq<(String, String)>, ps: Seq<(Seq<char>, Seq<char>)>, q: Seq<char>)
    requires
        r.len() == ps.len(),
        forall|i: int| 0 <= i < r.len() ==> ((#[trigger] r[i]).0@, r[i].1@) == ps[i],
    ensures
        spec_kv_last_lookup(r, q) == spec_sv_last_lookup(ps, q),
    decreases r.len(),
{
    if r.len() > 0 {
        assert((r.last().0@, r.last().1@) == ps.last());
        lemma_sv_last_lookup(r.drop_last(), ps.drop_last(), q);
    }
}

/// Concatenation on the left is injective on the right.
proof fn lemma_concat_left_cancel(a: Seq<char>, x: Seq<char>, y: Seq<char>)
    requires
        a + x == a + y,
    ensures
        x == y,
{
    assert((a + x).skip(a.len() as int) =~= x);
    assert((a + y).skip(a.len() as int) =~= y);
}

/// A text without the prefix is no prefixed name.
proof fn lemma_no_prefix_no_concat(s: Seq<char>, p: Seq<char>, n: Seq<char>)
    requires
        !crate::text::spec_has_prefix(s, p),
    ensures
        s != p + n,
{
    if s == p + n {
        assert((p + n).subrange(0, p.len() as int) =~= p);
    }
}

/// The last value of a dynamic key, under the last-entry-wins reading
/// of the override set.
pub open spec fn spec_ov(cv: Seq<(String, String)>, k: Seq<char>) -> Option<Seq<char>> {
    spec_kv_last_lookup(cv, k)
}

/// An overridable text field's final value.
pub open spec fn spec_str_after(cv: Seq<(String, String)>, k: Seq<char>, old: Seq<char>) -> Seq<
    char,
> {
    match spec_ov(cv, k) {
        Some(v) => v,
        None => old,
    }
}

/// An overridable optional text field's final value.
pub open spec fn spec_optstr_after(
    cv: Seq<(String, String)>,
    k: Seq<char>,
    old: Option<String>,
) -> Option<Seq<char>> {
    match spec_ov(cv, k) {
        Some(v) => Some(v),
        None => spec_opt_view(old),
    }
}

/// A replica field's final value: the parsed override, or the old
/// count when the key is absent or does not parse.
pub open spec fn spec_replicas_after(cv: Seq<(String, String)>, k: Seq<char>, old: u32) -> int {
    match spec_ov(cv, k) {
        Some(v) => match spec_parse_u32(v) {
            Some(n) => n,
            None => old as int,
        },
        None => old as int,
    }
}

/// Whether a storage section stands after the pass.
pub open spec fn spec_storage_present_after(
    cv: Seq<(String, String)>,
    old: Option<StorageConfig>,
) -> bool {
    ||| old is Some
    ||| spec_ov(cv, "kubernetes.storage.class"@) is Some
    ||| spec_ov(cv, "kubernetes.storage.master-size"@) is Some
    ||| spec_ov(cv, "kubernetes.storage.worker-size"@) is Some
    ||| spec_ov(cv, "kubernetes.storage.size"@) is Some
}

pub open spec fn spec_storage_class_after(
    cv: Seq<(String, String)>,
    old: Option<StorageConfig>,
) -> Seq<char> {
    match spec_ov(cv, "kubernetes.storage.class"@) {
        Some(v) => v,
        None => match old {
            Some(st) => st.storage_class@,
            None => "standard"@,
        },
    }
}

pub open spec fn spec_master_size_after(
    cv: Seq<(String, String)>,
    old: Option<StorageConfig>,
) -> Option<Seq<char>> {
    match spec_ov(cv, "kubernetes.storage.master-size"@) {
        Some(v) => Some(v),
        None => match old {
            Some(st) if st.master_size is Some => spec_opt_view(st.master_size),
            _ => spec_ov(cv, "kubernetes.storage.size"@),
        },
    }
}

pub open spec fn spec_worker_size_after(
    cv: Seq<(String, String)>,
    old: Option<StorageConfig>,
) -> Option<Seq<char>> {
    match spec_ov(cv, "kubernetes.storage.worker-size"@) {
        Some(v) => Some(v),
        None => match old {
            Some(st) if st.worker_size is Some => spec_opt_view(st.worker_size),
            _ => spec_ov(cv, "kubernetes.storage.size"@),
        },
    }
}

/// A node selector's final value: the parsed comma list when the key
/// is present and yields at least one pair, else the old selector.
pub open spec fn spec_selector_after(
    cv: Seq<(String, String)>,
    k: Seq<char>,
    old: Option<Vec<(String, String)>>,
    result: Option<Vec<(String, String)>>,
) -> bool {
    match spec_ov(cv, k) {
        Some(v) => if spec_kv_pairs(v).len() > 0 {
            result matches Some(ns) && ns@.len() == spec_kv_pairs(v).len() && (forall|i: int|
                0 <= i < ns@.len() ==> ((#[trigger] ns@[i]).0@, ns@[i].1@) == spec_kv_pairs(v)[i])
        } else {
            opt_vec_view(result) == opt_vec_view(old)
        },
        None => opt_vec_view(result) == opt_vec_view(old),
    }
}

/// A label or annotation map's final lookups: the parsed comma list's
/// entries written over the old map when the key is present.
pub open spec fn spec_kvmap_after(
    cv: Seq<(String, String)>,
    k: Seq<char>,
    old: Seq<(String, String)>,
    result: Seq<(String, String)>,
) -> bool {
    forall|q: Seq<char>| #[trigger]
        spec_kv_lookup(result, q) == (match spec_ov(cv, k) {
            Some(v) => match spec_sv_last_lookup(spec_kv_pairs(v), q) {
                Some(w) => Some(w),
                None => spec_kv_lookup(old, q),
            },
            None => spec_kv_lookup(old, q),
        })
}

/// A priority class's final value: the role key, else the pod-wide
/// key, else the old value.
pub open spec fn spec_priority_after(
    cv: Seq<(String, String)>,
    role_key: Seq<char>,
    old: Option<String>,
) -> Option<Seq<char>> {
    match spec_ov(cv, role_key) {
        Some(v) => Some(v),
        None => match spec_ov(cv, "kubernetes.pod.priority-class"@) {
            Some(v) => Some(v),
            None => spec_opt_view(old),
        },
    }
}

/// An environment map's final lookups: every `<prefix><NAME>` key's
/// last value written under `NAME`, other names untouched.
pub open spec fn spec_env_after(
    cv: Seq<(String, String)>,
    prefix: Seq<char>,
    old: Seq<(String, String)>,
    result: Seq<(String, String)>,
) -> bool {
    forall|n: Seq<char>| #[trigger]
        spec_kv_lookup(result, n) == (match spec_ov(cv, prefix + n) {
            Some(v) => Some(v),
            None => spec_kv_lookup(old, n),
        })
}

/// The lookup of an optional map.
pub open spec fn spec_opt_kv_lookup(
    o: Option<Vec<(String, String)>>,
    q: Seq<char>,
) -> Option<Seq<char>> {
    match o {
        Some(m) => spec_kv_lookup(m@, q),
        None => None,
    }
}

/// One resource entry's final value: the override for its key when
/// given and parsable, else the old entry, with the defaults standing
/// in when no requirements were set at all.
pub open spec fn spec_res_entry_after(
    old_res: Option<ResourceRequirements>,
    old_side: Option<Vec<(String, String)>>,
    q: Seq<char>,
    cpu_milli: Option<int>,
    mem: Option<Seq<char>>,
    default_cpu: Seq<char>,
    default_mem: Seq<char>,
) -> Option<Seq<char>> {
    let base: Option<Seq<char>> = match old_res {
        None => if q == "cpu"@ {
            Some(default_cpu)
        } else if q == "memory"@ {
            Some(default_mem)
        } else {
            None
        },
        Some(_) => spec_opt_kv_lookup(old_side, q),
    };
    if q == "cpu"@ && cpu_milli is Some {
        Some(spec_dec(cpu_milli->0 as nat) + "m"@)
    } else if q == "memory"@ && mem is Some {
        mem
    } else {
        base
    }
}

/// Whether a requests or limits map stands after the pass.
pub open spec fn spec_res_side_present(
    old_res: Option<ResourceRequirements>,
    old_side: Option<Vec<(String, String)>>,
    cpu_milli: Option<int>,
    mem: Option<Seq<char>>,
) -> bool {
    ||| old_res is None
    ||| old_side is Some
    ||| cpu_milli is Some
    ||| mem is Some
}

/// The parsed processor override of a key, when present and parsable.
pub open spec fn spec_cpu_ov(cv: Seq<(String, String)>, k: Seq<char>) -> Option<int> {
    match spec_ov(cv, k) {
        Some(v) => spec_parse_milli(v),
        None => None,
    }
}


/// The value of a dynamic key: the last entry under it, as a map of
/// overrides would hold it.
fn get_ov(configs: &Vec<(String, String)>, k: &str) -> (r: Option<String>)
    ensures
        match r {
            Some(v) => spec_ov(configs@, k@) == Some(v@),
            None => spec_ov(configs@, k@) is None,
        },
{
    let mut cur: Option<String> = None;
    let mut i: usize = 0;
    while i < configs.len()
        invariant
            i <= configs@.len(),
            match cur {
                Some(v) => spec_kv_last_lookup(configs@.take(i as int), k@) == Some(v@),
                None => spec_kv_last_lookup(configs@.take(i as int), k@) is None,
            },
        decreases configs@.len() - i,
    {
        proof {
            assert(configs@.take(i + 1).drop_last() =~= configs@.take(i as int));
            assert(configs@.take(i + 1).last() == configs@[i as int]);
        }
        if crate::text::str_eq_str(configs[i].0.as_str(), k) {
            cur = Some(configs[i].1.clone());
        }
        i += 1;
    }
    proof {
        assert(configs@.take(configs@.len() as int) =~= configs@);
    }
    cur
}

/// Writes every `<prefix><NAME>` override into the map under `NAME`,
/// in entry order, later entries overwriting earlier ones.
fn apply_env_overrides(
    configs: &Vec<(String, String)>,
    prefix: &str,
    env: &mut Vec<(String, String)>,
)
    ensures
        spec_env_after(configs@, prefix@, old(env)@, final (env)@),
{
    let ghost cv = configs@;
    let mut i: usize = 0;
    while i < configs.len()
        invariant
            cv == configs@,
            i <= cv.len(),
            forall|n: Seq<char>| #[trigger]
                spec_kv_lookup(env@, n) == (match spec_kv_last_lookup(
                    cv.take(i as int),
                    prefix@ + n,
                ) {
                    Some(v) => Some(v),
                    None => spec_kv_lookup(old(env)@, n),
                }),
        decreases cv.len() - i,
    {
        proof {
            assert(cv.take(i + 1).drop_last() =~= cv.take(i as int));
            assert(cv.take(i + 1).last() == cv[i as int]);
        }
        let ghost env_pre = env@;
        let key = &configs[i].0;
        match strip_prefix_str(key.as_str(), prefix) {
            Some(name) => {
                let ghost n0 = name@;
                kv_upsert(env, name, configs[i].1.clone());
                proof {
                    assert forall|n: Seq<char>| #[trigger]
                        spec_kv_lookup(env@, n) == (match spec_kv_last_lookup(
                            cv.take(i + 1),
                            prefix@ + n,
                        ) {
                            Some(v) => Some(v),
                            None => spec_kv_lookup(old(env)@, n),
                        }) by {
                        if n == n0 {
                            assert(cv[i as int].0@ == prefix@ + n);
                        } else {
                            lemma_concat_left_cancel_ne(prefix@, n0, n);
                            assert(cv[i as int].0@ != prefix@ + n);
                        }
                    }
                }
            },
            None => {
                proof {
                    assert forall|n: Seq<char>| #[trigger]
                        spec_kv_lookup(env@, n) == (match spec_kv_last_lookup(
                            cv.take(i + 1),
                            prefix@ + n,
                        ) {
                            Some(v) => Some(v),
                            None => spec_kv_lookup(old(env)@, n),
                        }) by {
                        lemma_no_prefix_no_concat(cv[i as int].0@, prefix@, n);
                    }
                }
            },
        }
        i += 1;
    }
    proof {
        assert(cv.take(cv.len() as int) =~= cv);
    }
}

/// Distinct names stay distinct under a shared prefix.
proof fn lemma_concat_left_cancel_ne(a: Seq<char>, x: Seq<char>, y: Seq<char>)
    requires
        x != y,
    ensures
        a + x != a + y,
{
    if a + x == a + y {
        lemma_concat_left_cancel(a, x, y);
    }
}

/// The resource requirements after the pass: the defaults when none
/// were set, with a parsed processor override and a memory override
/// written into both requests and limits.
fn overridden_resources(
    old_rr: Option<ResourceRequirements>,
    cpu_ov: Option<u64>,
    mem_ov: Option<String>,
    default_cpu: &str,
    default_mem: &str,
) -> (r: ResourceRequirements)
    ensures
        r.requests is Some <==> spec_res_side_present(
            old_rr,
            match old_rr {
                Some(rr) => rr.requests,
                None => None,
            },
            spec_milli_int(cpu_ov),
            spec_opt_view(mem_ov),
        ),
        r.limits is Some <==> spec_res_side_present(
            old_rr,
            match old_rr {
                Some(rr) => rr.limits,
                None => None,
            },
            spec_milli_int(cpu_ov),
            spec_opt_view(mem_ov),
        ),
        forall|q: Seq<char>| #[trigger]
            spec_opt_kv_lookup(r.requests, q) == spec_res_entry_after(
                old_rr,
                match old_rr {
                    Some(rr) => rr.requests,
                    None => None,
                },
                q,
                spec_milli_int(cpu_ov),
                spec_opt_view(mem_ov),
                default_cpu@,
                default_mem@,
            ),
        forall|q: Seq<char>| #[trigger]
            spec_opt_kv_lookup(r.limits, q) == spec_res_entry_after(
                old_rr,
                match old_rr {
                    Some(rr) => rr.limits,
                    None => None,
                },
                q,
                spec_milli_int(cpu_ov),
                spec_opt_view(mem_ov),
                default_cpu@,
                default_mem@,
            ),
{
    proof {
        reveal_strlit("cpu");
        reveal_strlit("memory");
        assert("cpu"@.len() == 3 && "memory"@.len() == 6);
    }
    let (mut requests, mut limits): (Option<Vec<(String, String)>>, Option<Vec<(String, String)>>) =
        match old_rr {
        Some(rr) => (rr.requests, rr.limits),
        None => {
            let mut rq: Vec<(String, String)> = Vec::new();
            rq.push(("cpu".to_owned(), default_cpu.to_owned()));
            rq.push(("memory".to_owned(), default_mem.to_owned()));
            let mut lm: Vec<(String, String)> = Vec::new();
            lm.push(("cpu".to_owned(), default_cpu.to_owned()));
            lm.push(("memory".to_owned(), default_mem.to_owned()));
            proof {
                assert(rq@.drop_first() =~= rq@.skip(1));
                assert forall|q: Seq<char>| #[trigger]
                    spec_kv_lookup(rq@, q) == (if q == "cpu"@ {
                        Some(default_cpu@)
                    } else if q == "memory"@ {
                        Some(default_mem@)
                    } else {
                        None
                    }) by {
                    if q == "cpu"@ {
                        assert(spec_kv_lookup(rq@, q) == Some(rq@[0].1@));
                    } else if q == "memory"@ {
                        assert(rq@[0].0@ != q);
                        assert(spec_kv_lookup(rq@, q) == spec_kv_lookup(rq@.drop_first(), q));
                        assert(spec_kv_lookup(rq@.drop_first(), q) == Some(
                            rq@.drop_first()[0].1@,
                        ));
                    } else {
                        crate::kv::lemma_kv_lookup_none(rq@, q);
                    }
                }
                assert(lm@.drop_first() =~= lm@.skip(1));
                assert forall|q: Seq<char>| #[trigger]
                    spec_kv_lookup(lm@, q) == (if q == "cpu"@ {
                        Some(default_cpu@)
                    } else if q == "memory"@ {
                        Some(default_mem@)
                    } else {
                        None
                    }) by {
                    if q == "cpu"@ {
                        assert(spec_kv_lookup(lm@, q) == Some(lm@[0].1@));
                    } else if q == "memory"@ {
                        assert(lm@[0].0@ != q);
                        assert(spec_kv_lookup(lm@, q) == spec_kv_lookup(lm@.drop_first(), q));
                        assert(spec_kv_lookup(lm@.drop_first(), q) == Some(
                            lm@.drop_first()[0].1@,
                        ));
                    } else {
                        crate::kv::lemma_kv_lookup_none(lm@, q);
                    }
                }
            }
            (Some(rq), Some(lm))
        },
    };
    match cpu_ov {
        Some(m) => {
            let mut qty = fmt_u64(m);
            qty.append("m");
            let mut rq = match requests {
                Some(v) => v,
                None => Vec::new(),
            };
            kv_upsert(&mut rq, "cpu".to_owned(), qty.clone());
            requests = Some(rq);
            let mut lm = match limits {
                Some(v) => v,
                None => Vec::new(),
            };
            kv_upsert(&mut lm, "cpu".to_owned(), qty);
            limits = Some(lm);
        },
        None => {},
    }
    match mem_ov {
        Some(v) => {
            let mut rq = match requests {
                Some(m) => m,
                None => Vec::new(),
            };
            kv_upsert(&mut rq, "memory".to_owned(), v.clone());
            requests = Some(rq);
            let mut lm = match limits {
                Some(m) => m,
                None => Vec::new(),
            };
            kv_upsert(&mut lm, "memory".to_owned(), v);
            limits = Some(lm);
        },
        None => {},
    }
    ResourceRequirements { requests, limits }
}

/// The parsed processor override as a whole milli count.
pub open spec fn spec_milli_int(o: Option<u64>) -> Option<int> {
    match o {
        Some(v) => Some(v as int),
        None => None,
    }
}



/// Overwrites a text field when its key is present.
fn ov_set_str(configs: &Vec<(String, String)>, k: &str, field: &mut String)
    ensures
        final (field)@ == spec_str_after(configs@, k@, old(field)@),
{
    match get_ov(configs, k) {
        Some(v) => {
            *field = v;
        },
        None => {},
    }
}

/// Sets an optional text field when its key is present.
fn ov_set_optstr(configs: &Vec<(String, String)>, k: &str, field: &mut Option<String>)
    ensures
        spec_opt_view(*final (field)) == spec_optstr_after(configs@, k@, *old(field)),
{
    match get_ov(configs, k) {
        Some(v) => {
            *field = Some(v);
        },
        None => {},
    }
}

/// Overwrites a replica count when its key parses.
fn ov_set_replicas(configs: &Vec<(String, String)>, k: &str, field: &mut u32)
    ensures
        *final (field) as int == spec_replicas_after(configs@, k@, *old(field)),
{
    match get_ov(configs, k) {
        Some(v) => match parse_u32_value(v.as_str()) {
            Some(n) => {
                *field = n;
            },
            None => {},
        },
        None => {},
    }
}

/// Replaces a node selector with the parsed comma list when the key
/// yields at least one pair.
fn ov_set_selector(
    configs: &Vec<(String, String)>,
    k: &str,
    field: &mut Option<Vec<(String, String)>>,
)
    ensures
        spec_selector_after(configs@, k@, *old(field), *final (field)),
{
    match get_ov(configs, k) {
        Some(v) => {
            let sel = parse_kv_pairs(v.as_str());
            if sel.len() > 0 {
                *field = Some(sel);
            }
        },
        None => {},
    }
}

/// Extends a label or annotation map with the parsed comma list.
fn ov_extend_kvmap(configs: &Vec<(String, String)>, k: &str, map: &mut Vec<(String, String)>)
    ensures
        spec_kvmap_after(configs@, k@, old(map)@, final (map)@),
{
    match get_ov(configs, k) {
        Some(v) => {
            let parsed = parse_kv_pairs(v.as_str());
            kv_extend(map, &parsed);
            proof {
                lemma_sv_last_lookup_all(parsed@, spec_kv_pairs(v@));
            }
        },
        None => {},
    }
}

/// Applies the four storage keys onto the optional storage section,
/// creating it on first use.
fn apply_storage_overrides(configs: &Vec<(String, String)>, storage: &mut Option<StorageConfig>)
    ensures
        *final (storage) is Some <==> spec_storage_present_after(configs@, *old(storage)),
        *final (storage) matches Some(st) ==> {
            &&& st.storage_class@ == spec_storage_class_after(configs@, *old(storage))
            &&& spec_opt_view(st.master_size) == spec_master_size_after(configs@, *old(storage))
            &&& spec_opt_view(st.worker_size) == spec_worker_size_after(configs@, *old(storage))
            &&& spec_opt_view(st.master_storage_class) == (match *old(storage) {
                Some(o) => spec_opt_view(o.master_storage_class),
                None => None,
            })
            &&& spec_opt_view(st.worker_storage_class) == (match *old(storage) {
                Some(o) => spec_opt_view(o.worker_storage_class),
                None => None,
            })
        },
{
    match get_ov(configs, "kubernetes.storage.class") {
        Some(sc) => {
            if storage.is_none() {
                *storage = Some(
                    StorageConfig {
                        storage_class: sc,
                        master_storage_class: None,
                        worker_storage_class: None,
                        master_size: None,
                        worker_size: None,
                    },
                );
            } else {
                match storage {
                    Some(st) => {
                        st.storage_class = sc;
                    },
                    None => {},
                }
            }
        },
        None => {},
    }
    match get_ov(configs, "kubernetes.storage.master-size") {
        Some(z) => {
            if storage.is_none() {
                *storage = Some(
                    StorageConfig {
                        storage_class: "standard".to_owned(),
                        master_storage_class: None,
                        worker_storage_class: None,
                        master_size: Some(z),
                        worker_size: None,
                    },
                );
            } else {
                match storage {
                    Some(st) => {
                        st.master_size = Some(z);
                    },
                    None => {},
                }
            }
        },
        None => {},
    }
    match get_ov(configs, "kubernetes.storage.worker-size") {
        Some(z) => {
            if storage.is_none() {
                *storage = Some(
                    StorageConfig {
                        storage_class: "standard".to_owned(),
                        master_storage_class: None,
                        worker_storage_class: None,
                        master_size: None,
                        worker_size: Some(z),
                    },
                );
            } else {
                match storage {
                    Some(st) => {
                        st.worker_size = Some(z);
                    },
                    None => {},
                }
            }
        },
        None => {},
    }
    match get_ov(configs, "kubernetes.storage.size") {
        Some(z) => {
            if storage.is_none() {
                *storage = Some(
                    StorageConfig {
                        storage_class: "standard".to_owned(),
                        master_storage_class: None,
                        worker_storage_class: None,
                        master_size: Some(z.clone()),
                        worker_size: Some(z),
                    },
                );
            } else {
                match storage {
                    Some(st) => {
                        if st.master_size.is_none() {
                            st.master_size = Some(z.clone());
                        }
                        if st.worker_size.is_none() {
                            st.worker_size = Some(z);
                        }
                    },
                    None => {},
                }
            }
        },
        None => {},
    }
}

/// The comma-separated external addresses, trimmed, in order.
fn parse_external_ips(v: &str) -> (r: Vec<String>)
    ensures
        r@.len() == spec_comma_pieces(v@).len(),
        forall|i: int|
            0 <= i < r@.len() ==> (#[trigger] r@[i])@ == spec_trim(spec_comma_pieces(v@)[i]),
{
    let pieces = split_commas(v);
    let mut ips: Vec<String> = Vec::new();
    let mut i: usize = 0;
    while i < pieces.len()
        invariant
            pieces@.len() == spec_comma_pieces(v@).len(),
            forall|j: int|
                0 <= j < pieces@.len() ==> (#[trigger] pieces@[j])@ == spec_comma_pieces(v@)[j],
            i <= pieces@.len(),
            ips@.len() == i,
            forall|j: int|
                0 <= j < i ==> (#[trigger] ips@[j])@ == spec_trim(spec_comma_pieces(v@)[j]),
        decreases pieces@.len() - i,
    {
        ips.push(trim_str(pieces[i].as_str()));
        i += 1;
    }
    ips
}

/// Applies the dynamic override set onto a resolved specification: a
/// fixed key namespace patches images, replicas, resources, node
/// scheduling, labels, annotations, service accounts, per-variable
/// environment injection, DNS and priority classes, storage classes
/// and sizes, the exposure type and external addresses.  Unknown keys
/// are ignored, and numeric or enumeration values that do not parse
/// are skipped rather than failing the pass.
#[verifier::rlimit(100)]
pub fn apply_dynamic_overrides(configs: &Vec<(String, String)>, c: &mut KubernetesConfig)
    ensures
        final (c).cluster_id == old(c).cluster_id,
        final (c).namespace == old(c).namespace,
        final (c).image_pull_secrets == old(c).image_pull_secrets,
        final (c).master.image@ == (match spec_ov(configs@, "kubernetes.master.image"@) {
            Some(v) => v,
            None => spec_str_after(
                configs@,
                "kubernetes.container.image"@,
                old(c).master.image@,
            ),
        }),
        final (c).worker.image@ == (match spec_ov(configs@, "kubernetes.worker.image"@) {
            Some(v) => v,
            None => spec_str_after(
                configs@,
                "kubernetes.container.image"@,
                old(c).worker.image@,
            ),
        }),
        final (c).image_pull_policy@ == spec_str_after(
            configs@,
            "kubernetes.image.pull-policy"@,
            old(c).image_pull_policy@,
        ),
        final (c).cluster_domain@ == spec_str_after(
            configs@,
            "kubernetes.cluster.domain"@,
            old(c).cluster_domain@,
        ),
        final (c).master.replicas as int == spec_replicas_after(
            configs@,
            "kubernetes.master.replicas"@,
            old(c).master.replicas,
        ),
        final (c).worker.replicas as int == spec_replicas_after(
            configs@,
            "kubernetes.worker.replicas"@,
            old(c).worker.replicas,
        ),
        final (c).storage is Some <==> spec_storage_present_after(configs@, old(c).storage),
        final (c).storage matches Some(st) ==> {
            &&& st.storage_class@ == spec_storage_class_after(configs@, old(c).storage)
            &&& spec_opt_view(st.master_size) == spec_master_size_after(configs@, old(c).storage)
            &&& spec_opt_view(st.worker_size) == spec_worker_size_after(configs@, old(c).storage)
            &&& spec_opt_view(st.master_storage_class) == (match old(c).storage {
                Some(o) => spec_opt_view(o.master_storage_class),
                None => None,
            })
            &&& spec_opt_view(st.worker_storage_class) == (match old(c).storage {
                Some(o) => spec_opt_view(o.worker_storage_class),
                None => None,
            })
        },
        spec_opt_view(final (c).worker.storage_class) == spec_optstr_after(
            configs@,
            "kubernetes.worker.storage-class"@,
            old(c).worker.storage_class,
        ),
        spec_opt_view(final (c).master.pod_template) == spec_optstr_after(
            configs@,
            "kubernetes.master.pod-template"@,
            old(c).master.pod_template,
        ),
        spec_opt_view(final (c).worker.pod_template) == spec_optstr_after(
            configs@,
            "kubernetes.worker.pod-template"@,
            old(c).worker.pod_template,
        ),
        final (c).service.service_type == (match spec_ov(configs@, "kubernetes.service.type"@) {
            Some(v) => if v == "ClusterIP"@ {
                ServiceType::ClusterIP
            } else if v == "NodePort"@ {
                ServiceType::NodePort
            } else if v == "LoadBalancer"@ {
                ServiceType::LoadBalancer
            } else {
                old(c).service.service_type
            },
            None => old(c).service.service_type,
        }),
        final (c).master.resources matches Some(rr) && {
            &&& (rr.requests is Some <==> spec_res_side_present(
                old(c).master.resources,
                match old(c).master.resources {
                    Some(o) => o.requests,
                    None => None,
                },
                spec_cpu_ov(configs@, "kubernetes.master.cpu"@),
                spec_ov(configs@, "kubernetes.master.memory"@),
            ))
            &&& forall|q: Seq<char>| #[trigger]
                spec_opt_kv_lookup(rr.requests, q) == spec_res_entry_after(
                    old(c).master.resources,
                    match old(c).master.resources {
                        Some(o) => o.requests,
                        None => None,
                    },
                    q,
                    spec_cpu_ov(configs@, "kubernetes.master.cpu"@),
                    spec_ov(configs@, "kubernetes.master.memory"@),
                    "1000m"@,
                    "2Gi"@,
                )
            &&& forall|q: Seq<char>| #[trigger]
                spec_opt_kv_lookup(rr.limits, q) == spec_res_entry_after(
                    old(c).master.resources,
                    match old(c).master.resources {
                        Some(o) => o.limits,
                        None => None,
                    },
                    q,
                    spec_cpu_ov(configs@, "kubernetes.master.cpu"@),
                    spec_ov(configs@, "kubernetes.master.memory"@),
                    "1000m"@,
                    "2Gi"@,
                )
        },
        final (c).worker.resources matches Some(rr) && {
            &&& forall|q: Seq<char>| #[trigger]
                spec_opt_kv_lookup(rr.requests, q) == spec_res_entry_after(
                    old(c).worker.resources,
                    match old(c).worker.resources {
                        Some(o) => o.requests,
                        None => None,
                    },
                    q,
                    spec_cpu_ov(configs@, "kubernetes.worker.cpu"@),
                    spec_ov(configs@, "kubernetes.worker.memory"@),
                    "500m"@,
                    "1Gi"@,
                )
            &&& forall|q: Seq<char>| #[trigger]
                spec_opt_kv_lookup(rr.limits, q) == spec_res_entry_after(
                    old(c).worker.resources,
                    match old(c).worker.resources {
                        Some(o) => o.limits,
                        None => None,
                    },
                    q,
                    spec_cpu_ov(configs@, "kubernetes.worker.cpu"@),
                    spec_ov(configs@, "kubernetes.worker.memory"@),
                    "500m"@,
                    "1Gi"@,
                )
        },
        spec_selector_after(
            configs@,
            "kubernetes.master.node-selector"@,
            old(c).master.node_selector,
            final (c).master.node_selector,
        ),
        spec_selector_after(
            configs@,
            "kubernetes.worker.node-selector"@,
            old(c).worker.node_selector,
            final (c).worker.node_selector,
        ),
        spec_kvmap_after(
            configs@,
            "kubernetes.master.labels"@,
            old(c).master.labels@,
            final (c).master.labels@,
        ),
        spec_kvmap_after(
            configs@,
            "kubernetes.worker.labels"@,
            old(c).worker.labels@,
            final (c).worker.labels@,
        ),
        spec_kvmap_after(
            configs@,
            "kubernetes.master.annotations"@,
            old(c).master.annotations@,
            final (c).master.annotations@,
        ),
        spec_kvmap_after(
            configs@,
            "kubernetes.worker.annotations"@,
            old(c).worker.annotations@,
            final (c).worker.annotations@,
        ),
        spec_kvmap_after(
            configs@,
            "kubernetes.service.annotations"@,
            old(c).service.annotations@,
            final (c).service.annotations@,
        ),
        spec_opt_view(final (c).master.service_account) == spec_optstr_after(
            configs@,
            "kubernetes.master.service-account"@,
            old(c).master.service_account,
        ),
        spec_opt_view(final (c).worker.service_account) == spec_optstr_after(
            configs@,
            "kubernetes.worker.service-account"@,
            old(c).worker.service_account,
        ),
        spec_env_after(
            configs@,
            "kubernetes.master.env."@,
            old(c).master.env_vars@,
            final (c).master.env_vars@,
        ),
        spec_env_after(
            configs@,
            "kubernetes.worker.env."@,
            old(c).worker.env_vars@,
            final (c).worker.env_vars@,
        ),
        spec_opt_view(final (c).master.dns_policy) == spec_optstr_after(
            configs@,
            "kubernetes.pod.dns-policy"@,
            old(c).master.dns_policy,
        ),
        spec_opt_view(final (c).worker.dns_policy) == spec_optstr_after(
            configs@,
            "kubernetes.pod.dns-policy"@,
            old(c).worker.dns_policy,
        ),
        spec_opt_view(final (c).master.priority_class) == spec_priority_after(
            configs@,
            "kubernetes.master.priority-class"@,
            old(c).master.priority_class,
        ),
        spec_opt_view(final (c).worker.priority_class) == spec_priority_after(
            configs@,
            "kubernetes.worker.priority-class"@,
            old(c).worker.priority_class,
        ),
        match spec_ov(configs@, "kubernetes.service.external-ips"@) {
            Some(v) => final (c).service.external_ips@.len() == spec_comma_pieces(v).len() && (
            forall|i: int|
                0 <= i < spec_comma_pieces(v).len() ==> (#[trigger] final (c).service.external_ips@[i])@
                    == spec_trim(spec_comma_pieces(v)[i])),
            None => final (c).service.external_ips == old(c).service.external_ips,
        },
        final (c).service.session_affinity == old(c).service.session_affinity,
        final (c).service.load_balancer_source_ranges == old(
            c,
        ).service.load_balancer_source_ranges,
        final (c).master.affinity == old(c).master.affinity,
        final (c).master.tolerations == old(c).master.tolerations,
        final (c).master.graceful_shutdown == old(c).master.graceful_shutdown,
        final (c).worker.anti_affinity == old(c).worker.anti_affinity,
        final (c).worker.tolerations == old(c).worker.tolerations,
        final (c).worker.graceful_shutdown == old(c).worker.graceful_shutdown,
        final (c).worker.host_network == old(c).worker.host_network,
        final (c).worker.init_container == old(c).worker.init_container,
        final (c).worker.host_path_storage == old(c).worker.host_path_storage,
{
    proof {
        reveal_strlit("ClusterIP");
        reveal_strlit("NodePort");
        reveal_strlit("LoadBalancer");
        assert("ClusterIP"@.len() == 9 && "NodePort"@.len() == 8 && "LoadBalancer"@.len() == 12);
    }
    ov_set_str(configs, "kubernetes.container.image", &mut c.master.image);
    ov_set_str(configs, "kubernetes.container.image", &mut c.worker.image);
    ov_set_str(configs, "kubernetes.master.image", &mut c.master.image);
    ov_set_str(configs, "kubernetes.worker.image", &mut c.worker.image);
    ov_set_str(configs, "kubernetes.image.pull-policy", &mut c.image_pull_policy);
    ov_set_str(configs, "kubernetes.cluster.domain", &mut c.cluster_domain);
    ov_set_replicas(configs, "kubernetes.master.replicas", &mut c.master.replicas);
    ov_set_replicas(configs, "kubernetes.worker.replicas", &mut c.worker.replicas);
    apply_storage_overrides(configs, &mut c.storage);
    ov_set_optstr(configs, "kubernetes.worker.storage-class", &mut c.worker.storage_class);
    ov_set_optstr(configs, "kubernetes.master.pod-template", &mut c.master.pod_template);
    ov_set_optstr(configs, "kubernetes.worker.pod-template", &mut c.worker.pod_template);
    match get_ov(configs, "kubernetes.service.type") {
        Some(v) => match ServiceType::from_str_name(v.as_str()) {
            Ok(t) => {
                c.service.service_type = t;
            },
            Err(_) => {},
        },
        None => {},
    }
    // resources: defaults stand in when none were set, then the
    // processor and memory overrides are layered on top
    let m_cpu = match get_ov(configs, "kubernetes.master.cpu") {
        Some(v) => parse_milli_value(v.as_str()),
        None => None,
    };
    let m_mem = get_ov(configs, "kubernetes.master.memory");
    let old_m_rr = c.master.resources.take();
    c.master.resources = Some(overridden_resources(old_m_rr, m_cpu, m_mem, "1000m", "2Gi"));
    let w_cpu = match get_ov(configs, "kubernetes.worker.cpu") {
        Some(v) => parse_milli_value(v.as_str()),
        None => None,
    };
    let w_mem = get_ov(configs, "kubernetes.worker.memory");
    let old_w_rr = c.worker.resources.take();
    c.worker.resources = Some(overridden_resources(old_w_rr, w_cpu, w_mem, "500m", "1Gi"));
    ov_set_selector(configs, "kubernetes.master.node-selector", &mut c.master.node_selector);
    ov_set_selector(configs, "kubernetes.worker.node-selector", &mut c.worker.node_selector);
    ov_extend_kvmap(configs, "kubernetes.master.labels", &mut c.master.labels);
    ov_extend_kvmap(configs, "kubernetes.worker.labels", &mut c.worker.labels);
    ov_extend_kvmap(configs, "kubernetes.master.annotations", &mut c.master.annotations);
    ov_extend_kvmap(configs, "kubernetes.worker.annotations", &mut c.worker.annotations);
    ov_set_optstr(configs, "kubernetes.master.service-account", &mut c.master.service_account);
    ov_set_optstr(configs, "kubernetes.worker.service-account", &mut c.worker.service_account);
    apply_env_overrides(configs, "kubernetes.master.env.", &mut c.master.env_vars);
    apply_env_overrides(configs, "kubernetes.worker.env.", &mut c.worker.env_vars);
    ov_set_optstr(configs, "kubernetes.pod.dns-policy", &mut c.master.dns_policy);
    ov_set_optstr(configs, "kubernetes.pod.dns-policy", &mut c.worker.dns_policy);
    ov_set_optstr(configs, "kubernetes.pod.priority-class", &mut c.master.priority_class);
    ov_set_optstr(configs, "kubernetes.pod.priority-class", &mut c.worker.priority_class);
    ov_set_optstr(configs, "kubernetes.master.priority-class", &mut c.master.priority_class);
    ov_set_optstr(configs, "kubernetes.worker.priority-class", &mut c.worker.priority_class);
    ov_extend_kvmap(configs, "kubernetes.service.annotations", &mut c.service.annotations);
    match get_ov(configs, "kubernetes.service.external-ips") {
        Some(v) => {
            c.service.external_ips = parse_external_ips(v.as_str());
        },
        None => {},
    }
}

/// Lookup agreement between a parsed pair list and its view-level/// Lookup agreement between a parsed pair list and its view-level
/// form, for every key at once.
proof fn lemma_sv_last_lookup_all(r: Seq<(String, String)>, ps: Seq<(Seq<char>, Seq<char>)>)
    requires
        r.len() == ps.len(),
        forall|i: int| 0 <= i < r.len() ==> ((#[trigger] r[i]).0@, r[i].1@) == ps[i],
    ensures
        forall|q: Seq<char>| #[trigger] spec_kv_last_lookup(r, q) == spec_sv_last_lookup(ps, q),
{
    assert forall|q: Seq<char>| #[trigger] spec_kv_last_lookup(r, q) == spec_sv_last_lookup(
        ps,
        q,
    ) by {
        lemma_sv_last_lookup(r, ps, q);
    }
}

} // verus!



