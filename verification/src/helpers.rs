//! Small shared helpers: optional-field merging for the layered configs,
//! and the human-readable byte formatter of the build summary.
use crate::json::{JVal, Json, fviews, funion, json_clone};
use crate::text::{dec_digits, digit_char, push_char};
use vstd::prelude::*;
use vstd::string::*;

verus! {

/// Model of an optional association map, as its field view.
pub open spec fn opt_fields_view(o: Option<Vec<(String, Json)>>) -> Option<
    Seq<(Seq<char>, JVal)>,
> {
    match o {
        Some(v) => Some(fviews(v@)),
        None => None,
    }
}

pub open spec fn opt_strs_view(o: Option<Vec<String>>) -> Option<Seq<String>> {
    match o {
        Some(v) => Some(v@),
        None => None,
    }
}

/// The merge rule for optional list fields: concatenation, base first,
/// a missing side contributes nothing, two missing sides stay missing.
pub open spec fn concat_opt(b: Option<Seq<String>>, c: Option<Seq<String>>) -> Option<
    Seq<String>,
> {
    match (b, c) {
        (Some(x), Some(y)) => Some(x + y),
        (Some(x), None) => Some(x),
        (None, y) => y,
    }
}

/// The merge rule for optional map fields: union with the child entry
/// winning on a key collision.
pub open spec fn union_opt(
    b: Option<Seq<(Seq<char>, JVal)>>,
    c: Option<Seq<(Seq<char>, JVal)>>,
) -> Option<Seq<(Seq<char>, JVal)>> {
    match (b, c) {
        (Some(x), Some(y)) => Some(funion(x, y)),
        (Some(x), None) => Some(x),
        (None, y) => y,
    }
}

/// A copy of a string vector.
#[verifier::loop_isolation(false)]
pub fn clone_strings(v: &Vec<String>) -> (r: Vec<String>)
    ensures
        r@ == v@,
{
    let mut out: Vec<String> = Vec::new();
    let mut i: usize = 0;
    while i < v.len()
        invariant
            i <= v@.len(),
            out@ == v@.take(i as int),
        decreases v@.len() - i,
    {
        out.push(v[i].clone());
        i = i + 1;
        proof {
            assert(out@ =~= v@.take(i as int));
        }
    }
    proof {
        assert(v@.take(v@.len() as int) =~= v@);
    }
    out
}

/// A copy of an association vector, exact up to the document views.
#[verifier::loop_isolation(false)]
pub fn clone_fields(v: &Vec<(String, Json)>) -> (r: Vec<(String, Json)>)
    ensures
        fviews(r@) == fviews(v@),
{
    let mut out: Vec<(String, Json)> = Vec::new();
    let mut i: usize = 0;
    while i < v.len()
        invariant
            i <= v@.len(),
            out@.len() == i,
            forall|t: int|
                0 <= t < i ==> (#[trigger] out@[t]).0@ == v@[t].0@ && out@[t].1@ == v@[t].1@,
        decreases v@.len() - i,
    {
        let key = v[i].0.clone();
        let val = json_clone(&v[i].1);
        out.push((key, val));
        i = i + 1;
    }
    proof {
        assert(fviews(out@) =~= fviews(v@));
    }
    out
}

/// Concatenation of two string vectors, left first.
#[verifier::loop_isolation(false)]
pub fn concat_strings(a: &Vec<String>, b: &Vec<String>) -> (r: Vec<String>)
    ensures
        r@ == a@ + b@,
{
    let mut out = clone_strings(a);
    let mut i: usize = 0;
    while i < b.len()
        invariant
            i <= b@.len(),
            out@ == a@ + b@.take(i as int),
        decreases b@.len() - i,
    {
        out.push(b[i].clone());
        i = i + 1;
        proof {
            assert(out@ =~= a@ + b@.take(i as int));
        }
    }
    proof {
        assert(a@ + b@.take(b@.len() as int) =~= a@ + b@);
    }
    out
}

/// Merge two optional list fields: concatenation, base first.
pub fn merge_opt_vectors(base: &Option<Vec<String>>, child: Option<Vec<String>>) -> (r: Option<
    Vec<String>,
>)
    ensures
        opt_strs_view(r) == concat_opt(
            match base {
                Some(v) => Some(v@),
                None => None,
            },
            opt_strs_view(child),
        ),
{
    match child {
        Some(c) => match base {
            Some(b) => Some(concat_strings(b, &c)),
            None => Some(c),
        },
        None => match base {
            Some(b) => Some(clone_strings(b)),
            None => None,
        },
    }
}

/// Merge two optional map fields: union, child entries override.
pub fn merge_opt_hashmaps(
    base: &Option<Vec<(String, Json)>>,
    child: Option<Vec<(String, Json)>>,
) -> (r: Option<Vec<(String, Json)>>)
    ensures
        opt_fields_view(r) == union_opt(
            match base {
                Some(v) => Some(fviews(v@)),
                None => None,
            },
            opt_fields_view(child),
        ),
{
    match child {
        Some(c) => match base {
            Some(b) => Some(crate::json::union_fields(b, &c)),
            None => Some(c),
        },
        None => match base {
            Some(b) => Some(clone_fields(b)),
            None => None,
        },
    }
}

/// Round `num / den` to the nearest integer, ties to even.
pub open spec fn rounded_half_even(num: nat, den: nat) -> nat
    recommends
        den > 0,
{
    let q = num / den;
    let r = num % den;
    if 2 * r > den {
        q + 1
    } else if 2 * r < den {
        q
    } else if q % 2 == 1 {
        q + 1
    } else {
        q
    }
}

pub open spec fn kb_div() -> nat {
    1024
}

pub open spec fn mb_div() -> nat {
    1048576
}

pub open spec fn gb_div() -> nat {
    1073741824
}

pub open spec fn tb_div() -> nat {
    1099511627776
}

/// The centi-units value and unit suffix that a byte count is shown as:
/// the largest unit of Kb, Mb, Gb, Tb that the count reaches, Kb when it
/// reaches none.
pub open spec fn convert_bytes_chars(bytes: nat) -> Seq<char> {
    let div = if bytes >= tb_div() {
        tb_div()
    } else if bytes >= gb_div() {
        gb_div()
    } else if bytes >= mb_div() {
        mb_div()
    } else {
        kb_div()
    };
    let unit = if bytes >= tb_div() {
        seq![' ', 'T', 'b']
    } else if bytes >= gb_div() {
        seq![' ', 'G', 'b']
    } else if bytes >= mb_div() {
        seq![' ', 'M', 'b']
    } else {
        seq![' ', 'K', 'b']
    };
    let v = rounded_half_even(bytes * 100, div);
    let frac = v % 100;
    dec_digits(v / 100) + seq!['.'] + (if frac < 10 {
        seq!['0']
    } else {
        Seq::empty()
    }) + dec_digits(frac) + unit
}

/// A byte count as a fixed two-decimal quantity of the largest reached
/// unit, rounding ties to even.
#[verifier::rlimit(100)]
pub fn convert_bytes(bytes: u64) -> (r: String)
    ensures
        r@ == convert_bytes_chars(bytes as nat),
{
    let div: u128 = if bytes >= 1099511627776 {
        1099511627776
    } else if bytes >= 1073741824 {
        1073741824
    } else if bytes >= 1048576 {
        1048576
    } else {
        1024
    };
    let num: u128 = (bytes as u128) * 100;
    let q: u128 = num / div;
    let rem: u128 = num % div;
    let v: u128 = if 2 * rem > div {
        q + 1
    } else if 2 * rem < div {
        q
    } else if q % 2 == 1 {
        q + 1
    } else {
        q
    };
    proof {
        assert(v as nat == rounded_half_even((bytes * 100) as nat, div as nat));
        assert(v <= num);
    }
    let whole: u64 = (v / 100) as u64;
    let frac: u64 = (v % 100) as u64;
    let mut out = String::new();
    crate::text::fmt_u64_into(&mut out, whole);
    push_char(&mut out, '.');
    if frac < 10 {
        push_char(&mut out, '0');
    }
    crate::text::fmt_u64_into(&mut out, frac);
    push_char(&mut out, ' ');
    if bytes >= 1099511627776 {
        push_char(&mut out, 'T');
    } else if bytes >= 1073741824 {
        push_char(&mut out, 'G');
    } else if bytes >= 1048576 {
        push_char(&mut out, 'M');
    } else {
        push_char(&mut out, 'K');
    }
    push_char(&mut out, 'b');
    proof {
        assert(out@ =~= convert_bytes_chars(bytes as nat));
    }
    out
}

/// Whether a value equals its type's default: the test that decides
/// which fields the sparse persisted form leaves out.
pub fn is_default<T: Default + PartialEq>(t: &T) -> bool {
    *t == T::default()
}

} // verus!
