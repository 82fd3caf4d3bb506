//! A JSON-like document value: the in-memory form of every configuration
//! tree this library builds (manifests, compiler configs, lint configs,
//! bundler configs). Objects keep their fields sorted by key, which makes
//! rendering deterministic and gives dependency maps their lexicographic
//! key order.
use vstd::prelude::*;
use vstd::string::*;

verus! {

/// Mathematical model of a document value. Object fields are an ordered
/// association sequence; a well-formed value keeps them strictly sorted.
#[verifier::ext_equal]
pub enum JVal {
    Null,
    Bool(bool),
    Int(int),
    Str(Seq<char>),
    Arr(Seq<JVal>),
    Obj(Seq<(Seq<char>, JVal)>),
}

pub enum Json {
    Null,
    Bool(bool),
    Int(i64),
    Str(String),
    Arr(Vec<Json>),
    Obj(Vec<(String, Json)>),
}

pub open spec fn jview(j: Json) -> JVal
    decreases j, 1int,
{
    match j {
        Json::Null => JVal::Null,
        Json::Bool(b) => JVal::Bool(b),
        Json::Int(n) => JVal::Int(n as int),
        Json::Str(s) => JVal::Str(s@),
        Json::Arr(items) => JVal::Arr(jviews(items@)),
        Json::Obj(fields) => JVal::Obj(fviews(fields@)),
    }
}

pub open spec fn jviews(items: Seq<Json>) -> Seq<JVal>
    decreases items, 0int,
{
    Seq::new(
        items.len(),
        |i: int| if 0 <= i < items.len() { jview(items[i]) } else { JVal::Null },
    )
}

pub open spec fn fviews(fields: Seq<(String, Json)>) -> Seq<(Seq<char>, JVal)>
    decreases fields, 0int,
{
    Seq::new(
        fields.len(),
        |i: int|
            if 0 <= i < fields.len() {
                (fields[i].0@, jview(fields[i].1))
            } else {
                (Seq::empty(), JVal::Null)
            },
    )
}

impl View for Json {
    type V = JVal;

    open spec fn view(&self) -> JVal {
        jview(*self)
    }
}

/// Strict lexicographic order on character sequences by code point: the
/// order `BTreeMap<String, _>` keys carry, and the order object fields are
/// kept in.
pub open spec fn chars_lt(a: Seq<char>, b: Seq<char>) -> bool
    decreases a.len(),
{
    if b.len() == 0 {
        false
    } else if a.len() == 0 {
        true
    } else if a[0] != b[0] {
        (a[0] as u32) < (b[0] as u32)
    } else {
        chars_lt(a.drop_first(), b.drop_first())
    }
}

pub proof fn lemma_chars_lt_trichotomy(a: Seq<char>, b: Seq<char>)
    ensures
        chars_lt(a, b) || chars_lt(b, a) || a == b,
        chars_lt(a, b) ==> !chars_lt(b, a) && a != b,
        chars_lt(b, a) ==> !chars_lt(a, b) && a != b,
    decreases a.len(),
{
    if a.len() == 0 && b.len() == 0 {
        assert(a =~= b);
    } else if a.len() != 0 && b.len() != 0 && a[0] == b[0] {
        lemma_chars_lt_trichotomy(a.drop_first(), b.drop_first());
        if a.drop_first() == b.drop_first() {
            assert forall|k: int| 0 <= k < a.len() implies a[k] == b[k] by {
                if k > 0 {
                    assert(a.drop_first()[k - 1] == b.drop_first()[k - 1]);
                }
            }
            assert(a =~= b);
        }
        if a == b {
            assert(a.drop_first() =~= b.drop_first());
        }
    } else {
        if a.len() != 0 && b.len() != 0 && (a[0] as u32) == (b[0] as u32) {
            vstd::utf8::char_u32_cast(a[0], a[0] as u32);
            vstd::utf8::char_u32_cast(b[0], b[0] as u32);
        }
    }
}

pub proof fn lemma_chars_lt_trans(a: Seq<char>, b: Seq<char>, c: Seq<char>)
    requires
        chars_lt(a, b),
        chars_lt(b, c),
    ensures
        chars_lt(a, c),
    decreases a.len(),
{
    if a.len() != 0 && b.len() != 0 && c.len() != 0 {
        if a[0] == b[0] && b[0] == c[0] {
            lemma_chars_lt_trans(a.drop_first(), b.drop_first(), c.drop_first());
        }
    }
}

/// Equal prefixes of length `i`, then a first difference (or `a` running
/// out) decides the order.
proof fn lemma_chars_lt_prefix(a: Seq<char>, b: Seq<char>, i: int)
    requires
        0 <= i <= a.len(),
        i <= b.len(),
        forall|k: int| 0 <= k < i ==> a[k] == b[k],
        i == a.len() ==> a.len() < b.len(),
        i < a.len() ==> i < b.len() && (a[i] as u32) < (b[i] as u32),
    ensures
        chars_lt(a, b),
    decreases i,
{
    if i == 0 {
        if a.len() == 0 {
        } else {
            assert(a[0] != b[0]) by {
                assert((a[0] as u32) < (b[0] as u32));
            }
        }
    } else {
        assert(a[0] == b[0]);
        lemma_chars_lt_prefix(a.drop_first(), b.drop_first(), i - 1);
    }
}

/// Three-way comparison of two strings in code-point order.
pub fn str_compare(a: &str, b: &str) -> (r: i8)
    ensures
        (r == -1) == chars_lt(a@, b@),
        (r == 0) == (a@ == b@),
        (r == 1) == chars_lt(b@, a@),
{
    proof {
        lemma_chars_lt_trichotomy(a@, b@);
    }
    let alen = a.unicode_len();
    let blen = b.unicode_len();
    let mut i: usize = 0;
    loop
        invariant
            i <= alen,
            i <= blen,
            alen == a@.len(),
            blen == b@.len(),
            forall|k: int| 0 <= k < i ==> a@[k] == b@[k],
        decreases alen - i,
    {
        if i == alen && i == blen {
            proof {
                lemma_chars_lt_trichotomy(a@, b@);
                assert(a@ =~= b@);
            }
            return 0;
        } else if i == alen {
            proof {
                lemma_chars_lt_trichotomy(a@, b@);
                lemma_chars_lt_prefix(a@, b@, i as int);
            }
            return -1;
        } else if i == blen {
            proof {
                lemma_chars_lt_trichotomy(a@, b@);
                lemma_chars_lt_prefix(b@, a@, i as int);
            }
            return 1;
        } else {
            let ca = a.get_char(i);
            let cb = b.get_char(i);
            let ua = ca as u32;
            let ub = cb as u32;
            if ua < ub {
                proof {
                    lemma_chars_lt_trichotomy(a@, b@);
                    lemma_chars_lt_prefix(a@, b@, i as int);
                }
                return -1;
            } else if ub < ua {
                proof {
                    lemma_chars_lt_trichotomy(a@, b@);
                    lemma_chars_lt_prefix(b@, a@, i as int);
                }
                return 1;
            } else {
                proof {
                    vstd::utf8::char_u32_cast(ca, ua);
                    vstd::utf8::char_u32_cast(cb, ub);
                }
                i = i + 1;
            }
        }
    }
}

/// Object fields strictly sorted by key: no duplicate keys, deterministic
/// rendering order.
pub open spec fn fsorted(fields: Seq<(Seq<char>, JVal)>) -> bool {
    forall|i: int, j: int| 0 <= i < j < fields.len() ==> chars_lt(fields[i].0, fields[j].0)
}

/// Value of the first field named `k`, if any.
pub open spec fn flookup(fields: Seq<(Seq<char>, JVal)>, k: Seq<char>) -> Option<JVal>
    decreases fields.len(),
{
    if fields.len() == 0 {
        None
    } else if fields[0].0 == k {
        Some(fields[0].1)
    } else {
        flookup(fields.drop_first(), k)
    }
}

/// Field lookup on a document value; `None` on anything but an object.
pub open spec fn jlookup(v: JVal, k: Seq<char>) -> Option<JVal> {
    match v {
        JVal::Obj(fields) => flookup(fields, k),
        _ => None,
    }
}

/// Sorted insert-or-replace of field `k`.
pub open spec fn fset(fields: Seq<(Seq<char>, JVal)>, k: Seq<char>, x: JVal) -> Seq<
    (Seq<char>, JVal),
>
    decreases fields.len(),
{
    if fields.len() == 0 {
        seq![(k, x)]
    } else if fields[0].0 == k {
        seq![(k, x)] + fields.drop_first()
    } else if chars_lt(k, fields[0].0) {
        seq![(k, x)] + fields
    } else {
        seq![fields[0]] + fset(fields.drop_first(), k, x)
    }
}

/// Setting a field on a document value; anything but an object is unchanged.
pub open spec fn jobj_set(v: JVal, k: Seq<char>, x: JVal) -> JVal {
    match v {
        JVal::Obj(fields) => JVal::Obj(fset(fields, k, x)),
        _ => v,
    }
}

/// What a lookup finds after an insertion: the new value under its key,
/// everything else untouched.
pub proof fn lemma_flookup_fset(fields: Seq<(Seq<char>, JVal)>, k: Seq<char>, x: JVal, k2: Seq<char>)
    ensures
        flookup(fset(fields, k, x), k2) == if k2 == k {
            Some(x)
        } else {
            flookup(fields, k2)
        },
    decreases fields.len(),
{
    lemma_chars_lt_trichotomy(k, k2);
    let goal = if k2 == k { Some(x) } else { flookup(fields, k2) };
    if fields.len() == 0 {
        assert(seq![(k, x)].drop_first() =~= Seq::<(Seq<char>, JVal)>::empty());
        assert(flookup(Seq::<(Seq<char>, JVal)>::empty(), k2) is None);
        assert(flookup(fset(fields, k, x), k2) == goal);
    } else {
        lemma_chars_lt_trichotomy(fields[0].0, k);
        if fields[0].0 == k {
            assert((seq![(k, x)] + fields.drop_first()).drop_first() =~= fields.drop_first());
            assert(flookup(fset(fields, k, x), k2) == goal);
        } else if chars_lt(k, fields[0].0) {
            assert((seq![(k, x)] + fields).drop_first() =~= fields);
            assert(flookup(fset(fields, k, x), k2) == goal);
        } else {
            lemma_flookup_fset(fields.drop_first(), k, x, k2);
            assert((seq![fields[0]] + fset(fields.drop_first(), k, x)).drop_first() =~= fset(
                fields.drop_first(),
                k,
                x,
            ));
            assert(flookup(fset(fields, k, x), k2) == goal);
        }
    }
}

/// Every key of the inserted sequence is `k` or a key of the original.
proof fn lemma_fset_keys(fields: Seq<(Seq<char>, JVal)>, k: Seq<char>, x: JVal)
    ensures
        forall|j: int|
            0 <= j < fset(fields, k, x).len() ==> (#[trigger] fset(fields, k, x)[j].0 == k
                || exists|i: int| 0 <= i < fields.len() && fields[i].0 == fset(fields, k, x)[j].0),
    decreases fields.len(),
{
    if fields.len() == 0 {
    } else if fields[0].0 == k {
        assert forall|j: int| 0 <= j < fset(fields, k, x).len() implies (#[trigger] fset(
            fields,
            k,
            x,
        )[j].0 == k || exists|i: int|
            0 <= i < fields.len() && fields[i].0 == fset(fields, k, x)[j].0) by {
            if j > 0 {
                assert(fset(fields, k, x)[j] == fields.drop_first()[j - 1]);
                assert(fields.drop_first()[j - 1] == fields[j]);
            }
        }
    } else if chars_lt(k, fields[0].0) {
        assert forall|j: int| 0 <= j < fset(fields, k, x).len() implies (#[trigger] fset(
            fields,
            k,
            x,
        )[j].0 == k || exists|i: int|
            0 <= i < fields.len() && fields[i].0 == fset(fields, k, x)[j].0) by {
            if j > 0 {
                assert(fset(fields, k, x)[j] == fields[j - 1]);
            }
        }
    } else {
        lemma_fset_keys(fields.drop_first(), k, x);
        assert forall|j: int| 0 <= j < fset(fields, k, x).len() implies (#[trigger] fset(
            fields,
            k,
            x,
        )[j].0 == k || exists|i: int|
            0 <= i < fields.len() && fields[i].0 == fset(fields, k, x)[j].0) by {
            if j > 0 {
                let rest = fset(fields.drop_first(), k, x);
                assert(fset(fields, k, x)[j] == rest[j - 1]);
                if rest[j - 1].0 != k {
                    let i0 = choose|i: int|
                        0 <= i < fields.drop_first().len() && fields.drop_first()[i].0 == rest[j
                            - 1].0;
                    assert(fields[i0 + 1] == fields.drop_first()[i0]);
                }
            }
        }
    }
}

/// Key order is an invariant of field insertion: a sorted object stays
/// sorted, so every map built by `set` renders its keys in lexicographic
/// order.
pub proof fn lemma_fset_sorted(fields: Seq<(Seq<char>, JVal)>, k: Seq<char>, x: JVal)
    requires
        fsorted(fields),
    ensures
        fsorted(fset(fields, k, x)),
    decreases fields.len(),
{
    if fields.len() == 0 {
    } else if fields[0].0 == k {
        let r = fset(fields, k, x);
        assert forall|i: int, j: int| 0 <= i < j < r.len() implies chars_lt(r[i].0, r[j].0) by {
            assert(r[j] == fields.drop_first()[j - 1]);
            assert(fields.drop_first()[j - 1] == fields[j]);
            if i > 0 {
                assert(r[i] == fields[i]);
            }
        }
    } else if chars_lt(k, fields[0].0) {
        let r = fset(fields, k, x);
        assert forall|i: int, j: int| 0 <= i < j < r.len() implies chars_lt(r[i].0, r[j].0) by {
            assert(r[j] == fields[j - 1]);
            if i > 0 {
                assert(r[i] == fields[i - 1]);
            } else {
                if j - 1 > 0 {
                    lemma_chars_lt_trans(k, fields[0].0, fields[j - 1].0);
                }
            }
        }
    } else {
        lemma_chars_lt_trichotomy(fields[0].0, k);
        assert(chars_lt(fields[0].0, k));
        assert(fsorted(fields.drop_first())) by {
            assert forall|i: int, j: int|
                0 <= i < j < fields.drop_first().len() implies chars_lt(
                fields.drop_first()[i].0,
                fields.drop_first()[j].0,
            ) by {
                assert(fields.drop_first()[i] == fields[i + 1]);
                assert(fields.drop_first()[j] == fields[j + 1]);
            }
        }
        lemma_fset_sorted(fields.drop_first(), k, x);
        lemma_fset_keys(fields.drop_first(), k, x);
        let r = fset(fields, k, x);
        let rest = fset(fields.drop_first(), k, x);
        assert forall|i: int, j: int| 0 <= i < j < r.len() implies chars_lt(r[i].0, r[j].0) by {
            if i == 0 {
                assert(r[j] == rest[j - 1]);
                if rest[j - 1].0 == k {
                } else {
                    let i0 = choose|t: int|
                        0 <= t < fields.drop_first().len() && fields.drop_first()[t].0 == rest[j
                            - 1].0;
                    assert(fields.drop_first()[i0] == fields[i0 + 1]);
                    assert(chars_lt(fields[0].0, fields[i0 + 1].0));
                }
            } else {
                assert(r[i] == rest[i - 1]);
                assert(r[j] == rest[j - 1]);
            }
        }
    }
}

/// The deterministic deep-merge rule for layered configuration trees:
/// a `Null` child keeps the base entirely; two objects merge key-wise
/// (recursing on common keys); two arrays concatenate, base first; any
/// other child replaces the base.
pub open spec fn jmerge(base: JVal, child: JVal) -> JVal
    decreases base, child, 1int,
{
    if child is Null {
        base
    } else {
        match (base, child) {
            (JVal::Obj(b), JVal::Obj(c)) => JVal::Obj(fmerge(b, c)),
            (JVal::Arr(b), JVal::Arr(c)) => JVal::Arr(b + c),
            _ => child,
        }
    }
}

/// Key-wise merge of two sorted field sequences; common keys merge
/// recursively, others are kept.
pub open spec fn fmerge(b: Seq<(Seq<char>, JVal)>, c: Seq<(Seq<char>, JVal)>) -> Seq<
    (Seq<char>, JVal),
>
    decreases b, c, 0int,
{
    if b.len() == 0 {
        c
    } else if c.len() == 0 {
        b
    } else if b[0].0 == c[0].0 {
        seq![(b[0].0, jmerge(b[0].1, c[0].1))] + fmerge(b.drop_first(), c.drop_first())
    } else if chars_lt(b[0].0, c[0].0) {
        seq![b[0]] + fmerge(b.drop_first(), c)
    } else {
        seq![c[0]] + fmerge(b, c.drop_first())
    }
}

/// Plain union of two sorted field sequences: on a key collision the
/// child entry replaces the base entry whole (no recursion).
pub open spec fn funion(b: Seq<(Seq<char>, JVal)>, c: Seq<(Seq<char>, JVal)>) -> Seq<
    (Seq<char>, JVal),
>
    decreases b.len() + c.len(),
{
    if b.len() == 0 {
        c
    } else if c.len() == 0 {
        b
    } else if b[0].0 == c[0].0 {
        seq![c[0]] + funion(b.drop_first(), c.drop_first())
    } else if chars_lt(b[0].0, c[0].0) {
        seq![b[0]] + funion(b.drop_first(), c)
    } else {
        seq![c[0]] + funion(b, c.drop_first())
    }
}

proof fn lemma_fsorted_drop(f: Seq<(Seq<char>, JVal)>)
    requires
        f.len() > 0,
        fsorted(f),
    ensures
        fsorted(f.drop_first()),
{
    assert forall|i: int, j: int| 0 <= i < j < f.drop_first().len() implies chars_lt(
        f.drop_first()[i].0,
        f.drop_first()[j].0,
    ) by {
        assert(f.drop_first()[i] == f[i + 1]);
        assert(f.drop_first()[j] == f[j + 1]);
    }
}

/// A key below every key of a sorted field sequence is absent from it.
proof fn lemma_flookup_none_below(f: Seq<(Seq<char>, JVal)>, k: Seq<char>)
    requires
        fsorted(f),
        f.len() > 0 ==> chars_lt(k, f[0].0),
    ensures
        flookup(f, k) is None,
    decreases f.len(),
{
    if f.len() > 0 {
        lemma_chars_lt_trichotomy(k, f[0].0);
        lemma_fsorted_drop(f);
        if f.len() > 1 {
            lemma_chars_lt_trans(k, f[0].0, f[1].0);
            assert(f.drop_first()[0] == f[1]);
        }
        lemma_flookup_none_below(f.drop_first(), k);
    }
}

/// What a union lookup returns: the child's entry where it has the key,
/// the base's entry otherwise.
pub proof fn lemma_flookup_funion(
    b: Seq<(Seq<char>, JVal)>,
    c: Seq<(Seq<char>, JVal)>,
    k: Seq<char>,
)
    requires
        fsorted(b),
        fsorted(c),
    ensures
        flookup(funion(b, c), k) == if flookup(c, k) is Some {
            flookup(c, k)
        } else {
            flookup(b, k)
        },
    decreases b.len() + c.len(),
{
    if b.len() == 0 {
    } else if c.len() == 0 {
    } else if b[0].0 == c[0].0 {
        lemma_fsorted_drop(b);
        lemma_fsorted_drop(c);
        lemma_flookup_funion(b.drop_first(), c.drop_first(), k);
        assert((seq![c[0]] + funion(b.drop_first(), c.drop_first())).drop_first() =~= funion(
            b.drop_first(),
            c.drop_first(),
        ));
    } else if chars_lt(b[0].0, c[0].0) {
        lemma_fsorted_drop(b);
        lemma_flookup_funion(b.drop_first(), c, k);
        assert((seq![b[0]] + funion(b.drop_first(), c)).drop_first() =~= funion(
            b.drop_first(),
            c,
        ));
        if k == b[0].0 {
            lemma_flookup_none_below(c, k);
        }
    } else {
        lemma_chars_lt_trichotomy(b[0].0, c[0].0);
        lemma_fsorted_drop(c);
        lemma_flookup_funion(b, c.drop_first(), k);
        assert((seq![c[0]] + funion(b, c.drop_first())).drop_first() =~= funion(
            b,
            c.drop_first(),
        ));
        if k == c[0].0 {
            lemma_flookup_none_below(b, k);
        }
    }
}

/// `fset` lands at position `p`: everything below `p` sorts before `k`.
proof fn lemma_fset_at(f: Seq<(Seq<char>, JVal)>, k: Seq<char>, x: JVal, p: int)
    requires
        0 <= p <= f.len(),
        forall|i: int| 0 <= i < p ==> chars_lt(f[i].0, k),
        p < f.len() ==> !chars_lt(f[p].0, k),
    ensures
        fset(f, k, x) == if p < f.len() && f[p].0 == k {
            f.take(p) + seq![(k, x)] + f.skip(p + 1)
        } else {
            f.take(p) + seq![(k, x)] + f.skip(p)
        },
    decreases p,
{
    if p == 0 {
        if f.len() == 0 {
            assert(fset(f, k, x) =~= f.take(0) + seq![(k, x)] + f.skip(0));
        } else if f[0].0 == k {
            assert(fset(f, k, x) =~= f.take(0) + seq![(k, x)] + f.skip(1));
        } else {
            lemma_chars_lt_trichotomy(k, f[0].0);
            assert(chars_lt(k, f[0].0));
            assert(fset(f, k, x) =~= f.take(0) + seq![(k, x)] + f.skip(0));
        }
    } else {
        lemma_chars_lt_trichotomy(f[0].0, k);
        let rest = f.drop_first();
        assert forall|i: int| 0 <= i < p - 1 implies chars_lt(rest[i].0, k) by {
            assert(rest[i] == f[i + 1]);
        }
        assert(p - 1 < rest.len() ==> !chars_lt(rest[p - 1].0, k)) by {
            if p - 1 < rest.len() {
                assert(rest[p - 1] == f[p]);
            }
        }
        lemma_fset_at(rest, k, x, p - 1);
        if p < f.len() && f[p].0 == k {
            assert(rest[p - 1] == f[p]);
            assert(seq![f[0]] + (rest.take(p - 1) + seq![(k, x)] + rest.skip(p)) =~= f.take(p)
                + seq![(k, x)] + f.skip(p + 1));
        } else {
            assert(seq![f[0]] + (rest.take(p - 1) + seq![(k, x)] + rest.skip(p - 1)) =~= f.take(p)
                + seq![(k, x)] + f.skip(p));
        }
    }
}

impl Json {
    /// An empty object.
    pub fn obj() -> (r: Json)
        ensures
            r@ == JVal::Obj(Seq::<(Seq<char>, JVal)>::empty()),
    {
        let fields: Vec<(String, Json)> = Vec::new();
        proof {
            assert(fviews(fields@) =~= Seq::<(Seq<char>, JVal)>::empty());
        }
        Json::Obj(fields)
    }

    pub fn string(s: &str) -> (r: Json)
        ensures
            r@ == JVal::Str(s@),
    {
        Json::Str(s.to_owned())
    }

    pub fn integer(n: i64) -> (r: Json)
        ensures
            r@ == JVal::Int(n as int),
    {
        Json::Int(n)
    }

    pub fn boolean(b: bool) -> (r: Json)
        ensures
            r@ == JVal::Bool(b),
    {
        Json::Bool(b)
    }

    pub fn null() -> (r: Json)
        ensures
            r@ == JVal::Null,
    {
        Json::Null
    }

    pub fn arr(items: Vec<Json>) -> (r: Json)
        ensures
            r@ == JVal::Arr(jviews(items@)),
    {
        Json::Arr(items)
    }

    /// Insert or replace field `key`, keeping the fields sorted.
    pub fn set(self, key: &str, value: Json) -> (r: Json)
        requires
            self is Obj,
        ensures
            r@ == jobj_set(self@, key@, value@),
            r is Obj,
    {
        match self {
            Json::Obj(mut fields) => {
                let ghost orig = fields@;
                let ghost fv = fviews(orig);
                let mut p: usize = 0;
                loop
                    invariant
                        p <= fields.len(),
                        fields@ == orig,
                        fv == fviews(fields@),
                        forall|i: int| 0 <= i < p ==> chars_lt(fv[i].0, key@),
                    ensures
                        p <= fields.len(),
                        fields@ == orig,
                        forall|i: int| 0 <= i < p ==> chars_lt(fv[i].0, key@),
                        p < fields.len() ==> !chars_lt(fv[p as int].0, key@),
                    decreases fields.len() - p,
                {
                    if p == fields.len() {
                        break ;
                    }
                    proof {
                        assert(fv[p as int] == (fields@[p as int].0@, jview(fields@[p as int].1)));
                    }
                    let c = str_compare(fields[p].0.as_str(), key);
                    if c != -1 {
                        break ;
                    }
                    p = p + 1;
                }
                proof {
                    if p < fields.len() {
                        assert(fv[p as int] == (fields@[p as int].0@, jview(fields@[p as int].1)));
                    }
                    lemma_fset_at(fv, key@, value@, p as int);
                }
                if p < fields.len() && str_compare(fields[p].0.as_str(), key) == 0 {
                    let _ = fields.remove(p);
                    fields.insert(p, (key.to_owned(), value));
                    proof {
                        assert(fviews(fields@) =~= fv.take(p as int) + seq![(key@, value@)]
                            + fv.skip(p as int + 1)) by {
                            assert forall|i: int|
                                0 <= i < fields@.len() implies fviews(fields@)[i] == (fv.take(
                                p as int,
                            ) + seq![(key@, value@)] + fv.skip(p as int + 1))[i] by {
                                if i < p as int {
                                    assert(fields@[i] == orig[i]);
                                } else if i > p as int {
                                    assert(fields@[i] == orig[i]);
                                }
                            }
                        }
                    }
                } else {
                    proof {
                        if p < fields.len() {
                            lemma_chars_lt_trichotomy(fv[p as int].0, key@);
                        }
                    }
                    fields.insert(p, (key.to_owned(), value));
                    proof {
                        assert(fviews(fields@) =~= fv.take(p as int) + seq![(key@, value@)]
                            + fv.skip(p as int)) by {
                            assert forall|i: int|
                                0 <= i < fields@.len() implies fviews(fields@)[i] == (fv.take(
                                p as int,
                            ) + seq![(key@, value@)] + fv.skip(p as int))[i] by {
                                if i < p as int {
                                    assert(fields@[i] == orig[i]);
                                } else if i > p as int {
                                    assert(fields@[i] == orig[i - 1]);
                                }
                            }
                        }
                    }
                }
                Json::Obj(fields)
            },
            _ => self,
        }
    }

    /// Borrow the value of field `key`, if this is an object that has it.
    #[verifier::loop_isolation(false)]
    pub fn get<'a>(&'a self, key: &str) -> (r: Option<&'a Json>)
        ensures
            match r {
                Some(j) => jlookup(self@, key@) == Some(j@),
                None => jlookup(self@, key@) is None,
            },
    {
        match self {
            Json::Obj(fields) => {
                let ghost fv = fviews(fields@);
                proof {
                    assert(fv.skip(0) =~= fv);
                }
                let mut i: usize = 0;
                loop
                    invariant
                        i <= fields.len(),
                        flookup(fv, key@) == flookup(fv.skip(i as int), key@),
                    decreases fields.len() - i,
                {
                    if i == fields.len() {
                        proof {
                            assert(fv.skip(i as int) =~= Seq::<(Seq<char>, JVal)>::empty());
                        }
                        return None;
                    }
                    proof {
                        assert(fv.skip(i as int)[0] == fv[i as int]);
                    }
                    if str_compare(fields[i].0.as_str(), key) == 0 {
                        return Some(&fields[i].1);
                    }
                    proof {
                        assert(fv.skip(i as int).drop_first() =~= fv.skip(i as int + 1));
                    }
                    i = i + 1;
                }
            },
            _ => None,
        }
    }
}

/// A structural copy; the standard derived clone would tell the verifier
/// nothing, so the copy is spelled out.
#[verifier::loop_isolation(false)]
pub fn json_clone(j: &Json) -> (r: Json)
    ensures
        r@ == j@,
    decreases *j,
{
    match j {
        Json::Null => Json::Null,
        Json::Bool(b) => Json::Bool(*b),
        Json::Int(n) => Json::Int(*n),
        Json::Str(s) => Json::Str(s.clone()),
        Json::Arr(items) => {
            let mut out: Vec<Json> = Vec::new();
            let mut i: usize = 0;
            while i < items.len()
                invariant
                    i <= items.len(),
                    out@.len() == i,
                    forall|t: int| 0 <= t < i ==> jview(#[trigger] out@[t]) == jview(items@[t]),
                decreases items.len() - i,
            {
                proof {
                    assert(decreases_to!(*j => items@));
                    assert(decreases_to!(items@ => items@[i as int]));
                }
                out.push(json_clone(&items[i]));
                i = i + 1;
            }
            proof {
                assert forall|t: int| 0 <= t < items@.len() implies jviews(out@)[t] == jviews(
                    items@,
                )[t] by {
                    assert(jview(out@[t]) == jview(items@[t]));
                }
                assert(jviews(out@) =~= jviews(items@));
            }
            Json::Arr(out)
        },
        Json::Obj(fields) => {
            let mut out: Vec<(String, Json)> = Vec::new();
            let mut i: usize = 0;
            while i < fields.len()
                invariant
                    i <= fields.len(),
                    out@.len() == i,
                    forall|t: int|
                        0 <= t < i ==> (#[trigger] out@[t]).0@ == fields@[t].0@ && jview(
                            out@[t].1,
                        ) == jview(fields@[t].1),
                decreases fields.len() - i,
            {
                let key = fields[i].0.clone();
                proof {
                    assert(decreases_to!(*j => fields@));
                    assert(decreases_to!(fields@ => fields@[i as int]));
                }
                let val = json_clone(&fields[i].1);
                out.push((key, val));
                i = i + 1;
            }
            proof {
                assert forall|t: int| 0 <= t < fields@.len() implies fviews(out@)[t] == fviews(
                    fields@,
                )[t] by {
                    assert(out@[t].0@ == fields@[t].0@);
                    assert(jview(out@[t].1) == jview(fields@[t].1));
                }
                assert(fviews(out@) =~= fviews(fields@));
            }
            Json::Obj(out)
        },
    }
}

/// The merge of two configuration trees, child over base, by the
/// deep-merge rule `jmerge`.
#[verifier::loop_isolation(false)]
#[verifier::rlimit(80)]
#[verifier::spinoff_prover]
pub fn merged(base: &Json, child: &Json) -> (r: Json)
    ensures
        r@ == jmerge(base@, child@),
    decreases *child,
{
    if matches!(child, Json::Null) {
        return json_clone(base);
    }
    match (base, child) {
        (Json::Arr(b1), Json::Arr(c1)) => {
            let ghost bv = jviews(b1@);
            let ghost cv = jviews(c1@);
            let mut out: Vec<Json> = Vec::new();
            let mut i: usize = 0;
            while i < b1.len()
                invariant
                    i <= b1.len(),
                    out@.len() == i,
                    forall|t: int| 0 <= t < i ==> jview(#[trigger] out@[t]) == jview(b1@[t]),
                decreases b1.len() - i,
            {
                out.push(json_clone(&b1[i]));
                i = i + 1;
            }
            let mut j: usize = 0;
            while j < c1.len()
                invariant
                    j <= c1.len(),
                    out@.len() == b1@.len() + j,
                    forall|t: int|
                        0 <= t < b1@.len() ==> jview(#[trigger] out@[t]) == jview(b1@[t]),
                    forall|t: int|
                        b1@.len() <= t < out@.len() ==> jview(#[trigger] out@[t]) == jview(
                            c1@[t - b1@.len()],
                        ),
                decreases c1.len() - j,
            {
                out.push(json_clone(&c1[j]));
                j = j + 1;
            }
            proof {
                assert(jviews(out@) =~= bv + cv);
            }
            Json::Arr(out)
        },
        (Json::Obj(b1), Json::Obj(c1)) => {
            let ghost bv = fviews(b1@);
            let ghost cv = fviews(c1@);
            let ghost goal = fmerge(bv, cv);
            let mut out: Vec<(String, Json)> = Vec::new();
            let mut i: usize = 0;
            let mut j: usize = 0;
            proof {
                assert(bv.skip(0) =~= bv);
                assert(cv.skip(0) =~= cv);
                assert(fviews(out@) =~= Seq::<(Seq<char>, JVal)>::empty());
            }
            loop
                invariant
                    i <= b1.len(),
                    j <= c1.len(),
                    fviews(out@) + fmerge(bv.skip(i as int), cv.skip(j as int)) == goal,
                decreases b1.len() - i + c1.len() - j,
            {
                let ghost pre = fviews(out@);
                let ghost brest = bv.skip(i as int);
                let ghost crest = cv.skip(j as int);
                if i == b1.len() && j == c1.len() {
                    proof {
                        assert(brest =~= Seq::<(Seq<char>, JVal)>::empty());
                        assert(crest =~= Seq::<(Seq<char>, JVal)>::empty());
                        assert(fviews(out@) + fmerge(brest, crest) =~= fviews(out@));
                    }
                    break ;
                } else if i == b1.len() {
                    proof {
                        assert(brest =~= Seq::<(Seq<char>, JVal)>::empty());
                        assert(crest[0] == cv[j as int]);
                    }
                    let key = c1[j].0.clone();
                    let val = json_clone(&c1[j].1);
                    out.push((key, val));
                    j = j + 1;
                    proof {
                        assert(fviews(out@) =~= pre + seq![(cv[j - 1].0, cv[j - 1].1)]);
                        assert(crest.drop_first() =~= cv.skip(j as int));
                        assert(fmerge(brest, crest) == crest);
                        assert(pre + seq![(cv[j - 1].0, cv[j - 1].1)] + fmerge(
                            bv.skip(i as int),
                            cv.skip(j as int),
                        ) =~= pre + crest);
                    }
                } else if j == c1.len() {
                    proof {
                        assert(crest =~= Seq::<(Seq<char>, JVal)>::empty());
                        assert(brest[0] == bv[i as int]);
                    }
                    let key = b1[i].0.clone();
                    let val = json_clone(&b1[i].1);
                    out.push((key, val));
                    i = i + 1;
                    proof {
                        assert(fviews(out@) =~= pre + seq![(bv[i - 1].0, bv[i - 1].1)]);
                        assert(brest.drop_first() =~= bv.skip(i as int));
                        assert(fmerge(brest, crest) == brest);
                        assert(pre + seq![(bv[i - 1].0, bv[i - 1].1)] + fmerge(
                            bv.skip(i as int),
                            cv.skip(j as int),
                        ) =~= pre + brest);
                    }
                } else {
                    proof {
                        assert(brest[0] == bv[i as int]);
                        assert(crest[0] == cv[j as int]);
                    }
                    let c = str_compare(b1[i].0.as_str(), c1[j].0.as_str());
                    if c == 0 {
                        let key = b1[i].0.clone();
                        proof {
                            assert(decreases_to!(*child => c1@));
                            assert(decreases_to!(c1@ => c1@[j as int]));
                        }
                        let val = merged(&b1[i].1, &c1[j].1);
                        out.push((key, val));
                        i = i + 1;
                        j = j + 1;
                        proof {
                            let m = (bv[i - 1].0, jmerge(bv[i - 1].1, cv[j - 1].1));
                            assert(fviews(out@) =~= pre + seq![m]);
                            assert(brest.drop_first() =~= bv.skip(i as int));
                            assert(crest.drop_first() =~= cv.skip(j as int));
                            assert(fmerge(brest, crest) == seq![m] + fmerge(
                                bv.skip(i as int),
                                cv.skip(j as int),
                            ));
                            assert(pre + seq![m] + fmerge(bv.skip(i as int), cv.skip(j as int))
                                =~= pre + fmerge(brest, crest));
                        }
                    } else if c == -1 {
                        let key = b1[i].0.clone();
                        let val = json_clone(&b1[i].1);
                        out.push((key, val));
                        i = i + 1;
                        proof {
                            let m = (bv[i - 1].0, bv[i - 1].1);
                            assert(fviews(out@) =~= pre + seq![m]);
                            assert(brest.drop_first() =~= bv.skip(i as int));
                            assert(fmerge(brest, crest) == seq![m] + fmerge(
                                bv.skip(i as int),
                                cv.skip(j as int),
                            ));
                            assert(pre + seq![m] + fmerge(bv.skip(i as int), cv.skip(j as int))
                                =~= pre + fmerge(brest, crest));
                        }
                    } else {
                        let key = c1[j].0.clone();
                        let val = json_clone(&c1[j].1);
                        out.push((key, val));
                        j = j + 1;
                        proof {
                            lemma_chars_lt_trichotomy(brest[0].0, crest[0].0);
                            let m = (cv[j - 1].0, cv[j - 1].1);
                            assert(fviews(out@) =~= pre + seq![m]);
                            assert(crest.drop_first() =~= cv.skip(j as int));
                            assert(fmerge(brest, crest) == seq![m] + fmerge(
                                bv.skip(i as int),
                                cv.skip(j as int),
                            ));
                            assert(pre + seq![m] + fmerge(bv.skip(i as int), cv.skip(j as int))
                                =~= pre + fmerge(brest, crest));
                        }
                    }
                }
            }
            Json::Obj(out)
        },
        _ => json_clone(child),
    }
}

impl Json {
    /// Merge `value` over `self` in place; a `Null` value leaves `self`
    /// unchanged (the layered-configuration override rule).
    pub fn merge_default(&mut self, value: &Json)
        ensures
            final(self)@ == jmerge(old(self)@, value@),
    {
        let r = merged(self, value);
        *self = r;
    }
}

/// Plain union of two sorted association vectors, child entries replacing
/// base entries on the same key.
#[verifier::loop_isolation(false)]
#[verifier::rlimit(80)]
#[verifier::spinoff_prover]
pub fn union_fields(b: &Vec<(String, Json)>, c: &Vec<(String, Json)>) -> (r: Vec<(String, Json)>)
    ensures
        fviews(r@) == funion(fviews(b@), fviews(c@)),
{
    let ghost bv = fviews(b@);
    let ghost cv = fviews(c@);
    let ghost goal = funion(bv, cv);
    let mut out: Vec<(String, Json)> = Vec::new();
    let mut i: usize = 0;
    let mut j: usize = 0;
    proof {
        assert(bv.skip(0) =~= bv);
        assert(cv.skip(0) =~= cv);
        assert(fviews(out@) =~= Seq::<(Seq<char>, JVal)>::empty());
    }
    loop
        invariant
            i <= b.len(),
            j <= c.len(),
            fviews(out@) + funion(bv.skip(i as int), cv.skip(j as int)) == goal,
        decreases b.len() - i + c.len() - j,
    {
        let ghost pre = fviews(out@);
        let ghost brest = bv.skip(i as int);
        let ghost crest = cv.skip(j as int);
        if i == b.len() && j == c.len() {
            proof {
                assert(brest =~= Seq::<(Seq<char>, JVal)>::empty());
                assert(crest =~= Seq::<(Seq<char>, JVal)>::empty());
                assert(fviews(out@) + funion(brest, crest) =~= fviews(out@));
            }
            break ;
        } else if i == b.len() {
            proof {
                assert(brest =~= Seq::<(Seq<char>, JVal)>::empty());
                assert(crest[0] == cv[j as int]);
            }
            let key = c[j].0.clone();
            let val = json_clone(&c[j].1);
            out.push((key, val));
            j = j + 1;
            proof {
                assert(fviews(out@) =~= pre + seq![(cv[j - 1].0, cv[j - 1].1)]);
                assert(crest.drop_first() =~= cv.skip(j as int));
                assert(funion(brest, crest) == crest);
                assert(pre + seq![(cv[j - 1].0, cv[j - 1].1)] + funion(
                    bv.skip(i as int),
                    cv.skip(j as int),
                ) =~= pre + crest);
            }
        } else if j == c.len() {
            proof {
                assert(crest =~= Seq::<(Seq<char>, JVal)>::empty());
                assert(brest[0] == bv[i as int]);
            }
            let key = b[i].0.clone();
            let val = json_clone(&b[i].1);
            out.push((key, val));
            i = i + 1;
            proof {
                assert(fviews(out@) =~= pre + seq![(bv[i - 1].0, bv[i - 1].1)]);
                assert(brest.drop_first() =~= bv.skip(i as int));
                assert(funion(brest, crest) == brest);
                assert(pre + seq![(bv[i - 1].0, bv[i - 1].1)] + funion(
                    bv.skip(i as int),
                    cv.skip(j as int),
                ) =~= pre + brest);
            }
        } else {
            proof {
                assert(brest[0] == bv[i as int]);
                assert(crest[0] == cv[j as int]);
            }
            let cres = str_compare(b[i].0.as_str(), c[j].0.as_str());
            if cres == 0 {
                let key = c[j].0.clone();
                let val = json_clone(&c[j].1);
                out.push((key, val));
                i = i + 1;
                j = j + 1;
                proof {
                    let m = (cv[j - 1].0, cv[j - 1].1);
                    assert(fviews(out@) =~= pre + seq![m]);
                    assert(brest.drop_first() =~= bv.skip(i as int));
                    assert(crest.drop_first() =~= cv.skip(j as int));
                    assert(funion(brest, crest) == seq![m] + funion(
                        bv.skip(i as int),
                        cv.skip(j as int),
                    ));
                    assert(pre + seq![m] + funion(bv.skip(i as int), cv.skip(j as int)) =~= pre
                        + funion(brest, crest));
                }
            } else if cres == -1 {
                let key = b[i].0.clone();
                let val = json_clone(&b[i].1);
                out.push((key, val));
                i = i + 1;
                proof {
                    let m = (bv[i - 1].0, bv[i - 1].1);
                    assert(fviews(out@) =~= pre + seq![m]);
                    assert(brest.drop_first() =~= bv.skip(i as int));
                    assert(funion(brest, crest) == seq![m] + funion(
                        bv.skip(i as int),
                        cv.skip(j as int),
                    ));
                    assert(pre + seq![m] + funion(bv.skip(i as int), cv.skip(j as int)) =~= pre
                        + funion(brest, crest));
                }
            } else {
                let key = c[j].0.clone();
                let val = json_clone(&c[j].1);
                out.push((key, val));
                j = j + 1;
                proof {
                    lemma_chars_lt_trichotomy(brest[0].0, crest[0].0);
                    let m = (cv[j - 1].0, cv[j - 1].1);
                    assert(fviews(out@) =~= pre + seq![m]);
                    assert(crest.drop_first() =~= cv.skip(j as int));
                    assert(funion(brest, crest) == seq![m] + funion(
                        bv.skip(i as int),
                        cv.skip(j as int),
                    ));
                    assert(pre + seq![m] + funion(bv.skip(i as int), cv.skip(j as int)) =~= pre
                        + funion(brest, crest));
                }
            }
        }
    }
    out
}

/// Every key of a merge is a key of one of its sides.
proof fn lemma_fmerge_keys(b: Seq<(Seq<char>, JVal)>, c: Seq<(Seq<char>, JVal)>)
    ensures
        forall|j: int|
            0 <= j < fmerge(b, c).len() ==> (exists|i: int|
                0 <= i < b.len() && b[i].0 == #[trigger] fmerge(b, c)[j].0) || (exists|i: int|
                0 <= i < c.len() && c[i].0 == fmerge(b, c)[j].0),
    decreases b.len() + c.len(),
{
    if b.len() == 0 {
    } else if c.len() == 0 {
    } else {
        let r = fmerge(b, c);
        if b[0].0 == c[0].0 {
            lemma_fmerge_keys(b.drop_first(), c.drop_first());
            assert forall|j: int|
                0 <= j < r.len() implies (exists|i: int|
                0 <= i < b.len() && b[i].0 == #[trigger] r[j].0) || (exists|i: int|
                0 <= i < c.len() && c[i].0 == r[j].0) by {
                if j == 0 {
                    assert(b[0].0 == r[0].0);
                } else {
                    let rest = fmerge(b.drop_first(), c.drop_first());
                    assert(r[j] == rest[j - 1]);
                    if exists|i: int|
                        0 <= i < b.drop_first().len() && b.drop_first()[i].0 == rest[j - 1].0 {
                        let i0 = choose|i: int|
                            0 <= i < b.drop_first().len() && b.drop_first()[i].0 == rest[j - 1].0;
                        assert(b[i0 + 1] == b.drop_first()[i0]);
                    } else {
                        let i0 = choose|i: int|
                            0 <= i < c.drop_first().len() && c.drop_first()[i].0 == rest[j - 1].0;
                        assert(c[i0 + 1] == c.drop_first()[i0]);
                    }
                }
            }
        } else if chars_lt(b[0].0, c[0].0) {
            lemma_fmerge_keys(b.drop_first(), c);
            assert forall|j: int|
                0 <= j < r.len() implies (exists|i: int|
                0 <= i < b.len() && b[i].0 == #[trigger] r[j].0) || (exists|i: int|
                0 <= i < c.len() && c[i].0 == r[j].0) by {
                if j == 0 {
                    assert(b[0].0 == r[0].0);
                } else {
                    let rest = fmerge(b.drop_first(), c);
                    assert(r[j] == rest[j - 1]);
                    if exists|i: int|
                        0 <= i < b.drop_first().len() && b.drop_first()[i].0 == rest[j - 1].0 {
                        let i0 = choose|i: int|
                            0 <= i < b.drop_first().len() && b.drop_first()[i].0 == rest[j - 1].0;
                        assert(b[i0 + 1] == b.drop_first()[i0]);
                    }
                }
            }
        } else {
            lemma_fmerge_keys(b, c.drop_first());
            assert forall|j: int|
                0 <= j < r.len() implies (exists|i: int|
                0 <= i < b.len() && b[i].0 == #[trigger] r[j].0) || (exists|i: int|
                0 <= i < c.len() && c[i].0 == r[j].0) by {
                if j == 0 {
                    assert(c[0].0 == r[0].0);
                } else {
                    let rest = fmerge(b, c.drop_first());
                    assert(r[j] == rest[j - 1]);
                    if exists|i: int|
                        0 <= i < c.drop_first().len() && c.drop_first()[i].0 == rest[j - 1].0 {
                        let i0 = choose|i: int|
                            0 <= i < c.drop_first().len() && c.drop_first()[i].0 == rest[j - 1].0;
                        assert(c[i0 + 1] == c.drop_first()[i0]);
                    }
                }
            }
        }
    }
}

/// A deep merge of two sorted field sequences is sorted.
pub proof fn lemma_fmerge_sorted(b: Seq<(Seq<char>, JVal)>, c: Seq<(Seq<char>, JVal)>)
    requires
        fsorted(b),
        fsorted(c),
    ensures
        fsorted(fmerge(b, c)),
    decreases b.len() + c.len(),
{
    if b.len() == 0 {
    } else if c.len() == 0 {
    } else {
        lemma_fsorted_drop(b);
        lemma_fsorted_drop(c);
        lemma_chars_lt_trichotomy(b[0].0, c[0].0);
        let r = fmerge(b, c);
        let head = r[0].0;
        if b[0].0 == c[0].0 {
            lemma_fmerge_sorted(b.drop_first(), c.drop_first());
            lemma_fmerge_keys(b.drop_first(), c.drop_first());
            let rest = fmerge(b.drop_first(), c.drop_first());
            assert forall|i: int, j: int| 0 <= i < j < r.len() implies chars_lt(
                r[i].0,
                r[j].0,
            ) by {
                if i == 0 {
                    assert(r[j] == rest[j - 1]);
                    lemma_key_above_heads(b, c, rest[j - 1].0, true, true);
                } else {
                    assert(r[i] == rest[i - 1]);
                    assert(r[j] == rest[j - 1]);
                }
            }
        } else if chars_lt(b[0].0, c[0].0) {
            lemma_fmerge_sorted(b.drop_first(), c);
            lemma_fmerge_keys(b.drop_first(), c);
            let rest = fmerge(b.drop_first(), c);
            assert forall|i: int, j: int| 0 <= i < j < r.len() implies chars_lt(
                r[i].0,
                r[j].0,
            ) by {
                if i == 0 {
                    assert(r[j] == rest[j - 1]);
                    lemma_key_above_heads(b, c, rest[j - 1].0, true, false);
                } else {
                    assert(r[i] == rest[i - 1]);
                    assert(r[j] == rest[j - 1]);
                }
            }
        } else {
            lemma_fmerge_sorted(b, c.drop_first());
            lemma_fmerge_keys(b, c.drop_first());
            let rest = fmerge(b, c.drop_first());
            assert forall|i: int, j: int| 0 <= i < j < r.len() implies chars_lt(
                r[i].0,
                r[j].0,
            ) by {
                if i == 0 {
                    assert(r[j] == rest[j - 1]);
                    lemma_key_above_heads(b, c, rest[j - 1].0, false, true);
                } else {
                    assert(r[i] == rest[i - 1]);
                    assert(r[j] == rest[j - 1]);
                }
            }
        }
    }
}

/// A key drawn from past the heads of two sorted sequences sorts above
/// the smaller head.
proof fn lemma_key_above_heads(
    b: Seq<(Seq<char>, JVal)>,
    c: Seq<(Seq<char>, JVal)>,
    k: Seq<char>,
    drop_b: bool,
    drop_c: bool,
)
    requires
        b.len() > 0,
        c.len() > 0,
        fsorted(b),
        fsorted(c),
        drop_b || drop_c,
        drop_b && drop_c ==> b[0].0 == c[0].0,
        drop_b && !drop_c ==> chars_lt(b[0].0, c[0].0),
        !drop_b && drop_c ==> chars_lt(c[0].0, b[0].0),
        (drop_b && exists|i: int| 0 < i < b.len() && b[i].0 == k) || (drop_c && exists|i: int|
            0 < i < c.len() && c[i].0 == k) || (!drop_b && exists|i: int|
            0 <= i < b.len() && b[i].0 == k) || (!drop_c && exists|i: int|
            0 <= i < c.len() && c[i].0 == k),
    ensures
        chars_lt(if drop_b {
            b[0].0
        } else {
            c[0].0
        }, k),
{
    let h = if drop_b {
        b[0].0
    } else {
        c[0].0
    };
    if drop_b && exists|i: int| 0 < i < b.len() && b[i].0 == k {
        let i0 = choose|i: int| 0 < i < b.len() && b[i].0 == k;
        assert(chars_lt(b[0].0, b[i0].0));
    } else if drop_c && exists|i: int| 0 < i < c.len() && c[i].0 == k {
        let i0 = choose|i: int| 0 < i < c.len() && c[i].0 == k;
        assert(chars_lt(c[0].0, c[i0].0));
    } else if !drop_b && exists|i: int| 0 <= i < b.len() && b[i].0 == k {
        let i0 = choose|i: int| 0 <= i < b.len() && b[i].0 == k;
        if i0 == 0 {
        } else {
            assert(chars_lt(b[0].0, b[i0].0));
            lemma_chars_lt_trans(c[0].0, b[0].0, k);
        }
    } else {
        let i0 = choose|i: int| 0 <= i < c.len() && c[i].0 == k;
        if i0 == 0 {
        } else {
            assert(chars_lt(c[0].0, c[i0].0));
            lemma_chars_lt_trans(b[0].0, c[0].0, k);
        }
    }
}

/// What a lookup finds in a deep merge: both sides merged on a common
/// key, the present side's entry otherwise.
pub proof fn lemma_flookup_fmerge(
    b: Seq<(Seq<char>, JVal)>,
    c: Seq<(Seq<char>, JVal)>,
    k: Seq<char>,
)
    requires
        fsorted(b),
        fsorted(c),
    ensures
        flookup(fmerge(b, c), k) == match (flookup(b, k), flookup(c, k)) {
            (Some(x), Some(y)) => Some(jmerge(x, y)),
            (Some(x), None) => Some(x),
            (None, Some(y)) => Some(y),
            (None, None) => None::<JVal>,
        },
    decreases b.len() + c.len(),
{
    if b.len() == 0 {
    } else if c.len() == 0 {
    } else {
        lemma_fsorted_drop(b);
        lemma_fsorted_drop(c);
        lemma_chars_lt_trichotomy(b[0].0, c[0].0);
        if b[0].0 == c[0].0 {
            lemma_flookup_fmerge(b.drop_first(), c.drop_first(), k);
            assert((seq![(b[0].0, jmerge(b[0].1, c[0].1))] + fmerge(
                b.drop_first(),
                c.drop_first(),
            )).drop_first() =~= fmerge(b.drop_first(), c.drop_first()));
        } else if chars_lt(b[0].0, c[0].0) {
            lemma_flookup_fmerge(b.drop_first(), c, k);
            assert((seq![b[0]] + fmerge(b.drop_first(), c)).drop_first() =~= fmerge(
                b.drop_first(),
                c,
            ));
            if k == b[0].0 {
                lemma_flookup_none_below(c, k);
            }
        } else {
            lemma_flookup_fmerge(b, c.drop_first(), k);
            assert((seq![c[0]] + fmerge(b, c.drop_first())).drop_first() =~= fmerge(
                b,
                c.drop_first(),
            ));
            if k == c[0].0 {
                lemma_flookup_none_below(b, k);
            }
        }
    }
}

} // verus!
