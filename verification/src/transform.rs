//! The configuration-to-module-source transform: pretty-printed JSON lines
//! are rewritten into bundler-module syntax. Object keys lose their double
//! quotes when they are plain identifiers, identifier-like string values
//! are re-quoted with single quotes, a `>>>` marker carries a deferred
//! runtime expression that is emitted verbatim and unquoted, and
//! registered insertion patterns splice multi-line code fragments in at
//! the matching key, re-indented one level deeper.
use crate::json::{Json, jview};
use crate::render::{bump, jlines, render_lines};
use crate::text::{push_char, spaces, spaces_spec, strs_view};
use vstd::prelude::*;
use vstd::string::*;

verus! {

/// The whitespace that counts as indentation: what the line scanner
/// treats as `\s`.
pub open spec fn is_space_char(c: char) -> bool {
    c == ' ' || c == '\t' || c == '\n' || c == '\r' || c == '\u{b}' || c == '\u{c}'
}

/// ASCII word characters: what may stand in an unquoted key.
pub open spec fn is_word_char(c: char) -> bool {
    (97 <= c as u32 && c as u32 <= 122) || (65 <= c as u32 && c as u32 <= 90) || (48 <= c as u32
        && c as u32 <= 57) || c == '_'
}

/// Length of the longest prefix of `s` whose characters satisfy the
/// class picked by `kind`: 0 spaces, 1 word characters, 2 anything but
/// a double quote or colon, 3 anything but a double quote.
pub open spec fn class_prefix_len(s: Seq<char>, kind: int) -> nat
    decreases s.len(),
{
    if s.len() == 0 {
        0
    } else if in_class(s[0], kind) {
        1 + class_prefix_len(s.drop_first(), kind)
    } else {
        0
    }
}

pub open spec fn in_class(c: char, kind: int) -> bool {
    if kind == 0 {
        is_space_char(c)
    } else if kind == 1 {
        is_word_char(c)
    } else if kind == 2 {
        c != '"' && c != ':'
    } else {
        c != '"'
    }
}

/// The number of leading whitespace characters of a line.
pub open spec fn indent_len(s: Seq<char>) -> nat {
    class_prefix_len(s, 0)
}

/// `class_prefix_len` is the unique `n` with all of the first `n`
/// characters in the class and the next one (if any) outside it.
pub proof fn lemma_class_prefix_is(s: Seq<char>, kind: int, n: nat)
    requires
        n <= s.len(),
        forall|k: int| 0 <= k < n ==> in_class(s[k], kind),
        n < s.len() ==> !in_class(s[n as int], kind),
    ensures
        class_prefix_len(s, kind) == n,
    decreases n,
{
    if n == 0 {
    } else {
        assert(in_class(s[0], kind));
        assert forall|k: int| 0 <= k < n - 1 implies in_class(s.drop_first()[k], kind) by {
            assert(s.drop_first()[k] == s[k + 1]);
        }
        assert(n - 1 < s.drop_first().len() ==> !in_class(s.drop_first()[n - 1], kind)) by {
            if n < s.len() {
                assert(s.drop_first()[n - 1] == s[n as int]);
            }
        }
        lemma_class_prefix_is(s.drop_first(), kind, (n - 1) as nat);
    }
}

fn in_class_exec(c: char, kind: u8) -> (r: bool)
    ensures
        r == in_class(c, kind as int),
{
    let u = c as u32;
    if kind == 0 {
        u == 32 || u == 9 || u == 10 || u == 13 || u == 11 || u == 12
    } else if kind == 1 {
        (97 <= u && u <= 122) || (65 <= u && u <= 90) || (48 <= u && u <= 57) || c == '_'
    } else if kind == 2 {
        c != '"' && c != ':'
    } else {
        c != '"'
    }
}

/// Longest run of characters of the class starting at `from`.
fn class_scan(line: &str, from: usize, kind: u8) -> (r: usize)
    requires
        from <= line@.len(),
    ensures
        r as nat == class_prefix_len(line@.skip(from as int), kind as int),
        from + r <= line@.len(),
{
    let n = line.unicode_len();
    let mut i: usize = from;
    loop
        invariant
            from <= i <= n,
            n == line@.len(),
            forall|k: int| from <= k < i ==> in_class(line@[k], kind as int),
        ensures
            from <= i <= n,
            forall|k: int| from <= k < i ==> in_class(line@[k], kind as int),
            i < n ==> !in_class(line@[i as int], kind as int),
        decreases n - i,
    {
        if i == n {
            break ;
        }
        let c = line.get_char(i);
        if !in_class_exec(c, kind) {
            break ;
        }
        i = i + 1;
    }
    proof {
        let suf = line@.skip(from as int);
        assert forall|k: int| 0 <= k < i - from implies in_class(suf[k], kind as int) by {
            assert(suf[k] == line@[k + from]);
        }
        assert(i - from < suf.len() ==> !in_class(suf[i - from], kind as int)) by {
            if i < n {
                assert(suf[i - from] == line@[i as int]);
            }
        }
        lemma_class_prefix_is(suf, kind as int, (i - from) as nat);
    }
    i - from
}

/// Leading-whitespace width of a line.
pub fn get_indent_size(line: &str) -> (r: usize)
    ensures
        r as nat == indent_len(line@),
{
    proof {
        assert(line@.skip(0) =~= line@);
    }
    class_scan(line, 0, 0)
}

pub open spec fn q_at(line: Seq<char>, p: int) -> bool {
    0 <= p < line.len() && line[p] == '"'
}

pub open spec fn marker_at(line: Seq<char>, p: int) -> bool {
    0 <= p && p + 3 <= line.len() && line[p] == '>' && line[p + 1] == '>' && line[p + 2] == '>'
}

pub open spec fn colon_at(line: Seq<char>, p: int) -> bool {
    0 <= p && p + 2 <= line.len() && line[p] == ':' && is_space_char(line[p + 1])
}

pub open spec fn comma_at(line: Seq<char>, p: int) -> bool {
    0 <= p < line.len() && line[p] == ','
}

/// What `format_line` produces, written over the parse positions
/// `p0..p11` instead of the residues.
pub open spec fn fmt_out(
    line: Seq<char>,
    extra: Option<nat>,
    p0: int,
    p1: int,
    p2: int,
    p3: int,
    p4: int,
    p5: int,
    p6: int,
    p7: int,
    p8: int,
    p9: int,
    p10: int,
    p11: int,
) -> Seq<char> {
    let base = spaces_spec(
        match extra {
            Some(v) => v,
            None => 0,
        },
    );
    if p11 == line.len() {
        let q2 = p1 != p0;
        let m3 = p2 != p1;
        let has_k6 = p4 != p3;
        let q7 = p5 != p4;
        let m8 = p6 != p5;
        let q9 = p7 != p6;
        let m10 = p8 != p7;
        let q12 = p10 != p9;
        let c13 = p11 != p10;
        let key = line.subrange(p2, p4);
        let val = line.subrange(p8, p9);
        let qk: Seq<char> = if q2 && q7 && !m3 && (has_k6 || !m8) {
            seq!['\'']
        } else {
            Seq::empty()
        };
        let colon: Seq<char> = if m8 {
            seq![':', ' ']
        } else {
            Seq::empty()
        };
        let qv: Seq<char> = if m8 && q9 && q12 && !m10 {
            seq!['\'']
        } else {
            Seq::empty()
        };
        let comma: Seq<char> = if c13 {
            seq![',']
        } else {
            Seq::empty()
        };
        base + line.take(p0) + qk + key + qk + colon + qv + val + qv + comma
    } else {
        base + line
    }
}


pub open spec fn fl_p0(line: Seq<char>) -> int {
    indent_len(line) as int
}

pub open spec fn fl_p1(line: Seq<char>) -> int {
    let p = fl_p0(line);
    p + if q_at(line, p) {
        1int
    } else {
        0int
    }
}

pub open spec fn fl_p2(line: Seq<char>) -> int {
    let p = fl_p1(line);
    p + if marker_at(line, p) {
        3int
    } else {
        0int
    }
}

pub open spec fn fl_p3(line: Seq<char>) -> int {
    let p = fl_p2(line);
    p + class_prefix_len(line.skip(p), 1)
}

pub open spec fn fl_p4(line: Seq<char>) -> int {
    let p = fl_p3(line);
    p + class_prefix_len(line.skip(p), 2)
}

pub open spec fn fl_p5(line: Seq<char>) -> int {
    let p = fl_p4(line);
    p + if q_at(line, p) {
        1int
    } else {
        0int
    }
}

pub open spec fn fl_p6(line: Seq<char>) -> int {
    let p = fl_p5(line);
    p + if colon_at(line, p) {
        2int
    } else {
        0int
    }
}

pub open spec fn fl_p7(line: Seq<char>) -> int {
    let p = fl_p6(line);
    p + if q_at(line, p) {
        1int
    } else {
        0int
    }
}

pub open spec fn fl_p8(line: Seq<char>) -> int {
    let p = fl_p7(line);
    p + if marker_at(line, p) {
        3int
    } else {
        0int
    }
}

pub open spec fn fl_p9(line: Seq<char>) -> int {
    let p = fl_p8(line);
    p + class_prefix_len(line.skip(p), 3)
}

pub open spec fn fl_p10(line: Seq<char>) -> int {
    let p = fl_p9(line);
    p + if q_at(line, p) {
        1int
    } else {
        0int
    }
}

pub open spec fn fl_p11(line: Seq<char>) -> int {
    let p = fl_p10(line);
    p + if comma_at(line, p) {
        1int
    } else {
        0int
    }
}

/// The line rewrite of the transform, one line at a time. The line is
/// scanned as optional whitespace, an optionally quoted key (word
/// characters, then anything up to a quote or colon), an optional
/// `": "`, and an optionally quoted value, either part optionally
/// carrying the verbatim `>>>` marker, and an optional trailing comma.
/// A line of that shape is re-emitted with identifier keys unquoted,
/// identifier-like string values single-quoted, and marker values
/// verbatim; any other line passes through unchanged. `extra` prepends
/// that many spaces either way.
pub open spec fn format_line(line: Seq<char>, extra: Option<nat>) -> Seq<char> {
    fmt_out(
        line,
        extra,
        fl_p0(line),
        fl_p1(line),
        fl_p2(line),
        fl_p3(line),
        fl_p4(line),
        fl_p5(line),
        fl_p6(line),
        fl_p7(line),
        fl_p8(line),
        fl_p9(line),
        fl_p10(line),
        fl_p11(line),
    )
}

struct LineScan {
    p0: usize,
    end: usize,
    q2: bool,
    m3: bool,
    has_k6: bool,
    q7: bool,
    m8: bool,
    q9: bool,
    m10: bool,
    q12: bool,
    c13: bool,
    key: String,
    val: String,
    lead: String,
}

/// First half of the line scan: indentation, key quote, marker, key.
#[verifier::loop_isolation(false)]
#[verifier::rlimit(100)]
#[verifier::spinoff_prover]
fn scan_front(line: &str) -> (r: (usize, usize, bool, bool, bool, String, String))
    ensures
        r.0 as int == fl_p0(line@),
        r.1 as int == fl_p4(line@),
        r.1 <= line@.len(),
        r.2 == q_at(line@, fl_p0(line@)),
        r.3 == marker_at(line@, fl_p1(line@)),
        r.4 == (fl_p4(line@) != fl_p3(line@)),
        r.5@ == line@.subrange(fl_p2(line@), fl_p4(line@)),
        r.6@ == line@.take(fl_p0(line@)),
{
    let ghost lv = line@;
    let n = line.unicode_len();
    let p0 = class_scan(line, 0, 0);
    proof {
        assert(lv.skip(0) =~= lv);
        assert(p0 as int == fl_p0(lv));
    }
    let mut i: usize = p0;
    let q2 = i < n && line.get_char(i) == '"';
    if q2 {
        i = i + 1;
    }
    proof {
        assert(i as int == fl_p1(lv));
    }
    let ghost p1 = i as int;
    let m3 = n - i >= 3 && line.get_char(i) == '>' && line.get_char(i + 1) == '>' && line.get_char(
        i + 2,
    ) == '>';
    if m3 {
        i = i + 3;
    }
    proof {
        assert(m3 == marker_at(lv, p1));
        assert(i as int == fl_p2(lv));
    }
    let key_start = i;
    let k5 = class_scan(line, i, 1);
    i = i + k5;
    proof {
        assert(i as int == fl_p3(lv));
    }
    let k6 = class_scan(line, i, 2);
    i = i + k6;
    proof {
        assert(i as int == fl_p4(lv));
    }
    let key = line.substring_char(key_start, i);
    let lead = line.substring_char(0, p0);
    (p0, i, q2, m3, k6 > 0, key.to_owned(), lead.to_owned())
}

/// Second half of the line scan: value quote, marker, value, comma.
#[verifier::loop_isolation(false)]
#[verifier::rlimit(100)]
#[verifier::spinoff_prover]
fn scan_back(line: &str, from: usize) -> (r: (usize, bool, bool, bool, bool, bool, bool, String))
    requires
        from as int == fl_p4(line@),
        from <= line@.len(),
    ensures
        r.0 as int == fl_p11(line@),
        r.0 <= line@.len(),
        r.1 == q_at(line@, fl_p4(line@)),
        r.2 == colon_at(line@, fl_p5(line@)),
        r.3 == q_at(line@, fl_p6(line@)),
        r.4 == marker_at(line@, fl_p7(line@)),
        r.5 == q_at(line@, fl_p9(line@)),
        r.6 == comma_at(line@, fl_p10(line@)),
        r.7@ == line@.subrange(fl_p8(line@), fl_p9(line@)),
{
    let ghost lv = line@;
    let n = line.unicode_len();
    let mut i: usize = from;
    let q7 = i < n && line.get_char(i) == '"';
    if q7 {
        i = i + 1;
    }
    proof {
        assert(i as int == fl_p5(lv));
    }
    let ghost p5 = i as int;
    let m8 = n - i >= 2 && line.get_char(i) == ':' && in_class_exec(line.get_char(i + 1), 0);
    if m8 {
        i = i + 2;
    }
    proof {
        assert(m8 == colon_at(lv, p5));
        assert(i as int == fl_p6(lv));
    }
    let q9 = i < n && line.get_char(i) == '"';
    if q9 {
        i = i + 1;
    }
    proof {
        assert(i as int == fl_p7(lv));
    }
    let ghost p7 = i as int;
    let m10 = n - i >= 3 && line.get_char(i) == '>' && line.get_char(i + 1) == '>'
        && line.get_char(i + 2) == '>';
    if m10 {
        i = i + 3;
    }
    proof {
        assert(m10 == marker_at(lv, p7));
        assert(i as int == fl_p8(lv));
    }
    let val_start = i;
    let v11 = class_scan(line, i, 3);
    i = i + v11;
    proof {
        assert(i as int == fl_p9(lv));
    }
    let val = line.substring_char(val_start, i);
    let q12 = i < n && line.get_char(i) == '"';
    if q12 {
        i = i + 1;
    }
    proof {
        assert(i as int == fl_p10(lv));
    }
    let c13 = i < n && line.get_char(i) == ',';
    if c13 {
        i = i + 1;
    }
    proof {
        assert(i as int == fl_p11(lv));
    }
    (i, q7, m8, q9, m10, q12, c13, val.to_owned())
}

/// Scan one line into its parse positions and parts.
fn scan_line(line: &str) -> (r: LineScan)
    ensures
        r.p0 as int == fl_p0(line@),
        r.end as int == fl_p11(line@),
        r.end <= line@.len(),
        r.q2 == q_at(line@, fl_p0(line@)),
        r.m3 == marker_at(line@, fl_p1(line@)),
        r.has_k6 == (fl_p4(line@) != fl_p3(line@)),
        r.q7 == q_at(line@, fl_p4(line@)),
        r.m8 == colon_at(line@, fl_p5(line@)),
        r.q9 == q_at(line@, fl_p6(line@)),
        r.m10 == marker_at(line@, fl_p7(line@)),
        r.q12 == q_at(line@, fl_p9(line@)),
        r.c13 == comma_at(line@, fl_p10(line@)),
        r.key@ == line@.subrange(fl_p2(line@), fl_p4(line@)),
        r.val@ == line@.subrange(fl_p8(line@), fl_p9(line@)),
        r.lead@ == line@.take(fl_p0(line@)),
{
    let front = scan_front(line);
    let back = scan_back(line, front.1);
    LineScan {
        p0: front.0,
        end: back.0,
        q2: front.2,
        m3: front.3,
        has_k6: front.4,
        q7: back.1,
        m8: back.2,
        q9: back.3,
        m10: back.4,
        q12: back.5,
        c13: back.6,
        key: front.5,
        val: back.7,
        lead: front.6,
    }
}

/// Rewrite one line as `format_line` says; `indent_size` prepends that
/// many spaces.
#[verifier::loop_isolation(false)]
#[verifier::rlimit(100)]
#[verifier::spinoff_prover]
pub fn format_str(line: &str, indent_size: &Option<usize>) -> (r: String)
    ensures
        r@ == format_line(
            line@,
            match indent_size {
                Some(v) => Some(*v as nat),
                None => None,
            },
        ),
{
    let ghost lv = line@;
    let sc = scan_line(line);
    let n = line.unicode_len();
    let extra = match indent_size {
        Some(v) => *v,
        None => 0,
    };
    let mut out = spaces(extra);
    proof {
        reveal_strlit("'");
        reveal_strlit(": ");
        reveal_strlit(",");
        reveal_strlit("");
    }
    if sc.end == n {
        let qk_on = sc.q2 && sc.q7 && !sc.m3 && (sc.has_k6 || !sc.m8);
        let qv_on = sc.m8 && sc.q9 && sc.q12 && !sc.m10;
        let qk: &str = if qk_on {
            "'"
        } else {
            ""
        };
        let qv: &str = if qv_on {
            "'"
        } else {
            ""
        };
        let colon: &str = if sc.m8 {
            ": "
        } else {
            ""
        };
        let comma: &str = if sc.c13 {
            ","
        } else {
            ""
        };
        proof {
            assert(qk@ =~= if qk_on {
                seq!['\'']
            } else {
                Seq::<char>::empty()
            });
            assert(qv@ =~= if qv_on {
                seq!['\'']
            } else {
                Seq::<char>::empty()
            });
            assert(colon@ =~= if sc.m8 {
                seq![':', ' ']
            } else {
                Seq::<char>::empty()
            });
            assert(comma@ =~= if sc.c13 {
                seq![',']
            } else {
                Seq::<char>::empty()
            });
        }
        out.append(sc.lead.as_str());
        out.append(qk);
        out.append(sc.key.as_str());
        out.append(qk);
        out.append(colon);
        out.append(qv);
        out.append(sc.val.as_str());
        out.append(qv);
        out.append(comma);
        proof {
            assert(out@ =~= format_line(
                lv,
                match indent_size {
                    Some(v) => Some(*v as nat),
                    None => None,
                },
            ));
        }
        out
    } else {
        out.append(line);
        proof {
            assert(out@ =~= format_line(
                lv,
                match indent_size {
                    Some(v) => Some(*v as nat),
                    None => None,
                },
            ));
        }
        out
    }
}

/// `sub` occurs in `s` at position `i`.
pub open spec fn contains_at(s: Seq<char>, sub: Seq<char>, i: int) -> bool {
    0 <= i && i + sub.len() <= s.len() && s.subrange(i, i + sub.len()) == sub
}

pub open spec fn contains_sub(s: Seq<char>, sub: Seq<char>) -> bool {
    exists|i: int| contains_at(s, sub, i)
}

/// Position of the first occurrence of `sub` in `s`.
pub open spec fn find_at(s: Seq<char>, sub: Seq<char>) -> Option<int>
    decreases s.len(),
{
    if contains_at(s, sub, 0) {
        Some(0)
    } else if s.len() == 0 {
        None
    } else {
        match find_at(s.drop_first(), sub) {
            Some(i) => Some(i + 1),
            None => None,
        }
    }
}

proof fn lemma_contains_at_shift(s: Seq<char>, sub: Seq<char>, i: int)
    requires
        s.len() > 0,
        0 <= i,
    ensures
        contains_at(s.drop_first(), sub, i) == contains_at(s, sub, i + 1),
{
    if i + 1 + sub.len() <= s.len() {
        assert(s.drop_first().subrange(i, i + sub.len()) =~= s.subrange(i + 1, i + 1 + sub.len()));
    }
}

proof fn lemma_find_at_is(s: Seq<char>, sub: Seq<char>, i: int)
    requires
        contains_at(s, sub, i),
        forall|j: int| 0 <= j < i ==> !contains_at(s, sub, j),
    ensures
        find_at(s, sub) == Some(i),
    decreases i,
{
    if i == 0 {
    } else {
        assert(!contains_at(s, sub, 0));
        assert(s.len() > 0);
        lemma_contains_at_shift(s, sub, i - 1);
        assert forall|j: int| 0 <= j < i - 1 implies !contains_at(s.drop_first(), sub, j) by {
            lemma_contains_at_shift(s, sub, j);
        }
        lemma_find_at_is(s.drop_first(), sub, i - 1);
    }
}

proof fn lemma_find_at_none(s: Seq<char>, sub: Seq<char>)
    requires
        forall|j: int| !contains_at(s, sub, j),
    ensures
        find_at(s, sub) is None,
    decreases s.len(),
{
    if s.len() > 0 {
        assert forall|j: int| !contains_at(s.drop_first(), sub, j) by {
            if 0 <= j {
                lemma_contains_at_shift(s, sub, j);
            }
        }
        lemma_find_at_none(s.drop_first(), sub);
    }
}

/// First occurrence of `sub` in `s`, if any.
#[verifier::loop_isolation(false)]
#[verifier::rlimit(100)]
#[verifier::spinoff_prover]
pub fn find_sub(s: &str, sub: &str) -> (r: Option<usize>)
    ensures
        match r {
            Some(i) => find_at(s@, sub@) == Some(i as int) && contains_at(s@, sub@, i as int),
            None => find_at(s@, sub@) is None && !contains_sub(s@, sub@),
        },
{
    let n = s.unicode_len();
    let m = sub.unicode_len();
    if m > n {
        proof {
            assert forall|j: int| !contains_at(s@, sub@, j) by {}
            lemma_find_at_none(s@, sub@);
        }
        return None;
    }
    let mut i: usize = 0;
    while i <= n - m
        invariant
            0 <= i <= n - m + 1,
            m <= n,
            n == s@.len(),
            m == sub@.len(),
            forall|j: int| 0 <= j < i ==> !contains_at(s@, sub@, j),
        decreases n - i,
    {
        let mut t: usize = 0;
        let mut ok = true;
        loop
            invariant
                0 <= t <= m,
                i + m <= n,
                ok ==> forall|u: int| 0 <= u < t ==> s@[i + u] == sub@[u],
                !ok ==> exists|u: int| 0 <= u < m && s@[i + u] != sub@[u],
            decreases m - t,
        {
            if t == m {
                break ;
            }
            if s.get_char(i + t) != sub.get_char(t) {
                ok = false;
                proof {
                    assert(0 <= t < m && s@[i + t as int] != sub@[t as int]);
                }
                break ;
            }
            t = t + 1;
        }
        proof {
            assert(ok ==> t == m || (exists|u: int| 0 <= u < m && s@[i + u] != sub@[u]));
        }
        if ok {
            proof {
                assert(s@.subrange(i as int, i + m) =~= sub@);
                assert(contains_at(s@, sub@, i as int));
                lemma_find_at_is(s@, sub@, i as int);
            }
            return Some(i);
        }
        proof {
            assert(!contains_at(s@, sub@, i as int)) by {
                if contains_at(s@, sub@, i as int) {
                    let u = choose|u: int| 0 <= u < m && s@[i + u] != sub@[u];
                    assert(s@.subrange(i as int, i + m)[u] == sub@[u]);
                }
            }
        }
        i = i + 1;
    }
    proof {
        assert forall|j: int| !contains_at(s@, sub@, j) by {
            if 0 <= j < i {
            }
        }
        lemma_find_at_none(s@, sub@);
    }
    None
}

/// A registered insertion: the lines to splice in, and the pattern they
/// replace. The pattern is a key line with a `%s` placeholder between
/// its opening and closing brackets.
pub struct InsertLines {
    pub lines: Vec<String>,
    pub into: String,
}

pub open spec fn pct_s() -> Seq<char> {
    seq!['%', 's']
}

/// The pattern text before the placeholder (the whole pattern when no
/// placeholder is present).
pub open spec fn ins_part0(into: Seq<char>) -> Seq<char> {
    match find_at(into, pct_s()) {
        Some(i) => into.take(i),
        None => into,
    }
}

/// The pattern text after the placeholder (empty when no placeholder is
/// present).
pub open spec fn ins_part1(into: Seq<char>) -> Seq<char> {
    match find_at(into, pct_s()) {
        Some(i) => into.skip(i + 2),
        None => Seq::empty(),
    }
}

/// The view of one registered insertion: its fragment lines and its
/// pattern.
pub open spec fn ins_views(ins: Seq<InsertLines>) -> Seq<(Seq<Seq<char>>, Seq<char>)> {
    Seq::new(
        ins.len(),
        |i: int|
            if 0 <= i < ins.len() {
                (strs_view(ins[i].lines@), ins[i].into@)
            } else {
                (Seq::empty(), Seq::empty())
            },
    )
}

/// The first registered insertion whose pattern prefix the line
/// contains, scanning from `k`.
pub open spec fn match_idx(line: Seq<char>, ins: Seq<(Seq<Seq<char>>, Seq<char>)>, k: int) -> Option<
    int,
>
    decreases ins.len() - k,
{
    if k < 0 || k >= ins.len() {
        None
    } else if contains_sub(line, ins_part0(ins[k].1)) {
        Some(k)
    } else {
        match_idx(line, ins, k + 1)
    }
}

/// Each fragment line re-indented by `ind` extra spaces.
pub open spec fn fmt_lines(ls: Seq<Seq<char>>, ind: nat) -> Seq<Seq<char>> {
    Seq::new(ls.len(), |i: int| format_line(ls[i], Some(ind)))
}

/// What one line of the pretty-printed text becomes: a matching
/// insertion pattern is replaced by its rewritten key line, the
/// fragment lines one level deeper, and its closing line; any other
/// line is rewritten in place.
pub open spec fn tline(line: Seq<char>, ins: Seq<(Seq<Seq<char>>, Seq<char>)>) -> Seq<Seq<char>> {
    match match_idx(line, ins, 0) {
        None => seq![format_line(line, None)],
        Some(k) => {
            let ind = indent_len(line);
            seq![format_line(ins_part0(ins[k].1), Some(ind))] + fmt_lines(ins[k].0, bump(ind))
                + seq![format_line(ins_part1(ins[k].1), Some(ind))]
        },
    }
}

pub open spec fn transform_lines(
    lines: Seq<Seq<char>>,
    ins: Seq<(Seq<Seq<char>>, Seq<char>)>,
) -> Seq<Seq<char>>
    decreases lines.len(),
{
    if lines.len() == 0 {
        Seq::empty()
    } else {
        tline(lines[0], ins) + transform_lines(lines.drop_first(), ins)
    }
}

pub open spec fn module_header() -> Seq<char> {
    seq![
        'm',
        'o',
        'd',
        'u',
        'l',
        'e',
        '.',
        'e',
        'x',
        'p',
        'o',
        'r',
        't',
        's',
        ' ',
        '=',
        ' ',
        '{',
    ]
}

/// The module-source lines of a configuration value: the pretty-printed
/// JSON with its opening brace line replaced by a module assignment,
/// every line rewritten, and the registered insertions spliced in.
pub open spec fn js_object_lines(
    v: crate::json::JVal,
    ins: Seq<(Seq<Seq<char>>, Seq<char>)>,
) -> Seq<Seq<char>> {
    seq![module_header()] + transform_lines(jlines(v, 0).drop_first(), ins)
}

/// Find the first insertion whose pattern prefix `line` contains.
#[verifier::loop_isolation(false)]
fn find_insertion(line: &str, inserts: &Vec<InsertLines>) -> (r: Option<usize>)
    ensures
        match r {
            Some(k) => k < inserts@.len() && match_idx(line@, ins_views(inserts@), 0) == Some(
                k as int,
            ),
            None => match_idx(line@, ins_views(inserts@), 0) is None,
        },
{
    let ghost insv = ins_views(inserts@);
    let mut k: usize = 0;
    loop
        invariant
            0 <= k <= inserts@.len(),
            match_idx(line@, insv, 0) == match_idx(line@, insv, k as int),
        decreases inserts@.len() - k,
    {
        if k == inserts.len() {
            return None;
        }
        let part0 = match find_sub(inserts[k].into.as_str(), "%s") {
            Some(p) => inserts[k].into.substring_char(0, p),
            None => inserts[k].into.as_str(),
        };
        proof {
            reveal_strlit("%s");
            assert("%s"@ =~= pct_s());
            assert(insv[k as int].1 == inserts@[k as int].into@);
            assert(part0@ == ins_part0(insv[k as int].1));
        }
        if find_sub(line, part0).is_some() {
            return Some(k);
        }
        k = k + 1;
    }
}

/// The bundler-module text of a configuration value, with the given
/// insertions spliced in at their patterns.
#[verifier::loop_isolation(false)]
#[verifier::rlimit(100)]
#[verifier::spinoff_prover]
pub fn json_to_js_object(json: &Json, insert_lines: &Vec<InsertLines>) -> (r: Vec<String>)
    ensures
        strs_view(r@) == js_object_lines(json@, ins_views(insert_lines@)),
{
    let ghost insv = ins_views(insert_lines@);
    let pl = render_lines(json, 0);
    let ghost body = strs_view(pl@).drop_first();
    let ghost goal = seq![module_header()] + transform_lines(body, insv);
    let mut out: Vec<String> = Vec::new();
    let header = String::from_str("module.exports = {");
    proof {
        reveal_strlit("module.exports = {");
        assert(header@ =~= module_header());
    }
    out.push(header);
    proof {
        assert(body.skip(0) =~= body);
        assert(strs_view(out@) =~= seq![module_header()]);
    }
    let mut t: usize = 1;
    while t < pl.len()
        invariant
            1 <= t <= pl@.len() || (pl@.len() == 0 && t == 1),
            strs_view(out@) + transform_lines(body.skip(t - 1), insv) == goal,
        decreases pl@.len() - t,
    {
        let ghost pre = strs_view(out@);
        let ghost rest = transform_lines(body.skip(t - 1), insv);
        proof {
            assert(body.skip(t - 1)[0] == body[t - 1]);
            assert(body[t - 1] == strs_view(pl@)[t as int]);
            assert(body.skip(t - 1).drop_first() =~= body.skip(t as int));
        }
        let line = &pl[t];
        match find_insertion(line.as_str(), insert_lines) {
            Some(k) => {
                let ind = get_indent_size(line.as_str());
                let ind2 = if ind <= usize::MAX - 2 {
                    ind + 2
                } else {
                    ind
                };
                proof {
                    reveal_strlit("%s");
                    assert("%s"@ =~= pct_s());
                }
                let ilen = insert_lines[k].into.unicode_len();
                let (part0, part1) = match find_sub(insert_lines[k].into.as_str(), "%s") {
                    Some(p) => (
                        insert_lines[k].into.substring_char(0, p),
                        insert_lines[k].into.substring_char(p + 2, ilen),
                    ),
                    None => (insert_lines[k].into.as_str(), ""),
                };
                proof {
                    reveal_strlit("");
                    assert(insv[k as int].1 == insert_lines@[k as int].into@);
                    assert(insv[k as int].0 == strs_view(insert_lines@[k as int].lines@));
                    assert(part0@ == ins_part0(insv[k as int].1));
                    assert(part1@ =~= ins_part1(insv[k as int].1));
                    assert(ind as nat == indent_len(body[t - 1]));
                    assert(ind2 as nat == bump(ind as nat));
                }
                out.push(format_str(part0, &Some(ind)));
                let frag = &insert_lines[k].lines;
                let ghost fl = fmt_lines(strs_view(frag@), ind2 as nat);
                proof {
                    assert(strs_view(out@) =~= pre + seq![
                        format_line(ins_part0(insv[k as int].1), Some(ind as nat)),
                    ]);
                }
                let ghost mid0 = strs_view(out@);
                let mut u: usize = 0;
                while u < frag.len()
                    invariant
                        0 <= u <= frag@.len(),
                        strs_view(out@) == mid0 + fl.take(u as int),
                    decreases frag@.len() - u,
                {
                    let ghost snap = out@;
                    out.push(format_str(frag[u].as_str(), &Some(ind2)));
                    u = u + 1;
                    proof {
                        assert(fl[u - 1] == format_line(
                            strs_view(frag@)[u - 1],
                            Some(ind2 as nat),
                        ));
                        assert(strs_view(frag@)[u - 1] == frag@[u - 1]@);
                        assert(out@.len() == snap.len() + 1);
                        assert(out@[out@.len() - 1]@ == fl[u - 1]);
                        assert forall|w: int|
                            0 <= w < out@.len() implies strs_view(out@)[w] == (mid0 + fl.take(
                            u as int,
                        ))[w] by {
                            if w < snap.len() {
                                assert(out@[w] == snap[w]);
                                assert(strs_view(snap)[w] == snap[w]@);
                            }
                        }
                        assert(strs_view(out@) =~= mid0 + fl.take(u as int));
                    }
                }
                out.push(format_str(part1, &Some(ind)));
                proof {
                    assert(fl.take(frag@.len() as int) =~= fl);
                    assert(strs_view(out@) =~= mid0 + fl + seq![
                        format_line(ins_part1(insv[k as int].1), Some(ind as nat)),
                    ]);
                    let block = seq![
                        format_line(ins_part0(insv[k as int].1), Some(indent_len(body[t - 1]))),
                    ] + fl + seq![
                        format_line(ins_part1(insv[k as int].1), Some(indent_len(body[t - 1]))),
                    ];
                    assert(match_idx(body[t - 1], insv, 0) == Some(k as int));
                    assert(fmt_lines(insv[k as int].0, bump(indent_len(body[t - 1]))) == fl);
                    assert(tline(body[t - 1], insv) =~= block);
                    assert(strs_view(out@) =~= pre + block);
                }
            },
            None => {
                out.push(format_str(line.as_str(), &None));
                proof {
                    assert(tline(body[t - 1], insv) == seq![format_line(body[t - 1], None)]);
                    assert(strs_view(out@) =~= pre + tline(body[t - 1], insv));
                }
            },
        }
        t = t + 1;
        proof {
            assert(rest == tline(body[t - 2], insv) + transform_lines(body.skip(t - 1), insv));
            assert(pre + tline(body[t - 2], insv) + transform_lines(body.skip(t - 1), insv)
                =~= pre + rest);
        }
    }
    proof {
        if pl@.len() == 0 {
            assert(body =~= Seq::<Seq<char>>::empty());
            assert(body.skip(0) =~= body);
        } else {
            assert(body.skip(pl@.len() - 1) =~= Seq::<Seq<char>>::empty());
        }
        assert(transform_lines(Seq::<Seq<char>>::empty(), insv) =~= Seq::<Seq<char>>::empty());
        assert(strs_view(out@) =~= goal);
    }
    out
}

} // verus!
