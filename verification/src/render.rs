//! Pretty-printing of document values to lines of JSON text: two-space
//! indentation, fields in stored (sorted) order, string escaping, empty
//! containers on one line. The bundler-module transform and the file
//! materializer both consume these lines.
use crate::json::{JVal, Json, jview, jviews, fviews};
use crate::text::{digit_char, int_chars, spaces_spec, strs_view, spaces, fmt_i64_into, push_char};
use vstd::prelude::*;
use vstd::string::*;

verus! {

pub open spec fn hex_digit(d: nat) -> char {
    if d < 10 {
        digit_char(d)
    } else {
        ((97 + (d - 10)) as u8) as char
    }
}

/// JSON escaping of one character: the named short escapes, `\u00XX` for
/// the other control characters, everything else verbatim.
pub open spec fn escape_char(c: char) -> Seq<char> {
    if c == '"' {
        seq!['\\', '"']
    } else if c == '\\' {
        seq!['\\', '\\']
    } else if c == '\u{8}' {
        seq!['\\', 'b']
    } else if c == '\t' {
        seq!['\\', 't']
    } else if c == '\n' {
        seq!['\\', 'n']
    } else if c == '\u{c}' {
        seq!['\\', 'f']
    } else if c == '\r' {
        seq!['\\', 'r']
    } else if (c as u32) < 32 {
        seq!['\\', 'u', '0', '0', hex_digit(((c as u32) / 16) as nat), hex_digit(
            ((c as u32) % 16) as nat,
        )]
    } else {
        seq![c]
    }
}

pub open spec fn escape_chars(s: Seq<char>) -> Seq<char>
    decreases s.len(),
{
    if s.len() == 0 {
        Seq::empty()
    } else {
        escape_char(s[0]) + escape_chars(s.drop_first())
    }
}

/// A double-quoted, escaped JSON string literal.
pub open spec fn quoted(s: Seq<char>) -> Seq<char> {
    seq!['"'] + escape_chars(s) + seq!['"']
}

/// The one-token rendering of a scalar value.
pub open spec fn jtoken(v: JVal) -> Seq<char> {
    match v {
        JVal::Null => seq!['n', 'u', 'l', 'l'],
        JVal::Bool(b) => if b {
            seq!['t', 'r', 'u', 'e']
        } else {
            seq!['f', 'a', 'l', 's', 'e']
        },
        JVal::Int(n) => int_chars(n),
        JVal::Str(s) => quoted(s),
        _ => Seq::empty(),
    }
}

/// The next indentation level; two more spaces, clamped at the machine
/// word so the definition stays total.
pub open spec fn bump(ind: nat) -> nat {
    if ind + 2 <= usize::MAX {
        (ind + 2) as nat
    } else {
        ind
    }
}

pub open spec fn prefix_first(p: Seq<char>, lines: Seq<Seq<char>>) -> Seq<Seq<char>> {
    lines.update(0, p + lines[0])
}

pub open spec fn suffix_last(lines: Seq<Seq<char>>, s: Seq<char>) -> Seq<Seq<char>> {
    lines.update(lines.len() - 1, lines[lines.len() - 1] + s)
}

/// The pretty-printed lines of `v` inside a container indented by `ind`:
/// the first line carries no indentation (it continues the line that
/// introduces the value), closing brackets sit at `ind`.
pub open spec fn jlines(v: JVal, ind: nat) -> Seq<Seq<char>>
    decreases v, 1int,
{
    match v {
        JVal::Arr(items) => if items.len() == 0 {
            seq![seq!['[', ']']]
        } else {
            seq![seq!['[']] + alines(items, bump(ind)) + seq![spaces_spec(ind).push(']')]
        },
        JVal::Obj(fields) => if fields.len() == 0 {
            seq![seq!['{', '}']]
        } else {
            seq![seq!['{']] + flines(fields, bump(ind)) + seq![spaces_spec(ind).push('}')]
        },
        _ => seq![jtoken(v)],
    }
}

/// Lines of the items of a non-empty array body, each item indented by
/// `ind`, a comma after every item but the last.
pub open spec fn alines(items: Seq<JVal>, ind: nat) -> Seq<Seq<char>>
    decreases items, 0int,
{
    if items.len() == 0 {
        Seq::empty()
    } else {
        let block = prefix_first(spaces_spec(ind), jlines(items[0], ind));
        let block2 = if items.len() == 1 {
            block
        } else {
            suffix_last(block, seq![','])
        };
        block2 + alines(items.drop_first(), ind)
    }
}

/// Lines of the fields of a non-empty object body: `"key": value`, each
/// field indented by `ind`, a comma after every field but the last.
pub open spec fn flines(fields: Seq<(Seq<char>, JVal)>, ind: nat) -> Seq<Seq<char>>
    decreases fields, 0int,
{
    if fields.len() == 0 {
        Seq::empty()
    } else {
        let block = prefix_first(
            spaces_spec(ind) + quoted(fields[0].0) + seq![':', ' '],
            jlines(fields[0].1, ind),
        );
        let block2 = if fields.len() == 1 {
            block
        } else {
            suffix_last(block, seq![','])
        };
        block2 + flines(fields.drop_first(), ind)
    }
}

pub proof fn lemma_jlines_nonempty(v: JVal, ind: nat)
    ensures
        jlines(v, ind).len() >= 1,
{
}

pub proof fn lemma_escape_chars_app(a: Seq<char>, b: Seq<char>)
    ensures
        escape_chars(a + b) == escape_chars(a) + escape_chars(b),
    decreases a.len(),
{
    if a.len() == 0 {
        assert(a + b =~= b);
        assert(escape_chars(a) + escape_chars(b) =~= escape_chars(b));
    } else {
        assert((a + b).drop_first() =~= a.drop_first() + b);
        lemma_escape_chars_app(a.drop_first(), b);
        assert((a + b)[0] == a[0]);
        assert(escape_char(a[0]) + (escape_chars(a.drop_first()) + escape_chars(b))
            =~= escape_char(a[0]) + escape_chars(a.drop_first()) + escape_chars(b));
    }
}

/// Append the JSON escaping of `s` to `out`.
#[verifier::loop_isolation(false)]
pub fn escape_into(out: &mut String, s: &str)
    ensures
        final(out)@ == old(out)@ + escape_chars(s@),
{
    let n = s.unicode_len();
    let mut i: usize = 0;
    proof {
        assert(s@.take(0) =~= Seq::<char>::empty());
        assert(escape_chars(Seq::<char>::empty()) =~= Seq::<char>::empty());
        assert(old(out)@ + escape_chars(s@.take(0)) =~= old(out)@);
    }
    while i < n
        invariant
            i <= n,
            n == s@.len(),
            out@ == old(out)@ + escape_chars(s@.take(i as int)),
        decreases n - i,
    {
        let c = s.get_char(i);
        let ghost pre = out@;
        if c == '"' {
            push_char(out, '\\');
            push_char(out, '"');
        } else if c == '\\' {
            push_char(out, '\\');
            push_char(out, '\\');
        } else if c == '\u{8}' {
            push_char(out, '\\');
            push_char(out, 'b');
        } else if c == '\t' {
            push_char(out, '\\');
            push_char(out, 't');
        } else if c == '\n' {
            push_char(out, '\\');
            push_char(out, 'n');
        } else if c == '\u{c}' {
            push_char(out, '\\');
            push_char(out, 'f');
        } else if c == '\r' {
            push_char(out, '\\');
            push_char(out, 'r');
        } else if (c as u32) < 32 {
            let u = c as u32;
            let hi = (u / 16) as u8;
            let lo = (u % 16) as u8;
            let hc = if hi < 10 {
                (48 + hi) as char
            } else {
                (97 + (hi - 10)) as char
            };
            let lc = if lo < 10 {
                (48 + lo) as char
            } else {
                (97 + (lo - 10)) as char
            };
            push_char(out, '\\');
            push_char(out, 'u');
            push_char(out, '0');
            push_char(out, '0');
            push_char(out, hc);
            push_char(out, lc);
        } else {
            push_char(out, c);
        }
        proof {
            assert(out@ =~= pre + escape_char(c));
            assert(s@.take(i + 1) =~= s@.take(i as int) + seq![c]);
            lemma_escape_chars_app(s@.take(i as int), seq![c]);
            assert(seq![c].drop_first() =~= Seq::<char>::empty());
            assert(escape_chars(seq![c]) =~= escape_char(c));
            assert(out@ == old(out)@ + escape_chars(s@.take(i + 1)));
        }
        i = i + 1;
    }
    proof {
        assert(s@.take(n as int) =~= s@);
    }
}

/// Append the quoted, escaped JSON form of `s` to `out`.
pub fn quote_into(out: &mut String, s: &str)
    ensures
        final(out)@ == old(out)@ + quoted(s@),
{
    push_char(out, '"');
    escape_into(out, s);
    push_char(out, '"');
    proof {
        assert((old(out)@.push('"') + escape_chars(s@)).push('"') =~= old(out)@ + quoted(s@));
    }
}

/// Append one rendered block to the line list: its first line behind
/// `prefix`, its last line followed by a comma when `comma` is set.
#[verifier::loop_isolation(false)]
#[verifier::rlimit(100)]
#[verifier::spinoff_prover]
fn push_block(out: &mut Vec<String>, block: &Vec<String>, prefix: &String, comma: bool)
    requires
        block@.len() >= 1,
    ensures
        strs_view(final(out)@) == strs_view(old(out)@) + (if comma {
            suffix_last(prefix_first(prefix@, strs_view(block@)), seq![','])
        } else {
            prefix_first(prefix@, strs_view(block@))
        }),
{
    let ghost pf = prefix_first(prefix@, strs_view(block@));
    let mut first = prefix.clone();
    first.append(block[0].as_str());
    out.push(first);
    proof {
        assert(strs_view(out@) =~= strs_view(old(out)@) + pf.take(1));
    }
    let mut k: usize = 1;
    while k < block.len()
        invariant
            1 <= k <= block@.len(),
            strs_view(out@) == strs_view(old(out)@) + pf.take(k as int),
        decreases block@.len() - k,
    {
        let ghost snap = out@;
        out.push(block[k].clone());
        k = k + 1;
        proof {
            assert(out@ == snap.push(block@[k - 1]));
            assert(strs_view(out@) =~~= strs_view(snap) + seq![block@[k - 1]@]);
            assert(pf[k - 1] == block@[k - 1]@);
            assert(strs_view(snap) + seq![block@[k - 1]@] =~~= strs_view(old(out)@) + pf.take(
                k as int,
            ));
        }
    }
    proof {
        assert(pf.take(block@.len() as int) =~= pf);
        assert(strs_view(out@) == strs_view(old(out)@) + pf);
    }
    if comma {
        let ghost prepop = out@;
        let last = out.pop();
        match last {
            Some(l) => {
                let ghost snap = out@;
                let ghost n = pf.len() as int;
                proof {
                    assert(prepop.len() == old(out)@.len() + n);
                    assert(l == prepop[prepop.len() - 1]);
                    assert(l@ == strs_view(prepop)[prepop.len() - 1]);
                    assert(l@ == pf[n - 1]);
                    assert(snap == prepop.subrange(0, prepop.len() - 1));
                    assert(snap.len() == old(out)@.len() + n - 1);
                    assert forall|i: int|
                        0 <= i < snap.len() implies strs_view(snap)[i] == (strs_view(old(out)@)
                        + pf.take(n - 1))[i] by {
                        assert(snap[i] == prepop[i]);
                        assert(strs_view(snap)[i] == snap[i]@);
                        assert(strs_view(prepop)[i] == prepop[i]@);
                        assert(strs_view(prepop)[i] == (strs_view(old(out)@) + pf)[i]);
                    }
                    assert(strs_view(snap) =~~= strs_view(old(out)@) + pf.take(n - 1));
                }
                out.push(l.concat(","));
                proof {
                    reveal_strlit(",");
                    assert(","@ =~= seq![',']);
                    assert(strs_view(out@) =~~= strs_view(snap).push(l@ + seq![',']));
                    assert(suffix_last(pf, seq![',']) =~= pf.take(n - 1) + seq![pf[n - 1]
                        + seq![',']]);
                    assert(strs_view(out@) =~~= strs_view(old(out)@) + suffix_last(pf, seq![',']));
                }
            },
            None => {
                proof {
                    assert(false);
                }
            },
        }
    }
}

/// The pretty-printed lines of `v` in a context indented by `ind`; the
/// exact line structure is `jlines`.
#[verifier::loop_isolation(false)]
#[verifier::rlimit(100)]
#[verifier::spinoff_prover]
pub fn render_lines(v: &Json, ind: usize) -> (r: Vec<String>)
    ensures
        strs_view(r@) == jlines(v@, ind as nat),
    decreases *v,
{
    match v {
        Json::Null => {
            let s = String::from_str("null");
            proof {
                reveal_strlit("null");
                assert(s@ =~= seq!['n', 'u', 'l', 'l']);
            }
            let r = vec![s];
            proof {
                assert(strs_view(r@) =~= jlines(v@, ind as nat));
            }
            r
        },
        Json::Bool(b) => {
            let s = if *b {
                String::from_str("true")
            } else {
                String::from_str("false")
            };
            proof {
                reveal_strlit("true");
                reveal_strlit("false");
                if *b {
                    assert(s@ =~= seq!['t', 'r', 'u', 'e']);
                } else {
                    assert(s@ =~= seq!['f', 'a', 'l', 's', 'e']);
                }
            }
            let r = vec![s];
            proof {
                assert(strs_view(r@) =~= jlines(v@, ind as nat));
            }
            r
        },
        Json::Int(n) => {
            let mut s = String::new();
            fmt_i64_into(&mut s, *n);
            proof {
                assert(s@ =~= int_chars(*n as int));
            }
            let r = vec![s];
            proof {
                assert(strs_view(r@) =~= jlines(v@, ind as nat));
            }
            r
        },
        Json::Str(st) => {
            let mut s = String::new();
            quote_into(&mut s, st.as_str());
            proof {
                assert(s@ =~= quoted(st@));
            }
            let r = vec![s];
            proof {
                assert(strs_view(r@) =~= jlines(v@, ind as nat));
            }
            r
        },
        Json::Arr(items) => {
            if items.len() == 0 {
                let s = String::from_str("[]");
                proof {
                    reveal_strlit("[]");
                    assert(s@ =~= seq!['[', ']']);
                }
                let r = vec![s];
                proof {
                    assert(jviews(items@).len() == 0);
                    assert(strs_view(r@) =~= jlines(v@, ind as nat));
                }
                r
            } else {
                let ind2 = if ind <= usize::MAX - 2 {
                    ind + 2
                } else {
                    ind
                };
                proof {
                    assert(ind2 as nat == bump(ind as nat));
                }
                let ghost full = jviews(items@);
                let ghost goal = seq![seq!['[']] + alines(full, ind2 as nat);
                let mut out: Vec<String> = Vec::new();
                let opening = String::from_str("[");
                out.push(opening);
                proof {
                    reveal_strlit("[");
                    assert("["@ =~= seq!['[']);
                    assert(full.skip(0) =~= full);
                    assert(strs_view(out@) =~~= seq![seq!['[']]);
                }
                let mut t: usize = 0;
                while t < items.len()
                    invariant
                        t <= items.len(),
                        strs_view(out@) + alines(full.skip(t as int), ind2 as nat) == goal,
                    decreases items.len() - t,
                {
                    let ghost pre = strs_view(out@);
                    let ghost arest = alines(full.skip(t as int), ind2 as nat);
                    proof {
                        assert(full.skip(t as int)[0] == full[t as int]);
                        assert(full.skip(t as int).drop_first() =~= full.skip(t as int + 1));
                        assert(decreases_to!(*v => items@));
                        assert(decreases_to!(items@ => items@[t as int]));
                    }
                    let block = render_lines(&items[t], ind2);
                    proof {
                        lemma_jlines_nonempty(full[t as int], ind2 as nat);
                    }
                    let pfx = spaces(ind2);
                    let comma = t + 1 < items.len();
                    push_block(&mut out, &block, &pfx, comma);
                    t = t + 1;
                    proof {
                        let block2 = if comma {
                            suffix_last(
                                prefix_first(spaces_spec(ind2 as nat), strs_view(block@)),
                                seq![','],
                            )
                        } else {
                            prefix_first(spaces_spec(ind2 as nat), strs_view(block@))
                        };
                        assert(arest == block2 + alines(full.skip(t as int), ind2 as nat));
                        assert(pre + block2 + alines(full.skip(t as int), ind2 as nat) =~= pre
                            + arest);
                    }
                }
                proof {
                    assert(full.skip(items@.len() as int)
                        =~= Seq::<crate::json::JVal>::empty());
                    assert(alines(Seq::<crate::json::JVal>::empty(), ind2 as nat)
                        =~= Seq::<Seq<char>>::empty());
                    assert(strs_view(out@) =~= goal);
                }
                let mut cl = spaces(ind);
                push_char(&mut cl, ']');
                out.push(cl);
                proof {
                    assert(strs_view(out@) =~= goal + seq![spaces_spec(ind as nat).push(']')]);
                    assert(strs_view(out@) =~= jlines(v@, ind as nat));
                }
                out
            }
        },
        Json::Obj(fields) => {
            if fields.len() == 0 {
                let s = String::from_str("{}");
                proof {
                    reveal_strlit("{}");
                    assert(s@ =~= seq!['{', '}']);
                }
                let r = vec![s];
                proof {
                    assert(fviews(fields@).len() == 0);
                    assert(strs_view(r@) =~= jlines(v@, ind as nat));
                }
                r
            } else {
                let ind2 = if ind <= usize::MAX - 2 {
                    ind + 2
                } else {
                    ind
                };
                proof {
                    assert(ind2 as nat == bump(ind as nat));
                }
                let ghost full = fviews(fields@);
                let ghost goal = seq![seq!['{']] + flines(full, ind2 as nat);
                let mut out: Vec<String> = Vec::new();
                let opening = String::from_str("{");
                out.push(opening);
                proof {
                    reveal_strlit("{");
                    assert("{"@ =~= seq!['{']);
                    assert(full.skip(0) =~= full);
                    assert(strs_view(out@) =~~= seq![seq!['{']]);
                }
                let mut t: usize = 0;
                while t < fields.len()
                    invariant
                        t <= fields.len(),
                        strs_view(out@) + flines(full.skip(t as int), ind2 as nat) == goal,
                    decreases fields.len() - t,
                {
                    let ghost pre = strs_view(out@);
                    let ghost frest = flines(full.skip(t as int), ind2 as nat);
                    proof {
                        assert(full.skip(t as int)[0] == full[t as int]);
                        assert(full.skip(t as int).drop_first() =~= full.skip(t as int + 1));
                        assert(decreases_to!(*v => fields@));
                        assert(decreases_to!(fields@ => fields@[t as int]));
                    }
                    let block = render_lines(&fields[t].1, ind2);
                    proof {
                        lemma_jlines_nonempty(full[t as int].1, ind2 as nat);
                    }
                    let mut pfx = spaces(ind2);
                    quote_into(&mut pfx, fields[t].0.as_str());
                    pfx.append(": ");
                    proof {
                        reveal_strlit(": ");
                        assert(pfx@ =~= spaces_spec(ind2 as nat) + quoted(full[t as int].0)
                            + seq![':', ' ']);
                    }
                    let comma = t + 1 < fields.len();
                    push_block(&mut out, &block, &pfx, comma);
                    t = t + 1;
                    proof {
                        let block2 = if comma {
                            suffix_last(
                                prefix_first(
                                    spaces_spec(ind2 as nat) + quoted(full[t - 1].0)
                                        + seq![':', ' '],
                                    strs_view(block@),
                                ),
                                seq![','],
                            )
                        } else {
                            prefix_first(
                                spaces_spec(ind2 as nat) + quoted(full[t - 1].0) + seq![':', ' '],
                                strs_view(block@),
                            )
                        };
                        assert(frest == block2 + flines(full.skip(t as int), ind2 as nat));
                        assert(pre + block2 + flines(full.skip(t as int), ind2 as nat) =~= pre
                            + frest);
                    }
                }
                proof {
                    assert(full.skip(fields@.len() as int)
                        =~= Seq::<(Seq<char>, crate::json::JVal)>::empty());
                    assert(flines(Seq::<(Seq<char>, crate::json::JVal)>::empty(), ind2 as nat)
                        =~= Seq::<Seq<char>>::empty());
                    assert(strs_view(out@) =~= goal);
                }
                let mut cl = spaces(ind);
                push_char(&mut cl, '}');
                out.push(cl);
                proof {
                    assert(strs_view(out@) =~= goal + seq![spaces_spec(ind as nat).push('}')]);
                    assert(strs_view(out@) =~= jlines(v@, ind as nat));
                }
                out
            }
        },
    }
}

/// The line at which field `i`'s key line stands in a rendered object
/// body: the lines of all earlier fields come first.
pub open spec fn key_line_idx(fields: Seq<(Seq<char>, JVal)>, ind: nat, i: int) -> int
    decreases i,
{
    if i <= 0 {
        0
    } else {
        key_line_idx(fields, ind, i - 1) + jlines(fields[i - 1].1, ind).len()
    }
}

/// A rendered line that introduces field `key`: the indent, the quoted
/// key, and the separator are its prefix.
pub open spec fn is_key_line(line: Seq<char>, ind: nat, key: Seq<char>) -> bool {
    let pre = spaces_spec(ind) + quoted(key) + seq![':', ' '];
    line.len() >= pre.len() && line.take(pre.len() as int) == pre
}

proof fn lemma_key_line_idx_shift(fields: Seq<(Seq<char>, JVal)>, ind: nat, i: int)
    requires
        fields.len() > 0,
        1 <= i <= fields.len(),
    ensures
        key_line_idx(fields, ind, i) == jlines(fields[0].1, ind).len() as int + key_line_idx(
            fields.drop_first(),
            ind,
            i - 1,
        ),
    decreases i,
{
    if i == 1 {
        assert(key_line_idx(fields, ind, 0) == 0);
        assert(key_line_idx(fields.drop_first(), ind, 0) == 0);
    } else {
        lemma_key_line_idx_shift(fields, ind, i - 1);
        assert(fields.drop_first()[i - 2] == fields[i - 1]);
    }
}

proof fn lemma_flines_len(fields: Seq<(Seq<char>, JVal)>, ind: nat)
    ensures
        flines(fields, ind).len() == key_line_idx(fields, ind, fields.len() as int),
    decreases fields.len(),
{
    if fields.len() == 0 {
    } else {
        lemma_flines_len(fields.drop_first(), ind);
        lemma_key_line_idx_shift(fields, ind, fields.len() as int);
    }
}

/// Field `i`'s key line stands at its place in the rendered body and
/// carries its key.
proof fn lemma_flines_key_line(fields: Seq<(Seq<char>, JVal)>, ind: nat, i: int)
    requires
        0 <= i < fields.len(),
    ensures
        0 <= key_line_idx(fields, ind, i) < flines(fields, ind).len(),
        is_key_line(flines(fields, ind)[key_line_idx(fields, ind, i)], ind, fields[i].0),
    decreases i,
{
    lemma_flines_len(fields, ind);
    lemma_jlines_nonempty(fields[0].1, ind);
    let pre0 = spaces_spec(ind) + quoted(fields[0].0) + seq![':', ' '];
    let block = prefix_first(pre0, jlines(fields[0].1, ind));
    let block2 = if fields.len() == 1 {
        block
    } else {
        suffix_last(block, seq![','])
    };
    assert(block2.len() == jlines(fields[0].1, ind).len());
    if i == 0 {
        assert(key_line_idx(fields, ind, 0) == 0);
        let line = flines(fields, ind)[0];
        assert(line == block2[0]);
        assert(block[0] == pre0 + jlines(fields[0].1, ind)[0]);
        if fields.len() == 1 || block.len() > 1 {
            assert(line == block[0] || line == block[0] + seq![',']);
        }
        assert(line.take(pre0.len() as int) =~= pre0);
    } else {
        lemma_flines_key_line(fields.drop_first(), ind, i - 1);
        lemma_key_line_idx_shift(fields, ind, i);
        assert(fields.drop_first()[i - 1] == fields[i]);
        let rest = flines(fields.drop_first(), ind);
        let idx = key_line_idx(fields, ind, i);
        assert(flines(fields, ind)[idx] == rest[key_line_idx(fields.drop_first(), ind, i - 1)]);
    }
}

/// Manifest key ordering: in the rendered lines of an object whose
/// fields are sorted (as every map built by `set` is), each field has
/// its own key line, and the key lines of two fields stand in the same
/// order as their keys sort.
pub proof fn lemma_render_key_order(fields: Seq<(Seq<char>, JVal)>, ind: nat, i: int, j: int)
    requires
        crate::json::fsorted(fields),
        0 <= i < j < fields.len(),
    ensures
        0 <= key_line_idx(fields, ind, i) < key_line_idx(fields, ind, j) < flines(
            fields,
            ind,
        ).len(),
        is_key_line(flines(fields, ind)[key_line_idx(fields, ind, i)], ind, fields[i].0),
        is_key_line(flines(fields, ind)[key_line_idx(fields, ind, j)], ind, fields[j].0),
        crate::json::chars_lt(fields[i].0, fields[j].0),
{
    lemma_flines_key_line(fields, ind, i);
    lemma_flines_key_line(fields, ind, j);
    lemma_key_line_idx_mono(fields, ind, i, j);
}

proof fn lemma_key_line_idx_mono(fields: Seq<(Seq<char>, JVal)>, ind: nat, i: int, j: int)
    requires
        0 <= i < j <= fields.len(),
    ensures
        key_line_idx(fields, ind, i) < key_line_idx(fields, ind, j),
    decreases j - i,
{
    lemma_jlines_nonempty(fields[j - 1].1, ind);
    if j - 1 > i {
        lemma_key_line_idx_mono(fields, ind, i, j - 1);
    }
}

} // verus!
