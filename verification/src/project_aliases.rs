//! The path-alias resolver: the five canonical aliases of a project tree,
//! each rendered either as an absolute filesystem path under the working
//! directory or as a deferred runtime expression, plus the extra aliases
//! declared in a compiler configuration's `paths` table.
use crate::json::{JVal, Json, jlookup, jmerge, jobj_set, merged, str_compare};
use crate::text::{push_char, strs_view};
use crate::transform::{contains_at, find_at};
use vstd::prelude::*;
use vstd::string::*;

verus! {

/// The five canonical alias slots.
pub struct Aliases {
    pub src: String,
    pub build: String,
    pub public: String,
    pub images: String,
    pub main: String,
}

#[verifier::ext_equal]
pub struct AliasesV {
    pub src: Seq<char>,
    pub build: Seq<char>,
    pub public: Seq<char>,
    pub images: Seq<char>,
    pub main: Seq<char>,
}

impl View for Aliases {
    type V = AliasesV;

    open spec fn view(&self) -> AliasesV {
        AliasesV {
            src: self.src@,
            build: self.build@,
            public: self.public@,
            images: self.images@,
            main: self.main@,
        }
    }
}

pub struct ProjectAliases {
    pub aliases: Aliases,
    pub is_abs_path: bool,
}

/// A relative alias joined under the working directory: a single path
/// separator between them, none doubled when the directory already ends
/// with one.
pub open spec fn abs_path_of(cwd: Seq<char>, alias: Seq<char>) -> Seq<char> {
    if cwd.len() > 0 && cwd[cwd.len() - 1] == '/' {
        cwd + alias
    } else {
        cwd + seq!['/'] + alias
    }
}

/// The deferred runtime expression for an alias: resolved by the
/// consuming runtime, carried through generated text behind the
/// verbatim marker.
pub open spec fn deferred_of(alias: Seq<char>) -> Seq<char> {
    ">>>path.resolve(cwd, '"@ + alias + "')"@
}

/// How one alias renders: an absolute path or a deferred expression.
pub open spec fn alias_path(alias: Seq<char>, is_abs: bool, cwd: Seq<char>) -> Seq<char> {
    if is_abs {
        abs_path_of(cwd, alias)
    } else {
        deferred_of(alias)
    }
}

/// The resolved aliases rendered as a document value, fields in sorted
/// key order.
pub open spec fn aliases_json(a: AliasesV, is_abs: bool, cwd: Seq<char>) -> JVal {
    let o = JVal::Obj(Seq::empty());
    let o = jobj_set(o, "src"@, JVal::Str(alias_path(a.src, is_abs, cwd)));
    let o = jobj_set(o, "build"@, JVal::Str(alias_path(a.build, is_abs, cwd)));
    let o = jobj_set(o, "public"@, JVal::Str(alias_path(a.public, is_abs, cwd)));
    let o = jobj_set(o, "images"@, JVal::Str(alias_path(a.images, is_abs, cwd)));
    jobj_set(o, "main"@, JVal::Str(alias_path(a.main, is_abs, cwd)))
}

impl ProjectAliases {
    /// Render one alias, as `alias_path` says.
    pub fn get_path(alias_path_in: &String, is_abs_path: &bool, cwd: &str) -> (r: String)
        ensures
            r@ == alias_path(alias_path_in@, *is_abs_path, cwd@),
    {
        if *is_abs_path {
            Self::get_abs_path(alias_path_in, cwd)
        } else {
            let mut s = String::from_str(">>>path.resolve(cwd, '");
            s.append(alias_path_in.as_str());
            s.append("')");
            proof {
                assert(s@ =~= deferred_of(alias_path_in@));
            }
            s
        }
    }

    /// Join one alias under the working directory.
    pub fn get_abs_path(alias_path_in: &String, cwd: &str) -> (r: String)
        ensures
            r@ == abs_path_of(cwd@, alias_path_in@),
    {
        let n = cwd.unicode_len();
        let mut s = cwd.to_owned();
        if n > 0 && cwd.get_char(n - 1) == '/' {
        } else {
            push_char(&mut s, '/');
        }
        s.append(alias_path_in.as_str());
        proof {
            assert(s@ =~= abs_path_of(cwd@, alias_path_in@));
        }
        s
    }

    /// Resolve the five canonical aliases in place and hand them out.
    pub fn get(&mut self, cwd: &str) -> (r: Aliases)
        ensures
            final(self).aliases@.src == alias_path(old(self).aliases@.src, old(self).is_abs_path, cwd@),
            final(self).aliases@.build == alias_path(
                old(self).aliases@.build,
                old(self).is_abs_path,
                cwd@,
            ),
            final(self).aliases@.public == alias_path(
                old(self).aliases@.public,
                old(self).is_abs_path,
                cwd@,
            ),
            final(self).aliases@.images == alias_path(
                old(self).aliases@.images,
                old(self).is_abs_path,
                cwd@,
            ),
            final(self).aliases@.main == alias_path(old(self).aliases@.main, old(self).is_abs_path, cwd@),
            final(self).is_abs_path == old(self).is_abs_path,
            r@ == final(self).aliases@,
    {
        self.aliases.src = Self::get_path(&self.aliases.src, &self.is_abs_path, cwd);
        self.aliases.build = Self::get_path(&self.aliases.build, &self.is_abs_path, cwd);
        self.aliases.public = Self::get_path(&self.aliases.public, &self.is_abs_path, cwd);
        self.aliases.images = Self::get_path(&self.aliases.images, &self.is_abs_path, cwd);
        self.aliases.main = Self::get_path(&self.aliases.main, &self.is_abs_path, cwd);
        Aliases {
            src: self.aliases.src.clone(),
            build: self.aliases.build.clone(),
            public: self.aliases.public.clone(),
            images: self.aliases.images.clone(),
            main: self.aliases.main.clone(),
        }
    }

    /// The resolved aliases as a document value, with the extra aliases
    /// from the compiler configuration merged over them.
    pub fn get_json(&mut self, cwd: &str, extra: &Json) -> (r: Json)
        ensures
            r@ == jmerge(
                aliases_json(old(self).aliases@, old(self).is_abs_path, cwd@),
                extra@,
            ),
            final(self).is_abs_path == old(self).is_abs_path,
    {
        let ghost a0 = self.aliases@;
        let ghost abs = self.is_abs_path;
        let resolved = self.get(cwd);
        let base = Json::obj().set("src", Json::Str(resolved.src)).set(
            "build",
            Json::Str(resolved.build),
        ).set("public", Json::Str(resolved.public)).set("images", Json::Str(resolved.images)).set(
            "main",
            Json::Str(resolved.main),
        );
        proof {
            assert(base@ == aliases_json(a0, abs, cwd@));
        }
        merged(&base, extra)
    }
}

/// `s` with every occurrence of `sub` removed (unchanged for an empty
/// pattern).
pub open spec fn remove_sub(s: Seq<char>, sub: Seq<char>) -> Seq<char>
    decreases s.len(),
    via remove_sub_dec
{
    if sub.len() == 0 {
        s
    } else {
        match find_at(s, sub) {
            Some(i) => s.take(i) + remove_sub(s.skip(i + sub.len()), sub),
            None => s,
        }
    }
}

/// A found occurrence lies within the string.
pub proof fn lemma_find_at_bounds(s: Seq<char>, sub: Seq<char>)
    ensures
        match find_at(s, sub) {
            Some(i) => 0 <= i && i + sub.len() <= s.len(),
            None => true,
        },
    decreases s.len(),
{
    if !contains_at(s, sub, 0) && s.len() > 0 {
        lemma_find_at_bounds(s.drop_first(), sub);
    }
}

#[via_fn]
proof fn remove_sub_dec(s: Seq<char>, sub: Seq<char>) {
    if sub.len() > 0 {
        lemma_find_at_bounds(s, sub);
    }
}

/// Remove every occurrence of `sub` from `s`.
pub fn remove_occurrences(s: &str, sub: &str) -> (r: String)
    requires
        sub@.len() > 0,
    ensures
        r@ == remove_sub(s@, sub@),
    decreases s@.len(),
{
    let n = s.unicode_len();
    let m = sub.unicode_len();
    match crate::transform::find_sub(s, sub) {
        None => s.to_owned(),
        Some(i) => {
            let head = s.substring_char(0, i);
            let tail = s.substring_char(i + m, n);
            let rest = remove_occurrences(tail, sub);
            let mut out = head.to_owned();
            out.append(rest.as_str());
            proof {
                assert(tail@ =~= s@.skip(i + sub@.len()));
                assert(head@ =~= s@.take(i as int));
                assert(out@ =~= remove_sub(s@, sub@));
            }
            out
        },
    }
}

/// The glob suffix marker of a `paths` entry.
pub open spec fn glob_marker() -> Seq<char> {
    "/*"@
}

/// One `paths` entry folded into the accumulator: entries whose value is
/// a non-empty array headed by a string contribute an alias (key and
/// first candidate stripped of the glob marker, the candidate resolved);
/// any other entry is passed over.
pub open spec fn tspath_step(
    acc: JVal,
    key: Seq<char>,
    val: JVal,
    is_abs: bool,
    cwd: Seq<char>,
) -> JVal {
    match val {
        JVal::Arr(items) => if items.len() > 0 {
            match items[0] {
                JVal::Str(first) => jobj_set(
                    acc,
                    remove_sub(key, glob_marker()),
                    JVal::Str(alias_path(remove_sub(first, glob_marker()), is_abs, cwd)),
                ),
                _ => acc,
            }
        } else {
            acc
        },
        _ => acc,
    }
}

pub open spec fn tspaths_acc(
    acc: JVal,
    fields: Seq<(Seq<char>, JVal)>,
    is_abs: bool,
    cwd: Seq<char>,
) -> JVal
    decreases fields.len(),
{
    if fields.len() == 0 {
        acc
    } else {
        tspaths_acc(
            tspath_step(acc, fields[0].0, fields[0].1, is_abs, cwd),
            fields.drop_first(),
            is_abs,
            cwd,
        )
    }
}

/// The `paths` table of a compiler configuration document, empty when
/// absent or not an object.
pub open spec fn paths_table(v: JVal) -> Seq<(Seq<char>, JVal)> {
    match jlookup(v, "compilerOptions"@) {
        Some(co) => match jlookup(co, "paths"@) {
            Some(JVal::Obj(fields)) => fields,
            _ => Seq::empty(),
        },
        _ => Seq::empty(),
    }
}

/// The extra aliases a compiler configuration declares.
pub open spec fn ts_paths_of(v: JVal, is_abs: bool, cwd: Seq<char>) -> JVal {
    tspaths_acc(JVal::Obj(Seq::empty()), paths_table(v), is_abs, cwd)
}

/// The parent configuration a compiler configuration extends, when it
/// names one.
pub open spec fn extends_of(v: JVal) -> Option<Seq<char>> {
    match jlookup(v, "extends"@) {
        Some(JVal::Str(s)) => Some(s),
        _ => None,
    }
}

impl ProjectAliases {
    /// The extra aliases declared in one parsed compiler configuration:
    /// each `paths` entry's first candidate, stripped of its glob
    /// suffix and resolved like a canonical alias, plus the name of the
    /// parent configuration the file extends, for the caller to follow
    /// (with its own cycle bound).
    #[verifier::loop_isolation(false)]
    pub fn ts_config_paths(&self, json: &Json, cwd: &str) -> (r: (Json, Option<String>))
        ensures
            r.0@ == ts_paths_of(json@, self.is_abs_path, cwd@),
            match r.1 {
                Some(s) => extends_of(json@) == Some(s@),
                None => extends_of(json@) is None,
            },
    {
        let ghost table = paths_table(json@);
        let ghost goal = tspaths_acc(JVal::Obj(Seq::empty()), table, self.is_abs_path, cwd@);
        let mut acc = Json::obj();
        let co = json.get("compilerOptions");
        match co {
            Some(cov) => {
                match cov.get("paths") {
                    Some(p) => {
                        match p {
                            Json::Obj(fields) => {
                                proof {
                                    assert(table == crate::json::fviews(fields@));
                                    assert(table.skip(0) =~= table);
                                }
                                let mut i: usize = 0;
                                while i < fields.len()
                                    invariant
                                        i <= fields@.len(),
                                        acc is Obj,
                                        tspaths_acc(
                                            acc@,
                                            table.skip(i as int),
                                            self.is_abs_path,
                                            cwd@,
                                        ) == goal,
                                    decreases fields@.len() - i,
                                {
                                    proof {
                                        assert(table.skip(i as int)[0] == table[i as int]);
                                        assert(table.skip(i as int).drop_first() =~= table.skip(
                                            i as int + 1,
                                        ));
                                        assert(table[i as int] == (
                                            fields@[i as int].0@,
                                            crate::json::jview(fields@[i as int].1),
                                        ));
                                    }
                                    match &fields[i].1 {
                                        Json::Arr(items) => {
                                            proof {
                                                if items@.len() > 0 {
                                                    assert(crate::json::jviews(items@)[0]
                                                        == crate::json::jview(items@[0]));
                                                }
                                            }
                                            if items.len() > 0 {
                                                match &items[0] {
                                                    Json::Str(first) => {
                                                        proof {
                                                            reveal_strlit("/*");
                                                        }
                                                        let key = remove_occurrences(
                                                            fields[i].0.as_str(),
                                                            "/*",
                                                        );
                                                        let cand = remove_occurrences(
                                                            first.as_str(),
                                                            "/*",
                                                        );
                                                        let path = Self::get_path(
                                                            &cand,
                                                            &self.is_abs_path,
                                                            cwd,
                                                        );
                                                        proof {
                                                            assert(crate::json::jviews(items@)[0]
                                                                == JVal::Str(first@));
                                                        }
                                                        acc = acc.set(
                                                            key.as_str(),
                                                            Json::Str(path),
                                                        );
                                                    },
                                                    _ => {},
                                                }
                                            }
                                        },
                                        _ => {},
                                    }
                                    i = i + 1;
                                }
                                proof {
                                    assert(table.skip(table.len() as int) =~= Seq::<
                                        (Seq<char>, JVal),
                                    >::empty());
                                }
                            },
                            _ => {},
                        }
                    },
                    None => {},
                }
            },
            None => {},
        }
        let extends = match json.get("extends") {
            Some(e) => match e {
                Json::Str(s) => Some(s.clone()),
                _ => None,
            },
            None => None,
        };
        (acc, extends)
    }
}

} // verus!
