//! The layered configuration records: the package manifest, the compiler
//! configuration and the lint configuration, each with its merge over a
//! common base layer. Scalar fields override when present, list fields
//! concatenate base-first, map fields union with the child winning.
use crate::helpers::{
    concat_opt, merge_opt_hashmaps, merge_opt_vectors, opt_fields_view, opt_strs_view, union_opt,
};
use crate::json::{
    JVal, Json, fsorted, funion, fviews, jview, jviews, lemma_flookup_funion, flookup, json_clone,
    union_fields,
};
use vstd::prelude::*;
use vstd::string::*;

verus! {

/// The user identity stamped into the generated license and manifest.
pub struct User {
    pub name: String,
    pub email: String,
}

/// A payload of the project file map: raw text written verbatim, a
/// document value written as pretty JSON, or the manifest.
pub enum Content {
    Str(String),
    Val(Json),
    Pkg(Package),
}

/// The generated package manifest.
pub struct Package {
    pub name: String,
    pub version: String,
    pub description: String,
    pub main: String,
    pub scripts: Json,
    pub keywords: Vec<String>,
    pub author: String,
    pub license: String,
    pub dependencies: Json,
    pub dev_dependencies: Json,
}

/// The manifest as a document value: fields in declaration order, the
/// dependency maps keeping their own sorted key order.
pub open spec fn package_json(p: Package) -> JVal {
    JVal::Obj(
        seq![
            ("name"@, JVal::Str(p.name@)),
            ("version"@, JVal::Str(p.version@)),
            ("description"@, JVal::Str(p.description@)),
            ("main"@, JVal::Str(p.main@)),
            ("scripts"@, p.scripts@),
            (
                "keywords"@,
                JVal::Arr(
                    Seq::new(
                        p.keywords@.len(),
                        |i: int|
                            if 0 <= i < p.keywords@.len() {
                                JVal::Str(p.keywords@[i]@)
                            } else {
                                JVal::Null
                            },
                    ),
                ),
            ),
            ("author"@, JVal::Str(p.author@)),
            ("license"@, JVal::Str(p.license@)),
            ("dependencies"@, p.dependencies@),
            ("devDependencies"@, p.dev_dependencies@),
        ],
    )
}

impl Package {
    /// The manifest as a document value, ready to render.
    pub fn to_json(&self) -> (r: Json)
        ensures
            r@ == package_json(*self),
    {
        let mut kw: Vec<Json> = Vec::new();
        let mut i: usize = 0;
        while i < self.keywords.len()
            invariant
                i <= self.keywords@.len(),
                kw@.len() == i,
                forall|t: int| 0 <= t < i ==> (#[trigger] kw@[t])@ == JVal::Str(
                    self.keywords@[t]@,
                ),
            decreases self.keywords@.len() - i,
        {
            kw.push(Json::Str(self.keywords[i].clone()));
            i = i + 1;
        }
        let fields: Vec<(String, Json)> = vec![
            ("name".to_owned(), Json::Str(self.name.clone())),
            ("version".to_owned(), Json::Str(self.version.clone())),
            ("description".to_owned(), Json::Str(self.description.clone())),
            ("main".to_owned(), Json::Str(self.main.clone())),
            ("scripts".to_owned(), json_clone(&self.scripts)),
            ("keywords".to_owned(), Json::Arr(kw)),
            ("author".to_owned(), Json::Str(self.author.clone())),
            ("license".to_owned(), Json::Str(self.license.clone())),
            ("dependencies".to_owned(), json_clone(&self.dependencies)),
            ("devDependencies".to_owned(), json_clone(&self.dev_dependencies)),
        ];
        let r = Json::Obj(fields);
        proof {
            assert(jviews(r.arrow_Obj_0()@[5].1.arrow_Arr_0()@) =~= package_json(
                *self,
            ).arrow_Obj_0()[5].1.arrow_Arr_0());
            assert(fviews(r.arrow_Obj_0()@) =~= package_json(*self).arrow_Obj_0());
        }
        r
    }
}

/// The merge of two optional scalar fields: the child's value when it
/// has one, the base's otherwise.
pub open spec fn opt_or<T>(child: Option<T>, base: Option<T>) -> Option<T> {
    if child is Some {
        child
    } else {
        base
    }
}

/// The compiler-options record of the generated compiler configuration.
pub struct TsconfigCompilerOptions {
    pub root_dir: Option<String>,
    pub source_map: Option<bool>,
    pub declaration: Option<bool>,
    pub module_resolution: Option<String>,
    pub emit_decorator_metadata: Option<bool>,
    pub experimental_decorators: Option<bool>,
    pub import_helpers: Option<bool>,
    pub target: Option<String>,
    pub module: Option<String>,
    pub lib: Vec<String>,
    pub jsx: Option<String>,
    pub skip_lib_check: Option<bool>,
    pub skip_default_lib_check: Option<bool>,
    pub es_module_interop: Option<bool>,
    pub no_implicit_any: Option<bool>,
    pub resolve_json_module: Option<bool>,
    pub base_url: Option<String>,
    pub out_dir: Option<String>,
    pub paths: Vec<(String, Json)>,
    pub exclude: Vec<String>,
}

fn clone_opt_string(o: &Option<String>) -> (r: Option<String>)
    ensures
        r == o,
{
    match o {
        Some(s) => Some(s.clone()),
        None => None,
    }
}

fn or_opt_string(child: Option<String>, base: &Option<String>) -> (r: Option<String>)
    ensures
        r == opt_or(child, *base),
{
    match child {
        Some(s) => Some(s),
        None => clone_opt_string(base),
    }
}

fn or_opt_bool(child: Option<bool>, base: &Option<bool>) -> (r: Option<bool>)
    ensures
        r == opt_or(child, *base),
{
    match child {
        Some(b) => Some(b),
        None => *base,
    }
}

impl TsconfigCompilerOptions {
    /// Merge this (framework) record over the common base: scalars
    /// override when present, `lib` and `exclude` concatenate base
    /// first, `paths` unions with this record winning on a key.
    pub fn merge(self, common: &TsconfigCompilerOptions) -> (r: TsconfigCompilerOptions)
        ensures
            r.lib@ == common.lib@ + self.lib@,
            r.exclude@ == common.exclude@ + self.exclude@,
            fviews(r.paths@) == funion(fviews(common.paths@), fviews(self.paths@)),
            r.root_dir == opt_or(self.root_dir, common.root_dir),
            r.source_map == opt_or(self.source_map, common.source_map),
            r.declaration == opt_or(self.declaration, common.declaration),
            r.module_resolution == opt_or(self.module_resolution, common.module_resolution),
            r.emit_decorator_metadata == opt_or(
                self.emit_decorator_metadata,
                common.emit_decorator_metadata,
            ),
            r.experimental_decorators == opt_or(
                self.experimental_decorators,
                common.experimental_decorators,
            ),
            r.import_helpers == opt_or(self.import_helpers, common.import_helpers),
            r.target == opt_or(self.target, common.target),
            r.module == opt_or(self.module, common.module),
            r.jsx == opt_or(self.jsx, common.jsx),
            r.skip_lib_check == opt_or(self.skip_lib_check, common.skip_lib_check),
            r.skip_default_lib_check == opt_or(
                self.skip_default_lib_check,
                common.skip_default_lib_check,
            ),
            r.es_module_interop == opt_or(self.es_module_interop, common.es_module_interop),
            r.no_implicit_any == opt_or(self.no_implicit_any, common.no_implicit_any),
            r.resolve_json_module == opt_or(self.resolve_json_module, common.resolve_json_module),
            r.base_url == opt_or(self.base_url, common.base_url),
            r.out_dir == opt_or(self.out_dir, common.out_dir),
    {
        TsconfigCompilerOptions {
            root_dir: or_opt_string(self.root_dir, &common.root_dir),
            source_map: or_opt_bool(self.source_map, &common.source_map),
            declaration: or_opt_bool(self.declaration, &common.declaration),
            module_resolution: or_opt_string(self.module_resolution, &common.module_resolution),
            emit_decorator_metadata: or_opt_bool(
                self.emit_decorator_metadata,
                &common.emit_decorator_metadata,
            ),
            experimental_decorators: or_opt_bool(
                self.experimental_decorators,
                &common.experimental_decorators,
            ),
            import_helpers: or_opt_bool(self.import_helpers, &common.import_helpers),
            target: or_opt_string(self.target, &common.target),
            module: or_opt_string(self.module, &common.module),
            lib: crate::helpers::concat_strings(&common.lib, &self.lib),
            jsx: or_opt_string(self.jsx, &common.jsx),
            skip_lib_check: or_opt_bool(self.skip_lib_check, &common.skip_lib_check),
            skip_default_lib_check: or_opt_bool(
                self.skip_default_lib_check,
                &common.skip_default_lib_check,
            ),
            es_module_interop: or_opt_bool(self.es_module_interop, &common.es_module_interop),
            no_implicit_any: or_opt_bool(self.no_implicit_any, &common.no_implicit_any),
            resolve_json_module: or_opt_bool(
                self.resolve_json_module,
                &common.resolve_json_module,
            ),
            base_url: or_opt_string(self.base_url, &common.base_url),
            out_dir: or_opt_string(self.out_dir, &common.out_dir),
            paths: union_fields(&common.paths, &self.paths),
            exclude: crate::helpers::concat_strings(&common.exclude, &self.exclude),
        }
    }
}

/// The generated compiler configuration.
pub struct Tsconfig {
    pub compile_on_save: Option<bool>,
    pub compiler_options: TsconfigCompilerOptions,
}

impl Tsconfig {
    /// Merge this configuration over the common base, field family by
    /// field family.
    pub fn merge(self, common: &Tsconfig) -> (r: Tsconfig)
        ensures
            r.compile_on_save == opt_or(self.compile_on_save, common.compile_on_save),
            r.compiler_options.lib@ == common.compiler_options.lib@ + self.compiler_options.lib@,
            r.compiler_options.exclude@ == common.compiler_options.exclude@
                + self.compiler_options.exclude@,
            fviews(r.compiler_options.paths@) == funion(
                fviews(common.compiler_options.paths@),
                fviews(self.compiler_options.paths@),
            ),
            r.compiler_options.jsx == opt_or(
                self.compiler_options.jsx,
                common.compiler_options.jsx,
            ),
            r.compiler_options.target == opt_or(
                self.compiler_options.target,
                common.compiler_options.target,
            ),
    {
        Tsconfig {
            compile_on_save: or_opt_bool(self.compile_on_save, &common.compile_on_save),
            compiler_options: self.compiler_options.merge(&common.compiler_options),
        }
    }
}

/// The generated lint configuration.
pub struct Eslintrc {
    pub extends: Option<Vec<String>>,
    pub rules: Option<Vec<(String, Json)>>,
    pub ignore_patterns: Option<Vec<String>>,
    pub env: Option<Vec<(String, Json)>>,
    pub parser_options: Option<Vec<(String, Json)>>,
    pub settings: Option<Vec<(String, Json)>>,
    pub plugins: Option<Vec<String>>,
}

impl Eslintrc {
    /// Merge this (framework) lint configuration over the common base:
    /// the list fields concatenate base first, the map fields union
    /// with this record's entries overriding.
    pub fn merge(self, common: &Eslintrc) -> (r: Eslintrc)
        ensures
            opt_strs_view(r.extends) == concat_opt(
                opt_strs_view(common.extends),
                opt_strs_view(self.extends),
            ),
            opt_fields_view(r.rules) == union_opt(
                opt_fields_view(common.rules),
                opt_fields_view(self.rules),
            ),
            opt_strs_view(r.ignore_patterns) == concat_opt(
                opt_strs_view(common.ignore_patterns),
                opt_strs_view(self.ignore_patterns),
            ),
            opt_fields_view(r.env) == union_opt(
                opt_fields_view(common.env),
                opt_fields_view(self.env),
            ),
            opt_fields_view(r.parser_options) == union_opt(
                opt_fields_view(common.parser_options),
                opt_fields_view(self.parser_options),
            ),
            opt_fields_view(r.settings) == union_opt(
                opt_fields_view(common.settings),
                opt_fields_view(self.settings),
            ),
            opt_strs_view(r.plugins) == concat_opt(
                opt_strs_view(common.plugins),
                opt_strs_view(self.plugins),
            ),
    {
        Eslintrc {
            extends: merge_opt_vectors(&common.extends, self.extends),
            rules: merge_opt_hashmaps(&common.rules, self.rules),
            ignore_patterns: merge_opt_vectors(&common.ignore_patterns, self.ignore_patterns),
            env: merge_opt_hashmaps(&common.env, self.env),
            parser_options: merge_opt_hashmaps(&common.parser_options, self.parser_options),
            settings: merge_opt_hashmaps(&common.settings, self.settings),
            plugins: merge_opt_vectors(&common.plugins, self.plugins),
        }
    }
}

/// Map-union override: when both layers set a lint rule, the merged
/// configuration carries the child's setting; a rule set only in the
/// base is preserved.
pub proof fn lemma_lint_rule_override(
    base: Seq<(Seq<char>, JVal)>,
    child: Seq<(Seq<char>, JVal)>,
    key: Seq<char>,
)
    requires
        fsorted(base),
        fsorted(child),
    ensures
        flookup(child, key) is Some ==> flookup(funion(base, child), key) == flookup(child, key),
        flookup(child, key) is None ==> flookup(funion(base, child), key) == flookup(base, key),
{
    lemma_flookup_funion(base, child, key);
}

} // verus!
