//! The project materializer's pure side: the manifest value, the full
//! file plan of a new project, and the decision that refuses to
//! materialize over an existing directory. Writing the plan to disk is
//! the caller's job.
use crate::json::{JVal, Json, json_clone};
use crate::templates::{ProjectProps, Template};
use crate::text::strs_view;
use crate::types::{Content, Package};
use vstd::prelude::*;
use vstd::string::*;

verus! {

/// The scaffold request: a project name, a framework, an optional
/// external tool, and whether to only show the computed bundle.
pub struct CreateProjectArgs {
    pub name: String,
    pub framework: crate::templates::Framework,
    pub tool: Option<String>,
    pub show: bool,
}

/// Why a project cannot be materialized.
pub enum CreateError {
    /// The project name is empty.
    EmptyName,
    /// A directory with the project's name already exists.
    DirExists,
}

/// The generated manifest: fixed version, entry point, keyword and
/// license, the caller's name, and the template's scripts and
/// dependency tables.
pub fn package(project_props: &ProjectProps, template: &Template) -> (r: Package)
    ensures
        r.name@ == project_props.name@,
        r.version@ == "0.0.1"@,
        r.description@ == ""@,
        r.main@ == "src/main.ts"@,
        r.scripts@ == template.scripts@,
        strs_view(r.keywords@) == seq!["app"@],
        r.author@ == project_props.user.name@,
        r.license@ == "MIT"@,
        r.dependencies@ == template.dependencies@,
        r.dev_dependencies@ == template.dev_dependencies@,
{
    let mut keywords: Vec<String> = Vec::new();
    keywords.push("app".to_owned());
    let r = Package {
        name: project_props.name.clone(),
        version: "0.0.1".to_owned(),
        description: "".to_owned(),
        main: "src/main.ts".to_owned(),
        scripts: json_clone(&template.scripts),
        keywords,
        author: project_props.user.name.clone(),
        license: "MIT".to_owned(),
        dependencies: json_clone(&template.dependencies),
        dev_dependencies: json_clone(&template.dev_dependencies),
    };
    proof {
        assert(strs_view(r.keywords@) =~= seq!["app"@]);
    }
    r
}

/// The complete file plan of a project: the fixed top-level documents,
/// then the framework's app file map.
pub fn project_files(project_props: &ProjectProps, template: Template) -> (r: Vec<
    (String, Content),
>)
    ensures
        r@.len() == 10 + template.app@.len(),
        r@[0].0@ == crate::project_config::PROJECT_CONFIG@,
        r@[1].0@ == "package.json"@,
        r@[2].0@ == "tsconfig.json"@,
        r@[3].0@ == ".eslintrc.json"@,
        r@[4].0@ == "README.md"@,
        r@[5].0@ == "LICENSE"@,
        r@[6].0@ == ".gitignore"@,
        r@[7].0@ == "postcss.config.js"@,
        r@[8].0@ == "src/index.d.ts"@,
        r@[9].0@ == "src/index.html"@,
        (r@[0].1 matches Content::Val(v) && v@ == crate::project_config::sparse_cfg(
            template.project_config@,
        )),
        (r@[1].1 matches Content::Pkg(p) && p.scripts@ == template.scripts@ && p.dependencies@
            == template.dependencies@ && p.dev_dependencies@ == template.dev_dependencies@
            && p.name@ == project_props.name@),
        (r@[2].1 matches Content::Val(v) && v@ == template.tsconfig@),
        (r@[3].1 matches Content::Val(v) && v@ == template.eslintrc@),
        (r@[4].1 matches Content::Str(s) && s@ == template.readme@),
        (r@[5].1 matches Content::Str(s) && s@ == template.mit_license@),
        (r@[6].1 matches Content::Str(s) && s@ == template.gitignore@),
        (r@[7].1 matches Content::Str(s) && s@ == template.postcss_config@),
        (r@[8].1 matches Content::Str(s) && s@ == template.index_d@),
        (r@[9].1 matches Content::Str(s) && s@ == template.index@),
        forall|t: int|
            0 <= t < template.app@.len() ==> r@[10 + t] == template.app@[t],
{
    let pkg = package(project_props, &template);
    let mut r: Vec<(String, Content)> = Vec::new();
    r.push(
        (
            crate::project_config::PROJECT_CONFIG.to_owned(),
            Content::Val(template.project_config.to_sparse_json()),
        ),
    );
    r.push(("package.json".to_owned(), Content::Pkg(pkg)));
    r.push(("tsconfig.json".to_owned(), Content::Val(template.tsconfig)));
    r.push((".eslintrc.json".to_owned(), Content::Val(template.eslintrc)));
    r.push(("README.md".to_owned(), Content::Str(template.readme)));
    r.push(("LICENSE".to_owned(), Content::Str(template.mit_license)));
    r.push((".gitignore".to_owned(), Content::Str(template.gitignore)));
    r.push(("postcss.config.js".to_owned(), Content::Str(template.postcss_config)));
    r.push(("src/index.d.ts".to_owned(), Content::Str(template.index_d)));
    r.push(("src/index.html".to_owned(), Content::Str(template.index)));
    let mut app = template.app;
    r.append(&mut app);
    r
}

/// The materializer's decision: an empty project name and an existing
/// target directory are refused, anything else yields the file plan.
pub fn plan_project(project_props: &ProjectProps, template: Template, dir_exists: bool) -> (r:
    Result<Vec<(String, Content)>, CreateError>)
    ensures
        project_props.name@.len() == 0 ==> r matches Err(CreateError::EmptyName),
        project_props.name@.len() > 0 && dir_exists ==> r matches Err(CreateError::DirExists),
        project_props.name@.len() > 0 && !dir_exists ==> r is Ok,
        (r matches Ok(files) ==> files@.len() == 10 + template.app@.len()),
{
    if project_props.name.as_str().is_empty() {
        Err(CreateError::EmptyName)
    } else if dir_exists {
        Err(CreateError::DirExists)
    } else {
        Ok(project_files(project_props, template))
    }
}

/// The last path separator of a relative path, if any.
pub open spec fn last_slash(s: Seq<char>) -> Option<int>
    decreases s.len(),
{
    if s.len() == 0 {
        None
    } else if s[s.len() - 1] == '/' {
        Some(s.len() - 1)
    } else {
        last_slash(s.drop_last())
    }
}

/// Where one planned file lands: the directory path (the project name,
/// then the entry's own directories) and the bare file name.
pub open spec fn dir_of(name: Seq<char>, key: Seq<char>) -> Seq<char> {
    match last_slash(key) {
        Some(i) => name + seq!['/'] + key.take(i),
        None => name,
    }
}

pub open spec fn file_of(key: Seq<char>) -> Seq<char> {
    match last_slash(key) {
        Some(i) => key.skip(i + 1),
        None => key,
    }
}

/// Split one planned path into the directory to create (under the
/// project directory) and the file name to write there.
pub fn file_path_parts(name: &str, key: &str) -> (r: (String, String))
    ensures
        r.0@ == dir_of(name@, key@),
        r.1@ == file_of(key@),
{
    let n = key.unicode_len();
    let mut i: usize = n;
    loop
        invariant
            0 <= i <= n,
            n == key@.len(),
            forall|t: int| i <= t < n ==> key@[t] != '/',
        ensures
            n == key@.len(),
            0 <= i <= n,
            forall|t: int| i <= t < n ==> key@[t] != '/',
            i > 0 ==> key@[i - 1] == '/',
        decreases i,
    {
        if i == 0 {
            break ;
        }
        if key.get_char(i - 1) == '/' {
            break ;
        }
        i = i - 1;
    }
    proof {
        lemma_last_slash_at(key@, i as int);
    }
    if i == 0 {
        (name.to_owned(), key.to_owned())
    } else {
        let mut dir = name.to_owned();
        crate::text::push_char(&mut dir, '/');
        dir.append(key.substring_char(0, i - 1));
        let file = key.substring_char(i, n);
        proof {
            assert(dir@ =~= name@ + seq!['/'] + key@.take(i - 1));
            assert(file@ =~= key@.skip(i as int));
        }
        (dir, file.to_owned())
    }
}

/// The scan that stopped at `i` found the last separator (at `i - 1`),
/// or none at all.
proof fn lemma_last_slash_at(key: Seq<char>, i: int)
    requires
        0 <= i <= key.len(),
        forall|t: int| i <= t < key.len() ==> key[t] != '/',
        i > 0 ==> key[i - 1] == '/',
    ensures
        i == 0 ==> last_slash(key) is None,
        i > 0 ==> last_slash(key) == Some(i - 1),
    decreases key.len(),
{
    if key.len() == 0 {
    } else if key[key.len() - 1] == '/' {
        assert(i == key.len());
    } else {
        assert(i < key.len() || i == key.len());
        if i == key.len() {
        } else {
            assert forall|t: int| i <= t < key.drop_last().len() implies key.drop_last()[t]
                != '/' by {
                assert(key.drop_last()[t] == key[t]);
            }
            lemma_last_slash_at(key.drop_last(), i);
        }
    }
}

} // verus!
