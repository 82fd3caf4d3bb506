//! The template registry: a closed set of framework tags, the template
//! bundle each produces, and the composition of a chosen framework's
//! bundle over the common one.
use crate::json::{
    JVal, Json, flookup, fset, fsorted, jlookup, jmerge, fmerge, jobj_set, lemma_flookup_fmerge,
    lemma_flookup_fset, lemma_fset_sorted, merged,
};
use crate::project_config::ProjectConfig;
use crate::types::{Content, User};
use vstd::prelude::*;

pub mod common;
pub mod react;
pub mod styles;
pub mod vue;

verus! {

/// The supported front-end frameworks; a closed, compiled-in set.
#[derive(Copy, Clone, Debug, PartialEq, Eq, Structural)]
pub enum Framework {
    Vanilla,
    React,
    Vue,
}

/// What a scaffold invocation starts from: the project name, the chosen
/// framework, and the user identity.
pub struct ProjectProps {
    pub name: String,
    pub framework: Framework,
    pub user: User,
}

/// One template bundle: everything a materialized project is made of.
pub struct Template {
    pub scripts: Json,
    pub dependencies: Json,
    pub dev_dependencies: Json,
    pub project_config: ProjectConfig,
    pub tsconfig: Json,
    pub eslintrc: Json,
    pub readme: String,
    pub mit_license: String,
    pub gitignore: String,
    pub postcss_config: String,
    pub index_d: String,
    pub index: String,
    pub app: Vec<(String, Content)>,
}

impl Template {
    /// This (framework) bundle merged over the common one: the
    /// configuration trees deep-merge child-over-base, the documents and
    /// the project configuration flow through from the base, and the app
    /// file map is replaced whole by this bundle's.
    pub fn merge(self, common: &Template) -> (r: Template)
        ensures
            r.scripts@ == jmerge(common.scripts@, self.scripts@),
            r.dependencies@ == jmerge(common.dependencies@, self.dependencies@),
            r.dev_dependencies@ == jmerge(common.dev_dependencies@, self.dev_dependencies@),
            r.tsconfig@ == jmerge(common.tsconfig@, self.tsconfig@),
            r.eslintrc@ == jmerge(common.eslintrc@, self.eslintrc@),
            r.project_config@ == common.project_config@,
            r.readme@ == common.readme@,
            r.mit_license@ == common.mit_license@,
            r.gitignore@ == common.gitignore@,
            r.postcss_config@ == common.postcss_config@,
            r.index_d@ == common.index_d@,
            r.index@ == common.index@,
            r.app == self.app,
    {
        Template {
            scripts: merged(&common.scripts, &self.scripts),
            dependencies: merged(&common.dependencies, &self.dependencies),
            dev_dependencies: merged(&common.dev_dependencies, &self.dev_dependencies),
            project_config: common.project_config.duplicate(),
            tsconfig: merged(&common.tsconfig, &self.tsconfig),
            eslintrc: merged(&common.eslintrc, &self.eslintrc),
            readme: common.readme.clone(),
            mit_license: common.mit_license.clone(),
            gitignore: common.gitignore.clone(),
            postcss_config: common.postcss_config.clone(),
            index_d: common.index_d.clone(),
            index: common.index.clone(),
            app: self.app,
        }
    }
}

/// The registry: one bundle producer per framework tag plus the common
/// one.
pub struct Templates {
    pub common: Template,
    pub react: Template,
    pub vue: Template,
}

impl Templates {
    /// The bundle for a framework: the framework's own bundle merged
    /// over the common one; the common bundle itself when no framework
    /// is chosen.
    pub fn get(self, framework: &Framework) -> (r: Template)
        ensures
            match framework {
                Framework::Vanilla => r == self.common,
                Framework::React => r.dependencies@ == jmerge(
                    self.common.dependencies@,
                    self.react.dependencies@,
                ) && r.dev_dependencies@ == jmerge(
                    self.common.dev_dependencies@,
                    self.react.dev_dependencies@,
                ) && r.scripts@ == jmerge(self.common.scripts@, self.react.scripts@)
                    && r.tsconfig@ == jmerge(self.common.tsconfig@, self.react.tsconfig@)
                    && r.eslintrc@ == jmerge(self.common.eslintrc@, self.react.eslintrc@)
                    && r.project_config@ == self.common.project_config@ && r.readme@
                    == self.common.readme@ && r.index@ == self.common.index@ && r.app
                    == self.react.app,
                Framework::Vue => r.dependencies@ == jmerge(
                    self.common.dependencies@,
                    self.vue.dependencies@,
                ) && r.dev_dependencies@ == jmerge(
                    self.common.dev_dependencies@,
                    self.vue.dev_dependencies@,
                ) && r.scripts@ == jmerge(self.common.scripts@, self.vue.scripts@) && r.tsconfig@
                    == jmerge(self.common.tsconfig@, self.vue.tsconfig@) && r.eslintrc@ == jmerge(
                    self.common.eslintrc@,
                    self.vue.eslintrc@,
                ) && r.project_config@ == self.common.project_config@ && r.readme@
                    == self.common.readme@ && r.index@ == self.common.index@ && r.app
                    == self.vue.app,
            },
    {
        match framework {
            Framework::Vanilla => self.common,
            Framework::React => self.react.merge(&self.common),
            Framework::Vue => self.vue.merge(&self.common),
        }
    }
}

impl ProjectProps {
    /// The fully composed bundle for these project properties: the
    /// chosen framework's template merged over the common one.
    pub fn get_template(self) -> (r: Template)
        ensures
            match self.framework {
                Framework::Vanilla => r.dependencies@ == common::dependencies_v() && r.scripts@
                    == common::scripts_v() && r.dev_dependencies@ == common::dev_dependencies_v()
                    && r.tsconfig@ == common::tsconfig_v() && r.eslintrc@ == common::eslintrc_v()
                    && r.app@.len() == 0,
                Framework::React => r.dependencies@ == jmerge(
                    common::dependencies_v(),
                    react::dependencies_v(),
                ) && r.dev_dependencies@ == jmerge(
                    common::dev_dependencies_v(),
                    react::dev_dependencies_v(),
                ) && r.scripts@ == common::scripts_v() && r.tsconfig@ == jmerge(
                    common::tsconfig_v(),
                    react::tsconfig_v(),
                ) && r.eslintrc@ == jmerge(common::eslintrc_v(), react::eslintrc_v()) && r.app@.len()
                    == 14,
                Framework::Vue => r.dependencies@ == jmerge(
                    common::dependencies_v(),
                    vue::dependencies_v(),
                ) && r.dev_dependencies@ == jmerge(
                    common::dev_dependencies_v(),
                    vue::dev_dependencies_v(),
                ) && r.scripts@ == common::scripts_v() && r.tsconfig@ == common::tsconfig_v()
                    && r.eslintrc@ == jmerge(common::eslintrc_v(), vue::eslintrc_v()) && r.app@.len()
                    == 14,
            },
            r.project_config@ == common::project_config_v(),
            r.readme@ == common::readme_chars(self.name@, self.user.name@),
            r.index@ == common::index_chars(self.name@),
    {
        let framework = self.framework;
        let r = Templates {
            common: common::get(&self),
            react: react::get(&self),
            vue: vue::get(&self),
        }.get(&framework);
        proof {
            if framework is Vanilla {
            } else if framework is React {
                assert(jmerge(common::scripts_v(), JVal::Null) == common::scripts_v());
            } else {
                assert(jmerge(common::scripts_v(), JVal::Null) == common::scripts_v());
                assert(jmerge(common::tsconfig_v(), JVal::Null) == common::tsconfig_v());
            }
        }
        r
    }
}

proof fn lemma_get_set(o: JVal, k: Seq<char>, x: JVal, k2: Seq<char>)
    requires
        o is Obj,
    ensures
        jobj_set(o, k, x) is Obj,
        jlookup(jobj_set(o, k, x), k2) == if k2 == k {
            Some(x)
        } else {
            jlookup(o, k2)
        },
{
    lemma_flookup_fset(o.arrow_Obj_0(), k, x, k2);
}

proof fn lemma_set_sorted(o: JVal, k: Seq<char>, x: JVal)
    requires
        o is Obj,
        fsorted(o.arrow_Obj_0()),
    ensures
        fsorted(jobj_set(o, k, x).arrow_Obj_0()),
{
    lemma_fset_sorted(o.arrow_Obj_0(), k, x);
}

/// Framework selection is closed: the common dependencies carry no
/// framework package; a framework's merged dependencies carry its own
/// packages and every common one, and never the other framework's.
pub proof fn lemma_framework_selection_closure()
    ensures
        jlookup(common::dependencies_v(), "react"@) is None,
        jlookup(common::dependencies_v(), "vue"@) is None,
        jlookup(jmerge(common::dependencies_v(), react::dependencies_v()), "react"@) is Some,
        jlookup(jmerge(common::dependencies_v(), react::dependencies_v()), "vue"@) is None,
        jlookup(jmerge(common::dependencies_v(), react::dependencies_v()), "lyrn"@) == jlookup(
            common::dependencies_v(),
            "lyrn"@,
        ),
        jlookup(common::dependencies_v(), "lyrn"@) is Some,
        jlookup(jmerge(common::dependencies_v(), vue::dependencies_v()), "vue"@) is Some,
        jlookup(jmerge(common::dependencies_v(), vue::dependencies_v()), "react"@) is None,
        jlookup(jmerge(common::dependencies_v(), vue::dependencies_v()), "lyrn"@) == jlookup(
            common::dependencies_v(),
            "lyrn"@,
        ),
        forall|k: Seq<char>|
            jlookup(react::dependencies_v(), k) is None ==> jlookup(
                jmerge(common::dependencies_v(), react::dependencies_v()),
                k,
            ) == jlookup(common::dependencies_v(), k),
        forall|k: Seq<char>|
            jlookup(vue::dependencies_v(), k) is None ==> jlookup(
                jmerge(common::dependencies_v(), vue::dependencies_v()),
                k,
            ) == jlookup(common::dependencies_v(), k),
{
    reveal_strlit("lyrn");
    reveal_strlit("react");
    reveal_strlit("react-dom");
    reveal_strlit("react-router-dom");
    reveal_strlit("styled-components");
    reveal_strlit("vue");
    reveal_strlit("vue-router");
    let e = JVal::Obj(Seq::empty());
    let cd = common::dependencies_v();
    let rd = react::dependencies_v();
    let vd = vue::dependencies_v();
    assert(fsorted(Seq::<(Seq<char>, JVal)>::empty()));
    assert(flookup(Seq::<(Seq<char>, JVal)>::empty(), "lyrn"@) is None);
    assert(flookup(Seq::<(Seq<char>, JVal)>::empty(), "react"@) is None);
    assert(flookup(Seq::<(Seq<char>, JVal)>::empty(), "vue"@) is None);
    assert forall|k: Seq<char>| flookup(Seq::<(Seq<char>, JVal)>::empty(), k) is None by {}
    // The common table holds exactly `lyrn`.
    lemma_get_set(e, "lyrn"@, JVal::Str("^1.0.0"@), "lyrn"@);
    lemma_get_set(e, "lyrn"@, JVal::Str("^1.0.0"@), "react"@);
    lemma_get_set(e, "lyrn"@, JVal::Str("^1.0.0"@), "vue"@);
    lemma_set_sorted(e, "lyrn"@, JVal::Str("^1.0.0"@));
    // The React table: its four packages, nothing else.
    let r1 = jobj_set(e, "react"@, JVal::Str("^18.2.0"@));
    let r2 = jobj_set(r1, "react-dom"@, JVal::Str("^18.2.0"@));
    let r3 = jobj_set(r2, "react-router-dom"@, JVal::Str("^6.13.0"@));
    let r4 = jobj_set(r3, "styled-components"@, JVal::Str("^6.0.7"@));
    assert(rd == r4);
    lemma_set_sorted(e, "react"@, JVal::Str("^18.2.0"@));
    lemma_set_sorted(r1, "react-dom"@, JVal::Str("^18.2.0"@));
    lemma_set_sorted(r2, "react-router-dom"@, JVal::Str("^6.13.0"@));
    lemma_set_sorted(r3, "styled-components"@, JVal::Str("^6.0.7"@));
    assert forall|k: Seq<char>| #![auto] true implies jlookup(r4, k) == (if k == "react"@ {
        Some(JVal::Str("^18.2.0"@))
    } else if k == "react-dom"@ {
        Some(JVal::Str("^18.2.0"@))
    } else if k == "react-router-dom"@ {
        Some(JVal::Str("^6.13.0"@))
    } else if k == "styled-components"@ {
        Some(JVal::Str("^6.0.7"@))
    } else {
        None
    }) by {
        lemma_get_set(e, "react"@, JVal::Str("^18.2.0"@), k);
        lemma_get_set(r1, "react-dom"@, JVal::Str("^18.2.0"@), k);
        lemma_get_set(r2, "react-router-dom"@, JVal::Str("^6.13.0"@), k);
        lemma_get_set(r3, "styled-components"@, JVal::Str("^6.0.7"@), k);
        assert(flookup(Seq::<(Seq<char>, JVal)>::empty(), k) is None);
    }
    // The Vue table: its two packages, nothing else.
    let v1 = jobj_set(e, "vue"@, JVal::Str("^3.3.4"@));
    let v2 = jobj_set(v1, "vue-router"@, JVal::Str("^4.2.4"@));
    assert(vd == v2);
    lemma_set_sorted(e, "vue"@, JVal::Str("^3.3.4"@));
    lemma_set_sorted(v1, "vue-router"@, JVal::Str("^4.2.4"@));
    assert forall|k: Seq<char>| #![auto] true implies jlookup(v2, k) == (if k == "vue"@ {
        Some(JVal::Str("^3.3.4"@))
    } else if k == "vue-router"@ {
        Some(JVal::Str("^4.2.4"@))
    } else {
        None
    }) by {
        lemma_get_set(e, "vue"@, JVal::Str("^3.3.4"@), k);
        lemma_get_set(v1, "vue-router"@, JVal::Str("^4.2.4"@), k);
        assert(flookup(Seq::<(Seq<char>, JVal)>::empty(), k) is None);
    }
    // Merged lookups through the deep-merge law.
    assert(cd is Obj && rd is Obj && vd is Obj);
    lemma_flookup_fmerge(cd.arrow_Obj_0(), rd.arrow_Obj_0(), "react"@);
    lemma_flookup_fmerge(cd.arrow_Obj_0(), rd.arrow_Obj_0(), "vue"@);
    lemma_flookup_fmerge(cd.arrow_Obj_0(), rd.arrow_Obj_0(), "lyrn"@);
    lemma_flookup_fmerge(cd.arrow_Obj_0(), vd.arrow_Obj_0(), "vue"@);
    lemma_flookup_fmerge(cd.arrow_Obj_0(), vd.arrow_Obj_0(), "react"@);
    lemma_flookup_fmerge(cd.arrow_Obj_0(), vd.arrow_Obj_0(), "lyrn"@);
    assert forall|k: Seq<char>|
        jlookup(rd, k) is None implies jlookup(jmerge(cd, rd), k) == jlookup(cd, k) by {
        lemma_flookup_fmerge(cd.arrow_Obj_0(), rd.arrow_Obj_0(), k);
    }
    assert forall|k: Seq<char>|
        jlookup(vd, k) is None implies jlookup(jmerge(cd, vd), k) == jlookup(cd, k) by {
        lemma_flookup_fmerge(cd.arrow_Obj_0(), vd.arrow_Obj_0(), k);
    }
}

} // verus!
