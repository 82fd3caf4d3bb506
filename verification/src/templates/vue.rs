//! Template content specific to the Vue framework: its dependency and
//! configuration fragments and its app source stubs.
use crate::json::{JVal, Json, jobj_set};
use crate::templates::{ProjectProps, Template};
use crate::text::lower_of;
use crate::types::Content;
use vstd::prelude::*;
use vstd::string::*;

verus! {

pub open spec fn dependencies_v() -> JVal {
    jobj_set(jobj_set(JVal::Obj(Seq::empty()), "vue"@, JVal::Str("^3.3.4"@)), "vue-router"@, JVal::Str("^4.2.4"@))
}

/// The runtime dependencies the Vue template adds.
pub fn dependencies() -> (r: Json)
    ensures
        r@ == dependencies_v(),
{
    let v1 = Json::obj().set("vue", Json::string("^3.3.4")).set("vue-router", Json::string("^4.2.4"));
    proof {
        assert(v1@ == dependencies_v());
    }
    v1
}

pub open spec fn dev_dependencies_v() -> JVal {
    jobj_set(jobj_set(jobj_set(JVal::Obj(Seq::empty()), "@vue/eslint-config-typescript"@, JVal::Str("^11.0.3"@)), "eslint-plugin-vue"@, JVal::Str("^9.14.1"@)), "vue-loader"@, JVal::Str("^17.1.1"@))
}

/// The development dependencies the Vue template adds.
pub fn dev_dependencies() -> (r: Json)
    ensures
        r@ == dev_dependencies_v(),
{
    let v1 = Json::obj().set("@vue/eslint-config-typescript", Json::string("^11.0.3")).set("eslint-plugin-vue", Json::string("^9.14.1")).set("vue-loader", Json::string("^17.1.1"));
    proof {
        assert(v1@ == dev_dependencies_v());
    }
    v1
}

pub open spec fn eslintrc_v() -> JVal {
    jobj_set(jobj_set(jobj_set(JVal::Obj(Seq::empty()), "extends"@, JVal::Arr(seq![JVal::Str("plugin:vue/recommended"@), JVal::Str("@vue/eslint-config-typescript"@)])), "rules"@, jobj_set(jobj_set(jobj_set(jobj_set(jobj_set(jobj_set(jobj_set(jobj_set(jobj_set(jobj_set(JVal::Obj(Seq::empty()), "vue/attribute-hyphenation"@, JVal::Str("off"@)), "vue/component-definition-name-casing"@, JVal::Arr(seq![JVal::Str("warn"@), JVal::Str("kebab-case"@)])), "vue/comment-directive"@, JVal::Str("off"@)), "vue/html-indent"@, JVal::Arr(seq![JVal::Str("warn"@), JVal::Int(2), jobj_set(JVal::Obj(Seq::empty()), "alignAttributesVertically"@, JVal::Bool(false))])), "vue/html-self-closing"@, JVal::Str("off"@)), "vue/max-attributes-per-line"@, JVal::Arr(seq![JVal::Str("warn"@), jobj_set(jobj_set(JVal::Obj(Seq::empty()), "singleline"@, JVal::Int(10)), "multiline"@, JVal::Int(10))])), "vue/multi-word-component-names"@, JVal::Str("off"@)), "vue/mustache-interpolation-spacing"@, JVal::Arr(seq![JVal::Str("warn"@), JVal::Str("never"@)])), "vue/singleline-html-element-content-newline"@, JVal::Str("off"@)), "vue/v-slot-style"@, JVal::Str("off"@))), "settings"@, jobj_set(JVal::Obj(Seq::empty()), "import/resolver"@, jobj_set(JVal::Obj(Seq::empty()), "node"@, jobj_set(JVal::Obj(Seq::empty()), "extensions"@, JVal::Arr(seq![JVal::Str(".vue"@)])))))
}

/// The lint-configuration fragment the Vue template adds.
pub fn eslintrc() -> (r: Json)
    ensures
        r@ == eslintrc_v(),
{
    let mut v1: Vec<Json> = Vec::new();
    v1.push(Json::string("plugin:vue/recommended"));
    v1.push(Json::string("@vue/eslint-config-typescript"));
    let v2 = Json::arr(v1);
    proof {
        assert(v1@[0]@ == JVal::Str("plugin:vue/recommended"@));
        assert(v1@[1]@ == JVal::Str("@vue/eslint-config-typescript"@));
        assert(crate::json::jviews(v1@) =~= seq![JVal::Str("plugin:vue/recommended"@), JVal::Str("@vue/eslint-config-typescript"@)]);
        assert(v2@ =~~= JVal::Arr(seq![JVal::Str("plugin:vue/recommended"@), JVal::Str("@vue/eslint-config-typescript"@)]));
    }
    let mut v3: Vec<Json> = Vec::new();
    v3.push(Json::string("warn"));
    v3.push(Json::string("kebab-case"));
    let v4 = Json::arr(v3);
    proof {
        assert(v3@[0]@ == JVal::Str("warn"@));
        assert(v3@[1]@ == JVal::Str("kebab-case"@));
        assert(crate::json::jviews(v3@) =~= seq![JVal::Str("warn"@), JVal::Str("kebab-case"@)]);
        assert(v4@ =~~= JVal::Arr(seq![JVal::Str("warn"@), JVal::Str("kebab-case"@)]));
    }
    let v5 = Json::obj().set("alignAttributesVertically", Json::boolean(false));
    let mut v6: Vec<Json> = Vec::new();
    v6.push(Json::string("warn"));
    v6.push(Json::integer(2));
    v6.push(v5);
    let v7 = Json::arr(v6);
    proof {
        assert(v6@[0]@ == JVal::Str("warn"@));
        assert(v6@[1]@ == JVal::Int(2));
        assert(v6@[2]@ == jobj_set(JVal::Obj(Seq::empty()), "alignAttributesVertically"@, JVal::Bool(false)));
        assert(crate::json::jviews(v6@) =~= seq![JVal::Str("warn"@), JVal::Int(2), jobj_set(JVal::Obj(Seq::empty()), "alignAttributesVertically"@, JVal::Bool(false))]);
        assert(v7@ =~~= JVal::Arr(seq![JVal::Str("warn"@), JVal::Int(2), jobj_set(JVal::Obj(Seq::empty()), "alignAttributesVertically"@, JVal::Bool(false))]));
    }
    let v8 = Json::obj().set("singleline", Json::integer(10)).set("multiline", Json::integer(10));
    let mut v9: Vec<Json> = Vec::new();
    v9.push(Json::string("warn"));
    v9.push(v8);
    let v10 = Json::arr(v9);
    proof {
        assert(v9@[0]@ == JVal::Str("warn"@));
        assert(v9@[1]@ == jobj_set(jobj_set(JVal::Obj(Seq::empty()), "singleline"@, JVal::Int(10)), "multiline"@, JVal::Int(10)));
        assert(crate::json::jviews(v9@) =~= seq![JVal::Str("warn"@), jobj_set(jobj_set(JVal::Obj(Seq::empty()), "singleline"@, JVal::Int(10)), "multiline"@, JVal::Int(10))]);
        assert(v10@ =~~= JVal::Arr(seq![JVal::Str("warn"@), jobj_set(jobj_set(JVal::Obj(Seq::empty()), "singleline"@, JVal::Int(10)), "multiline"@, JVal::Int(10))]));
    }
    let mut v11: Vec<Json> = Vec::new();
    v11.push(Json::string("warn"));
    v11.push(Json::string("never"));
    let v12 = Json::arr(v11);
    proof {
        assert(v11@[0]@ == JVal::Str("warn"@));
        assert(v11@[1]@ == JVal::Str("never"@));
        assert(crate::json::jviews(v11@) =~= seq![JVal::Str("warn"@), JVal::Str("never"@)]);
        assert(v12@ =~~= JVal::Arr(seq![JVal::Str("warn"@), JVal::Str("never"@)]));
    }
    let v13 = Json::obj().set("vue/attribute-hyphenation", Json::string("off")).set("vue/component-definition-name-casing", v4).set("vue/comment-directive", Json::string("off")).set("vue/html-indent", v7).set("vue/html-self-closing", Json::string("off")).set("vue/max-attributes-per-line", v10).set("vue/multi-word-component-names", Json::string("off")).set("vue/mustache-interpolation-spacing", v12).set("vue/singleline-html-element-content-newline", Json::string("off")).set("vue/v-slot-style", Json::string("off"));
    let mut v14: Vec<Json> = Vec::new();
    v14.push(Json::string(".vue"));
    let v15 = Json::arr(v14);
    proof {
        assert(v14@[0]@ == JVal::Str(".vue"@));
        assert(crate::json::jviews(v14@) =~= seq![JVal::Str(".vue"@)]);
        assert(v15@ =~~= JVal::Arr(seq![JVal::Str(".vue"@)]));
    }
    let v16 = Json::obj().set("extensions", v15);
    let v17 = Json::obj().set("node", v16);
    let v18 = Json::obj().set("import/resolver", v17);
    let v19 = Json::obj().set("extends", v2).set("rules", v13).set("settings", v18);
    proof {
        assert(v19@ == eslintrc_v());
    }
    v19
}


fn main_entry() -> String {
    r"import { createApp } from 'vue';
import App from '@/components/App.vue';
import routes from '@/routes';
import ui from '@/ui';

createApp(App).use(ui).use(routes).mount('#app');
".to_owned()
}

pub fn routes() -> String {
    r"import { createRouter, createWebHistory } from 'vue-router';

const router = createRouter({
  history: createWebHistory(),
  routes: [
    {
      path: '/',
      name: 'Home',
      component: async () => await import('./components/Home.vue'),
    },
    {
      path: '/about',
      name: 'About',
      component: async () => await import('./components/About.vue'),
    },
    {
      path: '/info',
      name: 'Info',
      component: async () => await import('./components/Info.vue'),
    },
  ],
});

export default router;
".to_owned()
}

/// A plain page component: its name as the heading, its lowercased name
/// as the style class.
pub open spec fn component_page_chars(lc: Seq<char>, name: Seq<char>) -> Seq<char> {
    r#"<template>
  <div class=""#@ + lc + r#"__container">
    <div class=""#@ + lc + r#"__title">
      <h1>"#@ + name + r#"</h1>
    </div>
  </div>
</template>

<style scoped lang="scss">
."#@ + lc + r#" {
  &__container {
    display: grid;
    justify-content: center;
    align-content: center;
    background: var(--gr-lime-blue);
    width: 100%;
    height: 100%;
  }
  &__title {
    display: flex;
    h1 {
      font-size: var(--font-size-h1);
      width: max-content;
      text-transform: uppercase;
      background: var(--teal);
      background: var(--gr-teal-blue);
      -webkit-background-clip: text;
      -webkit-text-fill-color: transparent;
    }
  }
}
</style>
"#@
}

pub fn component_page(name: &str) -> (r: String)
    ensures
        r@ == component_page_chars(lower_of(name@), name@),
{
    let name_lc = crate::text::to_lowercase(name);
    let mut s = String::from_str(r#"<template>
  <div class=""#);
    s.append(name_lc.as_str());
    s.append(r#"__container">
    <div class=""#);
    s.append(name_lc.as_str());
    s.append(r#"__title">
      <h1>"#);
    s.append(name);
    s.append(r#"</h1>
    </div>
  </div>
</template>

<style scoped lang="scss">
."#);
    s.append(name_lc.as_str());
    s.append(r#" {
  &__container {
    display: grid;
    justify-content: center;
    align-content: center;
    background: var(--gr-lime-blue);
    width: 100%;
    height: 100%;
  }
  &__title {
    display: flex;
    h1 {
      font-size: var(--font-size-h1);
      width: max-content;
      text-transform: uppercase;
      background: var(--teal);
      background: var(--gr-teal-blue);
      -webkit-background-clip: text;
      -webkit-text-fill-color: transparent;
    }
  }
}
</style>
"#);
    proof {
        assert(s@ =~= component_page_chars(lower_of(name@), name@));
    }
    s
}

pub fn home_page() -> String {
    r#"<template>
  <div class="home__container">
    <div class="home__title">
      <img :src="require('images/logo.svg')" width="100" />
      <h1>Vue 3 Boilerplate</h1>
    </div>
    <div class="home__counter">
      <button-el size="l" @click="inc">+</button-el>
      <button-el size="l" @click="dec">&minus;</button-el>
      <div class="home__count">{{count}}</div>
    </div>
  </div>
</template>

<script lang="ts">
import { Ref, ref } from 'vue';

export default {
  setup () {
    const count: Ref<number> = ref(0);

    function inc (): void {
      count.value++;
    }
    function dec (): void {
      count.value--;
    }
    return { count, inc, dec };
  },
};
</script>

<style scoped lang="scss">
.home {
  &__container {
    display: grid;
    justify-content: center;
    align-content: center;
    background: var(--gr-azure-pink);
    width: 100%;
    height: 100%;
  }
  &__title {
    display: flex;
    column-gap: 1rem;
    h1 {
      font-size: var(--font-size-h1);
      width: max-content;
      text-transform: uppercase;
      background: var(--teal);
      background: var(--gr-teal-blue);
      -webkit-background-clip: text;
      -webkit-text-fill-color: transparent;
    }
  }
  &__counter {
    display: flex;
    justify-content: center;
    align-items: center;
    gap: 1rem;
  }
  &__count {
    font-size: 2rem;
    font-weight: 700;
    color: var(--white);
  }
}
</style>
"#.to_owned()
}

pub fn container_component() -> String {
    r#"<template>
  <div class="app">
    <navbar-el>
      <router-link to="/">home</router-link>
      <router-link to="/info">info</router-link>
      <router-link to="/about">about</router-link>
    </navbar-el>
    <router-view />
  </div>
</template>

<style lang="scss">
.app {
  width: 100%;
  height: 100%;
}
</style>
"#.to_owned()
}

/// The framework logo with its title.
pub open spec fn logo_chars(name: Seq<char>) -> Seq<char> {
    "<svg version=\"1\u{2e}1\" viewBox=\"0 0 261\u{2e}76 226\u{2e}69\" xmlns=\"http://www.w3.org/2000/svg\">
  <title>"@ + name + "</title>
  <g transform=\"matrix(1\u{2e}3333 0 0 -1\u{2e}3333 -76\u{2e}311 313\u{2e}34)\">
    <g transform=\"translate(178\u{2e}06 235\u{2e}01)\">
      <path d=\"m0 0-22\u{2e}669-39\u{2e}264-22\u{2e}669 39\u{2e}264h-75\u{2e}491l98\u{2e}16-170\u{2e}02 98\u{2e}16 170\u{2e}02z\" fill=\"#41b883\"/>
    </g>
    <g transform=\"translate(178\u{2e}06 235\u{2e}01)\">
      <path d=\"m0 0-22\u{2e}669-39\u{2e}264-22\u{2e}669 39\u{2e}264h-36\u{2e}227l58\u{2e}896-102\u{2e}01 58\u{2e}896 102\u{2e}01z\" fill=\"#34495e\"/>
    </g>
  </g>
</svg>
"@
}

pub fn logo(name: &str) -> (r: String)
    ensures
        r@ == logo_chars(name@),
{
    let mut s = String::from_str("<svg version=\"1\u{2e}1\" viewBox=\"0 0 261\u{2e}76 226\u{2e}69\" xmlns=\"http://www.w3.org/2000/svg\">
  <title>");
    s.append(name);
    s.append("</title>
  <g transform=\"matrix(1\u{2e}3333 0 0 -1\u{2e}3333 -76\u{2e}311 313\u{2e}34)\">
    <g transform=\"translate(178\u{2e}06 235\u{2e}01)\">
      <path d=\"m0 0-22\u{2e}669-39\u{2e}264-22\u{2e}669 39\u{2e}264h-75\u{2e}491l98\u{2e}16-170\u{2e}02 98\u{2e}16 170\u{2e}02z\" fill=\"#41b883\"/>
    </g>
    <g transform=\"translate(178\u{2e}06 235\u{2e}01)\">
      <path d=\"m0 0-22\u{2e}669-39\u{2e}264-22\u{2e}669 39\u{2e}264h-36\u{2e}227l58\u{2e}896-102\u{2e}01 58\u{2e}896 102\u{2e}01z\" fill=\"#34495e\"/>
    </g>
  </g>
</svg>
");
    proof {
        assert(s@ =~= logo_chars(name@));
    }
    s
}

pub fn ui_index() -> String {
    r"import './styles/index.scss';
import Button from './components/Button.vue';
import Navbar from './components/Navbar.vue';

export default {
  install(app: any) {
    app.component('button-el', Button);
    app.component('navbar-el', Navbar);
  },
};
".to_owned()
}

pub fn button() -> String {
    r#"<template>
  <button class="btn">
    <slot></slot>
  </button>
</template>

<style scoped lang="scss">
.btn {
  background-image: linear-gradient(to top, var(--teal) 0%, var(--blue) 51%, var(--teal) 100%);
  padding: .75rem .5rem;
  text-align: center;
  text-transform: none;
  transition: 0.5s;
  background-size: auto 200%;
  color: var(--white);
  border-radius: 0.5rem;
  display: flex;
  border-color: transparent;
  font-weight: 400;
  font-size: 0.8rem;
  cursor: pointer;
  line-height: 0.5rem;
  align-items: center;
  height: min-content;

  &[size=l] {
    text-transform: uppercase;
    font-weight: 700;
    font-size: 1.8rem;
  }

  &:hover {
    background-position: right center;
    /* change the direction of the change here */
    color: var(--white);
    text-decoration: none;
  }
}
</style>  
"#.to_owned()
}

pub fn navbar() -> String {
    r#"<template>
  <div class="navbar__container">
    <div class="navbar__menu">
      <slot></slot>
    </div>
  </div>
</template>

<style lang="scss">
.navbar {
  &__container {
    position: absolute;
    width: 100%;
  }

  &__menu {
    display: flex;
    justify-content: center;
    padding: 1rem;
    gap: 1rem;

    a {
      color: var(--white);
      font-weight: 700;
      text-decoration: none;
      transition: 1s;
      text-transform: uppercase;

      &:hover {
        color: var(--purple);
      }
    }

    input, textarea, select {
      padding: .45rem .5rem;
      border-color: transparent;
      border-radius: 0.5rem;
      font-size: 0.8rem;
      line-height: 0.5rem;
      height: min-content;
      color: var(--black);
    }
  }
}</style>
"#.to_owned()
}

/// The Vue app source tree: entry, routes, pages, logo, and the shared
/// UI components and styles.
pub fn app(_project: &ProjectProps) -> (r: Vec<(String, Content)>)
    ensures
        r@.len() == 14,
{
    let mut content: Vec<(String, Content)> = Vec::new();
    content.push(("src/main.ts".to_owned(), Content::Str(main_entry())));
    content.push(("src/routes.ts".to_owned(), Content::Str(routes())));
    content.push(("src/components/App.vue".to_owned(), Content::Str(container_component())));
    content.push(("src/components/Home.vue".to_owned(), Content::Str(home_page())));
    content.push(("src/components/About.vue".to_owned(), Content::Str(component_page("About"))));
    content.push(("src/components/Info.vue".to_owned(), Content::Str(component_page("Info"))));
    content.push(("src/images/logo.svg".to_owned(), Content::Str(logo("Vue"))));
    content.push(("src/ui/index.ts".to_owned(), Content::Str(ui_index())));
    content.push(("src/ui/components/Button.vue".to_owned(), Content::Str(button())));
    content.push(("src/ui/components/Navbar.vue".to_owned(), Content::Str(navbar())));
    let mut styles = crate::templates::styles::styles();
    content.append(&mut styles);
    content
}

/// The Vue template bundle over the common one.
pub fn get(project: &ProjectProps) -> (r: Template)
    ensures
        r.dependencies@ == dependencies_v(),
        r.dev_dependencies@ == dev_dependencies_v(),
        r.eslintrc@ == eslintrc_v(),
        r.tsconfig@ == JVal::Null,
        r.scripts@ == JVal::Null,
        r.app@.len() == 14,
{
    Template {
        scripts: Json::null(),
        dependencies: dependencies(),
        dev_dependencies: dev_dependencies(),
        project_config: crate::project_config::ProjectConfig::default(),
        tsconfig: Json::null(),
        eslintrc: eslintrc(),
        readme: String::new(),
        mit_license: String::new(),
        gitignore: String::new(),
        postcss_config: String::new(),
        index_d: String::new(),
        index: String::new(),
        app: app(project),
    }
}

} // verus!
