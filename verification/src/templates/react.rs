//! Template content specific to the React framework: its dependency and
//! configuration fragments, its bundler additions, and its app source
//! stubs.
use crate::json::{JVal, Json, jobj_set};
use crate::templates::{ProjectProps, Template};
use crate::text::strs_view;
use crate::types::Content;
use vstd::prelude::*;
use vstd::string::*;

verus! {

pub open spec fn dependencies_v() -> JVal {
    jobj_set(jobj_set(jobj_set(jobj_set(JVal::Obj(Seq::empty()), "react"@, JVal::Str("^18.2.0"@)), "react-dom"@, JVal::Str("^18.2.0"@)), "react-router-dom"@, JVal::Str("^6.13.0"@)), "styled-components"@, JVal::Str("^6.0.7"@))
}

/// The runtime dependencies the React template adds.
pub fn dependencies() -> (r: Json)
    ensures
        r@ == dependencies_v(),
{
    let v1 = Json::obj().set("react", Json::string("^18.2.0")).set("react-dom", Json::string("^18.2.0")).set("react-router-dom", Json::string("^6.13.0")).set("styled-components", Json::string("^6.0.7"));
    proof {
        assert(v1@ == dependencies_v());
    }
    v1
}

pub open spec fn dev_dependencies_v() -> JVal {
    jobj_set(jobj_set(jobj_set(jobj_set(jobj_set(JVal::Obj(Seq::empty()), "@pmmmwh/react-refresh-webpack-plugin"@, JVal::Str("^0.5.10"@)), "@types/react"@, JVal::Str("^18.2.7"@)), "@types/react-dom"@, JVal::Str("^18.2.4"@)), "eslint-plugin-react"@, JVal::Str("^7.32.2"@)), "react-refresh"@, JVal::Str("^0.14.0"@))
}

/// The development dependencies the React template adds.
pub fn dev_dependencies() -> (r: Json)
    ensures
        r@ == dev_dependencies_v(),
{
    let v1 = Json::obj().set("@pmmmwh/react-refresh-webpack-plugin", Json::string("^0.5.10")).set("@types/react", Json::string("^18.2.7")).set("@types/react-dom", Json::string("^18.2.4")).set("eslint-plugin-react", Json::string("^7.32.2")).set("react-refresh", Json::string("^0.14.0"));
    proof {
        assert(v1@ == dev_dependencies_v());
    }
    v1
}

pub open spec fn tsconfig_v() -> JVal {
    jobj_set(JVal::Obj(Seq::empty()), "compilerOptions"@, jobj_set(JVal::Obj(Seq::empty()), "jsx"@, JVal::Str("react"@)))
}

/// The compiler-configuration fragment the React template adds.
pub fn tsconfig() -> (r: Json)
    ensures
        r@ == tsconfig_v(),
{
    let v1 = Json::obj().set("jsx", Json::string("react"));
    let v2 = Json::obj().set("compilerOptions", v1);
    proof {
        assert(v2@ == tsconfig_v());
    }
    v2
}

pub open spec fn eslintrc_v() -> JVal {
    jobj_set(jobj_set(JVal::Obj(Seq::empty()), "extends"@, JVal::Arr(seq![JVal::Str("plugin:react/recommended"@)])), "rules"@, jobj_set(JVal::Obj(Seq::empty()), "react/prop-types"@, JVal::Str("off"@)))
}

/// The lint-configuration fragment the React template adds.
pub fn eslintrc() -> (r: Json)
    ensures
        r@ == eslintrc_v(),
{
    let mut v1: Vec<Json> = Vec::new();
    v1.push(Json::string("plugin:react/recommended"));
    let v2 = Json::arr(v1);
    proof {
        assert(v1@[0]@ == JVal::Str("plugin:react/recommended"@));
        assert(crate::json::jviews(v1@) =~= seq![JVal::Str("plugin:react/recommended"@)]);
        assert(v2@ =~~= JVal::Arr(seq![JVal::Str("plugin:react/recommended"@)]));
    }
    let v3 = Json::obj().set("react/prop-types", Json::string("off"));
    let v4 = Json::obj().set("extends", v2).set("rules", v3);
    proof {
        assert(v4@ == eslintrc_v());
    }
    v4
}


/// The constant binding the React bundler configuration adds.
pub fn react_refresh_webpack_plugin() -> (r: String)
    ensures
        r@ == "new ReactRefreshWebpackPlugin()"@,
{
    "new ReactRefreshWebpackPlugin()".to_owned()
}

/// The module binding line for the React hot-refresh plugin.
pub fn react_refresh_const() -> (r: String)
    ensures
        r@ == "ReactRefreshWebpackPlugin = require('@pmmmwh/react-refresh-webpack-plugin');"@,
{
    "ReactRefreshWebpackPlugin = require('@pmmmwh/react-refresh-webpack-plugin');".to_owned()
}

fn main_entry() -> String {
    r"import('./bootstrap'); 
".to_owned()
}

pub fn bootstrap() -> String {
    r"import React from 'react';
import { createRoot } from 'react-dom/client';
import { BrowserRouter } from 'react-router-dom';
import App from '@/components/App';
import '@/ui';

createRoot(document.getElementById('app')).render(
  <BrowserRouter>
    <App />
  </BrowserRouter>,
);
".to_owned()
}

/// A plain page component around its name.
pub open spec fn component_page_chars(name: Seq<char>) -> Seq<char> {
    r"import React from 'react';
import styled from 'styled-components';

const Container = styled.div`
  display: grid;
  justify-content: center;
  align-content: center;
  background: var(--gr-lime-blue);
  width: 100%;
  height: 100%;
`;

const Title = styled.div`
  display: flex;
  h1 {
    font-size: var(--font-size-h1);
    width: max-content;
    text-transform: uppercase;
    background: var(--teal);
    background: var(--gr-teal-blue);
    -webkit-background-clip: text;
    -webkit-text-fill-color: transparent;
  }
`;

export const "@ + name + r": React.FC = () => (
  <Container>
    <Title>
      <h1>"@ + name + r"</h1>
    </Title>
  </Container>
);

export default "@ + name + r";
"@
}

pub fn component_page(name: &str) -> (r: String)
    ensures
        r@ == component_page_chars(name@),
{
    let mut s = String::from_str(r"import React from 'react';
import styled from 'styled-components';

const Container = styled.div`
  display: grid;
  justify-content: center;
  align-content: center;
  background: var(--gr-lime-blue);
  width: 100%;
  height: 100%;
`;

const Title = styled.div`
  display: flex;
  h1 {
    font-size: var(--font-size-h1);
    width: max-content;
    text-transform: uppercase;
    background: var(--teal);
    background: var(--gr-teal-blue);
    -webkit-background-clip: text;
    -webkit-text-fill-color: transparent;
  }
`;

export const ");
    s.append(name);
    s.append(r": React.FC = () => (
  <Container>
    <Title>
      <h1>");
    s.append(name);
    s.append(r"</h1>
    </Title>
  </Container>
);

export default ");
    s.append(name);
    s.append(r";
");
    proof {
        assert(s@ =~= component_page_chars(name@));
    }
    s
}

/// The home page component around its name.
pub open spec fn home_page_chars(name: Seq<char>) -> Seq<char> {
    r"import React, { useState } from 'react';
import styled from 'styled-components';
import { Button } from '@/ui';
import logo from '@/images/logo.svg';

const Container = styled.div`
  display: grid;
  justify-content: center;
  align-content: center;
  background: var(--gr-azure-pink);
  width: 100%;
  height: 100%;
  .counter {
    display: flex;
    justify-content: center;
    align-items: center;
    gap: 1rem;
  }
  .count {
    font-size: 2rem;
    font-weight: 700;
    color: var(--white);
  }
`;

const Title = styled.div`
  display: flex;
  column-gap: 1rem;
  h1 {
    font-size: var(--font-size-h1);
    width: max-content;
    text-transform: uppercase;
    background: var(--teal);
    background: var(--gr-teal-blue);
    -webkit-background-clip: text;
    -webkit-text-fill-color: transparent;
  }
`;

const "@ + name + r#": React.FC = () => {
  const [count, setCount] = useState(0);

  function inc (): void {
    setCount(count + 1);
  }
  function dec (): void {
    setCount(count - 1);
  }

  return (
    <Container>
      <Title>
        <img src={logo} width="100" />
        <h1>React Boilerplate</h1>
      </Title>
      <div className="counter">
        <Button className="size-l" onClick={inc}>+</Button>
        <Button className="size-l" onClick={dec}>&minus;</Button>
        <div className="count">{count}</div>
      </div>
    </Container>
  );
};

export default "#@ + name + r";
"@
}

pub fn home_page(name: &str) -> (r: String)
    ensures
        r@ == home_page_chars(name@),
{
    let mut s = String::from_str(r"import React, { useState } from 'react';
import styled from 'styled-components';
import { Button } from '@/ui';
import logo from '@/images/logo.svg';

const Container = styled.div`
  display: grid;
  justify-content: center;
  align-content: center;
  background: var(--gr-azure-pink);
  width: 100%;
  height: 100%;
  .counter {
    display: flex;
    justify-content: center;
    align-items: center;
    gap: 1rem;
  }
  .count {
    font-size: 2rem;
    font-weight: 700;
    color: var(--white);
  }
`;

const Title = styled.div`
  display: flex;
  column-gap: 1rem;
  h1 {
    font-size: var(--font-size-h1);
    width: max-content;
    text-transform: uppercase;
    background: var(--teal);
    background: var(--gr-teal-blue);
    -webkit-background-clip: text;
    -webkit-text-fill-color: transparent;
  }
`;

const ");
    s.append(name);
    s.append(r#": React.FC = () => {
  const [count, setCount] = useState(0);

  function inc (): void {
    setCount(count + 1);
  }
  function dec (): void {
    setCount(count - 1);
  }

  return (
    <Container>
      <Title>
        <img src={logo} width="100" />
        <h1>React Boilerplate</h1>
      </Title>
      <div className="counter">
        <Button className="size-l" onClick={inc}>+</Button>
        <Button className="size-l" onClick={dec}>&minus;</Button>
        <div className="count">{count}</div>
      </div>
    </Container>
  );
};

export default "#);
    s.append(name);
    s.append(r";
");
    proof {
        assert(s@ =~= home_page_chars(name@));
    }
    s
}

/// The routed container component around its name.
pub open spec fn container_component_chars(name: Seq<char>) -> Seq<char> {
    r"import React from 'react';
import { Routes, Route, Link } from 'react-router-dom';
import styled from 'styled-components';
import { Navbar } from '@/ui';
import Home from './Home';
import About from './About';
import Info from './Info';

const Container = styled.div`
  width: 100%;
  height: 100%;
`;

const "@ + name + r#": React.FC = () => (
  <Container>
    <Navbar>
      <Link to="/">home</Link>
      <Link to="/info">info</Link>
      <Link to="/about">about</Link>
    </Navbar>
    <Routes>
      <Route index element={<Home />} />
      <Route path="about" element={<About />} />
      <Route path="info" element={<Info />} />
    </Routes>
  </Container>
);

export default "#@ + name + r";
"@
}

pub fn container_component(name: &str) -> (r: String)
    ensures
        r@ == container_component_chars(name@),
{
    let mut s = String::from_str(r"import React from 'react';
import { Routes, Route, Link } from 'react-router-dom';
import styled from 'styled-components';
import { Navbar } from '@/ui';
import Home from './Home';
import About from './About';
import Info from './Info';

const Container = styled.div`
  width: 100%;
  height: 100%;
`;

const ");
    s.append(name);
    s.append(r#": React.FC = () => (
  <Container>
    <Navbar>
      <Link to="/">home</Link>
      <Link to="/info">info</Link>
      <Link to="/about">about</Link>
    </Navbar>
    <Routes>
      <Route index element={<Home />} />
      <Route path="about" element={<About />} />
      <Route path="info" element={<Info />} />
    </Routes>
  </Container>
);

export default "#);
    s.append(name);
    s.append(r";
");
    proof {
        assert(s@ =~= container_component_chars(name@));
    }
    s
}

/// The framework logo with its title.
pub open spec fn logo_chars(name: Seq<char>) -> Seq<char> {
    "<svg xmlns=\"http://www.w3.org/2000/svg\" viewBox=\"-11\u{2e}5 -10\u{2e}23174 23 20\u{2e}46348\">
  <title>"@ + name + "</title>
  <circle cx=\"0\" cy=\"0\" r=\"2\u{2e}05\" fill=\"#61dafb\"/>
  <g stroke=\"#61dafb\" stroke-width=\"1\" fill=\"none\">
    <ellipse rx=\"11\" ry=\"4\u{2e}2\"/>
    <ellipse rx=\"11\" ry=\"4\u{2e}2\" transform=\"rotate(60)\"/>
    <ellipse rx=\"11\" ry=\"4\u{2e}2\" transform=\"rotate(120)\"/>
  </g>
</svg>
"@
}

pub fn logo(name: &str) -> (r: String)
    ensures
        r@ == logo_chars(name@),
{
    let mut s = String::from_str("<svg xmlns=\"http://www.w3.org/2000/svg\" viewBox=\"-11\u{2e}5 -10\u{2e}23174 23 20\u{2e}46348\">
  <title>");
    s.append(name);
    s.append("</title>
  <circle cx=\"0\" cy=\"0\" r=\"2\u{2e}05\" fill=\"#61dafb\"/>
  <g stroke=\"#61dafb\" stroke-width=\"1\" fill=\"none\">
    <ellipse rx=\"11\" ry=\"4\u{2e}2\"/>
    <ellipse rx=\"11\" ry=\"4\u{2e}2\" transform=\"rotate(60)\"/>
    <ellipse rx=\"11\" ry=\"4\u{2e}2\" transform=\"rotate(120)\"/>
  </g>
</svg>
");
    proof {
        assert(s@ =~= logo_chars(name@));
    }
    s
}

pub fn ui_index() -> String {
    r"import './styles/index.scss';
export * from './components/Button';
export * from './components/Navbar';
".to_owned()
}

pub fn button() -> String {
    r"import styled from 'styled-components';

export const Button = styled.button`
  background-image: linear-gradient(to top, var(--teal) 0%, var(--blue) 51%, var(--teal) 100%);
  padding: .75rem .5rem;
  text-align: center;
  text-transform: none;
  transition: 0.5s;
  background-size: auto 200%;
  color: var(--white);
  border-radius: 0.5rem;
  display: flex;
  border-color: transparent;
  font-weight: 400;
  font-size: 0.8rem;
  cursor: pointer;
  line-height: 0.5rem;
  align-items: center;
  height: min-content;
  &:hover {
    background-position: right center;
    color: var(--white);
    text-decoration: none;
  }
  &.size-l {
    text-transform: uppercase;
    font-weight: 700;
    font-size: 1.8rem;
  }
`;

export default Button;
".to_owned()
}

pub fn navbar() -> String {
    r"import React from 'react';
import styled from 'styled-components';

interface NavbarProps {
  children: React.ReactNode;
}

const NavbarMenu = styled.div`
    display: flex;
    justify-content: center;
    padding: 1rem;
    gap: 1rem;
    a {
      color: var(--white);
      font-weight: 700;
      text-decoration: none;
      transition: 1s;
      text-transform: uppercase;
      &:hover {
        color: var(--purple);
      }
    }
    input, textarea, select {
      padding: .45rem .5rem;
      border-color: transparent;
      border-radius: 0.5rem;
      font-size: 0.8rem;
      line-height: 0.5rem;
      height: min-content;
      color: var(--black);
    }
    input {
      width: 100%;
    }
  `;

const NavbarContainer = styled.div`
    position: absolute;
    width: 100%;
  `;

export const Navbar: React.FC<{ children: React.ReactNode }> = ({ children }: NavbarProps) => (
  <NavbarContainer>
    <NavbarMenu>
      {children}
    </NavbarMenu>
  </NavbarContainer>
);

export default Navbar;
".to_owned()
}

/// The React app source tree: entry, bootstrap, pages, logo, and the
/// shared UI components and styles.
pub fn app(_project: &ProjectProps) -> (r: Vec<(String, Content)>)
    ensures
        r@.len() == 14,
{
    let mut content: Vec<(String, Content)> = Vec::new();
    content.push(("src/main.ts".to_owned(), Content::Str(main_entry())));
    content.push(("src/bootstrap.tsx".to_owned(), Content::Str(bootstrap())));
    content.push(("src/components/App.tsx".to_owned(), Content::Str(container_component("App"))));
    content.push(("src/components/Home.tsx".to_owned(), Content::Str(home_page("Home"))));
    content.push(("src/components/About.tsx".to_owned(), Content::Str(component_page("About"))));
    content.push(("src/components/Info.tsx".to_owned(), Content::Str(component_page("Info"))));
    content.push(("src/images/logo.svg".to_owned(), Content::Str(logo("React"))));
    content.push(("src/ui/index.ts".to_owned(), Content::Str(ui_index())));
    content.push(("src/ui/components/Button.tsx".to_owned(), Content::Str(button())));
    content.push(("src/ui/components/Navbar.tsx".to_owned(), Content::Str(navbar())));
    let mut styles = crate::templates::styles::styles();
    content.append(&mut styles);
    content
}

/// The React template bundle over the common one.
pub fn get(project: &ProjectProps) -> (r: Template)
    ensures
        r.dependencies@ == dependencies_v(),
        r.dev_dependencies@ == dev_dependencies_v(),
        r.tsconfig@ == tsconfig_v(),
        r.eslintrc@ == eslintrc_v(),
        r.scripts@ == JVal::Null,
        r.app@.len() == 14,
{
    Template {
        scripts: Json::null(),
        dependencies: dependencies(),
        dev_dependencies: dev_dependencies(),
        project_config: crate::project_config::ProjectConfig::default(),
        tsconfig: tsconfig(),
        eslintrc: eslintrc(),
        readme: String::new(),
        mit_license: String::new(),
        gitignore: String::new(),
        postcss_config: String::new(),
        index_d: String::new(),
        index: String::new(),
        app: app(project),
    }
}

/// The bundler additions of the React template: the hot-refresh plugin
/// and its module binding.
pub fn get_webpack_config() -> (r: crate::webpack::WebpackFrameworkConfig)
    ensures
        crate::text::strs_view(r.constants@) == seq![
            "ReactRefreshWebpackPlugin = require('@pmmmwh/react-refresh-webpack-plugin');"@,
        ],
        crate::text::strs_view(r.plugins@) == seq!["new ReactRefreshWebpackPlugin()"@],
        r.rules@.len() == 0,
{
    let mut constants: Vec<String> = Vec::new();
    constants.push(react_refresh_const());
    let mut plugins: Vec<String> = Vec::new();
    plugins.push(react_refresh_webpack_plugin());
    let r = crate::webpack::WebpackFrameworkConfig { constants, plugins, rules: Vec::new() };
    proof {
        assert(crate::text::strs_view(r.constants@) =~= seq![
            "ReactRefreshWebpackPlugin = require('@pmmmwh/react-refresh-webpack-plugin');"@,
        ]);
        assert(crate::text::strs_view(r.plugins@) =~= seq!["new ReactRefreshWebpackPlugin()"@]);
    }
    r
}

} // verus!
