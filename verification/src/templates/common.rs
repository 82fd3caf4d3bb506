//! Template content shared by every framework: manifest scripts and
//! dependency tables, the common compiler and lint configurations, the
//! starting project configuration, and the free-text documents.
use crate::json::{JVal, Json, jobj_set};
use crate::project_config::{AppConfig, DevConfig, ProdConfig, ProjectConfig};
use crate::project_config::{AppCfgV, DevCfgV, ProdCfgV, ProjectCfgV};
use crate::templates::{ProjectProps, Template};
use crate::text::int_chars;
use crate::types::User;
use vstd::prelude::*;
use vstd::string::*;

verus! {

pub open spec fn scripts_v() -> JVal {
    jobj_set(jobj_set(jobj_set(JVal::Obj(Seq::empty()), "start"@, JVal::Str("lyrn start"@)), "build"@, JVal::Str("lyrn build"@)), "serve"@, JVal::Str("serve dist"@))
}

/// The manifest scripts every project gets.
pub fn scripts() -> (r: Json)
    ensures
        r@ == scripts_v(),
{
    let v1 = Json::obj().set("start", Json::string("lyrn start")).set("build", Json::string("lyrn build")).set("serve", Json::string("serve dist"));
    proof {
        assert(v1@ == scripts_v());
    }
    v1
}

pub open spec fn dependencies_v() -> JVal {
    jobj_set(JVal::Obj(Seq::empty()), "lyrn"@, JVal::Str("^1.0.0"@))
}

/// The runtime dependencies every project gets.
pub fn dependencies() -> (r: Json)
    ensures
        r@ == dependencies_v(),
{
    let v1 = Json::obj().set("lyrn", Json::string("^1.0.0"));
    proof {
        assert(v1@ == dependencies_v());
    }
    v1
}

pub open spec fn dev_dependencies_v() -> JVal {
    jobj_set(jobj_set(jobj_set(jobj_set(jobj_set(jobj_set(jobj_set(jobj_set(jobj_set(jobj_set(jobj_set(jobj_set(jobj_set(jobj_set(jobj_set(jobj_set(jobj_set(jobj_set(jobj_set(jobj_set(jobj_set(jobj_set(jobj_set(jobj_set(jobj_set(jobj_set(jobj_set(jobj_set(jobj_set(JVal::Obj(Seq::empty()), "@types/node"@, JVal::Str("^20.4.2"@)), "@types/webpack-env"@, JVal::Str("^1.18.1"@)), "@typescript-eslint/eslint-plugin"@, JVal::Str("^6.0.0"@)), "@typescript-eslint/parser"@, JVal::Str("^6.0.0"@)), "babel-loader"@, JVal::Str("^9.1.3"@)), "copy-webpack-plugin"@, JVal::Str("^11.0.0"@)), "css-loader"@, JVal::Str("^6.8.1"@)), "dotenv"@, JVal::Str("^16.3.1"@)), "eslint"@, JVal::Str("^8.45.0"@)), "eslint-import-resolver-alias"@, JVal::Str("^1.1.2"@)), "eslint-import-resolver-webpack"@, JVal::Str("^0.13.2"@)), "eslint-plugin-import"@, JVal::Str("^2.27.5"@)), "file-loader"@, JVal::Str("^6.2.0"@)), "fork-ts-checker-webpack-plugin"@, JVal::Str("^8.0.0"@)), "html-webpack-plugin"@, JVal::Str("^5.5.3"@)), "mini-css-extract-plugin"@, JVal::Str("^2.7.6"@)), "postcss-loader"@, JVal::Str("^7.3.3"@)), "postcss-preset-env"@, JVal::Str("^9.0.0"@)), "sass"@, JVal::Str("^1.63.6"@)), "sass-loader"@, JVal::Str("^13.3.2"@)), "serve"@, JVal::Str("^14.2.0"@)), "style-loader"@, JVal::Str("^3.3.3"@)), "ts-loader"@, JVal::Str("9.4.4"@)), "typescript"@, JVal::Str("^5.1.6"@)), "webpack"@, JVal::Str("^5.88.1"@)), "webpack-cli"@, JVal::Str("^5.1.4"@)), "webpack-dev-server"@, JVal::Str("^4.15.1"@)), "webpack-shell-plugin-next"@, JVal::Str("^2.3.1"@)), "zx"@, JVal::Str("^7.2.3"@))
}

/// The development dependencies every project gets.
pub fn dev_dependencies() -> (r: Json)
    ensures
        r@ == dev_dependencies_v(),
{
    let v1 = Json::obj().set("@types/node", Json::string("^20.4.2")).set("@types/webpack-env", Json::string("^1.18.1")).set("@typescript-eslint/eslint-plugin", Json::string("^6.0.0")).set("@typescript-eslint/parser", Json::string("^6.0.0")).set("babel-loader", Json::string("^9.1.3")).set("copy-webpack-plugin", Json::string("^11.0.0")).set("css-loader", Json::string("^6.8.1")).set("dotenv", Json::string("^16.3.1")).set("eslint", Json::string("^8.45.0")).set("eslint-import-resolver-alias", Json::string("^1.1.2")).set("eslint-import-resolver-webpack", Json::string("^0.13.2")).set("eslint-plugin-import", Json::string("^2.27.5")).set("file-loader", Json::string("^6.2.0")).set("fork-ts-checker-webpack-plugin", Json::string("^8.0.0")).set("html-webpack-plugin", Json::string("^5.5.3")).set("mini-css-extract-plugin", Json::string("^2.7.6")).set("postcss-loader", Json::string("^7.3.3")).set("postcss-preset-env", Json::string("^9.0.0")).set("sass", Json::string("^1.63.6")).set("sass-loader", Json::string("^13.3.2")).set("serve", Json::string("^14.2.0")).set("style-loader", Json::string("^3.3.3")).set("ts-loader", Json::string("9.4.4")).set("typescript", Json::string("^5.1.6")).set("webpack", Json::string("^5.88.1")).set("webpack-cli", Json::string("^5.1.4")).set("webpack-dev-server", Json::string("^4.15.1")).set("webpack-shell-plugin-next", Json::string("^2.3.1")).set("zx", Json::string("^7.2.3"));
    proof {
        assert(v1@ == dev_dependencies_v());
    }
    v1
}

pub open spec fn tsconfig_v() -> JVal {
    jobj_set(jobj_set(jobj_set(JVal::Obj(Seq::empty()), "compileOnSave"@, JVal::Bool(false)), "compilerOptions"@, jobj_set(jobj_set(jobj_set(jobj_set(jobj_set(jobj_set(jobj_set(jobj_set(jobj_set(jobj_set(jobj_set(jobj_set(jobj_set(jobj_set(jobj_set(jobj_set(jobj_set(jobj_set(JVal::Obj(Seq::empty()), "rootDir"@, JVal::Str("."@)), "sourceMap"@, JVal::Bool(true)), "declaration"@, JVal::Bool(false)), "moduleResolution"@, JVal::Str("node"@)), "emitDecoratorMetadata"@, JVal::Bool(true)), "experimentalDecorators"@, JVal::Bool(true)), "importHelpers"@, JVal::Bool(true)), "target"@, JVal::Str("ESNext"@)), "module"@, JVal::Str("ESNext"@)), "lib"@, JVal::Arr(seq![JVal::Str("ESNext"@), JVal::Str("dom"@)])), "skipLibCheck"@, JVal::Bool(true)), "skipDefaultLibCheck"@, JVal::Bool(true)), "esModuleInterop"@, JVal::Bool(true)), "noImplicitAny"@, JVal::Bool(true)), "resolveJsonModule"@, JVal::Bool(true)), "baseUrl"@, JVal::Str("."@)), "outDir"@, JVal::Str("dist"@)), "paths"@, jobj_set(JVal::Obj(Seq::empty()), "@/*"@, JVal::Arr(seq![JVal::Str("src/*"@)])))), "exclude"@, JVal::Arr(seq![JVal::Str("node_modules"@), JVal::Str("dist"@)]))
}

/// The common compiler configuration.
pub fn tsconfig() -> (r: Json)
    ensures
        r@ == tsconfig_v(),
{
    let mut v1: Vec<Json> = Vec::new();
    v1.push(Json::string("ESNext"));
    v1.push(Json::string("dom"));
    let v2 = Json::arr(v1);
    proof {
        assert(v1@[0]@ == JVal::Str("ESNext"@));
        assert(v1@[1]@ == JVal::Str("dom"@));
        assert(crate::json::jviews(v1@) =~= seq![JVal::Str("ESNext"@), JVal::Str("dom"@)]);
        assert(v2@ =~~= JVal::Arr(seq![JVal::Str("ESNext"@), JVal::Str("dom"@)]));
    }
    let mut v3: Vec<Json> = Vec::new();
    v3.push(Json::string("src/*"));
    let v4 = Json::arr(v3);
    proof {
        assert(v3@[0]@ == JVal::Str("src/*"@));
        assert(crate::json::jviews(v3@) =~= seq![JVal::Str("src/*"@)]);
        assert(v4@ =~~= JVal::Arr(seq![JVal::Str("src/*"@)]));
    }
    let v5 = Json::obj().set("@/*", v4);
    let v6 = Json::obj().set("rootDir", Json::string(".")).set("sourceMap", Json::boolean(true)).set("declaration", Json::boolean(false)).set("moduleResolution", Json::string("node")).set("emitDecoratorMetadata", Json::boolean(true)).set("experimentalDecorators", Json::boolean(true)).set("importHelpers", Json::boolean(true)).set("target", Json::string("ESNext")).set("module", Json::string("ESNext")).set("lib", v2).set("skipLibCheck", Json::boolean(true)).set("skipDefaultLibCheck", Json::boolean(true)).set("esModuleInterop", Json::boolean(true)).set("noImplicitAny", Json::boolean(true)).set("resolveJsonModule", Json::boolean(true)).set("baseUrl", Json::string(".")).set("outDir", Json::string("dist")).set("paths", v5);
    let mut v7: Vec<Json> = Vec::new();
    v7.push(Json::string("node_modules"));
    v7.push(Json::string("dist"));
    let v8 = Json::arr(v7);
    proof {
        assert(v7@[0]@ == JVal::Str("node_modules"@));
        assert(v7@[1]@ == JVal::Str("dist"@));
        assert(crate::json::jviews(v7@) =~= seq![JVal::Str("node_modules"@), JVal::Str("dist"@)]);
        assert(v8@ =~~= JVal::Arr(seq![JVal::Str("node_modules"@), JVal::Str("dist"@)]));
    }
    let v9 = Json::obj().set("compileOnSave", Json::boolean(false)).set("compilerOptions", v6).set("exclude", v8);
    proof {
        assert(v9@ == tsconfig_v());
    }
    v9
}

pub open spec fn eslintrc_v() -> JVal {
    jobj_set(jobj_set(jobj_set(jobj_set(jobj_set(jobj_set(JVal::Obj(Seq::empty()), "extends"@, JVal::Arr(seq![JVal::Str("eslint:recommended"@), JVal::Str("standard-with-typescript"@)])), "rules"@, jobj_set(jobj_set(jobj_set(jobj_set(jobj_set(jobj_set(jobj_set(jobj_set(jobj_set(jobj_set(jobj_set(jobj_set(jobj_set(jobj_set(jobj_set(jobj_set(jobj_set(jobj_set(jobj_set(jobj_set(jobj_set(jobj_set(jobj_set(jobj_set(jobj_set(jobj_set(jobj_set(jobj_set(jobj_set(jobj_set(jobj_set(jobj_set(jobj_set(JVal::Obj(Seq::empty()), "arrow-body-style"@, JVal::Int(1)), "camelcase"@, JVal::Int(1)), "comma-dangle"@, JVal::Arr(seq![JVal::Str("error"@), JVal::Str("always-multiline"@)])), "import/no-extraneous-dependencies"@, JVal::Arr(seq![JVal::Str("off"@), jobj_set(JVal::Obj(Seq::empty()), "devDependencies"@, JVal::Bool(false))])), "import/prefer-default-export"@, JVal::Int(0)), "indent"@, JVal::Arr(seq![JVal::Str("error"@), JVal::Int(2), jobj_set(JVal::Obj(Seq::empty()), "SwitchCase"@, JVal::Int(1))])), "linebreak-style"@, JVal::Arr(seq![JVal::Str("error"@), JVal::Str("unix"@)])), "object-curly-spacing"@, JVal::Arr(seq![JVal::Str("warn"@), JVal::Str("always"@)])), "prefer-template"@, JVal::Str("off"@)), "semi"@, JVal::Arr(seq![JVal::Str("error"@), JVal::Str("always"@)])), "quotes"@, JVal::Arr(seq![JVal::Str("error"@), JVal::Str("single"@)])), "no-var"@, JVal::Int(1)), "no-unused-vars"@, JVal::Int(1)), "no-nested-ternary"@, JVal::Int(1)), "no-console"@, JVal::Int(1)), "no-template-curly-in-string"@, JVal::Int(1)), "no-self-compare"@, JVal::Int(1)), "no-async-promise-executor"@, JVal::Str("warn"@)), "no-debugger"@, JVal::Str("warn"@)), "no-multi-spaces"@, JVal::Arr(seq![JVal::Str("error"@)])), "no-prototype-builtins"@, JVal::Str("off"@)), "no-undef"@, JVal::Str("warn"@)), "@typescript-eslint/comma-dangle"@, JVal::Arr(seq![JVal::Str("error"@), JVal::Str("always-multiline"@)])), "@typescript-eslint/indent"@, JVal::Arr(seq![JVal::Str("error"@), JVal::Int(2), jobj_set(JVal::Obj(Seq::empty()), "SwitchCase"@, JVal::Int(1))])), "@typescript-eslint/no-unused-vars"@, JVal::Arr(seq![JVal::Str("warn"@), jobj_set(jobj_set(jobj_set(JVal::Obj(Seq::empty()), "vars"@, JVal::Str("all"@)), "args"@, JVal::Str("none"@)), "ignoreRestSiblings"@, JVal::Bool(false))])), "@typescript-eslint/no-inferrable-types"@, JVal::Str("off"@)), "@typescript-eslint/semi"@, JVal::Arr(seq![JVal::Str("error"@), JVal::Str("always"@)])), "@typescript-eslint/space-before-function-paren"@, JVal::Str("off"@)), "@typescript-eslint/strict-boolean-expressions"@, JVal::Str("off"@)), "@typescript-eslint/member-delimiter-style"@, JVal::Arr(seq![JVal::Str("error"@), jobj_set(jobj_set(JVal::Obj(Seq::empty()), "multiline"@, jobj_set(JVal::Obj(Seq::empty()), "delimiter"@, JVal::Str("semi"@))), "singleline"@, jobj_set(jobj_set(JVal::Obj(Seq::empty()), "delimiter"@, JVal::Str("comma"@)), "requireLast"@, JVal::Bool(false)))])), "@typescript-eslint/no-empty-interface"@, JVal::Arr(seq![JVal::Str("error"@), jobj_set(JVal::Obj(Seq::empty()), "allowSingleExtends"@, JVal::Bool(true))])), "@typescript-eslint/no-extraneous-class"@, JVal::Str("off"@)), "@typescript-eslint/prefer-nullish-coalescing"@, JVal::Str("off"@))), "ignorePatterns"@, JVal::Arr(seq![JVal::Str("dist"@), JVal::Str("node_modules"@)])), "env"@, jobj_set(jobj_set(jobj_set(JVal::Obj(Seq::empty()), "browser"@, JVal::Bool(true)), "es6"@, JVal::Bool(true)), "node"@, JVal::Bool(true))), "parserOptions"@, jobj_set(jobj_set(jobj_set(JVal::Obj(Seq::empty()), "ecmaVersion"@, JVal::Str("latest"@)), "sourceType"@, JVal::Str("module"@)), "project"@, JVal::Str("./tsconfig.json"@))), "settings"@, jobj_set(JVal::Obj(Seq::empty()), "import/resolver"@, jobj_set(JVal::Obj(Seq::empty()), "node"@, jobj_set(JVal::Obj(Seq::empty()), "extensions"@, JVal::Arr(seq![JVal::Str(".js"@), JVal::Str(".jsx"@), JVal::Str(".ts"@), JVal::Str(".tsx"@)])))))
}

/// The common lint configuration.
pub fn eslintrc() -> (r: Json)
    ensures
        r@ == eslintrc_v(),
{
    let mut v1: Vec<Json> = Vec::new();
    v1.push(Json::string("eslint:recommended"));
    v1.push(Json::string("standard-with-typescript"));
    let v2 = Json::arr(v1);
    proof {
        assert(v1@[0]@ == JVal::Str("eslint:recommended"@));
        assert(v1@[1]@ == JVal::Str("standard-with-typescript"@));
        assert(crate::json::jviews(v1@) =~= seq![JVal::Str("eslint:recommended"@), JVal::Str("standard-with-typescript"@)]);
        assert(v2@ =~~= JVal::Arr(seq![JVal::Str("eslint:recommended"@), JVal::Str("standard-with-typescript"@)]));
    }
    let mut v3: Vec<Json> = Vec::new();
    v3.push(Json::string("error"));
    v3.push(Json::string("always-multiline"));
    let v4 = Json::arr(v3);
    proof {
        assert(v3@[0]@ == JVal::Str("error"@));
        assert(v3@[1]@ == JVal::Str("always-multiline"@));
        assert(crate::json::jviews(v3@) =~= seq![JVal::Str("error"@), JVal::Str("always-multiline"@)]);
        assert(v4@ =~~= JVal::Arr(seq![JVal::Str("error"@), JVal::Str("always-multiline"@)]));
    }
    let v5 = Json::obj().set("devDependencies", Json::boolean(false));
    let mut v6: Vec<Json> = Vec::new();
    v6.push(Json::string("off"));
    v6.push(v5);
    let v7 = Json::arr(v6);
    proof {
        assert(v6@[0]@ == JVal::Str("off"@));
        assert(v6@[1]@ == jobj_set(JVal::Obj(Seq::empty()), "devDependencies"@, JVal::Bool(false)));
        assert(crate::json::jviews(v6@) =~= seq![JVal::Str("off"@), jobj_set(JVal::Obj(Seq::empty()), "devDependencies"@, JVal::Bool(false))]);
        assert(v7@ =~~= JVal::Arr(seq![JVal::Str("off"@), jobj_set(JVal::Obj(Seq::empty()), "devDependencies"@, JVal::Bool(false))]));
    }
    let v8 = Json::obj().set("SwitchCase", Json::integer(1));
    let mut v9: Vec<Json> = Vec::new();
    v9.push(Json::string("error"));
    v9.push(Json::integer(2));
    v9.push(v8);
    let v10 = Json::arr(v9);
    proof {
        assert(v9@[0]@ == JVal::Str("error"@));
        assert(v9@[1]@ == JVal::Int(2));
        assert(v9@[2]@ == jobj_set(JVal::Obj(Seq::empty()), "SwitchCase"@, JVal::Int(1)));
        assert(crate::json::jviews(v9@) =~= seq![JVal::Str("error"@), JVal::Int(2), jobj_set(JVal::Obj(Seq::empty()), "SwitchCase"@, JVal::Int(1))]);
        assert(v10@ =~~= JVal::Arr(seq![JVal::Str("error"@), JVal::Int(2), jobj_set(JVal::Obj(Seq::empty()), "SwitchCase"@, JVal::Int(1))]));
    }
    let mut v11: Vec<Json> = Vec::new();
    v11.push(Json::string("error"));
    v11.push(Json::string("unix"));
    let v12 = Json::arr(v11);
    proof {
        assert(v11@[0]@ == JVal::Str("error"@));
        assert(v11@[1]@ == JVal::Str("unix"@));
        assert(crate::json::jviews(v11@) =~= seq![JVal::Str("error"@), JVal::Str("unix"@)]);
        assert(v12@ =~~= JVal::Arr(seq![JVal::Str("error"@), JVal::Str("unix"@)]));
    }
    let mut v13: Vec<Json> = Vec::new();
    v13.push(Json::string("warn"));
    v13.push(Json::string("always"));
    let v14 = Json::arr(v13);
    proof {
        assert(v13@[0]@ == JVal::Str("warn"@));
        assert(v13@[1]@ == JVal::Str("always"@));
        assert(crate::json::jviews(v13@) =~= seq![JVal::Str("warn"@), JVal::Str("always"@)]);
        assert(v14@ =~~= JVal::Arr(seq![JVal::Str("warn"@), JVal::Str("always"@)]));
    }
    let mut v15: Vec<Json> = Vec::new();
    v15.push(Json::string("error"));
    v15.push(Json::string("always"));
    let v16 = Json::arr(v15);
    proof {
        assert(v15@[0]@ == JVal::Str("error"@));
        assert(v15@[1]@ == JVal::Str("always"@));
        assert(crate::json::jviews(v15@) =~= seq![JVal::Str("error"@), JVal::Str("always"@)]);
        assert(v16@ =~~= JVal::Arr(seq![JVal::Str("error"@), JVal::Str("always"@)]));
    }
    let mut v17: Vec<Json> = Vec::new();
    v17.push(Json::string("error"));
    v17.push(Json::string("single"));
    let v18 = Json::arr(v17);
    proof {
        assert(v17@[0]@ == JVal::Str("error"@));
        assert(v17@[1]@ == JVal::Str("single"@));
        assert(crate::json::jviews(v17@) =~= seq![JVal::Str("error"@), JVal::Str("single"@)]);
        assert(v18@ =~~= JVal::Arr(seq![JVal::Str("error"@), JVal::Str("single"@)]));
    }
    let mut v19: Vec<Json> = Vec::new();
    v19.push(Json::string("error"));
    let v20 = Json::arr(v19);
    proof {
        assert(v19@[0]@ == JVal::Str("error"@));
        assert(crate::json::jviews(v19@) =~= seq![JVal::Str("error"@)]);
        assert(v20@ =~~= JVal::Arr(seq![JVal::Str("error"@)]));
    }
    let mut v21: Vec<Json> = Vec::new();
    v21.push(Json::string("error"));
    v21.push(Json::string("always-multiline"));
    let v22 = Json::arr(v21);
    proof {
        assert(v21@[0]@ == JVal::Str("error"@));
        assert(v21@[1]@ == JVal::Str("always-multiline"@));
        assert(crate::json::jviews(v21@) =~= seq![JVal::Str("error"@), JVal::Str("always-multiline"@)]);
        assert(v22@ =~~= JVal::Arr(seq![JVal::Str("error"@), JVal::Str("always-multiline"@)]));
    }
    let v23 = Json::obj().set("SwitchCase", Json::integer(1));
    let mut v24: Vec<Json> = Vec::new();
    v24.push(Json::string("error"));
    v24.push(Json::integer(2));
    v24.push(v23);
    let v25 = Json::arr(v24);
    proof {
        assert(v24@[0]@ == JVal::Str("error"@));
        assert(v24@[1]@ == JVal::Int(2));
        assert(v24@[2]@ == jobj_set(JVal::Obj(Seq::empty()), "SwitchCase"@, JVal::Int(1)));
        assert(crate::json::jviews(v24@) =~= seq![JVal::Str("error"@), JVal::Int(2), jobj_set(JVal::Obj(Seq::empty()), "SwitchCase"@, JVal::Int(1))]);
        assert(v25@ =~~= JVal::Arr(seq![JVal::Str("error"@), JVal::Int(2), jobj_set(JVal::Obj(Seq::empty()), "SwitchCase"@, JVal::Int(1))]));
    }
    let v26 = Json::obj().set("vars", Json::string("all")).set("args", Json::string("none")).set("ignoreRestSiblings", Json::boolean(false));
    let mut v27: Vec<Json> = Vec::new();
    v27.push(Json::string("warn"));
    v27.push(v26);
    let v28 = Json::arr(v27);
    proof {
        assert(v27@[0]@ == JVal::Str("warn"@));
        assert(v27@[1]@ == jobj_set(jobj_set(jobj_set(JVal::Obj(Seq::empty()), "vars"@, JVal::Str("all"@)), "args"@, JVal::Str("none"@)), "ignoreRestSiblings"@, JVal::Bool(false)));
        assert(crate::json::jviews(v27@) =~= seq![JVal::Str("warn"@), jobj_set(jobj_set(jobj_set(JVal::Obj(Seq::empty()), "vars"@, JVal::Str("all"@)), "args"@, JVal::Str("none"@)), "ignoreRestSiblings"@, JVal::Bool(false))]);
        assert(v28@ =~~= JVal::Arr(seq![JVal::Str("warn"@), jobj_set(jobj_set(jobj_set(JVal::Obj(Seq::empty()), "vars"@, JVal::Str("all"@)), "args"@, JVal::Str("none"@)), "ignoreRestSiblings"@, JVal::Bool(false))]));
    }
    let mut v29: Vec<Json> = Vec::new();
    v29.push(Json::string("error"));
    v29.push(Json::string("always"));
    let v30 = Json::arr(v29);
    proof {
        assert(v29@[0]@ == JVal::Str("error"@));
        assert(v29@[1]@ == JVal::Str("always"@));
        assert(crate::json::jviews(v29@) =~= seq![JVal::Str("error"@), JVal::Str("always"@)]);
        assert(v30@ =~~= JVal::Arr(seq![JVal::Str("error"@), JVal::Str("always"@)]));
    }
    let v31 = Json::obj().set("delimiter", Json::string("semi"));
    let v32 = Json::obj().set("delimiter", Json::string("comma")).set("requireLast", Json::boolean(false));
    let v33 = Json::obj().set("multiline", v31).set("singleline", v32);
    let mut v34: Vec<Json> = Vec::new();
    v34.push(Json::string("error"));
    v34.push(v33);
    let v35 = Json::arr(v34);
    proof {
        assert(v34@[0]@ == JVal::Str("error"@));
        assert(v34@[1]@ == jobj_set(jobj_set(JVal::Obj(Seq::empty()), "multiline"@, jobj_set(JVal::Obj(Seq::empty()), "delimiter"@, JVal::Str("semi"@))), "singleline"@, jobj_set(jobj_set(JVal::Obj(Seq::empty()), "delimiter"@, JVal::Str("comma"@)), "requireLast"@, JVal::Bool(false))));
        assert(crate::json::jviews(v34@) =~= seq![JVal::Str("error"@), jobj_set(jobj_set(JVal::Obj(Seq::empty()), "multiline"@, jobj_set(JVal::Obj(Seq::empty()), "delimiter"@, JVal::Str("semi"@))), "singleline"@, jobj_set(jobj_set(JVal::Obj(Seq::empty()), "delimiter"@, JVal::Str("comma"@)), "requireLast"@, JVal::Bool(false)))]);
        assert(v35@ =~~= JVal::Arr(seq![JVal::Str("error"@), jobj_set(jobj_set(JVal::Obj(Seq::empty()), "multiline"@, jobj_set(JVal::Obj(Seq::empty()), "delimiter"@, JVal::Str("semi"@))), "singleline"@, jobj_set(jobj_set(JVal::Obj(Seq::empty()), "delimiter"@, JVal::Str("comma"@)), "requireLast"@, JVal::Bool(false)))]));
    }
    let v36 = Json::obj().set("allowSingleExtends", Json::boolean(true));
    let mut v37: Vec<Json> = Vec::new();
    v37.push(Json::string("error"));
    v37.push(v36);
    let v38 = Json::arr(v37);
    proof {
        assert(v37@[0]@ == JVal::Str("error"@));
        assert(v37@[1]@ == jobj_set(JVal::Obj(Seq::empty()), "allowSingleExtends"@, JVal::Bool(true)));
        assert(crate::json::jviews(v37@) =~= seq![JVal::Str("error"@), jobj_set(JVal::Obj(Seq::empty()), "allowSingleExtends"@, JVal::Bool(true))]);
        assert(v38@ =~~= JVal::Arr(seq![JVal::Str("error"@), jobj_set(JVal::Obj(Seq::empty()), "allowSingleExtends"@, JVal::Bool(true))]));
    }
    let v39 = Json::obj().set("arrow-body-style", Json::integer(1)).set("camelcase", Json::integer(1)).set("comma-dangle", v4).set("import/no-extraneous-dependencies", v7).set("import/prefer-default-export", Json::integer(0)).set("indent", v10).set("linebreak-style", v12).set("object-curly-spacing", v14).set("prefer-template", Json::string("off")).set("semi", v16).set("quotes", v18).set("no-var", Json::integer(1)).set("no-unused-vars", Json::integer(1)).set("no-nested-ternary", Json::integer(1)).set("no-console", Json::integer(1)).set("no-template-curly-in-string", Json::integer(1)).set("no-self-compare", Json::integer(1)).set("no-async-promise-executor", Json::string("warn")).set("no-debugger", Json::string("warn")).set("no-multi-spaces", v20).set("no-prototype-builtins", Json::string("off")).set("no-undef", Json::string("warn")).set("@typescript-eslint/comma-dangle", v22).set("@typescript-eslint/indent", v25).set("@typescript-eslint/no-unused-vars", v28).set("@typescript-eslint/no-inferrable-types", Json::string("off")).set("@typescript-eslint/semi", v30).set("@typescript-eslint/space-before-function-paren", Json::string("off")).set("@typescript-eslint/strict-boolean-expressions", Json::string("off")).set("@typescript-eslint/member-delimiter-style", v35).set("@typescript-eslint/no-empty-interface", v38).set("@typescript-eslint/no-extraneous-class", Json::string("off")).set("@typescript-eslint/prefer-nullish-coalescing", Json::string("off"));
    let mut v40: Vec<Json> = Vec::new();
    v40.push(Json::string("dist"));
    v40.push(Json::string("node_modules"));
    let v41 = Json::arr(v40);
    proof {
        assert(v40@[0]@ == JVal::Str("dist"@));
        assert(v40@[1]@ == JVal::Str("node_modules"@));
        assert(crate::json::jviews(v40@) =~= seq![JVal::Str("dist"@), JVal::Str("node_modules"@)]);
        assert(v41@ =~~= JVal::Arr(seq![JVal::Str("dist"@), JVal::Str("node_modules"@)]));
    }
    let v42 = Json::obj().set("browser", Json::boolean(true)).set("es6", Json::boolean(true)).set("node", Json::boolean(true));
    let v43 = Json::obj().set("ecmaVersion", Json::string("latest")).set("sourceType", Json::string("module")).set("project", Json::string("./tsconfig.json"));
    let mut v44: Vec<Json> = Vec::new();
    v44.push(Json::string(".js"));
    v44.push(Json::string(".jsx"));
    v44.push(Json::string(".ts"));
    v44.push(Json::string(".tsx"));
    let v45 = Json::arr(v44);
    proof {
        assert(v44@[0]@ == JVal::Str(".js"@));
        assert(v44@[1]@ == JVal::Str(".jsx"@));
        assert(v44@[2]@ == JVal::Str(".ts"@));
        assert(v44@[3]@ == JVal::Str(".tsx"@));
        assert(crate::json::jviews(v44@) =~= seq![JVal::Str(".js"@), JVal::Str(".jsx"@), JVal::Str(".ts"@), JVal::Str(".tsx"@)]);
        assert(v45@ =~~= JVal::Arr(seq![JVal::Str(".js"@), JVal::Str(".jsx"@), JVal::Str(".ts"@), JVal::Str(".tsx"@)]));
    }
    let v46 = Json::obj().set("extensions", v45);
    let v47 = Json::obj().set("node", v46);
    let v48 = Json::obj().set("import/resolver", v47);
    let v49 = Json::obj().set("extends", v2).set("rules", v39).set("ignorePatterns", v41).set("env", v42).set("parserOptions", v43).set("settings", v48);
    proof {
        assert(v49@ == eslintrc_v());
    }
    v49
}


/// The project configuration a new project is materialized with.
pub open spec fn project_config_v() -> ProjectCfgV {
    ProjectCfgV {
        app: AppCfgV {
            name: "app"@,
            title: "New application"@,
            framework: crate::templates::Framework::Vanilla,
        },
        dev: DevCfgV {
            public_path: "/"@,
            protocol: "http"@,
            host: "localhost"@,
            port: 8080,
            config: Seq::empty(),
        },
        prod: ProdCfgV { public_path: "/"@, config: Seq::empty() },
    }
}

/// The starting project configuration: a placeholder name and title over
/// the compiled-in defaults.
pub fn project_config() -> (r: ProjectConfig)
    ensures
        r@ == project_config_v(),
{
    let mut r = ProjectConfig::default();
    r.app = AppConfig {
        name: String::from_str("app"),
        title: String::from_str("New application"),
        framework: crate::templates::Framework::Vanilla,
    };
    proof {
        assert(r@ =~= project_config_v());
    }
    r
}

/// The generated README around the project name and the author's name.
pub open spec fn readme_chars(name: Seq<char>, author: Seq<char>) -> Seq<char> {
    "# "@ + name + r"

[![License: MIT](https://img.shields.io/badge/License-MIT-blue.svg)](https://opensource.org/licenses/MIT)

## Project setup
```
npm install
```

## Usage

### Development server
```
npm start
```

### Production build
```
npm run build
```

You can view the deploy by creating a server in `dist`
```
npm run serve
```

### Lints and fixes files
```
npm run lint
```

## Author

- ["@ + author + r"](https://my-site.com)

## License

This project is open source and available under the [MIT License](LICENSE).
"@
}

pub fn readme(project: &ProjectProps) -> (r: String)
    ensures
        r@ == readme_chars(project.name@, project.user.name@),
{
    let mut s = String::from_str("# ");
    s.append(project.name.as_str());
    s.append(r"

[![License: MIT](https://img.shields.io/badge/License-MIT-blue.svg)](https://opensource.org/licenses/MIT)

## Project setup
```
npm install
```

## Usage

### Development server
```
npm start
```

### Production build
```
npm run build
```

You can view the deploy by creating a server in `dist`
```
npm run serve
```

### Lints and fixes files
```
npm run lint
```

## Author

- [");
    s.append(project.user.name.as_str());
    s.append(r"](https://my-site.com)

## License

This project is open source and available under the [MIT License](LICENSE).
");
    proof {
        assert(s@ =~= readme_chars(project.name@, project.user.name@));
    }
    s
}

/// Relies on `chrono::Utc::now` and `chrono::Datelike::year`: the
/// calendar year of the current civil date in UTC. The result depends on
/// the clock; nothing is assumed of it.
#[verifier::external_body]
fn current_year() -> (y: i32) {
    chrono::Datelike::year(&chrono::Utc::now())
}

/// The license text around a copyright year and holder.
pub open spec fn license_chars(year: int, name: Seq<char>, email: Seq<char>) -> Seq<char> {
    r"MIT License

Copyright (c) "@ + int_chars(year) + " "@ + name + " <"@ + email + r#">

Permission is hereby granted, free of charge, to any person obtaining a copy
of this software and associated documentation files (the "Software"), to deal
in the Software without restriction, including without limitation the rights
to use, copy, modify, merge, publish, distribute, sublicense, and/or sell
copies of the Software, and to permit persons to whom the Software is
furnished to do so, subject to the following conditions:

The above copyright notice and this permission notice shall be included in all
copies or substantial portions of the Software.

THE SOFTWARE IS PROVIDED "AS IS", WITHOUT WARRANTY OF ANY KIND, EXPRESS OR
IMPLIED, INCLUDING BUT NOT LIMITED TO THE WARRANTIES OF MERCHANTABILITY,
FITNESS FOR A PARTICULAR PURPOSE AND NONINFRINGEMENT. IN NO EVENT SHALL THE
AUTHORS OR COPYRIGHT HOLDERS BE LIABLE FOR ANY CLAIM, DAMAGES OR OTHER
LIABILITY, WHETHER IN AN ACTION OF CONTRACT, TORT OR OTHERWISE, ARISING FROM,
OUT OF OR IN CONNECTION WITH THE SOFTWARE OR THE USE OR OTHER DEALINGS IN THE
SOFTWARE.
"#@
}

/// The license text for a given copyright year.
pub fn mit_license_text(year: i32, user: &User) -> (r: String)
    ensures
        r@ == license_chars(year as int, user.name@, user.email@),
{
    let mut s = String::from_str(r"MIT License

Copyright (c) ");
    crate::text::fmt_i64_into(&mut s, year as i64);
    s.append(" ");
    s.append(user.name.as_str());
    s.append(" <");
    s.append(user.email.as_str());
    s.append(r#">

Permission is hereby granted, free of charge, to any person obtaining a copy
of this software and associated documentation files (the "Software"), to deal
in the Software without restriction, including without limitation the rights
to use, copy, modify, merge, publish, distribute, sublicense, and/or sell
copies of the Software, and to permit persons to whom the Software is
furnished to do so, subject to the following conditions:

The above copyright notice and this permission notice shall be included in all
copies or substantial portions of the Software.

THE SOFTWARE IS PROVIDED "AS IS", WITHOUT WARRANTY OF ANY KIND, EXPRESS OR
IMPLIED, INCLUDING BUT NOT LIMITED TO THE WARRANTIES OF MERCHANTABILITY,
FITNESS FOR A PARTICULAR PURPOSE AND NONINFRINGEMENT. IN NO EVENT SHALL THE
AUTHORS OR COPYRIGHT HOLDERS BE LIABLE FOR ANY CLAIM, DAMAGES OR OTHER
LIABILITY, WHETHER IN AN ACTION OF CONTRACT, TORT OR OTHERWISE, ARISING FROM,
OUT OF OR IN CONNECTION WITH THE SOFTWARE OR THE USE OR OTHER DEALINGS IN THE
SOFTWARE.
"#);
    proof {
        assert(s@ =~= license_chars(year as int, user.name@, user.email@));
    }
    s
}

/// The license text stamped with the current year, whatever the clock
/// returned.
pub fn mit_license(user: &User) -> (r: String)
    ensures
        exists|y: int| r@ == license_chars(y, user.name@, user.email@),
{
    let year = current_year();
    let r = mit_license_text(year, user);
    proof {
        assert(r@ == license_chars(year as int, user.name@, user.email@));
    }
    r
}

pub fn gitignore() -> String {
    r"# See http://help.github.com/ignore-files/ for more about ignoring files.

# compiled output
dist
tmp
/out-tsc

# dependencies
node_modules

# IDEs and editors
/.idea
.project
.classpath
.c9/
*.launch
.settings/
*.sublime-workspace

# IDE - VSCode
.vscode/*
!.vscode/settings.json
!.vscode/tasks.json
!.vscode/launch.json
!.vscode/extensions.json

# misc
/.sass-cache
/connect.lock
/coverage
/libpeerconnection.log
npm-debug.log
yarn-error.log
testem.log
/typings

# System Files
.DS_Store
Thumbs.db
".to_owned()
}

pub fn postcss_config() -> String {
    r"module.exports = {
  plugins: {
    'postcss-preset-env': {
      browsers: 'last 2 versions',
    },
  },
}; 
".to_owned()
}

pub fn index_d() -> String {
    r"declare module '*.css';
declare module '*.png';
declare module '*.jpg';
declare module '*.jpeg';
declare module '*.svg'; 
".to_owned()
}

/// The HTML entry page around the project name.
pub open spec fn index_chars(name: Seq<char>) -> Seq<char> {
    r#"<!DOCTYPE html>
<html lang="en">
<head>
  <meta charset="utf-8">
  <meta http-equiv="X-UA-Compatible" content="IE=edge">
  <meta name="viewport" content="width=device-width,initial-scale=1.0">
  <title>"#@ + name + r#"</title>
</head>
<body>
  <noscript>
    <strong>We're sorry but "#@ + name + r#" doesn't work properly without JavaScript enabled. Please enable it to continue.</strong>
  </noscript>
  <div id="app"></div>
  <!-- built files will be auto injected -->
</body>
</html>
"#@
}

pub fn index(name: &String) -> (r: String)
    ensures
        r@ == index_chars(name@),
{
    let mut s = String::from_str(r#"<!DOCTYPE html>
<html lang="en">
<head>
  <meta charset="utf-8">
  <meta http-equiv="X-UA-Compatible" content="IE=edge">
  <meta name="viewport" content="width=device-width,initial-scale=1.0">
  <title>"#);
    s.append(name.as_str());
    s.append(r#"</title>
</head>
<body>
  <noscript>
    <strong>We're sorry but "#);
    s.append(name.as_str());
    s.append(r#" doesn't work properly without JavaScript enabled. Please enable it to continue.</strong>
  </noscript>
  <div id="app"></div>
  <!-- built files will be auto injected -->
</body>
</html>
"#);
    proof {
        assert(s@ =~= index_chars(name@));
    }
    s
}

/// The common template bundle: every document of a project except the
/// framework-specific source tree.
pub fn get(project: &ProjectProps) -> (r: Template)
    ensures
        r.scripts@ == scripts_v(),
        r.dependencies@ == dependencies_v(),
        r.dev_dependencies@ == dev_dependencies_v(),
        r.project_config@ == project_config_v(),
        r.tsconfig@ == tsconfig_v(),
        r.eslintrc@ == eslintrc_v(),
        r.readme@ == readme_chars(project.name@, project.user.name@),
        exists|y: int| r.mit_license@ == license_chars(y, project.user.name@, project.user.email@),
        r.index@ == index_chars(project.name@),
        r.app@.len() == 0,
{
    Template {
        scripts: scripts(),
        dependencies: dependencies(),
        dev_dependencies: dev_dependencies(),
        project_config: project_config(),
        tsconfig: tsconfig(),
        eslintrc: eslintrc(),
        readme: readme(project),
        mit_license: mit_license(&project.user),
        gitignore: gitignore(),
        postcss_config: postcss_config(),
        index_d: index_d(),
        index: index(&project.name),
        app: Vec::new(),
    }
}

} // verus!
