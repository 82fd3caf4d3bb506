//! The bundler configuration: the full development and production
//! configuration trees, the constant bindings, plugin instantiations and
//! module rules that are spliced into the rendered module source, and the
//! renderer from a configuration to its module-source lines.
use crate::json::{JVal, Json, jmerge, jobj_set, json_clone};
use crate::project_aliases::{Aliases, AliasesV, ProjectAliases, alias_path, aliases_json};
use crate::project_config::{DevCfgV, ProdCfgV, ProjectConfig};
use crate::templates::Framework;
use crate::text::{int_chars, push_char, strs_view};
use crate::transform::{InsertLines, ins_views, js_object_lines, json_to_js_object};
use vstd::prelude::*;
use vstd::string::*;

verus! {

/// A full bundler configuration: the persisted project configuration it
/// was derived from, the configuration tree, and the code fragments the
/// rendering splices in.
pub struct WebpackConfig {
    pub project_config: ProjectConfig,
    pub config: Json,
    pub constants: Vec<String>,
    pub plugins: Vec<String>,
    pub rules: Vec<String>,
}

/// The framework-specific additions to a bundler configuration.
pub struct WebpackFrameworkConfig {
    pub constants: Vec<String>,
    pub plugins: Vec<String>,
    pub rules: Vec<String>,
}

impl WebpackFrameworkConfig {
    /// The empty additions: what frameworks without bundler additions
    /// contribute.
    pub fn empty() -> (r: WebpackFrameworkConfig)
        ensures
            r.constants@.len() == 0,
            r.plugins@.len() == 0,
            r.rules@.len() == 0,
    {
        WebpackFrameworkConfig { constants: Vec::new(), plugins: Vec::new(), rules: Vec::new() }
    }
}

/// The development server URL a bundle is served from.
pub open spec fn dev_public_url(protocol: Seq<char>, host: Seq<char>, port: int) -> Seq<char> {
    protocol + "://"@ + host + ":"@ + int_chars(port) + "/"@
}

/// Render the development server URL.
pub fn dev_public_url_str(protocol: &str, host: &str, port: i32) -> (r: String)
    ensures
        r@ == dev_public_url(protocol@, host@, port as int),
{
    let mut s = protocol.to_owned();
    s.append("://");
    s.append(host);
    s.append(":");
    crate::text::fmt_i64_into(&mut s, port as i64);
    s.append("/");
    proof {
        assert(s@ =~= dev_public_url(protocol@, host@, port as int));
    }
    s
}

/// The five canonical aliases of every scaffolded project tree.
pub fn project_aliases(is_abs_path: bool) -> (r: ProjectAliases)
    ensures
        r.aliases@.src == "src"@,
        r.aliases@.build == "dist"@,
        r.aliases@.public == "public"@,
        r.aliases@.images == "src/images"@,
        r.aliases@.main == "src/main.ts"@,
        r.is_abs_path == is_abs_path,
{
    ProjectAliases {
        aliases: Aliases {
            src: "src".to_owned(),
            build: "dist".to_owned(),
            public: "public".to_owned(),
            images: "src/images".to_owned(),
            main: "src/main.ts".to_owned(),
        },
        is_abs_path,
    }
}

/// The development configuration tree.
pub open spec fn config_dev_v(
    a: AliasesV,
    is_abs: bool,
    cwd: Seq<char>,
    extra: JVal,
    dev: DevCfgV,
) -> JVal {
    jobj_set(jobj_set(jobj_set(jobj_set(jobj_set(jobj_set(jobj_set(jobj_set(jobj_set(jobj_set(jobj_set(jobj_set(jobj_set(jobj_set(JVal::Obj(Seq::empty()), "mode"@, JVal::Str("development"@)), "entry"@, JVal::Arr(seq![JVal::Str(alias_path(a.main, is_abs, cwd))])), "output"@, jobj_set(jobj_set(jobj_set(jobj_set(JVal::Obj(Seq::empty()), "path"@, JVal::Str(alias_path(a.build, is_abs, cwd))), "publicPath"@, JVal::Str(dev_public_url(dev.protocol, dev.host, dev.port))), "filename"@, JVal::Str("js/[name].[contenthash].bundle.js"@)), "assetModuleFilename"@, JVal::Str("assets/[hash][ext][query]"@))), "resolve"@, jobj_set(jobj_set(jobj_set(JVal::Obj(Seq::empty()), "modules"@, JVal::Arr(seq![JVal::Str(alias_path(a.src, is_abs, cwd)), JVal::Str("node_modules"@)])), "extensions"@, JVal::Arr(seq![JVal::Str(".tsx"@), JVal::Str(".ts"@), JVal::Str(".mjs"@), JVal::Str(".js"@), JVal::Str(".jsx"@), JVal::Str(".json"@), JVal::Str(".wasm"@), JVal::Str(".css"@)])), "alias"@, jmerge(aliases_json(a, is_abs, cwd), extra))), "module"@, jobj_set(JVal::Obj(Seq::empty()), "rules"@, JVal::Arr(Seq::empty()))), "plugins"@, JVal::Arr(Seq::empty())), "devtool"@, JVal::Str("inline-source-map"@)), "optimization"@, jobj_set(JVal::Obj(Seq::empty()), "minimize"@, JVal::Bool(false))), "performance"@, jobj_set(JVal::Obj(Seq::empty()), "hints"@, JVal::Bool(false))), "cache"@, JVal::Bool(false)), "target"@, JVal::Str("web"@)), "devServer"@, jobj_set(jobj_set(jobj_set(jobj_set(jobj_set(jobj_set(JVal::Obj(Seq::empty()), "historyApiFallback"@, JVal::Bool(true)), "compress"@, JVal::Bool(true)), "hot"@, JVal::Bool(true)), "port"@, JVal::Int(dev.port)), "static"@, JVal::Str("./"@)), "headers"@, jobj_set(jobj_set(jobj_set(JVal::Obj(Seq::empty()), "Access-Control-Allow-Origin"@, JVal::Str("*"@)), "Access-Control-Allow-Methods"@, JVal::Str("GET, POST, PUT, DELETE, PATCH, OPTIONS"@)), "Access-Control-Allow-Headers"@, JVal::Str("X-Requested-With, content-type, Authorization"@)))), "infrastructureLogging"@, jobj_set(JVal::Obj(Seq::empty()), "level"@, JVal::Str("warn"@))), "stats"@, jobj_set(jobj_set(JVal::Obj(Seq::empty()), "assets"@, JVal::Bool(false)), "modules"@, JVal::Bool(false)))
}

/// The production configuration tree.
pub open spec fn config_prod_v(
    a: AliasesV,
    is_abs: bool,
    cwd: Seq<char>,
    extra: JVal,
    prod: ProdCfgV,
) -> JVal {
    jobj_set(jobj_set(jobj_set(jobj_set(jobj_set(jobj_set(jobj_set(jobj_set(jobj_set(jobj_set(JVal::Obj(Seq::empty()), "mode"@, JVal::Str("production"@)), "entry"@, JVal::Arr(seq![JVal::Str(alias_path(a.main, is_abs, cwd))])), "output"@, jobj_set(jobj_set(jobj_set(jobj_set(jobj_set(jobj_set(JVal::Obj(Seq::empty()), "path"@, JVal::Str(alias_path(a.build, is_abs, cwd))), "publicPath"@, JVal::Str(prod.public_path)), "filename"@, JVal::Str("js/[name].[contenthash].bundle.js"@)), "assetModuleFilename"@, JVal::Str("assets/[hash][ext][query]"@)), "chunkFilename"@, JVal::Str("js/[name].[chunkhash].chunk.js"@)), "clean"@, JVal::Bool(true))), "resolve"@, jobj_set(jobj_set(jobj_set(JVal::Obj(Seq::empty()), "modules"@, JVal::Arr(seq![JVal::Str(alias_path(a.src, is_abs, cwd)), JVal::Str("node_modules"@)])), "extensions"@, JVal::Arr(seq![JVal::Str(".tsx"@), JVal::Str(".ts"@), JVal::Str(".mjs"@), JVal::Str(".js"@), JVal::Str(".jsx"@), JVal::Str(".json"@), JVal::Str(".wasm"@), JVal::Str(".css"@)])), "alias"@, jmerge(aliases_json(a, is_abs, cwd), extra))), "module"@, jobj_set(JVal::Obj(Seq::empty()), "rules"@, JVal::Arr(Seq::empty()))), "plugins"@, JVal::Arr(Seq::empty())), "stats"@, JVal::Str("errors-warnings"@)), "devtool"@, JVal::Bool(false)), "optimization"@, jobj_set(jobj_set(jobj_set(JVal::Obj(Seq::empty()), "minimize"@, JVal::Bool(false)), "sideEffects"@, JVal::Bool(true)), "concatenateModules"@, JVal::Bool(true))), "performance"@, jobj_set(jobj_set(jobj_set(JVal::Obj(Seq::empty()), "hints"@, JVal::Bool(false)), "maxEntrypointSize"@, JVal::Int(512000)), "maxAssetSize"@, JVal::Int(512000)))
}

/// Build the development configuration tree from the resolved aliases,
/// the extra aliases of the compiler configuration, and the development
/// settings.
#[verifier::rlimit(100)]
#[verifier::spinoff_prover]
pub fn config_dev(
    project_aliases_in: &ProjectAliases,
    project_config: &ProjectConfig,
    cwd: &str,
    extra: &Json,
) -> (r: Json)
    ensures
        r@ == config_dev_v(
            project_aliases_in.aliases@,
            project_aliases_in.is_abs_path,
            cwd@,
            extra@,
            project_config.dev@,
        ),
{
    let ghost a = project_aliases_in.aliases@;
    let is_abs = project_aliases_in.is_abs_path;
    let ghost dev = project_config.dev@;
    let main_path = ProjectAliases::get_path(&project_aliases_in.aliases.main, &is_abs, cwd);
    let build_path = ProjectAliases::get_path(&project_aliases_in.aliases.build, &is_abs, cwd);
    let src_path = ProjectAliases::get_path(&project_aliases_in.aliases.src, &is_abs, cwd);
    let public_url = dev_public_url_str(
        project_config.dev.protocol.as_str(),
        project_config.dev.host.as_str(),
        project_config.dev.port,
    );
    let port_i64: i64 = project_config.dev.port as i64;
    let mut pa = ProjectAliases {
        aliases: Aliases {
            src: project_aliases_in.aliases.src.clone(),
            build: project_aliases_in.aliases.build.clone(),
            public: project_aliases_in.aliases.public.clone(),
            images: project_aliases_in.aliases.images.clone(),
            main: project_aliases_in.aliases.main.clone(),
        },
        is_abs_path: is_abs,
    };
    let alias_json = pa.get_json(cwd, extra);
    let mut v1: Vec<Json> = Vec::new();
    v1.push(Json::Str(main_path));
    let v2 = Json::arr(v1);
    proof {
        assert(v1@[0]@ == JVal::Str(alias_path(a.main, is_abs, cwd@)));
        assert(crate::json::jviews(v1@) =~= seq![JVal::Str(alias_path(a.main, is_abs, cwd@))]);
        assert(v2@ =~~= JVal::Arr(seq![JVal::Str(alias_path(a.main, is_abs, cwd@))]));
    }
    let v3 = Json::obj().set("path", Json::Str(build_path)).set("publicPath", Json::Str(public_url)).set("filename", Json::string("js/[name].[contenthash].bundle.js")).set("assetModuleFilename", Json::string("assets/[hash][ext][query]"));
    let mut v4: Vec<Json> = Vec::new();
    v4.push(Json::Str(src_path));
    v4.push(Json::string("node_modules"));
    let v5 = Json::arr(v4);
    proof {
        assert(v4@[0]@ == JVal::Str(alias_path(a.src, is_abs, cwd@)));
        assert(v4@[1]@ == JVal::Str("node_modules"@));
        assert(crate::json::jviews(v4@) =~= seq![JVal::Str(alias_path(a.src, is_abs, cwd@)), JVal::Str("node_modules"@)]);
        assert(v5@ =~~= JVal::Arr(seq![JVal::Str(alias_path(a.src, is_abs, cwd@)), JVal::Str("node_modules"@)]));
    }
    let mut v6: Vec<Json> = Vec::new();
    v6.push(Json::string(".tsx"));
    v6.push(Json::string(".ts"));
    v6.push(Json::string(".mjs"));
    v6.push(Json::string(".js"));
    v6.push(Json::string(".jsx"));
    v6.push(Json::string(".json"));
    v6.push(Json::string(".wasm"));
    v6.push(Json::string(".css"));
    let v7 = Json::arr(v6);
    proof {
        assert(v6@[0]@ == JVal::Str(".tsx"@));
        assert(v6@[1]@ == JVal::Str(".ts"@));
        assert(v6@[2]@ == JVal::Str(".mjs"@));
        assert(v6@[3]@ == JVal::Str(".js"@));
        assert(v6@[4]@ == JVal::Str(".jsx"@));
        assert(v6@[5]@ == JVal::Str(".json"@));
        assert(v6@[6]@ == JVal::Str(".wasm"@));
        assert(v6@[7]@ == JVal::Str(".css"@));
        assert(crate::json::jviews(v6@) =~= seq![JVal::Str(".tsx"@), JVal::Str(".ts"@), JVal::Str(".mjs"@), JVal::Str(".js"@), JVal::Str(".jsx"@), JVal::Str(".json"@), JVal::Str(".wasm"@), JVal::Str(".css"@)]);
        assert(v7@ =~~= JVal::Arr(seq![JVal::Str(".tsx"@), JVal::Str(".ts"@), JVal::Str(".mjs"@), JVal::Str(".js"@), JVal::Str(".jsx"@), JVal::Str(".json"@), JVal::Str(".wasm"@), JVal::Str(".css"@)]));
    }
    let v8 = Json::obj().set("modules", v5).set("extensions", v7).set("alias", alias_json);
    let mut v9: Vec<Json> = Vec::new();
    let v10 = Json::arr(v9);
    proof {
        assert(crate::json::jviews(v9@) =~= Seq::empty());
        assert(v10@ =~~= JVal::Arr(Seq::empty()));
    }
    let v11 = Json::obj().set("rules", v10);
    let mut v12: Vec<Json> = Vec::new();
    let v13 = Json::arr(v12);
    proof {
        assert(crate::json::jviews(v12@) =~= Seq::empty());
        assert(v13@ =~~= JVal::Arr(Seq::empty()));
    }
    let v14 = Json::obj().set("minimize", Json::boolean(false));
    let v15 = Json::obj().set("hints", Json::boolean(false));
    let v16 = Json::obj().set("Access-Control-Allow-Origin", Json::string("*")).set("Access-Control-Allow-Methods", Json::string("GET, POST, PUT, DELETE, PATCH, OPTIONS")).set("Access-Control-Allow-Headers", Json::string("X-Requested-With, content-type, Authorization"));
    let v17 = Json::obj().set("historyApiFallback", Json::boolean(true)).set("compress", Json::boolean(true)).set("hot", Json::boolean(true)).set("port", Json::integer(port_i64)).set("static", Json::string("./")).set("headers", v16);
    let v18 = Json::obj().set("level", Json::string("warn"));
    let v19 = Json::obj().set("assets", Json::boolean(false)).set("modules", Json::boolean(false));
    let v20 = Json::obj().set("mode", Json::string("development")).set("entry", v2).set("output", v3).set("resolve", v8).set("module", v11).set("plugins", v13).set("devtool", Json::string("inline-source-map")).set("optimization", v14).set("performance", v15).set("cache", Json::boolean(false)).set("target", Json::string("web")).set("devServer", v17).set("infrastructureLogging", v18).set("stats", v19);
    proof {
        assert(v20@ == config_dev_v(a, is_abs, cwd@, extra@, dev));
    }
    v20
}

/// Build the production configuration tree.
#[verifier::rlimit(100)]
#[verifier::spinoff_prover]
pub fn config_prod(
    project_aliases_in: &ProjectAliases,
    project_config: &ProjectConfig,
    cwd: &str,
    extra: &Json,
) -> (r: Json)
    ensures
        r@ == config_prod_v(
            project_aliases_in.aliases@,
            project_aliases_in.is_abs_path,
            cwd@,
            extra@,
            project_config.prod@,
        ),
{
    let ghost a = project_aliases_in.aliases@;
    let is_abs = project_aliases_in.is_abs_path;
    let ghost prod = project_config.prod@;
    let main_path = ProjectAliases::get_path(&project_aliases_in.aliases.main, &is_abs, cwd);
    let build_path = ProjectAliases::get_path(&project_aliases_in.aliases.build, &is_abs, cwd);
    let src_path = ProjectAliases::get_path(&project_aliases_in.aliases.src, &is_abs, cwd);
    let public_path = project_config.prod.public_path.clone();
    let mut pa = ProjectAliases {
        aliases: Aliases {
            src: project_aliases_in.aliases.src.clone(),
            build: project_aliases_in.aliases.build.clone(),
            public: project_aliases_in.aliases.public.clone(),
            images: project_aliases_in.aliases.images.clone(),
            main: project_aliases_in.aliases.main.clone(),
        },
        is_abs_path: is_abs,
    };
    let alias_json = pa.get_json(cwd, extra);
    let mut v1: Vec<Json> = Vec::new();
    v1.push(Json::Str(main_path));
    let v2 = Json::arr(v1);
    proof {
        assert(v1@[0]@ == JVal::Str(alias_path(a.main, is_abs, cwd@)));
        assert(crate::json::jviews(v1@) =~= seq![JVal::Str(alias_path(a.main, is_abs, cwd@))]);
        assert(v2@ =~~= JVal::Arr(seq![JVal::Str(alias_path(a.main, is_abs, cwd@))]));
    }
    let v3 = Json::obj().set("path", Json::Str(build_path)).set("publicPath", Json::Str(public_path)).set("filename", Json::string("js/[name].[contenthash].bundle.js")).set("assetModuleFilename", Json::string("assets/[hash][ext][query]")).set("chunkFilename", Json::string("js/[name].[chunkhash].chunk.js")).set("clean", Json::boolean(true));
    let mut v4: Vec<Json> = Vec::new();
    v4.push(Json::Str(src_path));
    v4.push(Json::string("node_modules"));
    let v5 = Json::arr(v4);
    proof {
        assert(v4@[0]@ == JVal::Str(alias_path(a.src, is_abs, cwd@)));
        assert(v4@[1]@ == JVal::Str("node_modules"@));
        assert(crate::json::jviews(v4@) =~= seq![JVal::Str(alias_path(a.src, is_abs, cwd@)), JVal::Str("node_modules"@)]);
        assert(v5@ =~~= JVal::Arr(seq![JVal::Str(alias_path(a.src, is_abs, cwd@)), JVal::Str("node_modules"@)]));
    }
    let mut v6: Vec<Json> = Vec::new();
    v6.push(Json::string(".tsx"));
    v6.push(Json::string(".ts"));
    v6.push(Json::string(".mjs"));
    v6.push(Json::string(".js"));
    v6.push(Json::string(".jsx"));
    v6.push(Json::string(".json"));
    v6.push(Json::string(".wasm"));
    v6.push(Json::string(".css"));
    let v7 = Json::arr(v6);
    proof {
        assert(v6@[0]@ == JVal::Str(".tsx"@));
        assert(v6@[1]@ == JVal::Str(".ts"@));
        assert(v6@[2]@ == JVal::Str(".mjs"@));
        assert(v6@[3]@ == JVal::Str(".js"@));
        assert(v6@[4]@ == JVal::Str(".jsx"@));
        assert(v6@[5]@ == JVal::Str(".json"@));
        assert(v6@[6]@ == JVal::Str(".wasm"@));
        assert(v6@[7]@ == JVal::Str(".css"@));
        assert(crate::json::jviews(v6@) =~= seq![JVal::Str(".tsx"@), JVal::Str(".ts"@), JVal::Str(".mjs"@), JVal::Str(".js"@), JVal::Str(".jsx"@), JVal::Str(".json"@), JVal::Str(".wasm"@), JVal::Str(".css"@)]);
        assert(v7@ =~~= JVal::Arr(seq![JVal::Str(".tsx"@), JVal::Str(".ts"@), JVal::Str(".mjs"@), JVal::Str(".js"@), JVal::Str(".jsx"@), JVal::Str(".json"@), JVal::Str(".wasm"@), JVal::Str(".css"@)]));
    }
    let v8 = Json::obj().set("modules", v5).set("extensions", v7).set("alias", alias_json);
    let mut v9: Vec<Json> = Vec::new();
    let v10 = Json::arr(v9);
    proof {
        assert(crate::json::jviews(v9@) =~= Seq::empty());
        assert(v10@ =~~= JVal::Arr(Seq::empty()));
    }
    let v11 = Json::obj().set("rules", v10);
    let mut v12: Vec<Json> = Vec::new();
    let v13 = Json::arr(v12);
    proof {
        assert(crate::json::jviews(v12@) =~= Seq::empty());
        assert(v13@ =~~= JVal::Arr(Seq::empty()));
    }
    let v14 = Json::obj().set("minimize", Json::boolean(false)).set("sideEffects", Json::boolean(true)).set("concatenateModules", Json::boolean(true));
    let v15 = Json::obj().set("hints", Json::boolean(false)).set("maxEntrypointSize", Json::integer(512000)).set("maxAssetSize", Json::integer(512000));
    let v16 = Json::obj().set("mode", Json::string("production")).set("entry", v2).set("output", v3).set("resolve", v8).set("module", v11).set("plugins", v13).set("stats", Json::string("errors-warnings")).set("devtool", Json::boolean(false)).set("optimization", v14).set("performance", v15);
    proof {
        assert(v16@ == config_prod_v(a, is_abs, cwd@, extra@, prod));
    }
    v16
}

pub const CONFIG_DEV: &'static str = "webpack.config.dev.js";

pub const CONFIG_PROD: &'static str = "webpack.config.prod.js";

pub const IS_DEV: &'static str = "isDev = true;";

pub const IS_PROD: &'static str = "isDev = false;";

pub const PROCESS_CWD_CONST: &'static str = "cwd = process.cwd();";

pub const PATH_CONST: &'static str = "path = require('path');";

pub const WEBPACK_CONST: &'static str = "webpack = require('webpack');";

pub const FORK_TS_CHECKER_WEBPACK_PLUGIN_CONST: &'static str =
    "ForkTsCheckerWebpackPlugin = require('fork-ts-checker-webpack-plugin');";

pub const HTML_WEBPACK_PLUGIN_CONST: &'static str =
    "HtmlWebpackPlugin = require('html-webpack-plugin');";

pub const MINI_CSS_EXTRACT_PLUGIN_CONST: &'static str =
    "MiniCssExtractPlugin = require('mini-css-extract-plugin');";

pub const COPY_WEBPACK_PLUGIN_CONST: &'static str =
    "CopyWebpackPlugin = require('copy-webpack-plugin');";

/// The TypeScript module rule.
pub open spec fn tsx_rule_chars() -> Seq<char> {
    r"new Object({
  test: /\.tsx?$/,
  exclude: /(node_modules|\.webpack)/,
  use: {
    loader: 'ts-loader',
    options: {
      transpileOnly: true,
    },
  },
})"@
}

pub fn tsx_rule() -> (r: String)
    ensures
        r@ == tsx_rule_chars(),
{
    r"new Object({
  test: /\.tsx?$/,
  exclude: /(node_modules|\.webpack)/,
  use: {
    loader: 'ts-loader',
    options: {
      transpileOnly: true,
    },
  },
})".to_owned()
}

/// The stylesheet module rule.
pub open spec fn style_rule_chars() -> Seq<char> {
    r"new Object({
  test: /\.(sass|scss|css)$/,
  use: [
    { loader: isDev ? 'style-loader' : MiniCssExtractPlugin.loader },
    {
      loader: 'css-loader',
      options: {
        importLoaders: isDev ? 1 : 2,
        sourceMap: isDev,
        modules: isDev,
      },
    },
    { loader: 'postcss-loader', options: { sourceMap: isDev } },
    { loader: 'sass-loader', options: { sourceMap: isDev } },
  ],
})"@
}

pub fn style_rule() -> (r: String)
    ensures
        r@ == style_rule_chars(),
{
    r"new Object({
  test: /\.(sass|scss|css)$/,
  use: [
    { loader: isDev ? 'style-loader' : MiniCssExtractPlugin.loader },
    {
      loader: 'css-loader',
      options: {
        importLoaders: isDev ? 1 : 2,
        sourceMap: isDev,
        modules: isDev,
      },
    },
    { loader: 'postcss-loader', options: { sourceMap: isDev } },
    { loader: 'sass-loader', options: { sourceMap: isDev } },
  ],
})".to_owned()
}

/// The image-asset module rule.
pub open spec fn images_rule_chars() -> Seq<char> {
    r"new Object({
  test: /\.(?:ico|gif|png|jpe?g)$/i,
  type: 'asset/resource',
  generator: {
    filename: 'assets/[hash][ext][query]',
  },
})"@
}

pub fn images_rule() -> (r: String)
    ensures
        r@ == images_rule_chars(),
{
    r"new Object({
  test: /\.(?:ico|gif|png|jpe?g)$/i,
  type: 'asset/resource',
  generator: {
    filename: 'assets/[hash][ext][query]',
  },
})".to_owned()
}

/// The inline-asset module rule.
pub open spec fn inline_rule_chars() -> Seq<char> {
    r"new Object({
  test: /\.(woff(2)?|eot|ttf|otf|svg|)$/i,
  type: 'asset/inline',
})"@
}

pub fn inline_rule() -> (r: String)
    ensures
        r@ == inline_rule_chars(),
{
    r"new Object({
  test: /\.(woff(2)?|eot|ttf|otf|svg|)$/i,
  type: 'asset/inline',
})".to_owned()
}

/// The type-checker plugin instantiation.
pub open spec fn fork_ts_checker_webpack_plugin_chars() -> Seq<char> {
    r"new ForkTsCheckerWebpackPlugin()"@
}

pub fn fork_ts_checker_webpack_plugin() -> (r: String)
    ensures
        r@ == fork_ts_checker_webpack_plugin_chars(),
{
    r"new ForkTsCheckerWebpackPlugin()".to_owned()
}

/// The hot-reload plugin instantiation.
pub open spec fn hot_module_replacement_plugin_chars() -> Seq<char> {
    r"new webpack.HotModuleReplacementPlugin()"@
}

pub fn hot_module_replacement_plugin() -> (r: String)
    ensures
        r@ == hot_module_replacement_plugin_chars(),
{
    r"new webpack.HotModuleReplacementPlugin()".to_owned()
}

/// The HTML entry plugin instantiation.
pub open spec fn html_webpack_plugin_chars() -> Seq<char> {
    r"new HtmlWebpackPlugin({
  title: 'APP TITLE',
  favicon: path.resolve(cwd, './src/images/logo.svg'),
  template: path.resolve(cwd, './src/index.html'),
  filename: 'index.html'
})"@
}

pub fn html_webpack_plugin() -> (r: String)
    ensures
        r@ == html_webpack_plugin_chars(),
{
    r"new HtmlWebpackPlugin({
  title: 'APP TITLE',
  favicon: path.resolve(cwd, './src/images/logo.svg'),
  template: path.resolve(cwd, './src/index.html'),
  filename: 'index.html'
})".to_owned()
}

/// The stylesheet extraction plugin instantiation.
pub open spec fn mini_css_extract_plugin_chars() -> Seq<char> {
    r"new MiniCssExtractPlugin({
  filename: 'styles/[name].[chunkhash].css',
  chunkFilename: 'styles/[name].[chunkhash].chunk.css',
})"@
}

pub fn mini_css_extract_plugin() -> (r: String)
    ensures
        r@ == mini_css_extract_plugin_chars(),
{
    r"new MiniCssExtractPlugin({
  filename: 'styles/[name].[chunkhash].css',
  chunkFilename: 'styles/[name].[chunkhash].chunk.css',
})".to_owned()
}

/// The copied-assets plugin instantiation around the resolved public
/// directory.
pub open spec fn copy_webpack_plugin_chars(public: Seq<char>) -> Seq<char> {
    r#"new CopyWebpackPlugin({
  patterns: [{
    from: ""#@ + public + r#"",
    to: 'assets',
    globOptions: {
      ignore: ['*.DS_Store'],
    },
    noErrorOnMissing: true, 
  }],
})"#@
}

pub fn copy_webpack_plugin(public: &str) -> (r: String)
    ensures
        r@ == copy_webpack_plugin_chars(public@),
{
    let mut s = String::from_str(r#"new CopyWebpackPlugin({
  patterns: [{
    from: ""#);
    s.append(public);
    s.append(r#"",
    to: 'assets',
    globOptions: {
      ignore: ['*.DS_Store'],
    },
    noErrorOnMissing: true, 
  }],
})"#);
    proof {
        assert(s@ =~= copy_webpack_plugin_chars(public@));
    }
    s
}

impl Framework {
    /// The bundler additions for a framework: the React template
    /// registers its hot-refresh plugin, the others add nothing.
    pub fn get_webpack_config(&self) -> (r: WebpackFrameworkConfig)
        ensures
            match self {
                Framework::React => strs_view(r.constants@) == seq![
                    "ReactRefreshWebpackPlugin = require('@pmmmwh/react-refresh-webpack-plugin');"@,
                ] && strs_view(r.plugins@) == seq!["new ReactRefreshWebpackPlugin()"@]
                    && r.rules@.len() == 0,
                _ => r.constants@.len() == 0 && r.plugins@.len() == 0 && r.rules@.len() == 0,
            },
    {
        match self {
            Framework::React => {
                let r = crate::templates::react::get_webpack_config();
                r
            },
            _ => WebpackFrameworkConfig::empty(),
        }
    }
}

/// The common constant bindings of the development configuration.
pub open spec fn dev_constants_v() -> Seq<Seq<char>> {
    seq![
        "path = require('path');"@,
        "webpack = require('webpack');"@,
        "ForkTsCheckerWebpackPlugin = require('fork-ts-checker-webpack-plugin');"@,
        "CopyWebpackPlugin = require('copy-webpack-plugin');"@,
        "HtmlWebpackPlugin = require('html-webpack-plugin');"@,
        "cwd = process.cwd();"@,
        "isDev = true;"@,
    ]
}

/// The common constant bindings of the production configuration.
pub open spec fn prod_constants_v() -> Seq<Seq<char>> {
    seq![
        "path = require('path');"@,
        "webpack = require('webpack');"@,
        "ForkTsCheckerWebpackPlugin = require('fork-ts-checker-webpack-plugin');"@,
        "CopyWebpackPlugin = require('copy-webpack-plugin');"@,
        "HtmlWebpackPlugin = require('html-webpack-plugin');"@,
        "MiniCssExtractPlugin = require('mini-css-extract-plugin');"@,
        "cwd = process.cwd();"@,
        "isDev = false;"@,
    ]
}

/// The constant bindings a framework contributes.
pub open spec fn fw_constants_v(f: Framework) -> Seq<Seq<char>> {
    match f {
        Framework::React => seq![
            "ReactRefreshWebpackPlugin = require('@pmmmwh/react-refresh-webpack-plugin');"@,
        ],
        _ => Seq::empty(),
    }
}

/// The plugin instantiations a framework contributes.
pub open spec fn fw_plugins_v(f: Framework) -> Seq<Seq<char>> {
    match f {
        Framework::React => seq!["new ReactRefreshWebpackPlugin()"@],
        _ => Seq::empty(),
    }
}

/// The full development bundler configuration: the framework's constant
/// bindings, then the common ones; the common plugins, then the
/// framework's; the common module rules; and the development
/// configuration tree.
#[verifier::loop_isolation(false)]
#[verifier::rlimit(100)]
#[verifier::spinoff_prover]
pub fn get_config_dev(
    is_abs_path: bool,
    project_config: &ProjectConfig,
    cwd: &str,
    extra: &Json,
) -> (r: WebpackConfig)
    ensures
        r.project_config@ == project_config@,
        r.config@ == config_dev_v(
            AliasesV {
                src: "src"@,
                build: "dist"@,
                public: "public"@,
                images: "src/images"@,
                main: "src/main.ts"@,
            },
            is_abs_path,
            cwd@,
            extra@,
            project_config.dev@,
        ),
        strs_view(r.constants@) == fw_constants_v(project_config.app.framework)
            + dev_constants_v(),
        strs_view(r.plugins@) == seq![
            fork_ts_checker_webpack_plugin_chars(),
            copy_webpack_plugin_chars(alias_path("public"@, is_abs_path, cwd@)),
            html_webpack_plugin_chars(),
            hot_module_replacement_plugin_chars(),
        ] + fw_plugins_v(project_config.app.framework),
        strs_view(r.rules@) == seq![
            tsx_rule_chars(),
            style_rule_chars(),
            images_rule_chars(),
            inline_rule_chars(),
        ],
{
    let pa = project_aliases(is_abs_path);
    let fw = project_config.app.framework.get_webpack_config();
    let config = config_dev(&pa, project_config, cwd, extra);
    let mut constants: Vec<String> = fw.constants;
    constants.push(PATH_CONST.to_owned());
    constants.push(WEBPACK_CONST.to_owned());
    constants.push(FORK_TS_CHECKER_WEBPACK_PLUGIN_CONST.to_owned());
    constants.push(COPY_WEBPACK_PLUGIN_CONST.to_owned());
    constants.push(HTML_WEBPACK_PLUGIN_CONST.to_owned());
    constants.push(PROCESS_CWD_CONST.to_owned());
    constants.push(IS_DEV.to_owned());
    let public_resolved = ProjectAliases::get_path(&pa.aliases.public, &pa.is_abs_path, cwd);
    let mut plugins: Vec<String> = Vec::new();
    plugins.push(fork_ts_checker_webpack_plugin());
    plugins.push(copy_webpack_plugin(public_resolved.as_str()));
    plugins.push(html_webpack_plugin());
    plugins.push(hot_module_replacement_plugin());
    let mut fw_plugins = fw.plugins;
    plugins.append(&mut fw_plugins);
    let mut rules: Vec<String> = Vec::new();
    rules.push(tsx_rule());
    rules.push(style_rule());
    rules.push(images_rule());
    rules.push(inline_rule());
    let mut fw_rules = fw.rules;
    rules.append(&mut fw_rules);
    let r = WebpackConfig {
        project_config: project_config.duplicate(),
        config,
        constants,
        plugins,
        rules,
    };
    proof {
        assert(strs_view(r.constants@) =~= fw_constants_v(project_config.app.framework)
            + dev_constants_v());
        assert(strs_view(r.plugins@) =~= seq![
            fork_ts_checker_webpack_plugin_chars(),
            copy_webpack_plugin_chars(alias_path("public"@, is_abs_path, cwd@)),
            html_webpack_plugin_chars(),
            hot_module_replacement_plugin_chars(),
        ] + fw_plugins_v(project_config.app.framework));
        assert(strs_view(r.rules@) =~= seq![
            tsx_rule_chars(),
            style_rule_chars(),
            images_rule_chars(),
            inline_rule_chars(),
        ]);
    }
    r
}

/// The full production bundler configuration.
#[verifier::loop_isolation(false)]
#[verifier::rlimit(100)]
#[verifier::spinoff_prover]
pub fn get_config_prod(
    is_abs_path: bool,
    project_config: &ProjectConfig,
    cwd: &str,
    extra: &Json,
) -> (r: WebpackConfig)
    ensures
        r.project_config@ == project_config@,
        r.config@ == config_prod_v(
            AliasesV {
                src: "src"@,
                build: "dist"@,
                public: "public"@,
                images: "src/images"@,
                main: "src/main.ts"@,
            },
            is_abs_path,
            cwd@,
            extra@,
            project_config.prod@,
        ),
        strs_view(r.constants@) == fw_constants_v(project_config.app.framework)
            + prod_constants_v(),
        strs_view(r.plugins@) == seq![
            fork_ts_checker_webpack_plugin_chars(),
            copy_webpack_plugin_chars(alias_path("public"@, is_abs_path, cwd@)),
            html_webpack_plugin_chars(),
            mini_css_extract_plugin_chars(),
            hot_module_replacement_plugin_chars(),
        ] + fw_plugins_v(project_config.app.framework),
        strs_view(r.rules@) == seq![
            tsx_rule_chars(),
            style_rule_chars(),
            images_rule_chars(),
            inline_rule_chars(),
        ],
{
    let pa = project_aliases(is_abs_path);
    let fw = project_config.app.framework.get_webpack_config();
    let config = config_prod(&pa, project_config, cwd, extra);
    let mut constants: Vec<String> = fw.constants;
    constants.push(PATH_CONST.to_owned());
    constants.push(WEBPACK_CONST.to_owned());
    constants.push(FORK_TS_CHECKER_WEBPACK_PLUGIN_CONST.to_owned());
    constants.push(COPY_WEBPACK_PLUGIN_CONST.to_owned());
    constants.push(HTML_WEBPACK_PLUGIN_CONST.to_owned());
    constants.push(MINI_CSS_EXTRACT_PLUGIN_CONST.to_owned());
    constants.push(PROCESS_CWD_CONST.to_owned());
    constants.push(IS_PROD.to_owned());
    let public_resolved = ProjectAliases::get_path(&pa.aliases.public, &pa.is_abs_path, cwd);
    let mut plugins: Vec<String> = Vec::new();
    plugins.push(fork_ts_checker_webpack_plugin());
    plugins.push(copy_webpack_plugin(public_resolved.as_str()));
    plugins.push(html_webpack_plugin());
    plugins.push(mini_css_extract_plugin());
    plugins.push(hot_module_replacement_plugin());
    let mut fw_plugins = fw.plugins;
    plugins.append(&mut fw_plugins);
    let mut rules: Vec<String> = Vec::new();
    rules.push(tsx_rule());
    rules.push(style_rule());
    rules.push(images_rule());
    rules.push(inline_rule());
    let mut fw_rules = fw.rules;
    rules.append(&mut fw_rules);
    let r = WebpackConfig {
        project_config: project_config.duplicate(),
        config,
        constants,
        plugins,
        rules,
    };
    proof {
        assert(strs_view(r.constants@) =~= fw_constants_v(project_config.app.framework)
            + prod_constants_v());
        assert(strs_view(r.plugins@) =~= seq![
            fork_ts_checker_webpack_plugin_chars(),
            copy_webpack_plugin_chars(alias_path("public"@, is_abs_path, cwd@)),
            html_webpack_plugin_chars(),
            mini_css_extract_plugin_chars(),
            hot_module_replacement_plugin_chars(),
        ] + fw_plugins_v(project_config.app.framework));
        assert(strs_view(r.rules@) =~= seq![
            tsx_rule_chars(),
            style_rule_chars(),
            images_rule_chars(),
            inline_rule_chars(),
        ]);
    }
    r
}

/// The fragments joined with `",\n"`: a comma after the last line of
/// each but the final one.
pub open spec fn join_commanl(items: Seq<Seq<char>>) -> Seq<char>
    decreases items.len(),
{
    if items.len() == 0 {
        Seq::empty()
    } else if items.len() == 1 {
        items[0]
    } else {
        items[0] + seq![','] + seq!['\n'] + join_commanl(items.drop_first())
    }
}

/// A text split at every newline; one more line than newlines, so empty
/// text is one empty line.
pub open spec fn split_nl(s: Seq<char>) -> Seq<Seq<char>>
    decreases s.len(),
    via split_nl_dec
{
    match crate::transform::find_at(s, seq!['\n']) {
        Some(i) => seq![s.take(i)] + split_nl(s.skip(i + 1)),
        None => seq![s],
    }
}

#[via_fn]
proof fn split_nl_dec(s: Seq<char>) {
    crate::project_aliases::lemma_find_at_bounds(s, seq!['\n']);
}

/// Join the code fragments and hand them back line by line.
#[verifier::loop_isolation(false)]
#[verifier::rlimit(100)]
#[verifier::spinoff_prover]
pub fn flatten_fragments(items: &Vec<String>) -> (r: Vec<String>)
    ensures
        strs_view(r@) == split_nl(join_commanl(strs_view(items@))),
{
    let ghost iv = strs_view(items@);
    let mut joined = String::new();
    let mut i: usize = 0;
    proof {
        assert(iv.skip(0) =~= iv);
    }
    while i < items.len()
        invariant
            i <= items@.len(),
            joined@ + join_commanl(iv.skip(i as int)) == join_commanl(iv),
        decreases items@.len() - i,
    {
        let ghost pre = joined@;
        let ghost rest = join_commanl(iv.skip(i as int));
        proof {
            assert(iv.skip(i as int)[0] == iv[i as int]);
            assert(iv.skip(i as int).drop_first() =~= iv.skip(i as int + 1));
        }
        joined.append(items[i].as_str());
        if i + 1 < items.len() {
            crate::text::push_char(&mut joined, ',');
            crate::text::push_char(&mut joined, '\n');
            proof {
                assert(rest == iv[i as int] + seq![','] + seq!['\n'] + join_commanl(
                    iv.skip(i as int + 1),
                ));
                assert(joined@ =~= pre + iv[i as int] + seq![','] + seq!['\n']);
                assert(joined@ + join_commanl(iv.skip(i as int + 1)) =~= pre + rest);
            }
        } else {
            proof {
                assert(iv.skip(i as int).len() == 1);
                assert(rest == iv[i as int]);
                assert(iv.skip(i as int + 1) =~= Seq::<Seq<char>>::empty());
                assert(joined@ + join_commanl(iv.skip(i as int + 1)) =~= pre + rest);
            }
        }
        i = i + 1;
    }
    proof {
        if items@.len() == 0 {
            assert(joined@ =~= join_commanl(iv));
        } else {
            assert(iv.skip(items@.len() as int) =~= Seq::<Seq<char>>::empty());
            assert(joined@ + join_commanl(Seq::<Seq<char>>::empty()) =~= joined@);
        }
    }
    split_newlines(joined.as_str())
}

/// Split a text at every newline.
pub fn split_newlines(s: &str) -> (r: Vec<String>)
    ensures
        strs_view(r@) == split_nl(s@),
    decreases s@.len(),
{
    let n = s.unicode_len();
    proof {
        reveal_strlit("\n");
        assert("\n"@ =~= seq!['\n']);
    }
    match crate::transform::find_sub(s, "\n") {
        Some(i) => {
            let head = s.substring_char(0, i);
            let tail = s.substring_char(i + 1, n);
            let mut rest = split_newlines(tail);
            let mut out: Vec<String> = Vec::new();
            out.push(head.to_owned());
            out.append(&mut rest);
            proof {
                assert(head@ =~= s@.take(i as int));
                assert(tail@ =~= s@.skip(i as int + 1));
                assert(strs_view(out@) =~= seq![s@.take(i as int)] + split_nl(
                    s@.skip(i as int + 1),
                ));
            }
            out
        },
        None => {
            let mut out: Vec<String> = Vec::new();
            out.push(s.to_owned());
            proof {
                assert(strs_view(out@) =~= seq![s@]);
            }
            out
        },
    }
}

/// The insertion pattern the module rules are spliced in at.
pub open spec fn rules_into() -> Seq<char> {
    "\"rules\": [%s],"@
}

/// The insertion pattern the plugins are spliced in at.
pub open spec fn plugins_into() -> Seq<char> {
    "\"plugins\": [%s],"@
}

/// The module-source lines of a full bundler configuration: one constant
/// binding per line, a blank line, then the configuration tree as module
/// source with the rules and plugins spliced in at their patterns.
pub open spec fn js_config_lines_v(
    constants: Seq<Seq<char>>,
    rules: Seq<Seq<char>>,
    plugins: Seq<Seq<char>>,
    cfg: crate::json::JVal,
) -> Seq<Seq<char>> {
    Seq::new(
        constants.len(),
        |i: int|
            if 0 <= i < constants.len() {
                "const "@ + constants[i]
            } else {
                Seq::empty()
            },
    ) + seq![Seq::<char>::empty()] + js_object_lines(
        cfg,
        seq![
            (split_nl(join_commanl(rules)), rules_into()),
            (split_nl(join_commanl(plugins)), plugins_into()),
        ],
    )
}

/// Render a full bundler configuration to its module-source lines.
#[verifier::loop_isolation(false)]
#[verifier::rlimit(100)]
#[verifier::spinoff_prover]
pub fn get_js_config(config: &WebpackConfig) -> (r: Vec<String>)
    ensures
        strs_view(r@) == js_config_lines_v(
            strs_view(config.constants@),
            strs_view(config.rules@),
            strs_view(config.plugins@),
            config.config@,
        ),
{
    let ghost cs = strs_view(config.constants@);
    let ghost imports_v = Seq::new(
        cs.len(),
        |i: int|
            if 0 <= i < cs.len() {
                "const "@ + cs[i]
            } else {
                Seq::empty()
            },
    );
    let mut out: Vec<String> = Vec::new();
    let mut i: usize = 0;
    while i < config.constants.len()
        invariant
            i <= config.constants@.len(),
            out@.len() == i,
            forall|t: int| 0 <= t < i ==> (#[trigger] out@[t])@ == "const "@ + cs[t],
        decreases config.constants@.len() - i,
    {
        let mut line = String::from_str("const ");
        line.append(config.constants[i].as_str());
        out.push(line);
        i = i + 1;
    }
    out.push(String::new());
    let rules_lines = flatten_fragments(&config.rules);
    let plugins_lines = flatten_fragments(&config.plugins);
    let mut inserts: Vec<InsertLines> = Vec::new();
    inserts.push(InsertLines { lines: rules_lines, into: "\"rules\": [%s],".to_owned() });
    inserts.push(InsertLines { lines: plugins_lines, into: "\"plugins\": [%s],".to_owned() });
    let mut body = json_to_js_object(&config.config, &inserts);
    proof {
        assert(ins_views(inserts@) =~= seq![
            (split_nl(join_commanl(strs_view(config.rules@))), rules_into()),
            (split_nl(join_commanl(strs_view(config.plugins@))), plugins_into()),
        ]);
    }
    out.append(&mut body);
    proof {
        assert(strs_view(out@) =~= js_config_lines_v(
            cs,
            strs_view(config.rules@),
            strs_view(config.plugins@),
            config.config@,
        ));
    }
    out
}

} // verus!
