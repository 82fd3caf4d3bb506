//! The persisted project configuration: application identity, development
//! server settings and production settings. The persisted form is sparse
//! (fields at their zero value are left out), and every load re-applies
//! the compiled-in defaults, so a missing field comes back as its
//! default.
use crate::json::{JVal, Json, jlookup, jobj_set, lemma_flookup_fset, flookup, fset};
use crate::templates::{Framework, ProjectProps};
use crate::text::upper_of;
use vstd::prelude::*;
use vstd::string::*;

verus! {

/// Which bundler environment a command targets.
pub enum EnvType {
    Dev,
    Prod,
}

pub struct AppConfig {
    pub name: String,
    pub title: String,
    pub framework: Framework,
}

pub struct DevConfig {
    pub public_path: String,
    pub protocol: String,
    pub host: String,
    pub port: i32,
    pub config: String,
}

pub struct ProdConfig {
    pub public_path: String,
    pub config: String,
}

pub struct ProjectConfig {
    pub app: AppConfig,
    pub dev: DevConfig,
    pub prod: ProdConfig,
}

#[verifier::ext_equal]
pub struct AppCfgV {
    pub name: Seq<char>,
    pub title: Seq<char>,
    pub framework: Framework,
}

#[verifier::ext_equal]
pub struct DevCfgV {
    pub public_path: Seq<char>,
    pub protocol: Seq<char>,
    pub host: Seq<char>,
    pub port: int,
    pub config: Seq<char>,
}

#[verifier::ext_equal]
pub struct ProdCfgV {
    pub public_path: Seq<char>,
    pub config: Seq<char>,
}

#[verifier::ext_equal]
pub struct ProjectCfgV {
    pub app: AppCfgV,
    pub dev: DevCfgV,
    pub prod: ProdCfgV,
}

impl View for AppConfig {
    type V = AppCfgV;

    open spec fn view(&self) -> AppCfgV {
        AppCfgV { name: self.name@, title: self.title@, framework: self.framework }
    }
}

impl View for DevConfig {
    type V = DevCfgV;

    open spec fn view(&self) -> DevCfgV {
        DevCfgV {
            public_path: self.public_path@,
            protocol: self.protocol@,
            host: self.host@,
            port: self.port as int,
            config: self.config@,
        }
    }
}

impl View for ProdConfig {
    type V = ProdCfgV;

    open spec fn view(&self) -> ProdCfgV {
        ProdCfgV { public_path: self.public_path@, config: self.config@ }
    }
}

impl View for ProjectConfig {
    type V = ProjectCfgV;

    open spec fn view(&self) -> ProjectCfgV {
        ProjectCfgV { app: self.app@, dev: self.dev@, prod: self.prod@ }
    }
}

/// The compiled-in defaults: development server on `http://localhost:8080`,
/// root public paths, everything else empty.
pub open spec fn default_cfg() -> ProjectCfgV {
    ProjectCfgV {
        app: AppCfgV { name: Seq::empty(), title: Seq::empty(), framework: Framework::Vanilla },
        dev: DevCfgV {
            public_path: "/"@,
            protocol: "http"@,
            host: "localhost"@,
            port: 8080,
            config: Seq::empty(),
        },
        prod: ProdCfgV { public_path: "/"@, config: Seq::empty() },
    }
}

/// Re-apply the compiled-in defaults: a field at its zero value takes
/// the default value instead (which, for the fields whose default is
/// the zero value, changes nothing).
pub open spec fn normalize_cfg(c: ProjectCfgV) -> ProjectCfgV {
    ProjectCfgV {
        app: c.app,
        dev: DevCfgV {
            public_path: if c.dev.public_path.len() == 0 {
                "/"@
            } else {
                c.dev.public_path
            },
            protocol: if c.dev.protocol.len() == 0 {
                "http"@
            } else {
                c.dev.protocol
            },
            host: if c.dev.host.len() == 0 {
                "localhost"@
            } else {
                c.dev.host
            },
            port: if c.dev.port == 0 {
                8080
            } else {
                c.dev.port
            },
            config: c.dev.config,
        },
        prod: ProdCfgV {
            public_path: if c.prod.public_path.len() == 0 {
                "/"@
            } else {
                c.prod.public_path
            },
            config: c.prod.config,
        },
    }
}

/// The tag a framework is persisted as.
pub open spec fn framework_tag(f: Framework) -> Seq<char> {
    match f {
        Framework::Vanilla => "none"@,
        Framework::React => "react"@,
        Framework::Vue => "vue"@,
    }
}

pub open spec fn parse_framework(v: JVal) -> Framework {
    if v == JVal::Str("react"@) {
        Framework::React
    } else if v == JVal::Str("vue"@) {
        Framework::Vue
    } else {
        Framework::Vanilla
    }
}

/// One optional field of the sparse form: set only when off its zero
/// value.
pub open spec fn sparse_str(o: JVal, key: Seq<char>, v: Seq<char>) -> JVal {
    if v.len() == 0 {
        o
    } else {
        jobj_set(o, key, JVal::Str(v))
    }
}

pub open spec fn empty_obj() -> JVal {
    JVal::Obj(Seq::empty())
}

/// The sparse document form of the application section.
pub open spec fn sparse_app(a: AppCfgV) -> JVal {
    let o = empty_obj();
    let o = sparse_str(o, "name"@, a.name);
    let o = sparse_str(o, "title"@, a.title);
    if a.framework == Framework::Vanilla {
        o
    } else {
        jobj_set(o, "framework"@, JVal::Str(framework_tag(a.framework)))
    }
}

/// The sparse document form of the development section.
pub open spec fn sparse_dev(d: DevCfgV) -> JVal {
    let o = empty_obj();
    let o = sparse_str(o, "public_path"@, d.public_path);
    let o = sparse_str(o, "protocol"@, d.protocol);
    let o = sparse_str(o, "host"@, d.host);
    let o = if d.port == 0 {
        o
    } else {
        jobj_set(o, "port"@, JVal::Int(d.port))
    };
    sparse_str(o, "config"@, d.config)
}

/// The sparse document form of the production section.
pub open spec fn sparse_prod(p: ProdCfgV) -> JVal {
    let o = empty_obj();
    let o = sparse_str(o, "public_path"@, p.public_path);
    sparse_str(o, "config"@, p.config)
}

/// The sparse persisted form: the three sections are always present,
/// fields at their zero value are left out of them.
pub open spec fn sparse_cfg(c: ProjectCfgV) -> JVal {
    let o = empty_obj();
    let o = jobj_set(o, "app"@, sparse_app(c.app));
    let o = jobj_set(o, "dev"@, sparse_dev(c.dev));
    jobj_set(o, "prod"@, sparse_prod(c.prod))
}

pub open spec fn read_str(v: JVal, key: Seq<char>) -> Seq<char> {
    match jlookup(v, key) {
        Some(JVal::Str(s)) => s,
        _ => Seq::empty(),
    }
}

pub open spec fn read_port(v: JVal, key: Seq<char>) -> int {
    match jlookup(v, key) {
        Some(JVal::Int(n)) => if -0x80000000 <= n <= 0x7fffffff {
            n
        } else {
            0
        },
        _ => 0,
    }
}

/// Read a configuration from its document form; missing or ill-typed
/// fields come back at their zero value.
pub open spec fn parse_cfg(v: JVal) -> ProjectCfgV {
    let app = match jlookup(v, "app"@) {
        Some(a) => a,
        None => empty_obj(),
    };
    let dev = match jlookup(v, "dev"@) {
        Some(d) => d,
        None => empty_obj(),
    };
    let prod = match jlookup(v, "prod"@) {
        Some(p) => p,
        None => empty_obj(),
    };
    ProjectCfgV {
        app: AppCfgV {
            name: read_str(app, "name"@),
            title: read_str(app, "title"@),
            framework: match jlookup(app, "framework"@) {
                Some(f) => parse_framework(f),
                None => Framework::Vanilla,
            },
        },
        dev: DevCfgV {
            public_path: read_str(dev, "public_path"@),
            protocol: read_str(dev, "protocol"@),
            host: read_str(dev, "host"@),
            port: read_port(dev, "port"@),
            config: read_str(dev, "config"@),
        },
        prod: ProdCfgV {
            public_path: read_str(prod, "public_path"@),
            config: read_str(prod, "config"@),
        },
    }
}

/// The fixed name of the persisted configuration file in the project
/// root.
pub const PROJECT_CONFIG: &'static str = "lyrn.json";

proof fn lemma_lookup_set(o: JVal, k: Seq<char>, x: JVal, k2: Seq<char>)
    requires
        o is Obj,
    ensures
        jobj_set(o, k, x) is Obj,
        jlookup(jobj_set(o, k, x), k2) == if k2 == k {
            Some(x)
        } else {
            jlookup(o, k2)
        },
{
    lemma_flookup_fset(o.arrow_Obj_0(), k, x, k2);
}

proof fn lemma_lookup_sparse_str(o: JVal, k: Seq<char>, v: Seq<char>, k2: Seq<char>)
    requires
        o is Obj,
    ensures
        sparse_str(o, k, v) is Obj,
        jlookup(sparse_str(o, k, v), k2) == if k2 == k && v.len() != 0 {
            Some(JVal::Str(v))
        } else {
            jlookup(o, k2)
        },
{
    if v.len() != 0 {
        lemma_lookup_set(o, k, JVal::Str(v), k2);
    } else {
        if k2 == k {
            assert(flookup(o.arrow_Obj_0(), k2) == jlookup(o, k2));
        }
    }
}

proof fn lemma_lookup_empty(k: Seq<char>)
    ensures
        jlookup(empty_obj(), k) is None,
{
    assert(flookup(Seq::<(Seq<char>, JVal)>::empty(), k) is None);
}

/// What each field of the development section reads back as from its
/// sparse form.
proof fn lemma_sparse_dev_reads(d: DevCfgV)
    requires
        -0x80000000 <= d.port <= 0x7fffffff,
    ensures
        read_str(sparse_dev(d), "public_path"@) == d.public_path,
        read_str(sparse_dev(d), "protocol"@) == d.protocol,
        read_str(sparse_dev(d), "host"@) == d.host,
        read_port(sparse_dev(d), "port"@) == d.port,
        read_str(sparse_dev(d), "config"@) == d.config,
{
    reveal_strlit("public_path");
    reveal_strlit("protocol");
    reveal_strlit("host");
    reveal_strlit("port");
    reveal_strlit("config");
    assert("public_path"@ != "protocol"@) by {
        assert("public_path"@[1] == 'u' && "protocol"@[1] == 'r');
    }
    assert("public_path"@ != "host"@) by {
        assert("public_path"@[0] == 'p' && "host"@[0] == 'h');
    }
    assert("public_path"@ != "port"@) by {
        assert("public_path"@[1] == 'u' && "port"@[1] == 'o');
    }
    assert("public_path"@ != "config"@) by {
        assert("public_path"@[0] == 'p' && "config"@[0] == 'c');
    }
    assert("protocol"@ != "host"@) by {
        assert("protocol"@[0] == 'p' && "host"@[0] == 'h');
    }
    assert("protocol"@ != "port"@) by {
        assert("protocol"@[1] == 'r' && "port"@[1] == 'o');
    }
    assert("protocol"@ != "config"@) by {
        assert("protocol"@[0] == 'p' && "config"@[0] == 'c');
    }
    assert("host"@ != "port"@) by {
        assert("host"@[0] == 'h' && "port"@[0] == 'p');
    }
    assert("host"@ != "config"@) by {
        assert("host"@[0] == 'h' && "config"@[0] == 'c');
    }
    assert("port"@ != "config"@) by {
        assert("port"@[0] == 'p' && "config"@[0] == 'c');
    }
    let o0 = empty_obj();
    let o1 = sparse_str(o0, "public_path"@, d.public_path);
    let o2 = sparse_str(o1, "protocol"@, d.protocol);
    let o3 = sparse_str(o2, "host"@, d.host);
    let o4 = if d.port == 0 {
        o3
    } else {
        jobj_set(o3, "port"@, JVal::Int(d.port))
    };
    let o5 = sparse_str(o4, "config"@, d.config);
    assert(sparse_dev(d) == o5);
    lemma_lookup_sparse_str(o0, "public_path"@, d.public_path, "public_path"@);
    lemma_lookup_sparse_str(o0, "public_path"@, d.public_path, "protocol"@);
    lemma_lookup_sparse_str(o0, "public_path"@, d.public_path, "host"@);
    lemma_lookup_sparse_str(o0, "public_path"@, d.public_path, "port"@);
    lemma_lookup_sparse_str(o0, "public_path"@, d.public_path, "config"@);
    lemma_lookup_sparse_str(o1, "protocol"@, d.protocol, "public_path"@);
    lemma_lookup_sparse_str(o1, "protocol"@, d.protocol, "protocol"@);
    lemma_lookup_sparse_str(o1, "protocol"@, d.protocol, "host"@);
    lemma_lookup_sparse_str(o1, "protocol"@, d.protocol, "port"@);
    lemma_lookup_sparse_str(o1, "protocol"@, d.protocol, "config"@);
    lemma_lookup_sparse_str(o2, "host"@, d.host, "public_path"@);
    lemma_lookup_sparse_str(o2, "host"@, d.host, "protocol"@);
    lemma_lookup_sparse_str(o2, "host"@, d.host, "host"@);
    lemma_lookup_sparse_str(o2, "host"@, d.host, "port"@);
    lemma_lookup_sparse_str(o2, "host"@, d.host, "config"@);
    if d.port != 0 {
        lemma_lookup_set(o3, "port"@, JVal::Int(d.port), "public_path"@);
        lemma_lookup_set(o3, "port"@, JVal::Int(d.port), "protocol"@);
        lemma_lookup_set(o3, "port"@, JVal::Int(d.port), "host"@);
        lemma_lookup_set(o3, "port"@, JVal::Int(d.port), "port"@);
        lemma_lookup_set(o3, "port"@, JVal::Int(d.port), "config"@);
    }
    lemma_lookup_sparse_str(o4, "config"@, d.config, "public_path"@);
    lemma_lookup_sparse_str(o4, "config"@, d.config, "protocol"@);
    lemma_lookup_sparse_str(o4, "config"@, d.config, "host"@);
    lemma_lookup_sparse_str(o4, "config"@, d.config, "port"@);
    lemma_lookup_sparse_str(o4, "config"@, d.config, "config"@);
    lemma_lookup_empty("public_path"@);
    lemma_lookup_empty("protocol"@);
    lemma_lookup_empty("host"@);
    lemma_lookup_empty("port"@);
    lemma_lookup_empty("config"@);
}

/// What each field of the application section reads back as.
proof fn lemma_sparse_app_reads(a: AppCfgV)
    ensures
        read_str(sparse_app(a), "name"@) == a.name,
        read_str(sparse_app(a), "title"@) == a.title,
        parse_cfg_framework(sparse_app(a)) == a.framework,
{
    reveal_strlit("name");
    reveal_strlit("title");
    reveal_strlit("framework");
    reveal_strlit("none");
    reveal_strlit("react");
    reveal_strlit("vue");
    assert("name"@ != "title"@) by {
        assert("name"@[0] == 'n' && "title"@[0] == 't');
    }
    assert("name"@ != "framework"@) by {
        assert("name"@[0] == 'n' && "framework"@[0] == 'f');
    }
    assert("title"@ != "framework"@) by {
        assert("title"@[0] == 't' && "framework"@[0] == 'f');
    }
    assert("react"@ != "vue"@) by {
        assert("react"@[0] == 'r' && "vue"@[0] == 'v');
    }
    let o0 = empty_obj();
    let o1 = sparse_str(o0, "name"@, a.name);
    let o2 = sparse_str(o1, "title"@, a.title);
    lemma_lookup_sparse_str(o0, "name"@, a.name, "name"@);
    lemma_lookup_sparse_str(o0, "name"@, a.name, "title"@);
    lemma_lookup_sparse_str(o0, "name"@, a.name, "framework"@);
    lemma_lookup_sparse_str(o1, "title"@, a.title, "name"@);
    lemma_lookup_sparse_str(o1, "title"@, a.title, "title"@);
    lemma_lookup_sparse_str(o1, "title"@, a.title, "framework"@);
    if a.framework != Framework::Vanilla {
        lemma_lookup_set(o2, "framework"@, JVal::Str(framework_tag(a.framework)), "name"@);
        lemma_lookup_set(o2, "framework"@, JVal::Str(framework_tag(a.framework)), "title"@);
        lemma_lookup_set(o2, "framework"@, JVal::Str(framework_tag(a.framework)), "framework"@);
    }
    lemma_lookup_empty("name"@);
    lemma_lookup_empty("title"@);
    lemma_lookup_empty("framework"@);
}

/// The framework a section's document form parses back to.
pub open spec fn parse_cfg_framework(app: JVal) -> Framework {
    match jlookup(app, "framework"@) {
        Some(f) => parse_framework(f),
        None => Framework::Vanilla,
    }
}

/// What each field of the production section reads back as.
proof fn lemma_sparse_prod_reads(p: ProdCfgV)
    ensures
        read_str(sparse_prod(p), "public_path"@) == p.public_path,
        read_str(sparse_prod(p), "config"@) == p.config,
{
    reveal_strlit("public_path");
    reveal_strlit("config");
    assert("public_path"@ != "config"@) by {
        assert("public_path"@[0] == 'p' && "config"@[0] == 'c');
    }
    let o0 = empty_obj();
    let o1 = sparse_str(o0, "public_path"@, p.public_path);
    lemma_lookup_sparse_str(o0, "public_path"@, p.public_path, "public_path"@);
    lemma_lookup_sparse_str(o0, "public_path"@, p.public_path, "config"@);
    lemma_lookup_sparse_str(o1, "config"@, p.config, "public_path"@);
    lemma_lookup_sparse_str(o1, "config"@, p.config, "config"@);
    lemma_lookup_empty("public_path"@);
    lemma_lookup_empty("config"@);
}

/// Sparse persistence round-trip: writing a configuration in its sparse
/// form and reading it back yields, after the defaults are re-applied,
/// exactly the configuration with its defaults re-applied. Holds for
/// every configuration whose port is a machine integer.
pub proof fn lemma_sparse_round_trip(c: ProjectCfgV)
    requires
        -0x80000000 <= c.dev.port <= 0x7fffffff,
    ensures
        normalize_cfg(parse_cfg(sparse_cfg(normalize_cfg(c)))) == normalize_cfg(c),
{
    let n = normalize_cfg(c);
    reveal_strlit("app");
    reveal_strlit("dev");
    reveal_strlit("prod");
    reveal_strlit("/");
    reveal_strlit("http");
    reveal_strlit("localhost");
    assert("app"@ != "dev"@) by {
        assert("app"@[0] == 'a' && "dev"@[0] == 'd');
    }
    assert("app"@ != "prod"@) by {
        assert("app"@[0] == 'a' && "prod"@[0] == 'p');
    }
    assert("dev"@ != "prod"@) by {
        assert("dev"@[0] == 'd' && "prod"@[0] == 'p');
    }
    let o0 = empty_obj();
    let o1 = jobj_set(o0, "app"@, sparse_app(n.app));
    let o2 = jobj_set(o1, "dev"@, sparse_dev(n.dev));
    let o3 = jobj_set(o2, "prod"@, sparse_prod(n.prod));
    lemma_lookup_set(o0, "app"@, sparse_app(n.app), "app"@);
    lemma_lookup_set(o1, "dev"@, sparse_dev(n.dev), "app"@);
    lemma_lookup_set(o1, "dev"@, sparse_dev(n.dev), "dev"@);
    lemma_lookup_set(o2, "prod"@, sparse_prod(n.prod), "app"@);
    lemma_lookup_set(o2, "prod"@, sparse_prod(n.prod), "dev"@);
    lemma_lookup_set(o2, "prod"@, sparse_prod(n.prod), "prod"@);
    lemma_sparse_app_reads(n.app);
    lemma_sparse_dev_reads(n.dev);
    lemma_sparse_prod_reads(n.prod);
    assert("/"@.len() == 1);
    assert("http"@.len() == 4);
    assert("localhost"@.len() == 9);
    let back = parse_cfg(sparse_cfg(n));
    assert(back =~= n);
    assert(normalize_cfg(back) =~= n);
}

fn framework_to_str(f: &Framework) -> (r: &'static str)
    ensures
        r@ == framework_tag(*f),
{
    match f {
        Framework::Vanilla => "none",
        Framework::React => "react",
        Framework::Vue => "vue",
    }
}

impl ProjectConfig {
    /// The compiled-in default configuration.
    pub fn default() -> (r: ProjectConfig)
        ensures
            r@ == default_cfg(),
    {
        let r = ProjectConfig {
            app: AppConfig {
                name: String::new(),
                title: String::new(),
                framework: Framework::Vanilla,
            },
            dev: DevConfig {
                public_path: String::from_str("/"),
                protocol: String::from_str("http"),
                host: String::from_str("localhost"),
                port: 8080,
                config: String::new(),
            },
            prod: ProdConfig { public_path: String::from_str("/"), config: String::new() },
        };
        proof {
            assert(r@ =~= default_cfg());
        }
        r
    }

    /// The configuration a fresh project starts from: the project's
    /// name, its name uppercased as the title, the chosen framework,
    /// and the defaults for everything else.
    pub fn create(project_props: &ProjectProps) -> (r: ProjectConfig)
        ensures
            r@.app.name == project_props.name@,
            r@.app.title == upper_of(project_props.name@),
            r@.app.framework == project_props.framework,
            r@.dev == default_cfg().dev,
            r@.prod == default_cfg().prod,
    {
        let mut r = Self::default();
        r.app = AppConfig {
            name: project_props.name.clone(),
            title: crate::text::to_uppercase(project_props.name.as_str()),
            framework: project_props.framework,
        };
        r
    }

    /// Record the exported bundler-config file path for the given
    /// environment; nothing else changes.
    pub fn set_config(&mut self, env_type: &EnvType, config: &str)
        ensures
            final(self)@.app == old(self)@.app,
            match env_type {
                EnvType::Dev => final(self)@.dev == DevCfgV {
                    config: config@,
                    ..old(self)@.dev
                } && final(self)@.prod == old(self)@.prod,
                EnvType::Prod => final(self)@.prod == ProdCfgV {
                    config: config@,
                    ..old(self)@.prod
                } && final(self)@.dev == old(self)@.dev,
            },
    {
        match env_type {
            EnvType::Dev => {
                self.dev.config = config.to_owned();
            },
            EnvType::Prod => {
                self.prod.config = config.to_owned();
            },
        }
    }

    /// The sparse persisted form of this configuration.
    pub fn to_sparse_json(&self) -> (r: Json)
        ensures
            r@ == sparse_cfg(self@),
    {
        let mut app = Json::obj();
        if !self.app.name.as_str().is_empty() {
            app = app.set("name", Json::Str(self.app.name.clone()));
        }
        if !self.app.title.as_str().is_empty() {
            app = app.set("title", Json::Str(self.app.title.clone()));
        }
        if !matches!(self.app.framework, Framework::Vanilla) {
            app = app.set("framework", Json::string(framework_to_str(&self.app.framework)));
        }
        let mut dev = Json::obj();
        if !self.dev.public_path.as_str().is_empty() {
            dev = dev.set("public_path", Json::Str(self.dev.public_path.clone()));
        }
        if !self.dev.protocol.as_str().is_empty() {
            dev = dev.set("protocol", Json::Str(self.dev.protocol.clone()));
        }
        if !self.dev.host.as_str().is_empty() {
            dev = dev.set("host", Json::Str(self.dev.host.clone()));
        }
        if self.dev.port != 0 {
            dev = dev.set("port", Json::integer(self.dev.port as i64));
        }
        if !self.dev.config.as_str().is_empty() {
            dev = dev.set("config", Json::Str(self.dev.config.clone()));
        }
        let mut prod = Json::obj();
        if !self.prod.public_path.as_str().is_empty() {
            prod = prod.set("public_path", Json::Str(self.prod.public_path.clone()));
        }
        if !self.prod.config.as_str().is_empty() {
            prod = prod.set("config", Json::Str(self.prod.config.clone()));
        }
        let out = Json::obj().set("app", app).set("dev", dev).set("prod", prod);
        proof {
            assert(sparse_app(self@.app) == app@);
            assert(sparse_dev(self@.dev) == dev@);
            assert(sparse_prod(self@.prod) == prod@);
        }
        out
    }

    /// Read a configuration back from its document form, re-applying
    /// the compiled-in defaults to missing or zero fields.
    pub fn from_json(j: &Json) -> (r: ProjectConfig)
        ensures
            r@ == normalize_cfg(parse_cfg(j@)),
    {
        let app = j.get("app");
        let dev = j.get("dev");
        let prod = j.get("prod");
        let name = read_str_field(&app, "name");
        let title = read_str_field(&app, "title");
        let framework = read_framework_field(&app);
        let public_path = or_default(read_str_field(&dev, "public_path"), "/");
        let protocol = or_default(read_str_field(&dev, "protocol"), "http");
        let host = or_default(read_str_field(&dev, "host"), "localhost");
        let port0 = read_port_field(&dev, "port");
        let port = if port0 == 0 {
            8080
        } else {
            port0
        };
        let dev_config = read_str_field(&dev, "config");
        let prod_public_path = or_default(read_str_field(&prod, "public_path"), "/");
        let prod_config = read_str_field(&prod, "config");
        let r = ProjectConfig {
            app: AppConfig { name, title, framework },
            dev: DevConfig { public_path, protocol, host, port, config: dev_config },
            prod: ProdConfig { public_path: prod_public_path, config: prod_config },
        };
        proof {
            assert(r@ =~= normalize_cfg(parse_cfg(j@)));
        }
        r
    }
}

fn read_str_field(section: &Option<&Json>, key: &str) -> (r: String)
    ensures
        r@ == read_str(
            match section {
                Some(s) => s@,
                None => empty_obj(),
            },
            key@,
        ),
{
    match section {
        Some(s) => match s.get(key) {
            Some(v) => match v {
                Json::Str(x) => x.clone(),
                _ => String::new(),
            },
            None => String::new(),
        },
        None => {
            proof {
                lemma_lookup_empty(key@);
            }
            String::new()
        },
    }
}

fn read_port_field(section: &Option<&Json>, key: &str) -> (r: i32)
    ensures
        r as int == read_port(
            match section {
                Some(s) => s@,
                None => empty_obj(),
            },
            key@,
        ),
{
    match section {
        Some(s) => match s.get(key) {
            Some(v) => match v {
                Json::Int(n) => {
                    if -0x80000000i64 <= *n && *n <= 0x7fffffffi64 {
                        *n as i32
                    } else {
                        0
                    }
                },
                _ => 0,
            },
            None => 0,
        },
        None => {
            proof {
                lemma_lookup_empty(key@);
            }
            0
        },
    }
}

fn read_framework_field(section: &Option<&Json>) -> (r: Framework)
    ensures
        r == parse_cfg_framework(
            match section {
                Some(s) => s@,
                None => empty_obj(),
            },
        ),
{
    let tag = match section {
        Some(s) => match s.get("framework") {
            Some(v) => match v {
                Json::Str(x) => Some(x.clone()),
                _ => None,
            },
            None => None,
        },
        None => {
            proof {
                lemma_lookup_empty("framework"@);
            }
            None
        },
    };
    match tag {
        Some(t) => {
            if crate::json::str_compare(t.as_str(), "react") == 0 {
                Framework::React
            } else if crate::json::str_compare(t.as_str(), "vue") == 0 {
                Framework::Vue
            } else {
                Framework::Vanilla
            }
        },
        None => Framework::Vanilla,
    }
}

fn or_default(v: String, dflt: &str) -> (r: String)
    ensures
        r@ == if v@.len() == 0 {
            dflt@
        } else {
            v@
        },
{
    if v.as_str().is_empty() {
        dflt.to_owned()
    } else {
        v
    }
}

impl ProjectConfig {
    /// A copy of this configuration.
    pub fn duplicate(&self) -> (r: ProjectConfig)
        ensures
            r@ == self@,
    {
        ProjectConfig {
            app: AppConfig {
                name: self.app.name.clone(),
                title: self.app.title.clone(),
                framework: self.app.framework,
            },
            dev: DevConfig {
                public_path: self.dev.public_path.clone(),
                protocol: self.dev.protocol.clone(),
                host: self.dev.host.clone(),
                port: self.dev.port,
                config: self.dev.config.clone(),
            },
            prod: ProdConfig {
                public_path: self.prod.public_path.clone(),
                config: self.prod.config.clone(),
            },
        }
    }
}

} // verus!
