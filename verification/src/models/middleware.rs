//! Traefik file-provider middlewares: names, label references, file names and
//! the YAML each one is defined by.
use vstd::prelude::*;
use crate::text::{
    chars_eq, chars_of, contains, has_suffix, lemma_occurs_contains, owned, strip_suffix, strip_suffix_exec,
};

verus! {

/// A Traefik middleware loaded through the file provider and referenced from
/// router labels as `<name>@file`.
#[derive(Debug, Clone, Copy, PartialEq, Eq, Structural)]
pub enum Middleware {
    /// GZip compression of responses.
    Gzip,
    /// Redirect from HTTP to HTTPS.
    RedirectHttps,
    /// Injection of the `X-Forwarded-*` request headers.
    XForwardedProto,
    /// Access only from private address ranges.
    IpAllowlistInternal,
    /// Basic authentication for the Traefik dashboard.
    DashboardAuth,
}

/// GZip middleware file content.
pub const MIDDLEWARE_GZIP: &'static str = "# GZip 压缩 — 对响应内容进行 gzip 压缩
http:
  middlewares:
    gzip:
      compress: {}
";

/// HTTP to HTTPS redirect middleware file content.
pub const MIDDLEWARE_REDIR_HTTPS: &'static str = "# HTTP → HTTPS 重定向 — 将所有 HTTP 请求重定向到 HTTPS
http:
  middlewares:
    redir-https:
      redirectScheme:
        scheme: https
        permanent: false
";

/// Forwarded-headers middleware file content.
pub const MIDDLEWARE_X_FORWARDED: &'static str = "# 转发头注入 — 确保后端应用正确识别代理协议和端口
http:
  middlewares:
    x-forwarded-proto:
      headers:
        customRequestHeaders:
          X-Forwarded-Proto: \"https\"
          X-Forwarded-Ssl: \"on\"
          X-Forwarded-Port: \"443\"
";

/// Private-range allow-list middleware file content.
pub const MIDDLEWARE_IPALLOWLIST: &'static str = "# 内网 IP 白名单 — 仅允许私有地址段访问（Traefik v3 ipAllowList）
http:
  middlewares:
    ipallowlist-internal:
      ipAllowList:
        sourceRange:
          - \"127.0.0.0/8\"
          - \"10.0.0.0/8\"
          - \"172.16.0.0/12\"
          - \"192.168.0.0/16\"
";

/// Dashboard basic-auth middleware file content.
pub const MIDDLEWARE_DASHBOARD_AUTH: &'static str = "# Dashboard 基础认证 — 访问面板需要用户名/密码
# 用户文件: /etc/traefik/config/users.txt
# 添加用户: htpasswd -nB <username> >> config/users.txt
http:
  middlewares:
    dashboard-auth:
      basicAuth:
        usersFile: \"/etc/traefik/config/users.txt\"
        realm: \"Traefik Dashboard\"
";

/// The short name of a middleware (its key under `http.middlewares`).
pub open spec fn name_of(m: Middleware) -> Seq<char> {
    match m {
        Middleware::Gzip => "gzip"@,
        Middleware::RedirectHttps => "redir-https"@,
        Middleware::XForwardedProto => "x-forwarded-proto"@,
        Middleware::IpAllowlistInternal => "ipallowlist-internal"@,
        Middleware::DashboardAuth => "dashboard-auth"@,
    }
}

/// The label reference of a middleware: `<name>@file`.
pub open spec fn label_ref_of(m: Middleware) -> Seq<char> {
    name_of(m) + "@file"@
}

/// The YAML file name of a middleware.
pub open spec fn filename_of(m: Middleware) -> Seq<char> {
    match m {
        Middleware::Gzip => "middleware-gzip.yml"@,
        Middleware::RedirectHttps => "middleware-redir-https.yml"@,
        Middleware::XForwardedProto => "middleware-x-forwarded.yml"@,
        Middleware::IpAllowlistInternal => "middleware-ipallowlist.yml"@,
        Middleware::DashboardAuth => "middleware-dashboard-auth.yml"@,
    }
}

/// The YAML file content of a middleware.
pub open spec fn yaml_of(m: Middleware) -> Seq<char> {
    match m {
        Middleware::Gzip => MIDDLEWARE_GZIP@,
        Middleware::RedirectHttps => MIDDLEWARE_REDIR_HTTPS@,
        Middleware::XForwardedProto => MIDDLEWARE_X_FORWARDED@,
        Middleware::IpAllowlistInternal => MIDDLEWARE_IPALLOWLIST@,
        Middleware::DashboardAuth => MIDDLEWARE_DASHBOARD_AUTH@,
    }
}

/// Whether a middleware may be chosen for ordinary application services.
pub open spec fn applicable(m: Middleware) -> bool {
    !(m == Middleware::DashboardAuth || m == Middleware::RedirectHttps)
}

/// Every middleware, in declaration order.
pub open spec fn all_middlewares() -> Seq<Middleware> {
    seq![
        Middleware::Gzip,
        Middleware::RedirectHttps,
        Middleware::XForwardedProto,
        Middleware::IpAllowlistInternal,
        Middleware::DashboardAuth,
    ]
}

/// The middleware whose short name is `n`.
pub open spec fn lookup_name(n: Seq<char>) -> Option<Middleware> {
    if n == "gzip"@ {
        Some(Middleware::Gzip)
    } else if n == "redir-https"@ {
        Some(Middleware::RedirectHttps)
    } else if n == "x-forwarded-proto"@ {
        Some(Middleware::XForwardedProto)
    } else if n == "ipallowlist-internal"@ {
        Some(Middleware::IpAllowlistInternal)
    } else if n == "dashboard-auth"@ {
        Some(Middleware::DashboardAuth)
    } else {
        None
    }
}

/// The middleware named by `s`, with or without the `@file` suffix.
pub open spec fn from_name_spec(s: Seq<char>) -> Option<Middleware> {
    match strip_suffix(s, "@file"@) {
        Some(n) => lookup_name(n),
        None => lookup_name(s),
    }
}

impl Middleware {
    /// The short name of the middleware.
    pub fn name(self) -> (r: &'static str)
        ensures
            r@ == name_of(self),
    {
        match self {
            Middleware::Gzip => "gzip",
            Middleware::RedirectHttps => "redir-https",
            Middleware::XForwardedProto => "x-forwarded-proto",
            Middleware::IpAllowlistInternal => "ipallowlist-internal",
            Middleware::DashboardAuth => "dashboard-auth",
        }
    }

    /// The reference used in router labels: `<name>@file`.
    pub fn label_ref(self) -> (r: String)
        ensures
            r@ == label_ref_of(self),
    {
        let mut s = owned(self.name());
        s.append("@file");
        s
    }

    /// The YAML file name under the Traefik `config/` directory.
    pub fn filename(self) -> (r: &'static str)
        ensures
            r@ == filename_of(self),
    {
        match self {
            Middleware::Gzip => "middleware-gzip.yml",
            Middleware::RedirectHttps => "middleware-redir-https.yml",
            Middleware::XForwardedProto => "middleware-x-forwarded.yml",
            Middleware::IpAllowlistInternal => "middleware-ipallowlist.yml",
            Middleware::DashboardAuth => "middleware-dashboard-auth.yml",
        }
    }

    /// The full YAML file content defining the middleware.
    pub fn yaml_content(self) -> (r: &'static str)
        ensures
            r@ == yaml_of(self),
    {
        match self {
            Middleware::Gzip => MIDDLEWARE_GZIP,
            Middleware::RedirectHttps => MIDDLEWARE_REDIR_HTTPS,
            Middleware::XForwardedProto => MIDDLEWARE_X_FORWARDED,
            Middleware::IpAllowlistInternal => MIDDLEWARE_IPALLOWLIST,
            Middleware::DashboardAuth => MIDDLEWARE_DASHBOARD_AUTH,
        }
    }

    /// Whether the middleware may be used by ordinary application services.
    pub fn app_applicable(self) -> (r: bool)
        ensures
            r == applicable(self),
    {
        !matches!(self, Middleware::DashboardAuth | Middleware::RedirectHttps)
    }

    /// Every middleware, in declaration order.
    pub fn all() -> (r: Vec<Middleware>)
        ensures
            r@ == all_middlewares(),
    {
        let r = vec![
            Middleware::Gzip,
            Middleware::RedirectHttps,
            Middleware::XForwardedProto,
            Middleware::IpAllowlistInternal,
            Middleware::DashboardAuth,
        ];
        assert(r@ =~= all_middlewares());
        r
    }

    /// The middlewares applicable to application services, in the order of `all()`.
    pub fn app_applicable_all() -> (r: Vec<Middleware>)
        ensures
            r@ == all_middlewares().filter(|m: Middleware| applicable(m)),
    {
        let all = Self::all();
        let mut r: Vec<Middleware> = Vec::new();
        let mut i: usize = 0;
        while i < all.len()
            invariant
                i <= all.len(),
                all@ == all_middlewares(),
                r@ == all@.take(i as int).filter(|m: Middleware| applicable(m)),
            decreases all.len() - i,
        {
            let m = all[i];
            proof {
                reveal(Seq::filter);
                assert(all@.take(i + 1).drop_last() =~= all@.take(i as int));
            }
            if m.app_applicable() {
                r.push(m);
            }
            i = i + 1;
        }
        assert(all@.take(all.len() as int) =~= all@);
        r
    }

    /// The middleware named `s`, with or without the `@file` suffix.
    pub fn from_name(s: &str) -> (r: Option<Middleware>)
        ensures
            r == from_name_spec(s@),
    {
        let v = chars_of(s);
        let suffix = chars_of("@file");
        let n = match strip_suffix_exec(&v, &suffix) {
            Some(x) => x,
            None => v,
        };
        if chars_eq(&n, &chars_of("gzip")) {
            Some(Middleware::Gzip)
        } else if chars_eq(&n, &chars_of("redir-https")) {
            Some(Middleware::RedirectHttps)
        } else if chars_eq(&n, &chars_of("x-forwarded-proto")) {
            Some(Middleware::XForwardedProto)
        } else if chars_eq(&n, &chars_of("ipallowlist-internal")) {
            Some(Middleware::IpAllowlistInternal)
        } else if chars_eq(&n, &chars_of("dashboard-auth")) {
            Some(Middleware::DashboardAuth)
        } else {
            None
        }
    }
}

/// Reading back a middleware's short name, or its `<name>@file` label
/// reference, gives the same middleware.
pub proof fn lemma_from_name_roundtrip(m: Middleware)
    ensures
        from_name_spec(name_of(m)) == Some(m),
        from_name_spec(label_ref_of(m)) == Some(m),
{
    reveal_strlit("gzip");
    reveal_strlit("redir-https");
    reveal_strlit("x-forwarded-proto");
    reveal_strlit("ipallowlist-internal");
    reveal_strlit("dashboard-auth");
    reveal_strlit("@file");
    let n = name_of(m);
    let l = label_ref_of(m);
    assert(!has_suffix(n, "@file"@)) by {
        if has_suffix(n, "@file"@) {
            let k = n.len() - 5;
            assert(n.subrange(k, n.len() as int)[0] == n[k]);
        }
    }
    assert(has_suffix(l, "@file"@)) by {
        assert(l.subrange(l.len() - 5, l.len() as int) =~= "@file"@);
    }
    assert(l.subrange(0, l.len() - 5) =~= n);
}

/// `all()` lists every middleware exactly once.
pub proof fn lemma_all_complete(m: Middleware)
    ensures
        all_middlewares().contains(m),
        all_middlewares().no_duplicates(),
{
    let a = all_middlewares();
    match m {
        Middleware::Gzip => assert(a[0] == m),
        Middleware::RedirectHttps => assert(a[1] == m),
        Middleware::XForwardedProto => assert(a[2] == m),
        Middleware::IpAllowlistInternal => assert(a[3] == m),
        Middleware::DashboardAuth => assert(a[4] == m),
    }
}

/// The middlewares offered to application services are exactly gzip, the
/// forwarded headers and the private-range allow-list, in that order.
pub proof fn lemma_app_applicable_all_members()
    ensures
        all_middlewares().filter(|m: Middleware| applicable(m)) == seq![
            Middleware::Gzip,
            Middleware::XForwardedProto,
            Middleware::IpAllowlistInternal,
        ],
{
    reveal_with_fuel(Seq::filter, 6);
    let a = all_middlewares();
    assert(a.drop_last() =~= seq![Middleware::Gzip, Middleware::RedirectHttps, Middleware::XForwardedProto, Middleware::IpAllowlistInternal]);
    assert(a.drop_last().drop_last() =~= seq![Middleware::Gzip, Middleware::RedirectHttps, Middleware::XForwardedProto]);
    assert(a.drop_last().drop_last().drop_last() =~= seq![Middleware::Gzip, Middleware::RedirectHttps]);
    assert(a.drop_last().drop_last().drop_last().drop_last() =~= seq![Middleware::Gzip]);
    assert(seq![Middleware::Gzip].drop_last() =~= Seq::<Middleware>::empty());
    assert(a.filter(|m: Middleware| applicable(m)) =~= seq![
        Middleware::Gzip,
        Middleware::XForwardedProto,
        Middleware::IpAllowlistInternal,
    ]);
}

/// The middlewares block that defines a middleware in its YAML file: the
/// `http:` line, the `  middlewares:` line and the middleware's own name as
/// the key of the next line.
pub open spec fn definition_header(m: Middleware) -> Seq<char> {
    "\nhttp:\n  middlewares:\n    "@ + name_of(m) + ":\n"@
}

/// Every middleware's YAML file defines that middleware, under its own name,
/// in the `http.middlewares` block.
pub proof fn lemma_yaml_defines_own_name(m: Middleware)
    ensures
        contains(yaml_of(m), definition_header(m)),
{
    reveal_strlit("\nhttp:\n  middlewares:\n    ");
    reveal_strlit(":\n");
    let y = yaml_of(m);
    let h = definition_header(m);
    match m {
        Middleware::Gzip => {
            reveal_strlit("# GZip 压缩 — 对响应内容进行 gzip 压缩
http:
  middlewares:
    gzip:
      compress: {}
");
            reveal_strlit("gzip");
            assert(y.subrange(27, 27 + h.len() as int) =~= h);
            lemma_occurs_contains(y, h, 27);
        },
        Middleware::RedirectHttps => {
            reveal_strlit("# HTTP → HTTPS 重定向 — 将所有 HTTP 请求重定向到 HTTPS
http:
  middlewares:
    redir-https:
      redirectScheme:
        scheme: https
        permanent: false
");
            reveal_strlit("redir-https");
            assert(y.subrange(42, 42 + h.len() as int) =~= h);
            lemma_occurs_contains(y, h, 42);
        },
        Middleware::XForwardedProto => {
            reveal_strlit("# 转发头注入 — 确保后端应用正确识别代理协议和端口
http:
  middlewares:
    x-forwarded-proto:
      headers:
        customRequestHeaders:
          X-Forwarded-Proto: \"https\"
          X-Forwarded-Ssl: \"on\"
          X-Forwarded-Port: \"443\"
");
            reveal_strlit("x-forwarded-proto");
            assert(y.subrange(27, 27 + h.len() as int) =~= h);
            lemma_occurs_contains(y, h, 27);
        },
        Middleware::IpAllowlistInternal => {
            reveal_strlit("# 内网 IP 白名单 — 仅允许私有地址段访问（Traefik v3 ipAllowList）
http:
  middlewares:
    ipallowlist-internal:
      ipAllowList:
        sourceRange:
          - \"127.0.0.0/8\"
          - \"10.0.0.0/8\"
          - \"172.16.0.0/12\"
          - \"192.168.0.0/16\"
");
            reveal_strlit("ipallowlist-internal");
            assert(y.subrange(48, 48 + h.len() as int) =~= h);
            lemma_occurs_contains(y, h, 48);
        },
        Middleware::DashboardAuth => {
            reveal_strlit("# Dashboard 基础认证 — 访问面板需要用户名/密码
# 用户文件: /etc/traefik/config/users.txt
# 添加用户: htpasswd -nB <username> >> config/users.txt
http:
  middlewares:
    dashboard-auth:
      basicAuth:
        usersFile: \"/etc/traefik/config/users.txt\"
        realm: \"Traefik Dashboard\"
");
            reveal_strlit("dashboard-auth");
            assert(y.subrange(121, 121 + h.len() as int) =~= h);
            lemma_occurs_contains(y, h, 121);
        },
    }
}

} // verus!
