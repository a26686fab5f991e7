//! The gateway's configuration: the orchestrator's address, the registered
//! detectors and the routes, and the static checks made once when it is loaded.

use vstd::prelude::*;
use vstd::string::*;

verus! {

/// Where the orchestrator listens.
#[derive(Clone, Debug)]
pub struct OrchestratorConfig {
    pub host: String,
    pub port: Option<u16>,
}

impl Default for OrchestratorConfig {
    fn default() -> (r: Self)
        ensures
            r.host@ == "localhost"@,
            r.port == Some(8032u16),
    {
        OrchestratorConfig { host: String::from_str("localhost"), port: Some(8032) }
    }
}

/// A registered detector. `server` names the detector instance inside the
/// orchestrator; when it is absent the detector's own name stands for it.
#[derive(Clone, Debug)]
pub struct DetectorConfig {
    pub name: String,
    pub server: Option<String>,
    pub input: bool,
    pub output: bool,
    pub detector_params: Option<serde_json::Value>,
}

impl DetectorConfig {
    /// The key under which the orchestrator knows this detector.
    pub open spec fn server_key(&self) -> Seq<char> {
        match self.server {
            Some(s) => s@,
            None => self.name@,
        }
    }

    /// Whether the detector takes part in the given role: input when `input`
    /// is true, output otherwise.
    pub open spec fn applies(&self, input: bool) -> bool {
        if input {
            self.input
        } else {
            self.output
        }
    }

    /// The detector with its server filled in from its name where it had none.
    pub open spec fn spec_with_server_default(self) -> DetectorConfig {
        match self.server {
            Some(_) => self,
            None => DetectorConfig {
                name: self.name,
                server: Some(self.name),
                input: self.input,
                output: self.output,
                detector_params: self.detector_params,
            },
        }
    }

    /// Fills in `server` from the detector's name when it is absent.
    pub fn with_server_default(self) -> (r: Self)
        ensures
            r == self.spec_with_server_default(),
            r.server is Some,
            r.server_key() == self.server_key(),
    {
        let mut d = self;
        if d.server.is_none() {
            d.server = Some(d.name.clone());
        }
        d
    }

    /// The server key as a string.
    pub fn server_key_string(&self) -> (r: String)
        ensures
            r@ == self.server_key(),
    {
        match &self.server {
            Some(s) => s.clone(),
            None => self.name.clone(),
        }
    }
}

/// An exposed route: the detectors it runs and the message that replaces the
/// model's answer when one of them fires.
#[derive(Clone, Debug)]
pub struct RouteConfig {
    pub name: String,
    pub detectors: Vec<String>,
    pub fallback_message: Option<String>,
}

/// The whole configuration, loaded once at start-up.
#[derive(Clone, Debug)]
pub struct GatewayConfig {
    pub orchestrator: OrchestratorConfig,
    pub detectors: Vec<DetectorConfig>,
    pub routes: Vec<RouteConfig>,
}

impl GatewayConfig {
    /// Gives every detector without a server its name as server, keeping the
    /// order of the detectors.
    pub fn with_server_defaults(self) -> (r: Self)
        ensures
            r.orchestrator == self.orchestrator,
            r.routes == self.routes,
            r.detectors@.len() == self.detectors@.len(),
            forall|i: int|
                0 <= i < r.detectors@.len() ==> #[trigger] r.detectors@[i]
                    == self.detectors@[i].spec_with_server_default(),
    {
        let GatewayConfig { orchestrator, detectors, routes } = self;
        let ghost given = detectors@;
        let mut rest = detectors;
        let mut done: Vec<DetectorConfig> = Vec::new();
        while rest.len() > 0
            invariant
                done@.len() + rest@.len() == given.len(),
                rest@ == given.subrange(done@.len() as int, given.len() as int),
                forall|i: int|
                    0 <= i < done@.len() ==> #[trigger] done@[i]
                        == given[i].spec_with_server_default(),
            decreases rest@.len(),
        {
            let d = rest.remove(0);
            done.push(d.with_server_default());
        }
        GatewayConfig { orchestrator, detectors: done, routes }
    }
}

/// The names in a list of strings, as sequences of characters.
pub open spec fn names_of(v: Seq<String>) -> Seq<Seq<char>> {
    v.map_values(|s: String| s@)
}

/// Whether some registered detector carries `name`.
pub open spec fn is_registered(ds: Seq<DetectorConfig>, name: Seq<char>) -> bool {
    exists|i: int| 0 <= i < ds.len() && (#[trigger] ds[i]).name@ == name
}

/// Whether `d` is one of the detectors that `route` lists by name.
pub open spec fn in_route(route: RouteConfig, d: DetectorConfig) -> bool {
    names_of(route.detectors@).contains(d.name@)
}

/// Whether two distinct detectors of the route, both in the given role, share
/// the server key `key`.
pub open spec fn role_clash(route: RouteConfig, ds: Seq<DetectorConfig>, input: bool, key: Seq<char>) -> bool {
    exists|i: int, j: int|
        0 <= i < j < ds.len() && #[trigger] in_route(route, ds[i]) && #[trigger] in_route(route, ds[j])
            && ds[i].applies(input) && ds[j].applies(input) && ds[i].server_key() == key
            && ds[j].server_key() == key
}

/// A problem found in the configuration, as the contracts speak of it.
pub enum IssueView {
    UnknownDetector(Seq<char>, Seq<char>),
    DuplicateInputServer(Seq<char>, Seq<char>),
    DuplicateOutputServer(Seq<char>, Seq<char>),
}

/// A problem found in the configuration: a route that names a detector that is
/// not registered, or two detectors of one route in the same role with the
/// same server key.
#[derive(Clone, Debug)]
pub enum ConfigIssue {
    UnknownDetector { route: String, detector: String },
    DuplicateInputServer { route: String, server: String },
    DuplicateOutputServer { route: String, server: String },
}

impl View for ConfigIssue {
    type V = IssueView;

    open spec fn view(&self) -> IssueView {
        match self {
            ConfigIssue::UnknownDetector { route, detector } => IssueView::UnknownDetector(
                route@,
                detector@,
            ),
            ConfigIssue::DuplicateInputServer { route, server } => IssueView::DuplicateInputServer(
                route@,
                server@,
            ),
            ConfigIssue::DuplicateOutputServer { route, server } => IssueView::DuplicateOutputServer(
                route@,
                server@,
            ),
        }
    }
}

/// Whether `issue` is a problem of `route` against the registered detectors.
pub open spec fn route_issue(route: RouteConfig, ds: Seq<DetectorConfig>, issue: IssueView) -> bool {
    match issue {
        IssueView::UnknownDetector(r, n) => r == route.name@ && names_of(route.detectors@).contains(n)
            && !is_registered(ds, n),
        IssueView::DuplicateInputServer(r, k) => r == route.name@ && role_clash(route, ds, true, k),
        IssueView::DuplicateOutputServer(r, k) => r == route.name@ && role_clash(route, ds, false, k),
    }
}

/// Whether `issue` is a problem of some route of `cfg`.
pub open spec fn config_issue(cfg: GatewayConfig, issue: IssueView) -> bool {
    exists|ri: int| 0 <= ri < cfg.routes@.len() && route_issue(#[trigger] cfg.routes@[ri], cfg.detectors@, issue)
}

/// The views of a list of issues.
pub open spec fn issue_views(v: Seq<ConfigIssue>) -> Seq<IssueView> {
    v.map_values(|c: ConfigIssue| c@)
}

/// Whether the configuration can be served: no route has a problem.
pub open spec fn config_valid(cfg: GatewayConfig) -> bool {
    forall|issue: IssueView| !#[trigger] config_issue(cfg, issue)
}

/// Whether `names` holds `name`.
pub fn contains_name(names: &Vec<String>, name: &String) -> (r: bool)
    ensures
        r == names_of(names@).contains(name@),
{
    let mut i: usize = 0;
    while i < names.len()
        invariant
            0 <= i <= names@.len(),
            forall|k: int| 0 <= k < i ==> (#[trigger] names@[k])@ != name@,
        decreases names@.len() - i,
    {
        if names[i] == *name {
            assert(names_of(names@)[i as int] == name@);
            return true;
        }
        i += 1;
    }
    assert forall|k: int| 0 <= k < names_of(names@).len() implies names_of(names@)[k] != name@ by {
        assert(names@[k]@ != name@);
    }
    false
}

/// Whether some detector of `ds` carries `name`.
fn registered(ds: &Vec<DetectorConfig>, name: &String) -> (r: bool)
    ensures
        r == is_registered(ds@, name@),
{
    let mut i: usize = 0;
    while i < ds.len()
        invariant
            0 <= i <= ds@.len(),
            forall|k: int| 0 <= k < i ==> (#[trigger] ds@[k]).name@ != name@,
        decreases ds@.len() - i,
    {
        if ds[i].name == *name {
            return true;
        }
        i += 1;
    }
    false
}

/// Appends an issue for each name of `route` that no detector carries.
fn push_unknown(route: &RouteConfig, ds: &Vec<DetectorConfig>, out: &mut Vec<ConfigIssue>)
    ensures
        forall|issue: IssueView|
            #[trigger] issue_views(final(out)@).contains(issue) <==> issue_views(old(out)@).contains(
                issue,
            ) || (issue is UnknownDetector && route_issue(*route, ds@, issue)),
{
    let ghost start = issue_views(out@);
    let names = &route.detectors;
    let mut i: usize = 0;
    while i < names.len()
        invariant
            0 <= i <= names@.len(),
            names == &route.detectors,
            forall|issue: IssueView|
                #[trigger] issue_views(out@).contains(issue) <==> start.contains(issue) || (
                issue matches IssueView::UnknownDetector(r, n) && r == route.name@ && names_of(
                    names@.subrange(0, i as int),
                ).contains(n) && !is_registered(ds@, n)),
        decreases names@.len() - i,
    {
        let ghost before = out@;
        let known = registered(ds, &names[i]);
        if !known {
            out.push(ConfigIssue::UnknownDetector { route: route.name.clone(), detector: names[i].clone() });
        }
        proof {
            let prefix = names_of(names@.subrange(0, i as int));
            let next = names_of(names@.subrange(0, i + 1));
            assert(next =~= prefix.push(names@[i as int]@));
            lemma_push_contains(prefix, names@[i as int]@);
            if !known {
                assert(issue_views(out@) =~= issue_views(before).push(
                    IssueView::UnknownDetector(route.name@, names@[i as int]@),
                ));
                lemma_push_contains(issue_views(before), IssueView::UnknownDetector(route.name@, names@[i as int]@));
            } else {
                assert(out@ == before);
            }
        }
        i += 1;
    }
    assert(names@.subrange(0, names@.len() as int) =~= names@);
}

/// Whether some detector before index `j` clashes with detector `j` in the
/// given role for this route.
fn clashes_before(route: &RouteConfig, ds: &Vec<DetectorConfig>, input: bool, j: usize) -> (r: bool)
    requires
        j < ds@.len(),
    ensures
        r == exists|i: int|
            0 <= i < j && #[trigger] in_route(*route, ds@[i]) && ds@[i].applies(input)
                && ds@[i].server_key() == ds@[j as int].server_key(),
{
    let key = ds[j].server_key_string();
    let mut i: usize = 0;
    while i < j
        invariant
            0 <= i <= j < ds@.len(),
            key@ == ds@[j as int].server_key(),
            forall|k: int|
                0 <= k < i ==> !(#[trigger] in_route(*route, ds@[k]) && ds@[k].applies(input)
                    && ds@[k].server_key() == key@),
        decreases j - i,
    {
        let d = &ds[i];
        let role = if input {
            d.input
        } else {
            d.output
        };
        if role && contains_name(&route.detectors, &d.name) {
            let other = d.server_key_string();
            if other == key {
                assert(in_route(*route, ds@[i as int]));
                return true;
            }
        }
        i += 1;
    }
    false
}

/// Whether two detectors among the first `n`, both of the route and in the
/// given role, share the server key `key`.
spec fn clash_upto(route: RouteConfig, ds: Seq<DetectorConfig>, input: bool, key: Seq<char>, n: int) -> bool {
    exists|a: int, b: int|
        0 <= a < b < n && #[trigger] in_route(route, ds[a]) && #[trigger] in_route(route, ds[b])
            && ds[a].applies(input) && ds[b].applies(input) && ds[a].server_key() == key
            && ds[b].server_key() == key
}

/// Whether detector `b` of the route, in the given role and with key `key`,
/// is preceded by another such detector.
spec fn clash_at(route: RouteConfig, ds: Seq<DetectorConfig>, input: bool, key: Seq<char>, b: int) -> bool {
    &&& in_route(route, ds[b])
    &&& ds[b].applies(input)
    &&& ds[b].server_key() == key
    &&& exists|a: int|
        0 <= a < b && #[trigger] in_route(route, ds[a]) && ds[a].applies(input) && ds[a].server_key()
            == key
}

proof fn lemma_clash_upto_step(route: RouteConfig, ds: Seq<DetectorConfig>, input: bool, key: Seq<char>, n: int)
    requires
        0 <= n < ds.len(),
    ensures
        clash_upto(route, ds, input, key, n + 1) <==> clash_upto(route, ds, input, key, n) || clash_at(
            route,
            ds,
            input,
            key,
            n,
        ),
{
    if clash_upto(route, ds, input, key, n + 1) && !clash_upto(route, ds, input, key, n) {
        let (a, b) = choose|a: int, b: int|
            0 <= a < b < n + 1 && #[trigger] in_route(route, ds[a]) && #[trigger] in_route(route, ds[b])
                && ds[a].applies(input) && ds[b].applies(input) && ds[a].server_key() == key
                && ds[b].server_key() == key;
        assert(b == n);
    }
    if clash_at(route, ds, input, key, n) {
        let a = choose|a: int|
            0 <= a < n && #[trigger] in_route(route, ds[a]) && ds[a].applies(input) && ds[a].server_key()
                == key;
        assert(in_route(route, ds[n]));
    }
}

/// The server key that a clash issue names.
spec fn clash_key(issue: IssueView) -> Seq<char> {
    match issue {
        IssueView::UnknownDetector(_, n) => n,
        IssueView::DuplicateInputServer(_, k) => k,
        IssueView::DuplicateOutputServer(_, k) => k,
    }
}

/// Whether `issue` is a clash issue of the given role for the route `r`.
spec fn clash_issue(r: Seq<char>, input: bool, issue: IssueView) -> bool {
    match issue {
        IssueView::UnknownDetector(_, _) => false,
        IssueView::DuplicateInputServer(rr, _) => input && rr == r,
        IssueView::DuplicateOutputServer(rr, _) => !input && rr == r,
    }
}

/// Appends an issue for each server key that two detectors of the route share
/// in the given role.
fn push_clashes(route: &RouteConfig, ds: &Vec<DetectorConfig>, input: bool, out: &mut Vec<ConfigIssue>)
    ensures
        forall|issue: IssueView|
            #[trigger] issue_views(final(out)@).contains(issue) <==> issue_views(old(out)@).contains(
                issue,
            ) || (route_issue(*route, ds@, issue) && if input {
                issue is DuplicateInputServer
            } else {
                issue is DuplicateOutputServer
            }),
{
    let ghost start = issue_views(out@);
    let mut j: usize = 0;
    while j < ds.len()
        invariant
            0 <= j <= ds@.len(),
            forall|issue: IssueView|
                #[trigger] issue_views(out@).contains(issue) <==> start.contains(issue) || (
                clash_issue(route.name@, input, issue) && clash_upto(
                    *route,
                    ds@,
                    input,
                    clash_key(issue),
                    j as int,
                )),
        decreases ds@.len() - j,
    {
        let ghost before = out@;
        let d = &ds[j];
        let role = if input {
            d.input
        } else {
            d.output
        };
        let mut pushed = false;
        if role && contains_name(&route.detectors, &d.name) {
            if clashes_before(route, ds, input, j) {
                let server = d.server_key_string();
                let issue = if input {
                    ConfigIssue::DuplicateInputServer { route: route.name.clone(), server }
                } else {
                    ConfigIssue::DuplicateOutputServer { route: route.name.clone(), server }
                };
                out.push(issue);
                pushed = true;
            }
        }
        proof {
            let key = ds@[j as int].server_key();
            let new_issue = if input {
                IssueView::DuplicateInputServer(route.name@, key)
            } else {
                IssueView::DuplicateOutputServer(route.name@, key)
            };
            if pushed {
                assert(issue_views(out@) =~= issue_views(before).push(new_issue));
                lemma_push_contains(issue_views(before), new_issue);
            } else {
                assert(out@ == before);
            }
            assert(pushed <==> clash_at(*route, ds@, input, key, j as int));
            assert forall|issue: IssueView|
                #[trigger] issue_views(out@).contains(issue) <==> start.contains(issue) || (
                clash_issue(route.name@, input, issue) && clash_upto(
                    *route,
                    ds@,
                    input,
                    clash_key(issue),
                    j + 1,
                )) by {
                lemma_clash_upto_step(*route, ds@, input, clash_key(issue), j as int);
                if clash_issue(route.name@, input, issue) && clash_at(*route, ds@, input, clash_key(issue), j as int) {
                    assert(issue == new_issue);
                }
            }
        }
        j += 1;
    }
}

/// Pushing `x` adds exactly `x` to what a sequence contains.
proof fn lemma_push_contains<A>(s: Seq<A>, x: A)
    ensures
        forall|y: A| #[trigger] s.push(x).contains(y) <==> s.contains(y) || y == x,
{
    assert forall|y: A| #[trigger] s.push(x).contains(y) <==> s.contains(y) || y == x by {
        if s.contains(y) {
            let k = choose|k: int| 0 <= k < s.len() && s[k] == y;
            assert(s.push(x)[k] == y);
        }
        if y == x {
            assert(s.push(x)[s.len() as int] == y);
        }
        if s.push(x).contains(y) {
            let k = choose|k: int| 0 <= k < s.len() + 1 && s.push(x)[k] == y;
            if k < s.len() {
                assert(s[k] == y);
            }
        }
    }
}

/// Checks that every route names only registered detectors and that no two
/// detectors of a route share a server key in the same role. On failure it
/// returns every problem found: each listed issue is a real one, and each real
/// one is listed.
pub fn validate_registered_detectors(gateway_cfg: &GatewayConfig) -> (r: Result<(), Vec<ConfigIssue>>)
    ensures
        r is Ok <==> config_valid(*gateway_cfg),
        r matches Err(issues) ==> issues@.len() > 0 && forall|issue: IssueView|
            #[trigger] issue_views(issues@).contains(issue) <==> config_issue(*gateway_cfg, issue),
{
    let mut issues: Vec<ConfigIssue> = Vec::new();
    let routes = &gateway_cfg.routes;
    let ds = &gateway_cfg.detectors;
    let mut ri: usize = 0;
    while ri < routes.len()
        invariant
            0 <= ri <= routes@.len(),
            routes == &gateway_cfg.routes,
            ds == &gateway_cfg.detectors,
            forall|issue: IssueView|
                #[trigger] issue_views(issues@).contains(issue) <==> exists|k: int|
                    0 <= k < ri && route_issue(#[trigger] routes@[k], ds@, issue),
        decreases routes@.len() - ri,
    {
        let route = &routes[ri];
        push_unknown(route, ds, &mut issues);
        push_clashes(route, ds, true, &mut issues);
        push_clashes(route, ds, false, &mut issues);
        assert forall|issue: IssueView|
            #[trigger] issue_views(issues@).contains(issue) <==> exists|k: int|
                0 <= k < ri + 1 && route_issue(#[trigger] routes@[k], ds@, issue) by {
            if route_issue(routes@[ri as int], ds@, issue) {
                assert(issue is UnknownDetector || issue is DuplicateInputServer
                    || issue is DuplicateOutputServer);
            }
        }
        ri += 1;
    }
    if issues.len() == 0 {
        assert forall|issue: IssueView| !#[trigger] config_issue(*gateway_cfg, issue) by {
            if config_issue(*gateway_cfg, issue) {
                let k = choose|k: int|
                    0 <= k < gateway_cfg.routes@.len() && route_issue(
                        #[trigger] gateway_cfg.routes@[k],
                        gateway_cfg.detectors@,
                        issue,
                    );
                assert(route_issue(routes@[k], ds@, issue));
                assert(issue_views(issues@).contains(issue));
                assert(issue_views(issues@).len() == 0);
            }
        }
        Ok(())
    } else {
        assert(issue_views(issues@)[0] == issues@[0]@);
        assert(issue_views(issues@).contains(issues@[0]@));
        assert forall|issue: IssueView|
            #[trigger] issue_views(issues@).contains(issue) <==> config_issue(*gateway_cfg, issue) by {
            if config_issue(*gateway_cfg, issue) {
                let k = choose|k: int|
                    0 <= k < gateway_cfg.routes@.len() && route_issue(
                        #[trigger] gateway_cfg.routes@[k],
                        gateway_cfg.detectors@,
                        issue,
                    );
                assert(route_issue(routes@[k], ds@, issue));
            }
        }
        Err(issues)
    }
}

/// Two distinct detectors that a route names, in the same role and with the
/// same server key, make the configuration invalid, whatever their names.
pub proof fn lemma_shared_server_key_is_invalid(cfg: GatewayConfig, ri: int, i: int, j: int, input: bool)
    requires
        0 <= ri < cfg.routes@.len(),
        0 <= i < j < cfg.detectors@.len(),
        in_route(cfg.routes@[ri], cfg.detectors@[i]),
        in_route(cfg.routes@[ri], cfg.detectors@[j]),
        cfg.detectors@[i].applies(input),
        cfg.detectors@[j].applies(input),
        cfg.detectors@[i].server_key() == cfg.detectors@[j].server_key(),
    ensures
        !config_valid(cfg),
{
    let route = cfg.routes@[ri];
    let key = cfg.detectors@[i].server_key();
    let issue = if input {
        IssueView::DuplicateInputServer(route.name@, key)
    } else {
        IssueView::DuplicateOutputServer(route.name@, key)
    };
    assert(role_clash(route, cfg.detectors@, input, key));
    assert(route_issue(route, cfg.detectors@, issue));
    assert(config_issue(cfg, issue));
}

impl ConfigIssue {
    /// The line that reports the issue.
    pub open spec fn describe_spec(&self) -> Seq<char> {
        match self {
            ConfigIssue::UnknownDetector { route, detector } => "- could not find detector '"@
                + detector@ + "' in route '"@ + route@ + "'"@,
            ConfigIssue::DuplicateInputServer { route, server } => "- route '"@ + route@
                + "' contains more than one input detector with server '"@ + server@ + "'"@,
            ConfigIssue::DuplicateOutputServer { route, server } => "- route '"@ + route@
                + "' contains more than one output detector with server '"@ + server@ + "'"@,
        }
    }

    /// The line that reports the issue.
    pub fn describe(&self) -> (r: String)
        ensures
            r@ == self.describe_spec(),
    {
        match self {
            ConfigIssue::UnknownDetector { route, detector } => {
                let mut s = String::from_str("- could not find detector '");
                s.append(detector.as_str());
                s.append("' in route '");
                s.append(route.as_str());
                s.append("'");
                s
            },
            ConfigIssue::DuplicateInputServer { route, server } => {
                let mut s = String::from_str("- route '");
                s.append(route.as_str());
                s.append("' contains more than one input detector with server '");
                s.append(server.as_str());
                s.append("'");
                s
            },
            ConfigIssue::DuplicateOutputServer { route, server } => {
                let mut s = String::from_str("- route '");
                s.append(route.as_str());
                s.append("' contains more than one output detector with server '");
                s.append(server.as_str());
                s.append("'");
                s
            },
        }
    }
}

/// The lines of the issues, each preceded by a line feed.
pub open spec fn issue_lines(issues: Seq<ConfigIssue>) -> Seq<char>
    decreases issues.len(),
{
    if issues.len() == 0 {
        seq![]
    } else {
        issue_lines(issues.drop_last()) + "\n"@ + issues.last().describe_spec()
    }
}

/// The report of a failed validation: a heading and one line per issue.
pub fn validation_report(issues: &Vec<ConfigIssue>) -> (r: String)
    ensures
        r@ == "Config validation failed:"@ + issue_lines(issues@),
{
    let mut s = String::from_str("Config validation failed:");
    let mut i: usize = 0;
    while i < issues.len()
        invariant
            0 <= i <= issues@.len(),
            s@ == "Config validation failed:"@ + issue_lines(issues@.subrange(0, i as int)),
        decreases issues@.len() - i,
    {
        s.append("\n");
        let line = issues[i].describe();
        s.append(line.as_str());
        proof {
            let prefix = issues@.subrange(0, i + 1);
            assert(prefix.drop_last() =~= issues@.subrange(0, i as int));
        }
        i += 1;
    }
    assert(issues@.subrange(0, issues@.len() as int) =~= issues@);
    s
}

} // verus!
