//! Whether the terminal client may start the daemon itself: only for a
//! plain `http` URL of a loopback address, with no credentials, path,
//! query or fragment.
use vstd::prelude::*;
use crate::text::{decimal, decimal_string, push_str};
use crate::textops::{has_prefix, strip_prefix};

verus! {

/// The port the daemon listens on unless told otherwise.
pub const DEFAULT_PORT: u16 = 47812;

/// The parts of a parsed URL the check looks at, as the url crate gives
/// them: the host as serialized, and again when it is a domain name.
#[derive(Clone, Debug)]
pub struct UrlParts {
    pub scheme: String,
    pub username: String,
    pub password: Option<String>,
    pub path: String,
    pub query: Option<String>,
    pub fragment: Option<String>,
    pub host_str: Option<String>,
    pub domain: Option<String>,
    pub port: Option<u16>,
}

pub struct UrlView {
    pub scheme: Seq<char>,
    pub username: Seq<char>,
    pub password: Option<Seq<char>>,
    pub path: Seq<char>,
    pub query: Option<Seq<char>>,
    pub fragment: Option<Seq<char>>,
    pub host_str: Option<Seq<char>>,
    pub domain: Option<Seq<char>>,
    pub port: Option<u16>,
}

pub open spec fn opt_text(o: Option<String>) -> Option<Seq<char>> {
    match o {
        Some(s) => Some(s@),
        None => None,
    }
}

impl UrlParts {
    pub open spec fn view(self) -> UrlView {
        UrlView {
            scheme: self.scheme@,
            username: self.username@,
            password: opt_text(self.password),
            path: self.path@,
            query: opt_text(self.query),
            fragment: opt_text(self.fragment),
            host_str: opt_text(self.host_str),
            domain: opt_text(self.domain),
            port: self.port,
        }
    }
}

/// `reqwest::Url::parse` (the url crate's WHATWG parser) and its
/// accessors. What it accepts and how it normalizes is the url crate's; it
/// depends on the text alone.
pub uninterp spec fn parsed_url(text: Seq<char>) -> Option<UrlView>;

/// Parses a URL with the url crate (through reqwest) and reads its parts.
#[verifier::external_body]
fn parse_url(text: &str) -> (r: Option<UrlParts>)
    ensures
        match r {
            Some(p) => parsed_url(text@) == Some(p.view()),
            None => parsed_url(text@) is None,
        },
{
    match reqwest::Url::parse(text) {
        Ok(u) => Some(UrlParts {
            scheme: u.scheme().to_string(), username: u.username().to_string(),
            password: u.password().map(|p| p.to_string()), path: u.path().to_string(),
            query: u.query().map(|q| q.to_string()), fragment: u.fragment().map(|f| f.to_string()),
            host_str: u.host_str().map(|h| h.to_string()), domain: u.domain().map(|d| d.to_string()),
            port: u.port(),
        }),
        Err(_) => None,
    }
}

/// A daemon the client may start: its loopback address (as the standard
/// library displays it) and port.
#[derive(Clone, Debug, PartialEq, Eq)]
pub struct ManagedServerTarget {
    pub host: String,
    pub port: u16,
}

/// The address a URL's host names: `localhost` is 127.0.0.1; an IP host
/// is its serialization without brackets; any other domain names none.
pub open spec fn host_address(host: Seq<char>, domain: Option<Seq<char>>) -> Option<Seq<char>> {
    if host == "localhost"@ {
        Some("127.0.0.1"@)
    } else if domain is Some {
        None
    } else if host.len() >= 2 && host[0] == '[' && host.last() == ']' {
        Some(host.subrange(1, host.len() - 1))
    } else {
        Some(host)
    }
}

/// Loopback addresses in the url crate's serialization: 127.0.0.0/8
/// written as four decimals, and `::1`.
pub open spec fn loopback(address: Seq<char>) -> bool {
    address == "::1"@ || has_prefix(address, "127."@)
}

/// The target a parsed URL names, if the client may manage it.
pub open spec fn target_of(url: Option<UrlView>) -> Option<(Seq<char>, u16)> {
    match url {
        None => None,
        Some(u) => if u.scheme != "http"@ || u.username.len() != 0 || u.password is Some || u.path != "/"@
            || u.query is Some || u.fragment is Some {
            None
        } else {
            match u.host_str {
                None => None,
                Some(h) => match host_address(h, u.domain) {
                    None => None,
                    Some(a) => {
                        let port = match u.port {
                            Some(p) => p,
                            None => DEFAULT_PORT,
                        };
                        if !loopback(a) || port == 0 {
                            None
                        } else {
                            Some((a, port))
                        }
                    },
                },
            }
        },
    }
}

pub open spec fn target_view(t: Option<ManagedServerTarget>) -> Option<(Seq<char>, u16)> {
    match t {
        Some(x) => Some((x.host@, x.port)),
        None => None,
    }
}

fn opt_is_some_text(o: &Option<String>) -> (r: bool)
    ensures
        r == (o is Some),
{
    o.is_some()
}

/// The target named by parsed URL parts, if the client may manage it.
pub fn target_from_parts(parts: Option<UrlParts>) -> (r: Option<ManagedServerTarget>)
    ensures
        target_view(r) == target_of(
            match parts {
                Some(p) => Some(p.view()),
                None => None,
            },
        ),
{
    let u = match parts {
        Some(u) => u,
        None => {
            return None;
        },
    };
    proof {
        reveal_strlit("http");
        reveal_strlit("/");
    }
    if !crate::enums::same_text(u.scheme.as_str(), "http") || !u.username.as_str().is_empty()
        || opt_is_some_text(&u.password) || !crate::enums::same_text(u.path.as_str(), "/") || opt_is_some_text(
        &u.query,
    ) || opt_is_some_text(&u.fragment) {
        return None;
    }
    let h = match &u.host_str {
        Some(h) => h,
        None => {
            return None;
        },
    };
    let address = if crate::enums::same_text(h.as_str(), "localhost") {
        "127.0.0.1".to_owned()
    } else if opt_is_some_text(&u.domain) {
        return None;
    } else {
        let cs = crate::text::chars_of(h.as_str());
        let n = cs.len();
        if n >= 2 && cs[0] == '[' && cs[n - 1] == ']' {
            let mut inner: Vec<char> = Vec::new();
            let mut i: usize = 1;
            while i < n - 1
                invariant
                    1 <= i <= n - 1,
                    n == cs@.len(),
                    inner@ == cs@.subrange(1, i as int),
                decreases n - 1 - i,
            {
                inner.push(cs[i]);
                assert(inner@ =~= cs@.subrange(1, i + 1));
                i = i + 1;
            }
            crate::text::string_of(&inner)
        } else {
            h.clone()
        }
    };
    let port = match u.port {
        Some(p) => p,
        None => DEFAULT_PORT,
    };
    let is_loopback = crate::enums::same_text(address.as_str(), "::1") || strip_prefix(
        address.as_str(),
        "127.",
    ).is_some();
    if !is_loopback || port == 0 {
        return None;
    }
    Some(ManagedServerTarget { host: address, port })
}

/// The daemon the client may start for a configured server URL; none when
/// starting it is switched off or the URL is not a plain loopback `http`
/// URL.
pub fn managed_server_target(auto_start_server: bool, server_url: &str) -> (r: Option<ManagedServerTarget>)
    ensures
        !auto_start_server ==> r is None,
        auto_start_server ==> target_view(r) == target_of(parsed_url(server_url@)),
{
    if !auto_start_server {
        return None;
    }
    target_from_parts(parse_url(server_url))
}

/// Where and how the daemon listens: a loopback address (as the standard
/// library displays it), a port, and whether the client manages it.
#[derive(Clone, Debug, PartialEq, Eq)]
pub struct LaunchOptions {
    pub host: String,
    pub port: u16,
    pub tui_managed: bool,
}

impl Default for LaunchOptions {
    fn default() -> (r: Self)
        ensures
            r.host@ == "127.0.0.1"@,
            r.port == DEFAULT_PORT,
            !r.tui_managed,
    {
        LaunchOptions { host: "127.0.0.1".to_owned(), port: DEFAULT_PORT, tui_managed: false }
    }
}

/// The value the next argument is read as.
#[derive(Clone, Copy, Debug, PartialEq, Eq, Structural)]
pub enum PendingValue {
    Nothing,
    Host,
    Port,
}

/// What the standard library made of a `--host` value.
#[derive(Clone, Debug, PartialEq, Eq)]
pub enum HostVerdict {
    NotAnAddress,
    NotLoopback,
    /// A loopback address, as displayed.
    Loopback(String),
}

/// What the caller does after an argument.
#[derive(Clone, Debug, PartialEq, Eq)]
pub enum LaunchStep {
    Continue,
    /// Parse this `--host` value as an IP address and report with
    /// `host_checked`.
    CheckHost(String),
}

/// Reads the daemon's arguments one at a time: `--host ADDR`, `--port N`
/// and `--tui-managed`; anything else is refused.
#[derive(Clone, Debug)]
pub struct LaunchParser {
    pub options: LaunchOptions,
    pub pending: PendingValue,
}

pub open spec fn invalid_port_text(value: Seq<char>) -> Seq<char> {
    "invalid --port: "@ + value
}

pub open spec fn invalid_host_text(value: Seq<char>) -> Seq<char> {
    "invalid --host: "@ + value
}

pub open spec fn unknown_argument_text(arg: Seq<char>) -> Seq<char> {
    "unknown argument: "@ + arg
}

impl LaunchParser {
    pub fn new() -> (r: Self)
        ensures
            r.options.host@ == "127.0.0.1"@,
            r.options.port == DEFAULT_PORT,
            !r.options.tui_managed,
            r.pending == PendingValue::Nothing,
    {
        LaunchParser { options: LaunchOptions::default(), pending: PendingValue::Nothing }
    }

    /// Takes the next argument. A `--host` value is `localhost` (any case)
    /// or goes to the caller to parse; a `--port` value must be a number
    /// from 1 to 65535.
    pub fn feed(&mut self, arg: String) -> (r: Result<LaunchStep, String>)
        ensures
            old(self).pending == PendingValue::Host ==> final(self).pending == PendingValue::Nothing && (if crate::textops::ascii_lowered(
                arg@,
            ) == "localhost"@ {
                r == Ok::<LaunchStep, String>(LaunchStep::Continue) && final(self).options.host@ == "127.0.0.1"@
                    && final(self).options.port == old(self).options.port && final(self).options.tui_managed
                    == old(self).options.tui_managed
            } else {
                r == Ok::<LaunchStep, String>(LaunchStep::CheckHost(arg)) && final(self).options == old(self).options
            }),
            old(self).pending == PendingValue::Port ==> final(self).pending == PendingValue::Nothing && match crate::text::parse_unsigned(
                arg@,
                u16::MAX as int,
            ) {
                None => r matches Err(e) && e@ == invalid_port_text(arg@),
                Some(p) => if p == 0 {
                    r matches Err(e) && e@ == "--port must be greater than zero"@
                } else {
                    r == Ok::<LaunchStep, String>(LaunchStep::Continue) && final(self).options == (LaunchOptions {
                        port: p as u16,
                        ..old(self).options
                    })
                },
            },
            old(self).pending == PendingValue::Nothing ==> (if arg@ == "--host"@ {
                r == Ok::<LaunchStep, String>(LaunchStep::Continue) && *final(self) == (LaunchParser {
                    pending: PendingValue::Host,
                    ..*old(self)
                })
            } else if arg@ == "--port"@ {
                r == Ok::<LaunchStep, String>(LaunchStep::Continue) && *final(self) == (LaunchParser {
                    pending: PendingValue::Port,
                    ..*old(self)
                })
            } else if arg@ == "--tui-managed"@ {
                r == Ok::<LaunchStep, String>(LaunchStep::Continue) && final(self).pending == PendingValue::Nothing
                    && final(self).options == (LaunchOptions { tui_managed: true, ..old(self).options })
            } else {
                r matches Err(e) && e@ == unknown_argument_text(arg@)
            }),
    {
        match self.pending {
            PendingValue::Host => {
                self.pending = PendingValue::Nothing;
                let lowered = crate::textops::to_ascii_lowercase(arg.as_str());
                if crate::enums::same_text(lowered.as_str(), "localhost") {
                    self.options.host = "127.0.0.1".to_owned();
                    Ok(LaunchStep::Continue)
                } else {
                    Ok(LaunchStep::CheckHost(arg))
                }
            },
            PendingValue::Port => {
                self.pending = PendingValue::Nothing;
                match crate::text::parse_u16(arg.as_str()) {
                    None => {
                        let mut e = "invalid --port: ".to_owned();
                        push_str(&mut e, arg.as_str());
                        Err(e)
                    },
                    Some(p) => if p == 0 {
                        Err("--port must be greater than zero".to_owned())
                    } else {
                        self.options.port = p;
                        Ok(LaunchStep::Continue)
                    },
                }
            },
            PendingValue::Nothing => {
                if crate::enums::same_text(arg.as_str(), "--host") {
                    self.pending = PendingValue::Host;
                    Ok(LaunchStep::Continue)
                } else if crate::enums::same_text(arg.as_str(), "--port") {
                    self.pending = PendingValue::Port;
                    Ok(LaunchStep::Continue)
                } else if crate::enums::same_text(arg.as_str(), "--tui-managed") {
                    self.options.tui_managed = true;
                    Ok(LaunchStep::Continue)
                } else {
                    let mut e = "unknown argument: ".to_owned();
                    push_str(&mut e, arg.as_str());
                    Err(e)
                }
            },
        }
    }

    /// Takes the caller's reading of a `--host` value: only a loopback
    /// address is accepted.
    pub fn host_checked(&mut self, value: &str, verdict: HostVerdict) -> (r: Result<(), String>)
        ensures
            match verdict {
                HostVerdict::NotAnAddress => (r matches Err(e) && e@ == invalid_host_text(value@)) && *final(self)
                    == *old(self),
                HostVerdict::NotLoopback => (r matches Err(e) && e@ == "--host must be a loopback address"@)
                    && *final(self) == *old(self),
                HostVerdict::Loopback(a) => r is Ok && final(self).options == (LaunchOptions {
                    host: a,
                    ..old(self).options
                }) && final(self).pending == old(self).pending,
            },
    {
        match verdict {
            HostVerdict::NotAnAddress => {
                let mut e = "invalid --host: ".to_owned();
                push_str(&mut e, value);
                Err(e)
            },
            HostVerdict::NotLoopback => Err("--host must be a loopback address".to_owned()),
            HostVerdict::Loopback(a) => {
                self.options.host = a;
                Ok(())
            },
        }
    }

    /// The options once the arguments ran out; a flag still waiting for
    /// its value is an error.
    pub fn finish(self) -> (r: Result<LaunchOptions, String>)
        ensures
            self.pending == PendingValue::Host ==> (r matches Err(e) && e@ == "--host requires a value"@),
            self.pending == PendingValue::Port ==> (r matches Err(e) && e@ == "--port requires a value"@),
            self.pending == PendingValue::Nothing ==> r == Ok::<LaunchOptions, String>(self.options),
    {
        match self.pending {
            PendingValue::Host => Err("--host requires a value".to_owned()),
            PendingValue::Port => Err("--port requires a value".to_owned()),
            PendingValue::Nothing => Ok(self.options),
        }
    }
}

/// The base URL of a managed daemon: `http://host:port`, with an IPv6
/// address in brackets.
pub open spec fn api_base_text(host: Seq<char>, port: u16) -> Seq<char> {
    "http://"@ + (if host.contains(':') {
        "["@ + host + "]"@
    } else {
        host
    }) + ":"@ + decimal(port as nat)
}

impl ManagedServerTarget {
    pub fn api_base(&self) -> (r: String)
        ensures
            r@ == api_base_text(self.host@, self.port),
    {
        let cs = crate::text::chars_of(self.host.as_str());
        let mut i: usize = 0;
        let mut v6 = false;
        while i < cs.len()
            invariant
                i <= cs@.len(),
                v6 == cs@.take(i as int).contains(':'),
            decreases cs@.len() - i,
        {
            proof {
                let t0 = cs@.take(i as int);
                let t1 = cs@.take(i + 1);
                assert(t1 =~= t0.push(cs@[i as int]));
                if t0.contains(':') {
                    let k = choose|k: int| 0 <= k < t0.len() && #[trigger] t0[k] == ':';
                    assert(t1[k] == ':');
                }
                if cs@[i as int] == ':' {
                    assert(t1[i as int] == ':');
                }
                if t1.contains(':') && cs@[i as int] != ':' {
                    let k = choose|k: int| 0 <= k < t1.len() && #[trigger] t1[k] == ':';
                    assert(t0[k] == ':');
                }
            }
            if cs[i] == ':' {
                v6 = true;
            }
            i = i + 1;
        }
        assert(cs@.take(i as int) =~= self.host@);
        let mut out = "http://".to_owned();
        if v6 {
            push_str(&mut out, "[");
            push_str(&mut out, self.host.as_str());
            push_str(&mut out, "]");
        } else {
            push_str(&mut out, self.host.as_str());
        }
        push_str(&mut out, ":");
        push_str(&mut out, decimal_string(self.port as u64).as_str());
        out
    }
}

/// The parser's state as values: host, port, managed flag, and the flag
/// whose value comes next.
pub open spec fn parser_view(p: LaunchParser) -> (Seq<char>, u16, bool, PendingValue) {
    (p.options.host@, p.options.port, p.options.tui_managed, p.pending)
}

/// One argument, given how an address parser reads it.
pub open spec fn launch_step(s: (Seq<char>, u16, bool, PendingValue), arg: Seq<char>, verdict: HostVerdict) -> Result<
    (Seq<char>, u16, bool, PendingValue),
    Seq<char>,
> {
    match s.3 {
        PendingValue::Host => if crate::textops::ascii_lowered(arg) == "localhost"@ {
            Ok(("127.0.0.1"@, s.1, s.2, PendingValue::Nothing))
        } else {
            match verdict {
                HostVerdict::NotAnAddress => Err(invalid_host_text(arg)),
                HostVerdict::NotLoopback => Err("--host must be a loopback address"@),
                HostVerdict::Loopback(a) => Ok((a@, s.1, s.2, PendingValue::Nothing)),
            }
        },
        PendingValue::Port => match crate::text::parse_unsigned(arg, u16::MAX as int) {
            None => Err(invalid_port_text(arg)),
            Some(p) => if p == 0 {
                Err("--port must be greater than zero"@)
            } else {
                Ok((s.0, p as u16, s.2, PendingValue::Nothing))
            },
        },
        PendingValue::Nothing => if arg == "--host"@ {
            Ok((s.0, s.1, s.2, PendingValue::Host))
        } else if arg == "--port"@ {
            Ok((s.0, s.1, s.2, PendingValue::Port))
        } else if arg == "--tui-managed"@ {
            Ok((s.0, s.1, true, PendingValue::Nothing))
        } else {
            Err(unknown_argument_text(arg))
        },
    }
}

/// The arguments read in order from the defaults, stopping at the first
/// refused one.
pub open spec fn launch_run(args: Seq<Seq<char>>, verdicts: Seq<HostVerdict>) -> Result<
    (Seq<char>, u16, bool, PendingValue),
    Seq<char>,
>
    decreases args.len(),
{
    if args.len() == 0 {
        Ok(("127.0.0.1"@, DEFAULT_PORT, false, PendingValue::Nothing))
    } else {
        match launch_run(args.drop_last(), verdicts.take(args.len() - 1)) {
            Err(e) => Err(e),
            Ok(s) => launch_step(s, args.last(), verdicts[args.len() - 1]),
        }
    }
}

/// The daemon's options from its arguments: host, port and managed flag,
/// or the first refusal (a flag left without its value included).
pub open spec fn launch_outcome(args: Seq<Seq<char>>, verdicts: Seq<HostVerdict>) -> Result<(Seq<char>, u16, bool), Seq<char>> {
    match launch_run(args, verdicts) {
        Err(e) => Err(e),
        Ok(s) => match s.3 {
            PendingValue::Host => Err("--host requires a value"@),
            PendingValue::Port => Err("--port requires a value"@),
            PendingValue::Nothing => Ok((s.0, s.1, s.2)),
        },
    }
}

pub open spec fn verdict_view(v: HostVerdict) -> Option<Option<Seq<char>>> {
    match v {
        HostVerdict::NotAnAddress => None,
        HostVerdict::NotLoopback => Some(None),
        HostVerdict::Loopback(a) => Some(Some(a@)),
    }
}

fn copy_verdict(v: &HostVerdict) -> (r: HostVerdict)
    ensures
        verdict_view(r) == verdict_view(*v),
        r is NotAnAddress <==> v is NotAnAddress,
        r is NotLoopback <==> v is NotLoopback,
        r matches HostVerdict::Loopback(a) ==> (v matches HostVerdict::Loopback(b) && a@ == b@),
{
    match v {
        HostVerdict::NotAnAddress => HostVerdict::NotAnAddress,
        HostVerdict::NotLoopback => HostVerdict::NotLoopback,
        HostVerdict::Loopback(a) => HostVerdict::Loopback(a.clone()),
    }
}

/// Reads the daemon's arguments. `verdicts[i]` is how the standard
/// library's address parser reads `args[i]` (used only for a `--host`
/// value that is not `localhost`).
pub fn parse_launch_args(args: &Vec<String>, verdicts: &Vec<HostVerdict>) -> (r: Result<LaunchOptions, String>)
    requires
        verdicts@.len() == args@.len(),
    ensures
        (match r {
            Ok(o) => Ok((o.host@, o.port, o.tui_managed)),
            Err(e) => Err(e@),
        }) == launch_outcome(args@.map_values(|a: String| a@), verdicts@),
{
    let ghost av = args@.map_values(|a: String| a@);
    let mut parser = LaunchParser::new();
    let mut i: usize = 0;
    proof {
        assert(av.take(0) =~= Seq::<Seq<char>>::empty());
    }
    while i < args.len()
        invariant
            i <= args@.len(),
            verdicts@.len() == args@.len(),
            av == args@.map_values(|a: String| a@),
            launch_run(av.take(i as int), verdicts@.take(i as int)) == Ok::<
                (Seq<char>, u16, bool, PendingValue),
                Seq<char>,
            >(parser_view(parser)),
        decreases args@.len() - i,
    {
        proof {
            assert(av.take(i + 1).drop_last() =~= av.take(i as int));
            assert(verdicts@.take(i + 1).take(i as int) =~= verdicts@.take(i as int));
            assert(av.take(i + 1).last() == args@[i as int]@);
            assert(verdicts@.take(i + 1)[i as int] == verdicts@[i as int]);
        }
        let ghost before = parser_view(parser);
        let arg = args[i].clone();
        match parser.feed(arg) {
            Err(e) => {
                proof {
                    lemma_launch_run_err(av, verdicts@, (i + 1) as int);
                }
                return Err(e);
            },
            Ok(LaunchStep::Continue) => {},
            Ok(LaunchStep::CheckHost(value)) => {
                let verdict = copy_verdict(&verdicts[i]);
                match parser.host_checked(value.as_str(), verdict) {
                    Err(e) => {
                        proof {
                            lemma_launch_run_err(av, verdicts@, (i + 1) as int);
                        }
                        return Err(e);
                    },
                    Ok(()) => {},
                }
            },
        }
        i = i + 1;
    }
    proof {
        assert(av.take(i as int) =~= av);
        assert(verdicts@.take(i as int) =~= verdicts@);
    }
    parser.finish()
}

proof fn lemma_launch_run_err(args: Seq<Seq<char>>, verdicts: Seq<HostVerdict>, n: int)
    requires
        0 <= n <= args.len(),
        verdicts.len() == args.len(),
        launch_run(args.take(n), verdicts.take(n)) is Err,
    ensures
        launch_run(args, verdicts) == launch_run(args.take(n), verdicts.take(n)),
    decreases args.len() - n,
{
    if n < args.len() {
        assert(args.take(n + 1).drop_last() =~= args.take(n));
        assert(verdicts.take(n + 1).take(n) =~= verdicts.take(n));
        lemma_launch_run_err(args, verdicts, n + 1);
    } else {
        assert(args.take(n) =~= args);
        assert(verdicts.take(n) =~= verdicts);
    }
}

/// With no arguments the daemon listens on 127.0.0.1 at the default port,
/// unmanaged; an unknown first argument, or a flag left without its value,
/// is refused.
pub proof fn law_launch_defaults_and_refusals(arg: Seq<char>, verdict: HostVerdict)
    ensures
        launch_outcome(Seq::empty(), Seq::empty()) == Ok::<(Seq<char>, u16, bool), Seq<char>>(
            ("127.0.0.1"@, DEFAULT_PORT, false),
        ),
        arg != "--host"@ && arg != "--port"@ && arg != "--tui-managed"@ ==> launch_outcome(seq![arg], seq![verdict])
            == Err::<(Seq<char>, u16, bool), Seq<char>>(unknown_argument_text(arg)),
        launch_outcome(seq!["--host"@], seq![verdict]) == Err::<(Seq<char>, u16, bool), Seq<char>>(
            "--host requires a value"@,
        ),
        launch_outcome(seq!["--port"@], seq![verdict]) == Err::<(Seq<char>, u16, bool), Seq<char>>(
            "--port requires a value"@,
        ),
{
    assert(seq![arg].drop_last() =~= Seq::<Seq<char>>::empty());
    assert(seq![verdict].take(0) =~= Seq::<HostVerdict>::empty());
    assert(seq!["--host"@].drop_last() =~= Seq::<Seq<char>>::empty());
    assert(seq!["--port"@].drop_last() =~= Seq::<Seq<char>>::empty());
    reveal_strlit("--host");
    reveal_strlit("--port");
    assert("--port"@[2] != "--host"@[2]);
}

} // verus!
