//! The launcher's per-instance computations: environment templates, listen
//! addresses, the command line of one node process, the merged tier
//! configuration, and the runtime handle that describes a launched node.
//!
//! Spawning the node process, polling its admin socket and writing its pid
//! file are I/O and live outside the library.
use vstd::prelude::*;

use crate::text::{
    all_digits, dec_str, dec_val, find_char, parse_u16, parse_u64, path_join, path_join_spec,
    push_char, split_once_char, u64_to_string,
};
use crate::PikeError;

verus! {

// ---------------------------------------------------------------------------
// Environment templates
// ---------------------------------------------------------------------------

/// Relies on liquid's parser and renderer: parses the template with the
/// standard filter library and renders it with `instance_id` as the one
/// global; a parse or render failure comes back as liquid's rendered
/// error text. Filters such as `date` can make the result depend on more
/// than the arguments, so nothing is assumed about the rendered text.
#[verifier::external_body]
fn render_template(template: &str, instance_id: u16) -> Result<String, PikeError> {
    let parser = liquid::ParserBuilder::with_stdlib().build().map_err(
        |e| PikeError { msg: format!("{e}") },
    )?;
    let tpl = parser.parse(template).map_err(|e| PikeError { msg: format!("{e}") })?;
    let mut globals = liquid::Object::new();
    globals.insert(
        liquid::model::KString::from_ref("instance_id"),
        liquid::model::Value::scalar(instance_id as i64),
    );
    tpl.render(&globals).map_err(|e| PikeError { msg: format!("{e}") })
}

/// Renders every environment-variable template with the given instance
/// id. The rendered list keeps the declared names in order; what each
/// value holds is the renderer's business and is fixed only by running it.
pub fn compute_env_vars(env_templates: &Vec<(String, String)>, instance_id: u16) -> (r: Result<
    Vec<(String, String)>,
    PikeError,
>)
    ensures
        r matches Ok(vars) ==> vars@.len() == env_templates@.len() && (forall|i: int|
            0 <= i < vars@.len() ==> (#[trigger] vars@[i]).0@ == env_templates@[i].0@),
        env_templates@.len() == 0 ==> r is Ok,
{
    let n = env_templates.len();
    let mut out: Vec<(String, String)> = Vec::new();
    let mut i: usize = 0;
    while i < n
        invariant
            n == env_templates@.len(),
            0 <= i <= n,
            out@.len() == i,
            forall|k: int| 0 <= k < i ==> (#[trigger] out@[k]).0@ == env_templates@[k].0@,
        decreases n - i,
    {
        let key: &String = &env_templates[i].0;
        let tpl: &String = &env_templates[i].1;
        match render_template(tpl.as_str(), instance_id) {
            Ok(value) => {
                out.push((key.clone(), value));
            },
            Err(e) => {
                return Err(e);
            },
        }
        i = i + 1;
    }
    Ok(out)
}

/// The value of the first entry with the given name, or `None`.
pub open spec fn lookup_spec(env: Seq<(String, String)>, key: Seq<char>) -> Option<Seq<char>>
    decreases env.len(),
{
    if env.len() == 0 {
        None
    } else if env[0].0@ == key {
        Some(env[0].1@)
    } else {
        lookup_spec(env.skip(1), key)
    }
}

proof fn lemma_lookup_at(env: Seq<(String, String)>, key: Seq<char>, i: int)
    requires
        0 <= i <= env.len(),
        forall|j: int| 0 <= j < i ==> (#[trigger] env[j]).0@ != key,
        i == env.len() || env[i].0@ == key,
    ensures
        i == env.len() ==> lookup_spec(env, key) is None,
        i < env.len() ==> lookup_spec(env, key) == Some(env[i].1@),
    decreases i,
{
    if i > 0 {
        lemma_lookup_at(env.skip(1), key, i - 1);
    }
}

/// Finds the value of one environment variable by name.
pub fn lookup_env<'a>(env: &'a Vec<(String, String)>, key: &str) -> (r: Option<&'a String>)
    ensures
        r is Some <==> lookup_spec(env@, key@) is Some,
        r matches Some(v) ==> v@ == lookup_spec(env@, key@).unwrap(),
{
    let n = env.len();
    let mut i: usize = 0;
    while i < n
        invariant
            n == env@.len(),
            0 <= i <= n,
            forall|j: int| 0 <= j < i ==> (#[trigger] env@[j]).0@ != key@,
        decreases n - i,
    {
        if crate::text::str_eq(env[i].0.as_str(), key) {
            proof {
                lemma_lookup_at(env@, key@, i as int);
            }
            return Some(&env[i].1);
        }
        i = i + 1;
    }
    proof {
        lemma_lookup_at(env@, key@, n as int);
    }
    None
}

// ---------------------------------------------------------------------------
// IPv4 socket addresses
// ---------------------------------------------------------------------------

/// An IPv4 address and port, the only address family the launcher binds.
#[derive(Clone, Copy, Debug, PartialEq, Eq, Structural)]
pub struct SocketAddr4 {
    pub a: u8,
    pub b: u8,
    pub c: u8,
    pub d: u8,
    pub port: u16,
}

impl SocketAddr4 {
    /// Whether the address lies in the loopback block `127.0.0.0/8`.
    pub fn is_loopback(&self) -> (r: bool)
        ensures
            r == (self.a == 127),
    {
        self.a == 127
    }

    /// Whether the address is `0.0.0.0`.
    pub fn is_unspecified(&self) -> (r: bool)
        ensures
            r == (self.a == 0 && self.b == 0 && self.c == 0 && self.d == 0),
    {
        self.a == 0 && self.b == 0 && self.c == 0 && self.d == 0
    }
}

/// The text of an address: dotted octets, a colon, and the port.
pub open spec fn addr_str_spec(x: SocketAddr4) -> Seq<char> {
    dec_str(x.a as int) + seq!['.'] + dec_str(x.b as int) + seq!['.'] + dec_str(x.c as int)
        + seq!['.'] + dec_str(x.d as int) + seq![':'] + dec_str(x.port as int)
}

/// Writes an address as `a.b.c.d:port`.
pub fn addr_to_string(x: &SocketAddr4) -> (r: String)
    ensures
        r@ == addr_str_spec(*x),
{
    let mut s = u64_to_string(x.a as u64);
    push_char(&mut s, '.');
    let b = u64_to_string(x.b as u64);
    s.append(b.as_str());
    push_char(&mut s, '.');
    let c = u64_to_string(x.c as u64);
    s.append(c.as_str());
    push_char(&mut s, '.');
    let d = u64_to_string(x.d as u64);
    s.append(d.as_str());
    push_char(&mut s, ':');
    let p = u64_to_string(x.port as u64);
    s.append(p.as_str());
    proof {
        assert(s@ =~= addr_str_spec(*x));
    }
    s
}

/// A digit run that denotes one octet: one to three digits valued at
/// most 255, with no leading zero (as the standard address parser has
/// it).
pub open spec fn is_octet(s: Seq<char>) -> bool {
    s.len() > 0 && s.len() <= 3 && all_digits(s) && dec_val(s) <= 255 && (s.len() > 1 ==> s[0]
        != '0')
}

/// The parse of `a.b.c.d:port` text: four dot-separated octets (no
/// leading zeros), a colon, and a decimal port of at most 65535, or
/// `None` when the text has another shape.
pub open spec fn ipv4_spec(s: Seq<char>) -> Option<SocketAddr4> {
    let ci = find_char(s, ':');
    if ci >= s.len() {
        None
    } else {
        let host = s.take(ci);
        let ports = s.skip(ci + 1);
        let d1 = find_char(host, '.');
        if !(ports.len() > 0 && all_digits(ports) && dec_val(ports) <= u16::MAX) {
            None
        } else if d1 >= host.len() {
            None
        } else {
            let o1 = host.take(d1);
            let r1 = host.skip(d1 + 1);
            let d2 = find_char(r1, '.');
            if d2 >= r1.len() {
                None
            } else {
                let o2 = r1.take(d2);
                let r2 = r1.skip(d2 + 1);
                let d3 = find_char(r2, '.');
                if d3 >= r2.len() {
                    None
                } else {
                    let o3 = r2.take(d3);
                    let o4 = r2.skip(d3 + 1);
                    if is_octet(o1) && is_octet(o2) && is_octet(o3) && is_octet(o4)
                        && find_char(o4, '.') >= o4.len() {
                        Some(
                            SocketAddr4 {
                                a: dec_val(o1) as u8,
                                b: dec_val(o2) as u8,
                                c: dec_val(o3) as u8,
                                d: dec_val(o4) as u8,
                                port: dec_val(ports) as u16,
                            },
                        )
                    } else {
                        None
                    }
                }
            }
        }
    }
}

/// Reads one octet, `None` unless [`is_octet`] holds of it.
fn parse_octet(s: &str) -> (r: Option<u8>)
    ensures
        r is Some <==> is_octet(s@),
        r matches Some(v) ==> v == dec_val(s@),
{
    let len = s.unicode_len();
    if len == 0 || len > 3 {
        return None;
    }
    if len > 1 && s.get_char(0) == '0' {
        return None;
    }
    match parse_u64(s) {
        Some(v) => {
            if v <= 255 {
                Some(v as u8)
            } else {
                None
            }
        },
        None => None,
    }
}

/// Parses `a.b.c.d:port` text, as [`ipv4_spec`] describes it.
pub fn parse_socket_addr4(s: &str) -> (r: Option<SocketAddr4>)
    ensures
        r == ipv4_spec(s@),
{
    let (host, ports) = match split_once_char(s, ':') {
        Some(hp) => hp,
        None => {
            return None;
        },
    };
    let port = match parse_u16(ports) {
        Some(p) => p,
        None => {
            return None;
        },
    };
    let (o1s, r1) = match split_once_char(host, '.') {
        Some(x) => x,
        None => {
            return None;
        },
    };
    let (o2s, r2) = match split_once_char(r1, '.') {
        Some(x) => x,
        None => {
            return None;
        },
    };
    let (o3s, o4s) = match split_once_char(r2, '.') {
        Some(x) => x,
        None => {
            return None;
        },
    };
    if split_once_char(o4s, '.').is_some() {
        return None;
    }
    let a = match parse_octet(o1s) {
        Some(v) => v,
        None => {
            return None;
        },
    };
    let b = match parse_octet(o2s) {
        Some(v) => v,
        None => {
            return None;
        },
    };
    let c = match parse_octet(o3s) {
        Some(v) => v,
        None => {
            return None;
        },
    };
    let d = match parse_octet(o4s) {
        Some(v) => v,
        None => {
            return None;
        },
    };
    Some(SocketAddr4 { a, b, c, d, port })
}

/// What the launcher does with one environment variable that may name a
/// listen address: absent means none, a valid loopback or unspecified
/// address is taken, and anything else is a configuration error.
pub open spec fn liquid_var_outcome(env: Seq<(String, String)>, variable: Seq<char>) -> Result<
    Option<SocketAddr4>,
    (),
> {
    match lookup_spec(env, variable) {
        None => Ok(None),
        Some(v) => match ipv4_spec(v) {
            None => Err(()),
            Some(addr) => {
                if addr.a == 127 || (addr.a == 0 && addr.b == 0 && addr.c == 0 && addr.d == 0) {
                    Ok(Some(addr))
                } else {
                    Err(())
                }
            },
        },
    }
}

/// Reads a listen address from the rendered environment: an absent
/// variable yields none, a valid loopback or unspecified address is
/// returned, and any other value is a configuration error since the
/// orchestrator assumes single-host operation.
pub fn get_ipv4_from_liquid_var(env_vars: &Vec<(String, String)>, variable: &str) -> (r: Result<
    Option<SocketAddr4>,
    PikeError,
>)
    ensures
        r is Ok <==> liquid_var_outcome(env_vars@, variable@) is Ok,
        r matches Ok(a) ==> a == liquid_var_outcome(env_vars@, variable@).unwrap(),
        lookup_spec(env_vars@, variable@) matches Some(v) && ipv4_spec(v) is None ==> (r matches
            Err(e) && e.msg@ == "could not parse "@ + variable@
            + " to an ipv4 address. hint: use 127.0.0.1"@),
        lookup_spec(env_vars@, variable@) matches Some(v) && ipv4_spec(v) matches Some(addr)
            && !(addr.a == 127 || (addr.a == 0 && addr.b == 0 && addr.c == 0 && addr.d == 0))
            ==> (r matches Err(e) && e.msg@ == "ipv4 address of variable "@ + variable@
            + " is not loopback (127.0.0.1) or unspecified (0.0.0.0), so it can't be used in pike."@),
{
    let value = match lookup_env(env_vars, variable) {
        None => {
            return Ok(None);
        },
        Some(v) => v,
    };
    match parse_socket_addr4(value.as_str()) {
        None => {
            let mut msg: String = "could not parse ".to_owned();
            msg.append(variable);
            msg.append(" to an ipv4 address. hint: use 127.0.0.1");
            Err(PikeError { msg })
        },
        Some(addr) => {
            if addr.is_loopback() || addr.is_unspecified() {
                Ok(Some(addr))
            } else {
                let mut msg: String = "ipv4 address of variable ".to_owned();
                msg.append(variable);
                msg.append(
                    " is not loopback (127.0.0.1) or unspecified (0.0.0.0), so it can't be used in pike.",
                );
                Err(PikeError { msg })
            }
        },
    }
}

// ---------------------------------------------------------------------------
// Command-line construction
// ---------------------------------------------------------------------------

/// Whether a version banner names the legacy generation of the target
/// binary, whose flags are spelled differently.
pub open spec fn is_legacy_version(version: Seq<char>) -> bool {
    crate::text::contains_seq(version, "picodata 24.6"@)
}

/// The flag spellings of one generation of the target binary.
#[derive(Clone, Copy, Debug)]
pub struct CliFlagNames {
    pub data_dir_flag: &'static str,
    pub listen_flag: &'static str,
}

/// Picks the flag spellings that the detected binary generation accepts.
pub fn picodata_cli_flags(picodata_version: &str) -> (r: CliFlagNames)
    ensures
        is_legacy_version(picodata_version@) ==> r.data_dir_flag@ == "--data-dir"@
            && r.listen_flag@ == "--listen"@,
        !is_legacy_version(picodata_version@) ==> r.data_dir_flag@ == "--instance-dir"@
            && r.listen_flag@ == "--iproto-listen"@,
{
    if crate::text::contains(picodata_version, "picodata 24.6") {
        CliFlagNames { data_dir_flag: "--data-dir", listen_flag: "--listen" }
    } else {
        CliFlagNames { data_dir_flag: "--instance-dir", listen_flag: "--iproto-listen" }
    }
}

/// The positional name of an instance, `i<id>`.
pub fn positional_instance_name(instance_id: u16) -> (r: String)
    ensures
        r@ == seq!['i'] + dec_str(instance_id as int),
{
    let mut s = String::new();
    push_char(&mut s, 'i');
    let id = u64_to_string(instance_id as u64);
    s.append(id.as_str());
    proof {
        assert(s@ =~= seq!['i'] + dec_str(instance_id as int));
    }
    s
}

/// The text written to an instance's pid file: the decimal pid and one
/// newline.
pub fn pid_file_contents(pid: u32) -> (r: String)
    ensures
        r@ == dec_str(pid as int) + seq!['\n'],
{
    let mut s = u64_to_string(pid as u64);
    push_char(&mut s, '\n');
    s
}

/// The fixed part of one node's command line, in order: the run
/// subcommand, the instance directory, the listen, peer, HTTP and
/// Postgres addresses, the tier, and the inline tier configuration.
pub open spec fn base_run_args(
    flags: CliFlagNames,
    instance_data_dir: Seq<char>,
    bin_addr: Seq<char>,
    peer_addr: Seq<char>,
    http_addr: Seq<char>,
    pg_addr: Seq<char>,
    tier: Seq<char>,
    tiers_config: Seq<char>,
) -> Seq<Seq<char>> {
    seq![
        "run"@,
        flags.data_dir_flag@,
        instance_data_dir,
        flags.listen_flag@,
        bin_addr,
        "--peer"@,
        peer_addr,
        "--http-listen"@,
        http_addr,
        "--pg-listen"@,
        pg_addr,
        "--tier"@,
        tier,
        "--config-parameter"@,
        "cluster.tier="@ + tiers_config,
    ]
}

/// Builds one node's command-line arguments: the fixed part, then the
/// config file when it exists, the plugin directory when one is used, and
/// in daemon mode the log file flag.
pub fn build_run_args(
    flags: &CliFlagNames,
    instance_data_dir: &str,
    bin_addr: &str,
    peer_addr: &str,
    http_addr: &str,
    pg_addr: &str,
    tier: &str,
    tiers_config: &str,
    config_path: Option<&String>,
    plugins_dir: Option<&String>,
    daemon_log: Option<&String>,
) -> (r: Vec<String>)
    ensures
        r.deep_view() == base_run_args(
            *flags,
            instance_data_dir@,
            bin_addr@,
            peer_addr@,
            http_addr@,
            pg_addr@,
            tier@,
            tiers_config@,
        ) + (match config_path {
            Some(c) => seq!["--config"@, c@],
            None => Seq::<Seq<char>>::empty(),
        }) + (match plugins_dir {
            Some(p) => seq!["--plugin-dir"@, p@],
            None => Seq::<Seq<char>>::empty(),
        }) + (match daemon_log {
            Some(l) => seq!["--log"@, l@],
            None => Seq::<Seq<char>>::empty(),
        }),
{
    let mut args: Vec<String> = Vec::new();
    args.push("run".to_owned());
    args.push(flags.data_dir_flag.to_owned());
    args.push(instance_data_dir.to_owned());
    args.push(flags.listen_flag.to_owned());
    args.push(bin_addr.to_owned());
    args.push("--peer".to_owned());
    args.push(peer_addr.to_owned());
    args.push("--http-listen".to_owned());
    args.push(http_addr.to_owned());
    args.push("--pg-listen".to_owned());
    args.push(pg_addr.to_owned());
    args.push("--tier".to_owned());
    args.push(tier.to_owned());
    args.push("--config-parameter".to_owned());
    let mut inline: String = "cluster.tier=".to_owned();
    inline.append(tiers_config);
    args.push(inline);
    let ghost base = base_run_args(
        *flags,
        instance_data_dir@,
        bin_addr@,
        peer_addr@,
        http_addr@,
        pg_addr@,
        tier@,
        tiers_config@,
    );
    proof {
        assert(args.deep_view() =~= base);
    }
    match config_path {
        Some(c) => {
            let ghost dv = args.deep_view();
            args.push("--config".to_owned());
            args.push(c.clone());
            proof {
                assert(args.deep_view() =~= dv + seq!["--config"@, c@]);
            }
        },
        None => {},
    }
    match plugins_dir {
        Some(p) => {
            let ghost dv = args.deep_view();
            args.push("--plugin-dir".to_owned());
            args.push(p.clone());
            proof {
                assert(args.deep_view() =~= dv + seq!["--plugin-dir"@, p@]);
            }
        },
        None => {},
    }
    match daemon_log {
        Some(l) => {
            let ghost dv = args.deep_view();
            args.push("--log".to_owned());
            args.push(l.clone());
            proof {
                assert(args.deep_view() =~= dv + seq!["--log"@, l@]);
            }
        },
        None => {},
    }
    proof {
        if config_path is None {
            assert(base + Seq::<Seq<char>>::empty() =~= base);
        }
        assert(args.deep_view() =~= base + (match config_path {
            Some(c) => seq!["--config"@, c@],
            None => Seq::<Seq<char>>::empty(),
        }) + (match plugins_dir {
            Some(p) => seq!["--plugin-dir"@, p@],
            None => Seq::<Seq<char>>::empty(),
        }) + (match daemon_log {
            Some(l) => seq!["--log"@, l@],
            None => Seq::<Seq<char>>::empty(),
        }));
    }
    args
}

// ---------------------------------------------------------------------------
// The launch plan of one instance
// ---------------------------------------------------------------------------

/// The listen address one variable resolves to: the validated value from
/// the rendered environment, or the default when the variable is absent.
pub open spec fn resolved_addr(
    env: Seq<(String, String)>,
    variable: Seq<char>,
    default: SocketAddr4,
) -> SocketAddr4 {
    match liquid_var_outcome(env, variable) {
        Ok(Some(a)) => a,
        _ => default,
    }
}

/// Everything the launcher computes before it spawns one node: the
/// positional name, the directories, the rendered environments, the
/// resolved ports, and the full command line.
pub struct LaunchPlan {
    pub instance_name: String,
    pub instance_data_dir: String,
    pub log_file_path: String,
    pub env_vars: Vec<(String, String)>,
    pub first_env_vars: Vec<(String, String)>,
    pub args: Vec<String>,
    pub bin_port: u16,
    pub http_port: u16,
    pub pg_port: u16,
}

/// Computes one instance's launch plan: its positional name `i<id>` and
/// directories, the environment rendered with its id (and once with id 1,
/// which fixes the peer address), the listen addresses — taken from the
/// rendered environment when set and valid, else synthesized from the
/// base ports — and the node's command line. Rendering or an invalid
/// listen address is the error.
pub fn launch_plan(
    instance_id: u16,
    tier: &str,
    plugins_dir: Option<&String>,
    params: &crate::run::Params,
    picodata_version: &str,
    config_file_exists: bool,
    tiers_config: &str,
) -> (r: Result<LaunchPlan, PikeError>)
    requires
        params.base_bin_port + instance_id <= u16::MAX,
        params.base_bin_port + 1 <= u16::MAX,
        params.base_http_port + instance_id <= u16::MAX,
        params.base_pg_port + instance_id <= u16::MAX,
    ensures
        r matches Ok(plan) ==> {
            let cluster_dir = path_join_spec(
                path_join_spec(params.plugin_path@, params.data_dir@),
                "cluster"@,
            );
            let bin = resolved_addr(
                plan.env_vars@,
                "PICODATA_IPROTO_LISTEN"@,
                SocketAddr4 {
                    a: 127,
                    b: 0,
                    c: 0,
                    d: 1,
                    port: (params.base_bin_port + instance_id) as u16,
                },
            );
            let first_bin = resolved_addr(
                plan.first_env_vars@,
                "PICODATA_IPROTO_LISTEN"@,
                SocketAddr4 {
                    a: 127,
                    b: 0,
                    c: 0,
                    d: 1,
                    port: (params.base_bin_port + 1) as u16,
                },
            );
            let http = resolved_addr(
                plan.env_vars@,
                "PICODATA_HTTP_LISTEN"@,
                SocketAddr4 {
                    a: 0,
                    b: 0,
                    c: 0,
                    d: 0,
                    port: (params.base_http_port + instance_id) as u16,
                },
            );
            let pg = resolved_addr(
                plan.env_vars@,
                "PICODATA_PG_LISTEN"@,
                SocketAddr4 {
                    a: 127,
                    b: 0,
                    c: 0,
                    d: 1,
                    port: (params.base_pg_port + instance_id) as u16,
                },
            );
            &&& plan.instance_name@ == seq!['i'] + dec_str(instance_id as int)
            &&& plan.instance_data_dir@ == path_join_spec(cluster_dir, plan.instance_name@)
            &&& plan.log_file_path@ == path_join_spec(plan.instance_data_dir@, "picodata.log"@)
            &&& plan.env_vars@.len() == params.topology.enviroment@.len()
            &&& (forall|i: int|
                0 <= i < plan.env_vars@.len() ==> (#[trigger] plan.env_vars@[i]).0@
                    == params.topology.enviroment@[i].0@)
            &&& liquid_var_outcome(plan.env_vars@, "PICODATA_IPROTO_LISTEN"@) is Ok
            &&& liquid_var_outcome(plan.first_env_vars@, "PICODATA_IPROTO_LISTEN"@) is Ok
            &&& liquid_var_outcome(plan.env_vars@, "PICODATA_HTTP_LISTEN"@) is Ok
            &&& liquid_var_outcome(plan.env_vars@, "PICODATA_PG_LISTEN"@) is Ok
            &&& plan.bin_port == bin.port
            &&& plan.http_port == http.port
            &&& plan.pg_port == pg.port
            &&& plan.args.deep_view() == base_run_args(
                if is_legacy_version(picodata_version@) {
                    CliFlagNames { data_dir_flag: "--data-dir", listen_flag: "--listen" }
                } else {
                    CliFlagNames {
                        data_dir_flag: "--instance-dir",
                        listen_flag: "--iproto-listen",
                    }
                },
                plan.instance_data_dir@,
                addr_str_spec(bin),
                addr_str_spec(first_bin),
                addr_str_spec(http),
                addr_str_spec(pg),
                tier@,
                tiers_config@,
            ) + (if config_file_exists {
                seq![
                    "--config"@,
                    path_join_spec(params.plugin_path@, params.config_path@),
                ]
            } else {
                Seq::<Seq<char>>::empty()
            }) + (match plugins_dir {
                Some(p) => seq!["--plugin-dir"@, p@],
                None => Seq::<Seq<char>>::empty(),
            }) + (if params.daemon {
                seq!["--log"@, plan.log_file_path@]
            } else {
                Seq::<Seq<char>>::empty()
            })
        },
        params.topology.enviroment@.len() == 0 ==> r is Ok,
{
    let instance_name = positional_instance_name(instance_id);
    let cluster_dir = crate::admin::get_cluster_dir(
        params.plugin_path.as_str(),
        params.data_dir.as_str(),
    );
    let instance_data_dir = path_join(cluster_dir.as_str(), instance_name.as_str());
    let log_file_path = path_join(instance_data_dir.as_str(), "picodata.log");

    let env_vars = match compute_env_vars(&params.topology.enviroment, instance_id) {
        Ok(v) => v,
        Err(e) => {
            return Err(e);
        },
    };
    let first_env_vars = match compute_env_vars(&params.topology.enviroment, 1) {
        Ok(v) => v,
        Err(e) => {
            return Err(e);
        },
    };

    let flags = picodata_cli_flags(picodata_version);

    let bin = match get_ipv4_from_liquid_var(&env_vars, "PICODATA_IPROTO_LISTEN") {
        Ok(Some(a)) => a,
        Ok(None) => SocketAddr4 {
            a: 127,
            b: 0,
            c: 0,
            d: 1,
            port: params.base_bin_port + instance_id,
        },
        Err(e) => {
            return Err(e);
        },
    };
    let first_bin = match get_ipv4_from_liquid_var(&first_env_vars, "PICODATA_IPROTO_LISTEN") {
        Ok(Some(a)) => a,
        Ok(None) => SocketAddr4 { a: 127, b: 0, c: 0, d: 1, port: params.base_bin_port + 1 },
        Err(e) => {
            return Err(e);
        },
    };
    let http = match get_ipv4_from_liquid_var(&env_vars, "PICODATA_HTTP_LISTEN") {
        Ok(Some(a)) => a,
        Ok(None) => SocketAddr4 {
            a: 0,
            b: 0,
            c: 0,
            d: 0,
            port: params.base_http_port + instance_id,
        },
        Err(e) => {
            return Err(e);
        },
    };
    let pg = match get_ipv4_from_liquid_var(&env_vars, "PICODATA_PG_LISTEN") {
        Ok(Some(a)) => a,
        Ok(None) => SocketAddr4 {
            a: 127,
            b: 0,
            c: 0,
            d: 1,
            port: params.base_pg_port + instance_id,
        },
        Err(e) => {
            return Err(e);
        },
    };

    let bin_addr = addr_to_string(&bin);
    let first_bin_addr = addr_to_string(&first_bin);
    let http_addr = addr_to_string(&http);
    let pg_addr = addr_to_string(&pg);

    let joined_config = path_join(params.plugin_path.as_str(), params.config_path.as_str());
    let config_opt: Option<&String> = if config_file_exists {
        Some(&joined_config)
    } else {
        None
    };
    let daemon_log: Option<&String> = if params.daemon {
        Some(&log_file_path)
    } else {
        None
    };

    let args = build_run_args(
        &flags,
        instance_data_dir.as_str(),
        bin_addr.as_str(),
        first_bin_addr.as_str(),
        http_addr.as_str(),
        pg_addr.as_str(),
        tier,
        tiers_config,
        config_opt,
        plugins_dir,
        daemon_log,
    );

    Ok(
        LaunchPlan {
            instance_name,
            instance_data_dir,
            log_file_path,
            env_vars,
            first_env_vars,
            args,
            bin_port: bin.port,
            http_port: http.port,
            pg_port: pg.port,
        },
    )
}

/// Decides what the readiness deadline left: a node that reported itself
/// Online carries its negotiated name on; one that never did is a hard
/// failure, not a node to keep.
pub fn readiness_outcome(reported_name: Option<String>, positional_name: &str) -> (r: Result<
    String,
    PikeError,
>)
    ensures
        reported_name matches Some(n) ==> (r matches Ok(m) && m@ == n@),
        reported_name is None ==> (r matches Err(e) && e.msg@ == "instance "@ + positional_name@
            + " failed to reach Online before the readiness deadline"@),
{
    match reported_name {
        Some(name) => Ok(name),
        None => {
            let mut msg: String = "instance ".to_owned();
            msg.append(positional_name);
            msg.append(" failed to reach Online before the readiness deadline");
            Err(PikeError { msg })
        },
    }
}

// ---------------------------------------------------------------------------
// The runtime handle of a launched node
// ---------------------------------------------------------------------------

/// Relies on nix's kill: sends SIGKILL to the process with this id; a
/// refusal from the OS comes back as its rendered error text.
#[verifier::external_body]
pub(crate) fn send_sigkill_to(pid: u32) -> Result<(), PikeError> {
    let target = nix::unistd::Pid::from_raw(pid as i32);
    match nix::sys::signal::kill(target, nix::sys::signal::Signal::SIGKILL) {
        Ok(()) => Ok(()),
        Err(e) => Err(PikeError { msg: format!("{e}") }),
    }
}

/// A borrowed summary of one launched instance.
pub struct PicodataInstanceProperties<'a> {
    pub bin_port: &'a u16,
    pub pg_port: &'a u16,
    pub http_port: &'a u16,
    pub data_dir: &'a str,
    pub instance_name: &'a str,
    pub tier: &'a str,
    pub instance_id: &'a u16,
}

/// One launched node, as the orchestrator tracks it: its identity, its
/// directories and ports, and the id of its OS process. The process
/// itself is owned by the caller that spawned it.
#[derive(Debug)]
pub struct PicodataInstance {
    pub instance_name: String,
    pub instance_id: u16,
    pub tier: String,
    pub daemon: bool,
    pub data_dir: String,
    pub log_file_path: String,
    pub pg_port: u16,
    pub bin_port: u16,
    pub http_port: u16,
    pub pid: u32,
}

impl PicodataInstance {
    /// The port of the Postgres-wire listener.
    pub fn pg_port(&self) -> (r: &u16)
        ensures
            *r == self.pg_port,
    {
        &self.pg_port
    }

    /// All of the instance's properties at once.
    pub fn properties<'a>(&'a self) -> (r: PicodataInstanceProperties<'a>)
        ensures
            *r.bin_port == self.bin_port,
            *r.pg_port == self.pg_port,
            *r.http_port == self.http_port,
            r.data_dir@ == self.data_dir@,
            r.instance_name@ == self.instance_name@,
            r.tier@ == self.tier@,
            *r.instance_id == self.instance_id,
    {
        PicodataInstanceProperties {
            bin_port: &self.bin_port,
            pg_port: &self.pg_port,
            http_port: &self.http_port,
            data_dir: self.data_dir.as_str(),
            instance_name: self.instance_name.as_str(),
            tier: self.tier.as_str(),
            instance_id: &self.instance_id,
        }
    }

    /// Force-kills the instance's OS process by pid.
    pub fn kill(&self) -> Result<(), PikeError> {
        send_sigkill_to(self.pid)
    }
}

} // verus!
