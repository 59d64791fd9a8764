//! The config-apply command's logic: the administrative statements that
//! set a service's configuration keys on a running cluster.
//!
//! Reading the plugin's config file and running the statements are I/O
//! and live outside the library; the values arrive here already encoded
//! as JSON fragments.
use vstd::prelude::*;

use crate::text::path_join_spec;
use crate::PikeError;

verus! {

/// The parameters of one config-apply call.
#[derive(Clone, Debug)]
pub struct Params {
    pub config_path: String,
    pub data_dir: String,
}

/// A builder of config-apply [`Params`], with the defaults of the
/// command line.
#[derive(Clone, Debug)]
pub struct ParamsBuilder {
    pub config_path: Option<String>,
    pub data_dir: Option<String>,
}

impl Default for ParamsBuilder {
    /// A builder with nothing set.
    fn default() -> (r: ParamsBuilder)
        ensures
            r.config_path is None,
            r.data_dir is None,
    {
        ParamsBuilder { config_path: None, data_dir: None }
    }
}

impl ParamsBuilder {
    /// Sets the plugin config file path.
    pub fn config_path(&mut self, v: String) -> (r: &mut ParamsBuilder)
        ensures
            *r == (ParamsBuilder { config_path: Some(v), ..*old(self) }),
            *final(self) == *final(r),
    {
        self.config_path = Some(v);
        self
    }

    /// Sets the data directory.
    pub fn data_dir(&mut self, v: String) -> (r: &mut ParamsBuilder)
        ensures
            *r == (ParamsBuilder { data_dir: Some(v), ..*old(self) }),
            *final(self) == *final(r),
    {
        self.data_dir = Some(v);
        self
    }

    /// Builds the parameters, filling every unset field with its default.
    pub fn build(self) -> (r: Params)
        ensures
            (match self.config_path {
                Some(v) => r.config_path@ == v@,
                None => r.config_path@ == "plugin_config.yaml"@,
            }),
            (match self.data_dir {
                Some(v) => r.data_dir@ == v@,
                None => r.data_dir@ == "./tmp"@,
            }),
    {
        Params {
            config_path: match self.config_path {
                Some(v) => v,
                None => "plugin_config.yaml".to_owned(),
            },
            data_dir: match self.data_dir {
                Some(v) => v,
                None => "./tmp".to_owned(),
            },
        }
    }
}

/// The statement that sets one service configuration key.
pub open spec fn set_config_stmt(
    plugin: Seq<char>,
    version: Seq<char>,
    service: Seq<char>,
    key: Seq<char>,
    value: Seq<char>,
) -> Seq<char> {
    "ALTER PLUGIN \""@ + plugin + "\" "@ + version + " SET "@ + service + "."@ + key + "='"@
        + value + "';"@
}

/// The statements that apply one service's configuration, one per key in
/// the given order.
pub open spec fn service_config_stmts(
    plugin: Seq<char>,
    version: Seq<char>,
    service: Seq<char>,
    entries: Seq<(String, String)>,
) -> Seq<Seq<char>>
    decreases entries.len(),
{
    if entries.len() == 0 {
        Seq::empty()
    } else {
        service_config_stmts(plugin, version, service, entries.drop_last()).push(
            set_config_stmt(
                plugin,
                version,
                service,
                entries.last().0@,
                entries.last().1@,
            ),
        )
    }
}

fn build_set_config_stmt(
    plugin: &str,
    version: &str,
    service: &str,
    key: &str,
    value: &str,
) -> (r: String)
    ensures
        r@ == set_config_stmt(plugin@, version@, service@, key@, value@),
{
    let mut s: String = "ALTER PLUGIN \"".to_owned();
    s.append(plugin);
    s.append("\" ");
    s.append(version);
    s.append(" SET ");
    s.append(service);
    s.append(".");
    s.append(key);
    s.append("='");
    s.append(value);
    s.append("';");
    proof {
        assert(s@ =~= set_config_stmt(plugin@, version@, service@, key@, value@));
    }
    s
}

/// Builds the statements that apply one service's configuration: one per
/// key, in the given order, each value spliced in as the JSON fragment it
/// arrived as.
pub fn apply_service_config_statements(
    plugin_name: &str,
    plugin_version: &str,
    service_name: &str,
    entries: &Vec<(String, String)>,
) -> (r: Vec<String>)
    ensures
        r.deep_view() == service_config_stmts(
            plugin_name@,
            plugin_version@,
            service_name@,
            entries@,
        ),
{
    let n = entries.len();
    let mut out: Vec<String> = Vec::new();
    let mut i: usize = 0;
    proof {
        assert(out.deep_view() =~= service_config_stmts(
            plugin_name@,
            plugin_version@,
            service_name@,
            entries@.take(0),
        ));
    }
    while i < n
        invariant
            n == entries@.len(),
            0 <= i <= n,
            out.deep_view() =~= service_config_stmts(
                plugin_name@,
                plugin_version@,
                service_name@,
                entries@.take(i as int),
            ),
        decreases n - i,
    {
        let ghost dv = out.deep_view();
        let stmt = build_set_config_stmt(
            plugin_name,
            plugin_version,
            service_name,
            entries[i].0.as_str(),
            entries[i].1.as_str(),
        );
        let ghost sv = stmt@;
        out.push(stmt);
        proof {
            assert(out.deep_view() =~= dv.push(sv));
            assert(entries@.take(i + 1).drop_last() =~= entries@.take(i as int));
            assert(entries@.take(i + 1).last() == entries@[i as int]);
        }
        i = i + 1;
    }
    proof {
        assert(entries@.take(n as int) =~= entries@);
    }
    out
}

/// The admin socket the config-apply command talks to: the first
/// instance's socket under the data directory.
pub fn apply_admin_socket(data_dir: &str) -> (r: String)
    ensures
        r@ == path_join_spec(
            path_join_spec(path_join_spec(data_dir@, "cluster"@), "i1"@),
            "admin.sock"@,
        ),
{
    let a = crate::text::path_join(data_dir, "cluster");
    let b = crate::text::path_join(a.as_str(), "i1");
    crate::text::path_join(b.as_str(), "admin.sock")
}

} // verus!
