//! The cluster orchestrator's decisions: run parameters, the idempotency
//! guard against double starts, deterministic instance numbering, tier
//! recovery for a restarted instance, the web-auth toggle, and the
//! rollback set when a plugin install fails.
//!
//! Spawning nodes, probing sockets and waiting on deadlines are I/O and
//! live outside the library; every decision they need is taken here from
//! plain values.
use vstd::prelude::*;

use crate::instance::PicodataInstance;
use crate::text::{dec_val, is_prefix, parse_u16, path_join, path_join_spec};
use crate::topology::{Tier, Topology};
use crate::PikeError;

verus! {

/// The build profile of the plugin under orchestration.
#[derive(Clone, Copy, Debug, PartialEq, Eq, Structural)]
pub enum BuildType {
    Release,
    Debug,
}

impl BuildType {
    /// The profile's directory name under the target directory.
    pub fn as_str(&self) -> (r: &'static str)
        ensures
            self is Release ==> r@ == "release"@,
            self is Debug ==> r@ == "debug"@,
    {
        match self {
            BuildType::Release => "release",
            BuildType::Debug => "debug",
        }
    }
}

/// The run configuration of one orchestration call.
#[derive(Clone, Debug)]
pub struct Params {
    pub topology: Topology,
    pub data_dir: String,
    pub disable_plugin_install: bool,
    pub base_bin_port: u16,
    pub base_http_port: u16,
    pub picodata_path: String,
    pub base_pg_port: u16,
    pub use_release: bool,
    pub target_dir: String,
    pub daemon: bool,
    pub disable_colors: bool,
    pub plugin_path: String,
    pub no_build: bool,
    pub config_path: String,
    pub instance_name: Option<String>,
    pub with_web_auth: bool,
}

impl Params {
    /// The build profile the run uses.
    pub fn get_build_profile(&self) -> (r: BuildType)
        ensures
            r is Release <==> self.use_release,
    {
        if self.use_release {
            BuildType::Release
        } else {
            BuildType::Debug
        }
    }

    /// Where resolved plugins live for this run: the profile directory
    /// under the plugin's target directory, or nothing when the plugin
    /// path is no plugin project.
    pub fn plugins_dir(&self, is_plugin_dir: bool) -> (r: Option<String>)
        ensures
            is_plugin_dir <==> r is Some,
            r matches Some(d) ==> d@ == path_join_spec(
                self.plugin_path@,
                path_join_spec(
                    self.target_dir@,
                    if self.use_release {
                        "release"@
                    } else {
                        "debug"@
                    },
                ),
            ),
    {
        if is_plugin_dir {
            let profile = self.get_build_profile();
            let sub = path_join(self.target_dir.as_str(), profile.as_str());
            Some(path_join(self.plugin_path.as_str(), sub.as_str()))
        } else {
            None
        }
    }
}

/// A builder of [`Params`], with the defaults of the command line.
#[derive(Clone, Debug)]
pub struct ParamsBuilder {
    pub topology: Option<Topology>,
    pub data_dir: Option<String>,
    pub disable_plugin_install: Option<bool>,
    pub base_bin_port: Option<u16>,
    pub base_http_port: Option<u16>,
    pub picodata_path: Option<String>,
    pub base_pg_port: Option<u16>,
    pub use_release: Option<bool>,
    pub target_dir: Option<String>,
    pub daemon: Option<bool>,
    pub disable_colors: Option<bool>,
    pub plugin_path: Option<String>,
    pub no_build: Option<bool>,
    pub config_path: Option<String>,
    pub instance_name: Option<Option<String>>,
    pub with_web_auth: Option<bool>,
}

impl Default for ParamsBuilder {
    /// A builder with nothing set.
    fn default() -> (r: ParamsBuilder)
        ensures
            r.topology is None,
            r.data_dir is None,
            r.instance_name is None,
    {
        ParamsBuilder {
            topology: None,
            data_dir: None,
            disable_plugin_install: None,
            base_bin_port: None,
            base_http_port: None,
            picodata_path: None,
            base_pg_port: None,
            use_release: None,
            target_dir: None,
            daemon: None,
            disable_colors: None,
            plugin_path: None,
            no_build: None,
            config_path: None,
            instance_name: None,
            with_web_auth: None,
        }
    }
}

impl ParamsBuilder {
    /// Sets the topology, the one field without a default.
    pub fn topology(&mut self, t: Topology) -> (r: &mut ParamsBuilder)
        ensures
            *r == (ParamsBuilder { topology: Some(t), ..*old(self) }),
            *final(self) == *final(r),
    {
        self.topology = Some(t);
        self
    }

    /// Sets the data directory.
    pub fn data_dir(&mut self, v: String) -> (r: &mut ParamsBuilder)
        ensures
            *r == (ParamsBuilder { data_dir: Some(v), ..*old(self) }),
            *final(self) == *final(r),
    {
        self.data_dir = Some(v);
        self
    }

    /// Disables the automatic plugin install.
    pub fn disable_plugin_install(&mut self, v: bool) -> (r: &mut ParamsBuilder)
        ensures
            *r == (ParamsBuilder { disable_plugin_install: Some(v), ..*old(self) }),
            *final(self) == *final(r),
    {
        self.disable_plugin_install = Some(v);
        self
    }

    /// Sets the base port of the internal protocol listeners.
    pub fn base_bin_port(&mut self, v: u16) -> (r: &mut ParamsBuilder)
        ensures
            *r == (ParamsBuilder { base_bin_port: Some(v), ..*old(self) }),
            *final(self) == *final(r),
    {
        self.base_bin_port = Some(v);
        self
    }

    /// Sets the base port of the HTTP listeners.
    pub fn base_http_port(&mut self, v: u16) -> (r: &mut ParamsBuilder)
        ensures
            *r == (ParamsBuilder { base_http_port: Some(v), ..*old(self) }),
            *final(self) == *final(r),
    {
        self.base_http_port = Some(v);
        self
    }

    /// Sets the target database binary path.
    pub fn picodata_path(&mut self, v: String) -> (r: &mut ParamsBuilder)
        ensures
            *r == (ParamsBuilder { picodata_path: Some(v), ..*old(self) }),
            *final(self) == *final(r),
    {
        self.picodata_path = Some(v);
        self
    }

    /// Sets the base port of the Postgres-wire listeners.
    pub fn base_pg_port(&mut self, v: u16) -> (r: &mut ParamsBuilder)
        ensures
            *r == (ParamsBuilder { base_pg_port: Some(v), ..*old(self) }),
            *final(self) == *final(r),
    {
        self.base_pg_port = Some(v);
        self
    }

    /// Selects the release build profile.
    pub fn use_release(&mut self, v: bool) -> (r: &mut ParamsBuilder)
        ensures
            *r == (ParamsBuilder { use_release: Some(v), ..*old(self) }),
            *final(self) == *final(r),
    {
        self.use_release = Some(v);
        self
    }

    /// Sets the build target directory.
    pub fn target_dir(&mut self, v: String) -> (r: &mut ParamsBuilder)
        ensures
            *r == (ParamsBuilder { target_dir: Some(v), ..*old(self) }),
            *final(self) == *final(r),
    {
        self.target_dir = Some(v);
        self
    }

    /// Detaches the launched instances from the orchestrator.
    pub fn daemon(&mut self, v: bool) -> (r: &mut ParamsBuilder)
        ensures
            *r == (ParamsBuilder { daemon: Some(v), ..*old(self) }),
            *final(self) == *final(r),
    {
        self.daemon = Some(v);
        self
    }

    /// Turns off colored log labels.
    pub fn disable_colors(&mut self, v: bool) -> (r: &mut ParamsBuilder)
        ensures
            *r == (ParamsBuilder { disable_colors: Some(v), ..*old(self) }),
            *final(self) == *final(r),
    {
        self.disable_colors = Some(v);
        self
    }

    /// Sets the plugin project path.
    pub fn plugin_path(&mut self, v: String) -> (r: &mut ParamsBuilder)
        ensures
            *r == (ParamsBuilder { plugin_path: Some(v), ..*old(self) }),
            *final(self) == *final(r),
    {
        self.plugin_path = Some(v);
        self
    }

    /// Skips the plugin build step.
    pub fn no_build(&mut self, v: bool) -> (r: &mut ParamsBuilder)
        ensures
            *r == (ParamsBuilder { no_build: Some(v), ..*old(self) }),
            *final(self) == *final(r),
    {
        self.no_build = Some(v);
        self
    }

    /// Sets the node config override file path.
    pub fn config_path(&mut self, v: String) -> (r: &mut ParamsBuilder)
        ensures
            *r == (ParamsBuilder { config_path: Some(v), ..*old(self) }),
            *final(self) == *final(r),
    {
        self.config_path = Some(v);
        self
    }

    /// Restricts the run to one named instance.
    pub fn instance_name(&mut self, v: Option<String>) -> (r: &mut ParamsBuilder)
        ensures
            *r == (ParamsBuilder { instance_name: Some(v), ..*old(self) }),
            *final(self) == *final(r),
    {
        self.instance_name = Some(v);
        self
    }

    /// Enables web-console authentication.
    pub fn with_web_auth(&mut self, v: bool) -> (r: &mut ParamsBuilder)
        ensures
            *r == (ParamsBuilder { with_web_auth: Some(v), ..*old(self) }),
            *final(self) == *final(r),
    {
        self.with_web_auth = Some(v);
        self
    }

    /// Builds the parameters, filling every unset field with its default;
    /// only the topology has none and must have been set.
    pub fn build(self) -> (r: Result<Params, PikeError>)
        ensures
            r is Ok <==> self.topology is Some,
            r matches Ok(p) ==> {
                &&& p.topology == self.topology.unwrap()
                &&& (match self.data_dir {
                    Some(v) => p.data_dir@ == v@,
                    None => p.data_dir@ == "./tmp"@,
                })
                &&& p.disable_plugin_install == self.disable_plugin_install.unwrap_or(false)
                &&& p.base_bin_port == self.base_bin_port.unwrap_or(3000)
                &&& p.base_http_port == self.base_http_port.unwrap_or(8000)
                &&& (match self.picodata_path {
                    Some(v) => p.picodata_path@ == v@,
                    None => p.picodata_path@ == "picodata"@,
                })
                &&& p.base_pg_port == self.base_pg_port.unwrap_or(5432)
                &&& p.use_release == self.use_release.unwrap_or(false)
                &&& (match self.target_dir {
                    Some(v) => p.target_dir@ == v@,
                    None => p.target_dir@ == "target"@,
                })
                &&& p.daemon == self.daemon.unwrap_or(false)
                &&& p.disable_colors == self.disable_colors.unwrap_or(false)
                &&& (match self.plugin_path {
                    Some(v) => p.plugin_path@ == v@,
                    None => p.plugin_path@ == "./"@,
                })
                &&& p.no_build == self.no_build.unwrap_or(false)
                &&& (match self.config_path {
                    Some(v) => p.config_path@ == v@,
                    None => p.config_path@ == "./picodata.yaml"@,
                })
                &&& (match self.instance_name {
                    Some(v) => p.instance_name == v,
                    None => p.instance_name is None,
                })
                &&& p.with_web_auth == self.with_web_auth.unwrap_or(false)
            },
            r is Err ==> r->Err_0.msg@ == "topology is not set"@,
    {
        let topology = match self.topology {
            Some(t) => t,
            None => {
                return Err(PikeError { msg: "topology is not set".to_owned() });
            },
        };
        Ok(
            Params {
                topology,
                data_dir: match self.data_dir {
                    Some(v) => v,
                    None => "./tmp".to_owned(),
                },
                disable_plugin_install: match self.disable_plugin_install {
                    Some(v) => v,
                    None => false,
                },
                base_bin_port: match self.base_bin_port {
                    Some(v) => v,
                    None => 3000,
                },
                base_http_port: match self.base_http_port {
                    Some(v) => v,
                    None => 8000,
                },
                picodata_path: match self.picodata_path {
                    Some(v) => v,
                    None => "picodata".to_owned(),
                },
                base_pg_port: match self.base_pg_port {
                    Some(v) => v,
                    None => 5432,
                },
                use_release: match self.use_release {
                    Some(v) => v,
                    None => false,
                },
                target_dir: match self.target_dir {
                    Some(v) => v,
                    None => "target".to_owned(),
                },
                daemon: match self.daemon {
                    Some(v) => v,
                    None => false,
                },
                disable_colors: match self.disable_colors {
                    Some(v) => v,
                    None => false,
                },
                plugin_path: match self.plugin_path {
                    Some(v) => v,
                    None => "./".to_owned(),
                },
                no_build: match self.no_build {
                    Some(v) => v,
                    None => false,
                },
                config_path: match self.config_path {
                    Some(v) => v,
                    None => "./picodata.yaml".to_owned(),
                },
                instance_name: match self.instance_name {
                    Some(v) => v,
                    None => None,
                },
                with_web_auth: match self.with_web_auth {
                    Some(v) => v,
                    None => false,
                },
            },
        )
    }
}

// ---------------------------------------------------------------------------
// The idempotency guard
// ---------------------------------------------------------------------------

/// What a run does after probing the cluster's sockets.
#[derive(Clone, Copy, Debug, PartialEq, Eq, Structural)]
pub enum RunDecision {
    /// The named instance already answers: the run is a no-op success.
    SkippedExisting,
    /// Launch only the named instance.
    LaunchSingle,
    /// Launch the whole cluster.
    LaunchAll,
}

/// Decides whether a run may proceed: restarting one instance whose
/// socket already answers is skipped, and starting a whole cluster over
/// live state is refused, so the same data directory is never started
/// twice.
pub fn cluster_run_guard(
    instance_name: Option<&String>,
    instance_socket_active: bool,
    found_socket: &Option<String>,
) -> (r: Result<RunDecision, PikeError>)
    ensures
        instance_name is Some && instance_socket_active ==> (r matches Ok(d) && d
            is SkippedExisting),
        instance_name is Some && !instance_socket_active ==> (r matches Ok(d) && d
            is LaunchSingle),
        instance_name is None && found_socket is Some ==> (r matches Err(e) && e.msg@
            == "cluster has already started, can connect via "@ + found_socket.unwrap()@),
        instance_name is None && found_socket is None ==> (r matches Ok(d) && d is LaunchAll),
{
    match instance_name {
        Some(_) => {
            if instance_socket_active {
                Ok(RunDecision::SkippedExisting)
            } else {
                Ok(RunDecision::LaunchSingle)
            }
        },
        None => match found_socket {
            Some(sock_path) => {
                let mut msg: String = "cluster has already started, can connect via ".to_owned();
                msg.append(sock_path.as_str());
                Err(PikeError { msg })
            },
            None => Ok(RunDecision::LaunchAll),
        },
    }
}

// ---------------------------------------------------------------------------
// Instance identity
// ---------------------------------------------------------------------------

/// Recovers an instance's numeric id from its positional directory name
/// `i<id>`.
pub fn instance_id_from_dir_name(name: &str) -> (r: Result<u16, PikeError>)
    requires
        name@.len() >= 1,
    ensures
        r is Ok <==> (name@.skip(1).len() > 0 && crate::text::all_digits(name@.skip(1)) && dec_val(
            name@.skip(1),
        ) <= u16::MAX),
        r is Ok ==> r.unwrap() == dec_val(name@.skip(1)),
        r is Err ==> r->Err_0.msg@ == "failed to parse instance id from directory name '"@ + name@
            + "'"@,
{
    let len = name.unicode_len();
    let tail = name.substring_char(1, len);
    proof {
        assert(tail@ =~= name@.skip(1));
    }
    match parse_u16(tail) {
        Some(id) => Ok(id),
        None => {
            let mut msg: String = "failed to parse instance id from directory name '".to_owned();
            msg.append(name);
            msg.append("'");
            Err(PikeError { msg })
        },
    }
}

// ---------------------------------------------------------------------------
// Instance numbering
// ---------------------------------------------------------------------------

/// The number of instances one tier contributes.
pub open spec fn tier_width(t: Tier) -> int {
    t.replicasets * t.replication_factor
}

/// The number of instances the first `k` tiers contribute.
pub open spec fn cum_width(tiers: Seq<(String, Tier)>, k: int) -> int
    decreases k,
{
    if k <= 0 {
        0
    } else {
        cum_width(tiers, k - 1) + tier_width(tiers[k - 1].1)
    }
}

/// The name of the tier that covers instance id `id` (ids start at 1 and
/// run through tiers in declared order), or the empty name when no tier
/// covers it.
pub open spec fn covering_tier(tiers: Seq<(String, Tier)>, id: int) -> Seq<char>
    decreases tiers.len(),
{
    if tiers.len() == 0 {
        Seq::empty()
    } else if id <= tier_width(tiers[0].1) {
        tiers[0].0@
    } else {
        covering_tier(tiers.skip(1), id - tier_width(tiers[0].1))
    }
}

pub proof fn lemma_cum_width_monotone(tiers: Seq<(String, Tier)>, j: int, k: int)
    requires
        0 <= j <= k <= tiers.len(),
    ensures
        cum_width(tiers, j) <= cum_width(tiers, k),
    decreases k - j,
{
    if j < k {
        lemma_cum_width_monotone(tiers, j, k - 1);
    }
}

proof fn lemma_cum_width_skip(tiers: Seq<(String, Tier)>, j: int)
    requires
        0 <= j,
        j + 1 <= tiers.len(),
    ensures
        cum_width(tiers.skip(1), j) == cum_width(tiers, j + 1) - tier_width(tiers[0].1),
    decreases j,
{
    if j == 0 {
        assert(cum_width(tiers.skip(1), 0) == 0);
        assert(cum_width(tiers, 0) == 0);
        assert(cum_width(tiers, 1) == cum_width(tiers, 0) + tier_width(tiers[0].1));
    } else {
        lemma_cum_width_skip(tiers, j - 1);
        assert(tiers.skip(1)[j - 1] == tiers[j]);
    }
}

/// Instance `id` falls in tier `k`'s block exactly when it lies past the
/// tiers before `k` and within `k`'s width.
pub proof fn lemma_covering_tier_at(tiers: Seq<(String, Tier)>, k: int, id: int)
    requires
        0 <= k < tiers.len(),
        id <= cum_width(tiers, k + 1),
        k > 0 ==> id > cum_width(tiers, k),
    ensures
        covering_tier(tiers, id) == tiers[k].0@,
    decreases k,
{
    assert(cum_width(tiers, 0) == 0);
    assert(cum_width(tiers, 1) == tier_width(tiers[0].1));
    if k == 0 {
    } else {
        assert(cum_width(tiers, 1) <= cum_width(tiers, k)) by {
            lemma_cum_width_monotone(tiers, 1, k);
        }
        assert(id > tier_width(tiers[0].1));
        lemma_cum_width_skip(tiers, k);
        lemma_cum_width_skip(tiers, k - 1);
        lemma_covering_tier_at(tiers.skip(1), k - 1, id - tier_width(tiers[0].1));
        assert(tiers.skip(1)[k - 1] == tiers[k]);
    }
}

proof fn lemma_covering_tier_beyond(tiers: Seq<(String, Tier)>, id: int)
    requires
        id > cum_width(tiers, tiers.len() as int),
    ensures
        covering_tier(tiers, id) == Seq::<char>::empty(),
    decreases tiers.len(),
{
    if tiers.len() > 0 {
        assert(cum_width(tiers, 0) == 0);
        assert(cum_width(tiers, 1) == tier_width(tiers[0].1));
        assert(cum_width(tiers, 1) <= cum_width(tiers, tiers.len() as int)) by {
            lemma_cum_width_monotone(tiers, 1, tiers.len() as int);
        }
        lemma_cum_width_skip(tiers, tiers.len() - 1);
        lemma_covering_tier_beyond(tiers.skip(1), id - tier_width(tiers[0].1));
    }
}

/// Assigns sequential instance ids by walking the tiers in their declared
/// order: each tier contributes `replicasets * replication_factor`
/// instances, and instance `i` (counting from 1) carries the name of the
/// tier whose block covers it.
pub fn assign_instances(tiers: &Vec<(String, Tier)>) -> (r: Vec<(u16, String)>)
    requires
        forall|i: int|
            0 <= i < tiers@.len() ==> tier_width((#[trigger] tiers@[i]).1) <= 255,
        cum_width(tiers@, tiers@.len() as int) <= u16::MAX,
    ensures
        r@.len() == cum_width(tiers@, tiers@.len() as int),
        forall|i: int|
            0 <= i < r@.len() ==> (#[trigger] r@[i]).0 == i + 1 && r@[i].1@ == covering_tier(
                tiers@,
                i + 1,
            ),
{
    let n = tiers.len();
    let mut out: Vec<(u16, String)> = Vec::new();
    let mut instance_id: u16 = 0;
    let mut k: usize = 0;
    while k < n
        invariant
            n == tiers@.len(),
            0 <= k <= n,
            forall|i: int|
                0 <= i < tiers@.len() ==> tier_width((#[trigger] tiers@[i]).1) <= 255,
            cum_width(tiers@, tiers@.len() as int) <= u16::MAX,
            instance_id == cum_width(tiers@, k as int),
            out@.len() == instance_id,
            forall|i: int|
                0 <= i < out@.len() ==> (#[trigger] out@[i]).0 == i + 1 && out@[i].1@
                    == covering_tier(tiers@, i + 1),
        decreases n - k,
    {
        let name: &String = &tiers[k].0;
        let t: Tier = tiers[k].1;
        let width: u16 = (t.replicasets as u16) * (t.replication_factor as u16);
        proof {
            lemma_cum_width_monotone(tiers@, k + 1, tiers@.len() as int);
        }
        let mut j: u16 = 0;
        while j < width
            invariant
                n == tiers@.len(),
                0 <= k < n,
                name@ == tiers@[k as int].0@,
                t == tiers@[k as int].1,
                width == tier_width(t),
                0 <= j <= width,
                cum_width(tiers@, k + 1) == cum_width(tiers@, k as int) + width,
                cum_width(tiers@, k + 1) <= u16::MAX,
                instance_id == cum_width(tiers@, k as int) + j,
                out@.len() == instance_id,
                forall|i: int|
                    0 <= i < out@.len() ==> (#[trigger] out@[i]).0 == i + 1 && out@[i].1@
                        == covering_tier(tiers@, i + 1),
            decreases width - j,
        {
            instance_id = instance_id + 1;
            proof {
                lemma_covering_tier_at(tiers@, k as int, instance_id as int);
            }
            out.push((instance_id, name.clone()));
            j = j + 1;
        }
        k = k + 1;
    }
    out
}

/// Finds the tier of one instance by accumulating tier widths in declared
/// order until the id falls inside a tier's block; an id beyond every
/// block yields the empty name.
pub fn tier_for_instance(tiers: &Vec<(String, Tier)>, instance_id: u16) -> (r: String)
    requires
        forall|i: int|
            0 <= i < tiers@.len() ==> tier_width((#[trigger] tiers@[i]).1) <= 255,
        cum_width(tiers@, tiers@.len() as int) <= u16::MAX,
    ensures
        r@ == covering_tier(tiers@, instance_id as int),
{
    let n = tiers.len();
    let mut counter: u16 = 0;
    let mut k: usize = 0;
    while k < n
        invariant
            n == tiers@.len(),
            0 <= k <= n,
            forall|i: int|
                0 <= i < tiers@.len() ==> tier_width((#[trigger] tiers@[i]).1) <= 255,
            cum_width(tiers@, tiers@.len() as int) <= u16::MAX,
            counter == cum_width(tiers@, k as int),
            k > 0 ==> instance_id > counter,
        decreases n - k,
    {
        let t: Tier = tiers[k].1;
        let width: u16 = (t.replicasets as u16) * (t.replication_factor as u16);
        proof {
            lemma_cum_width_monotone(tiers@, k + 1, tiers@.len() as int);
        }
        counter = counter + width;
        if instance_id <= counter {
            proof {
                lemma_covering_tier_at(tiers@, k as int, instance_id as int);
            }
            return tiers[k].0.clone();
        }
        k = k + 1;
    }
    proof {
        if n > 0 {
            lemma_covering_tier_beyond(tiers@, instance_id as int);
        }
    }
    String::new()
}

/// Deterministic instance numbering: two tier lists that hold the same
/// tiers, each strictly sorted by name, are the same list — so instance
/// ids land on the same tiers no matter how the declaring map was held in
/// memory.
pub proof fn lemma_instance_numbering_canonical(t1: Seq<(String, Tier)>, t2: Seq<(String, Tier)>)
    requires
        crate::topology::sorted_by_name(t1),
        crate::topology::sorted_by_name(t2),
        forall|p: (String, Tier)| t1.contains(p) <==> t2.contains(p),
    ensures
        t1 =~= t2,
    decreases t1.len(),
{
    if t1.len() == 0 {
        if t2.len() > 0 {
            assert(t2.contains(t2[0]));
            assert(t1.contains(t2[0]));
            let i = choose|i: int| 0 <= i < t1.len() && t1[i] == t2[0];
            assert(false);
        }
    } else {
        assert(t1.contains(t1[0]));
        assert(t2.contains(t1[0]));
        let j = choose|j: int| 0 <= j < t2.len() && t2[j] == t1[0];
        assert(t2.contains(t2[0]));
        assert(t1.contains(t2[0]));
        let i = choose|i: int| 0 <= i < t1.len() && t1[i] == t2[0];
        if j > 0 {
            assert(crate::text::lex_le(t2[0].0@, t2[j].0@) && t2[0].0@ != t2[j].0@);
            assert(crate::text::lex_le(t1[0].0@, t1[i].0@)) by {
                if i > 0 {
                } else {
                    crate::text::lemma_lex_le_refl(t1[0].0@);
                }
            }
            crate::text::lemma_lex_le_trans(t1[0].0@, t1[i].0@, t2[j].0@);
            crate::text::lemma_lex_le_antisymm(t2[0].0@, t2[j].0@);
            assert(false);
        }
        assert(t2[0] == t1[0]);
        let s1 = t1.skip(1);
        let s2 = t2.skip(1);
        assert(crate::topology::sorted_by_name(s1)) by {
            assert forall|x: int, y: int| 0 <= x < y < s1.len() implies crate::text::lex_le(
                (#[trigger] s1[x]).0@,
                (#[trigger] s1[y]).0@,
            ) && s1[x].0@ != s1[y].0@ by {
                assert(s1[x] == t1[x + 1]);
                assert(s1[y] == t1[y + 1]);
            }
        }
        assert(crate::topology::sorted_by_name(s2)) by {
            assert forall|x: int, y: int| 0 <= x < y < s2.len() implies crate::text::lex_le(
                (#[trigger] s2[x]).0@,
                (#[trigger] s2[y]).0@,
            ) && s2[x].0@ != s2[y].0@ by {
                assert(s2[x] == t2[x + 1]);
                assert(s2[y] == t2[y + 1]);
            }
        }
        assert forall|p: (String, Tier)| s1.contains(p) implies s2.contains(p) by {
            let x = choose|x: int| 0 <= x < s1.len() && s1[x] == p;
            assert(t1[x + 1] == p);
            assert(t1.contains(p));
            assert(t2.contains(p));
            let y = choose|y: int| 0 <= y < t2.len() && t2[y] == p;
            if y == 0 {
                assert(p == t1[0]);
                assert(t1[0].0@ != t1[x + 1].0@);
                assert(false);
            }
            assert(s2[y - 1] == t2[y]);
            assert(s2.contains(p));
        }
        assert forall|p: (String, Tier)| s2.contains(p) implies s1.contains(p) by {
            let x = choose|x: int| 0 <= x < s2.len() && s2[x] == p;
            assert(t2[x + 1] == p);
            assert(t2.contains(p));
            assert(t1.contains(p));
            let y = choose|y: int| 0 <= y < t1.len() && t1[y] == p;
            if y == 0 {
                assert(p == t2[0]);
                assert(t2[0].0@ != t2[x + 1].0@);
                assert(false);
            }
            assert(s1[y - 1] == t1[y]);
            assert(s1.contains(p));
        }
        lemma_instance_numbering_canonical(s1, s2);
        assert(t1 =~= seq![t1[0]] + s1);
        assert(t2 =~= seq![t2[0]] + s2);
    }
}

// ---------------------------------------------------------------------------
// Rollback of a failed install
// ---------------------------------------------------------------------------

/// The processes to kill when the installer fails: every launched
/// instance, so that no orphan survives a failed install.
pub fn rollback_pids(instances: &Vec<PicodataInstance>) -> (r: Vec<u32>)
    ensures
        r@.len() == instances@.len(),
        forall|i: int| 0 <= i < r@.len() ==> r@[i] == (#[trigger] instances@[i]).pid,
{
    let n = instances.len();
    let mut out: Vec<u32> = Vec::new();
    let mut i: usize = 0;
    while i < n
        invariant
            n == instances@.len(),
            0 <= i <= n,
            out@.len() == i,
            forall|k: int| 0 <= k < i ==> out@[k] == (#[trigger] instances@[k]).pid,
        decreases n - i,
    {
        out.push(instances[i].pid);
        i = i + 1;
    }
    out
}

/// A failed install rolls back the whole cluster: the kill set returned
/// for the launched instances holds the pid of every one of them, so no
/// process outlives the failure.
pub proof fn lemma_rollback_covers_every_instance(
    instances: Seq<PicodataInstance>,
    pids: Seq<u32>,
)
    requires
        pids.len() == instances.len(),
        forall|i: int| 0 <= i < pids.len() ==> pids[i] == (#[trigger] instances[i]).pid,
    ensures
        forall|i: int|
            0 <= i < instances.len() ==> pids.contains((#[trigger] instances[i]).pid),
{
    assert forall|i: int| 0 <= i < instances.len() implies pids.contains(
        (#[trigger] instances[i]).pid,
    ) by {
        assert(pids[i] == instances[i].pid);
    }
}

// ---------------------------------------------------------------------------
// Web-console authentication
// ---------------------------------------------------------------------------

/// The text of the statement that applies the web-auth mode.
pub open spec fn web_auth_query_spec(with_web_auth: bool) -> Seq<char> {
    if with_web_auth {
        "ALTER SYSTEM RESET jwt_secret;"@
    } else {
        "ALTER SYSTEM SET jwt_secret = '';"@
    }
}

/// The statement that applies the web-auth mode: enabling resets the
/// secret to a generated one, disabling clears it.
pub fn web_auth_query(with_web_auth: bool) -> (r: &'static str)
    ensures
        r@ == web_auth_query_spec(with_web_auth),
{
    if with_web_auth {
        "ALTER SYSTEM RESET jwt_secret;"
    } else {
        "ALTER SYSTEM SET jwt_secret = '';"
    }
}

/// Applies the web-auth mode over the admin console: the mode's one
/// statement is sent through the given runner; success is the runner's
/// success on that statement, and a runner failure comes back wrapped
/// with the mode being applied.
pub fn configure_web_auth<F: Fn(&str, &str, &str) -> Result<String, PikeError>>(
    picodata_path: &str,
    socket_path: &str,
    with_web_auth: bool,
    run_admin: F,
) -> (r: Result<(), PikeError>)
    requires
        forall|a: &str, b: &str, c: &str| #[trigger] run_admin.requires((a, b, c)),
    ensures
        r is Ok ==> exists|q: &str, out: String|
            #[trigger] run_admin.ensures((picodata_path, socket_path, q), Ok(out)) && q@
                == web_auth_query_spec(with_web_auth),
        r matches Err(e) ==> exists|q: &str, inner: PikeError|
            #[trigger] run_admin.ensures((picodata_path, socket_path, q), Err(inner)) && q@
                == web_auth_query_spec(with_web_auth) && e.msg@ == (if with_web_auth {
                "failed to enable WebUI authentication (RESET jwt_secret): "@
            } else {
                "failed to disable WebUI authentication (SET jwt_secret=''): "@
            }) + inner.msg@,
{
    let query = web_auth_query(with_web_auth);
    match run_admin(picodata_path, socket_path, query) {
        Ok(_) => Ok(()),
        Err(e) => {
            let ghost inner = e;
            let mut msg: String = if with_web_auth {
                "failed to enable WebUI authentication (RESET jwt_secret): ".to_owned()
            } else {
                "failed to disable WebUI authentication (SET jwt_secret=''): ".to_owned()
            };
            msg.append(e.msg.as_str());
            proof {
                assert(run_admin.ensures((picodata_path, socket_path, query), Err(inner)));
            }
            Err(PikeError { msg })
        },
    }
}

/// Applies the web-auth setting against the first reachable socket; a
/// missing socket is the one error, while a console failure is only worth
/// a warning and does not fail the run.
pub fn apply_web_auth_setting<F: Fn(&str, &str, &str) -> Result<String, PikeError>>(
    picodata_path: &str,
    with_web_auth: bool,
    socket_path: Option<&String>,
    run_admin: F,
) -> (r: Result<(), PikeError>)
    requires
        forall|a: &str, b: &str, c: &str| #[trigger] run_admin.requires((a, b, c)),
    ensures
        r is Err <==> socket_path is None,
{
    let socket = match socket_path {
        Some(s) => s,
        None => {
            return Err(
                PikeError {
                    msg: "не удалось найти активный admin.sock для применения настройки WebUI auth".to_owned(),
                },
            );
        },
    };
    match configure_web_auth(picodata_path, socket.as_str(), with_web_auth, run_admin) {
        Ok(()) => Ok(()),
        Err(_) => Ok(()),
    }
}

} // verus!
