//! The declarative cluster description: tiers, plugins with their services
//! and migration context, environment templates, and pre-install statements.
//!
//! The named collections are ordered lists of `(name, value)` pairs; their
//! order governs instance numbering and install order, so callers keep them
//! sorted by name (see [`sorted_by_name`]) for reproducible runs.
use vstd::prelude::*;

use crate::text::{lex_le, path_join, path_join_spec, str_le};
use crate::PikeError;

verus! {

/// One tier: a group of `replicasets` replication groups with
/// `replication_factor` nodes each.
#[derive(Clone, Copy, Debug, PartialEq, Eq, Structural)]
pub struct Tier {
    pub replicasets: u8,
    pub replication_factor: u8,
}

/// One named value injected into a plugin before its migrations run.
#[derive(Clone, Debug)]
pub struct MigrationContextVar {
    pub name: String,
    pub value: String,
}

/// One plugin service and the tiers it is attached to.
#[derive(Clone, Debug)]
pub struct Service {
    pub tiers: Vec<String>,
}

impl Default for Service {
    /// A service attached to no tier.
    fn default() -> (r: Service)
        ensures
            r.tiers@.len() == 0,
    {
        Service { tiers: Vec::new() }
    }
}

/// What an external plugin path points at.
#[derive(Clone, Copy, Debug, Eq, PartialEq, Structural)]
pub enum PluginPathKind {
    /// Cargo workspace or a standalone project
    CrateOrWorkspaceDirectory,
    /// Directory with versioned plugin contents
    ShippingDirectory,
    /// Archive with shipping directory inside
    ShippingArchive,
}

/// One plugin of the topology.
///
/// `version` is never user-supplied: it is resolved from the newest
/// subdirectory of the plugin's directory. A plugin with a `path` is
/// external and is materialized before install.
#[derive(Clone, Debug)]
pub struct Plugin {
    pub migration_context: Vec<MigrationContextVar>,
    pub services: Vec<(String, Service)>,
    pub version: Option<String>,
    pub path: Option<String>,
}

impl Default for Plugin {
    /// A local plugin with no services, no migration context and no
    /// resolved version.
    fn default() -> (r: Plugin)
        ensures
            r.migration_context@.len() == 0,
            r.services@.len() == 0,
            r.version is None,
            r.path is None,
    {
        Plugin { migration_context: Vec::new(), services: Vec::new(), version: None, path: None }
    }
}

impl Plugin {
    /// Whether the plugin is declared with an external path.
    pub fn is_external(&self) -> (r: bool)
        ensures
            r == (self.path is Some),
    {
        self.path.is_some()
    }
}

/// The declarative description of a cluster.
#[derive(Clone, Debug)]
pub struct Topology {
    pub tiers: Vec<(String, Tier)>,
    pub plugins: Vec<(String, Plugin)>,
    pub enviroment: Vec<(String, String)>,
    pub pre_install_sql: Vec<String>,
}

impl Default for Topology {
    /// A topology with no tiers, plugins, environment or pre-install
    /// statements.
    fn default() -> (r: Topology)
        ensures
            r.tiers@.len() == 0,
            r.plugins@.len() == 0,
            r.enviroment@.len() == 0,
            r.pre_install_sql@.len() == 0,
    {
        Topology {
            tiers: Vec::new(),
            plugins: Vec::new(),
            enviroment: Vec::new(),
            pre_install_sql: Vec::new(),
        }
    }
}

/// The names of a pair list are strictly increasing: sorted and unique.
pub open spec fn sorted_by_name<T>(m: Seq<(String, T)>) -> bool {
    forall|i: int, j: int|
        0 <= i < j < m.len() ==> lex_le(#[trigger] m[i].0@, #[trigger] m[j].0@) && m[i].0@
            != m[j].0@
}

/// `m` is the lexicographic maximum of the non-empty list `l`.
pub open spec fn is_lex_max(l: Seq<Seq<char>>, m: Seq<char>) -> bool {
    l.contains(m) && forall|i: int| 0 <= i < l.len() ==> lex_le(#[trigger] l[i], m)
}

/// The lexicographically greatest of the given names.
///
/// This is plain string order, not a version order: of `0.2.0` and
/// `0.10.0` it picks `0.2.0`.
pub fn latest_version(names: &Vec<String>) -> (r: String)
    requires
        names@.len() > 0,
    ensures
        is_lex_max(names.deep_view(), r@),
{
    let mut best: String = names[0].clone();
    proof {
        assert(names.deep_view()[0] == best@);
        crate::text::lemma_lex_le_refl(best@);
    }
    let mut i: usize = 1;
    while i < names.len()
        invariant
            names@.len() > 0,
            1 <= i <= names@.len(),
            exists|k: int| 0 <= k < i && names.deep_view()[k] == best@,
            forall|k: int| 0 <= k < i ==> lex_le(#[trigger] names.deep_view()[k], best@),
        decreases names@.len() - i,
    {
        let cand: &String = &names[i];
        proof {
            assert(names.deep_view()[i as int] == cand@);
            crate::text::lemma_lex_le_total(best@, cand@);
        }
        if str_le(best.as_str(), cand.as_str()) {
            proof {
                let ghost old_best = best@;
                assert forall|k: int| 0 <= k < i + 1 implies lex_le(
                    #[trigger] names.deep_view()[k],
                    cand@,
                ) by {
                    if k < i {
                        crate::text::lemma_lex_le_trans(names.deep_view()[k], old_best, cand@);
                    } else {
                        crate::text::lemma_lex_le_refl(cand@);
                    }
                }
            }
            best = cand.clone();
            proof {
                assert(names.deep_view()[i as int] == best@);
            }
        } else {
            proof {
                crate::text::lemma_lex_le_refl(best@);
            }
        }
        i = i + 1;
    }
    proof {
        assert(names.deep_view().contains(best@)) by {
            let k = choose|k: int| 0 <= k < names@.len() && names.deep_view()[k] == best@;
            assert(names.deep_view()[k] == best@);
        }
    }
    best
}

/// Two plugin lists agree on everything but the resolved versions.
pub open spec fn plugins_except_versions_equal(
    a: Seq<(String, Plugin)>,
    b: Seq<(String, Plugin)>,
) -> bool {
    &&& a.len() == b.len()
    &&& forall|i: int|
        0 <= i < a.len() ==> {
            &&& (#[trigger] a[i]).0 == b[i].0
            &&& a[i].1.migration_context == b[i].1.migration_context
            &&& a[i].1.services == b[i].1.services
            &&& a[i].1.path == b[i].1.path
        }
}

/// Every plugin before `n` carries the lexicographic maximum of its
/// directory listing as its version.
pub open spec fn versions_resolved_up_to(
    plugins: Seq<(String, Plugin)>,
    listings: Seq<Option<Vec<String>>>,
    n: int,
) -> bool {
    forall|i: int|
        0 <= i < n ==> {
            &&& (#[trigger] plugins[i]).1.version is Some
            &&& is_lex_max(listings[i].unwrap().deep_view(), plugins[i].1.version.unwrap()@)
        }
}

/// Every plugin from `n` on keeps the version it had before.
pub open spec fn versions_unchanged_from(
    a: Seq<(String, Plugin)>,
    b: Seq<(String, Plugin)>,
    n: int,
) -> bool {
    forall|i: int| n <= i < a.len() ==> (#[trigger] a[i]).1.version == b[i].1.version
}

impl Topology {
    /// Whether any plugin of the topology carries an external path.
    pub fn has_external_plugins(&self) -> (r: bool)
        ensures
            r == exists|i: int|
                0 <= i < self.plugins@.len() && (#[trigger] self.plugins@[i].1.path) is Some,
    {
        let n = self.plugins.len();
        let mut i: usize = 0;
        while i < n
            invariant
                n == self.plugins@.len(),
                0 <= i <= n,
                forall|k: int| 0 <= k < i ==> (#[trigger] self.plugins@[k].1.path) is None,
            decreases n - i,
        {
            if self.plugins[i].1.is_external() {
                return true;
            }
            i = i + 1;
        }
        false
    }

    /// Resolves every plugin's version to the lexicographically newest
    /// subdirectory name of its directory under `plugins_dir`.
    ///
    /// `listings[i]` holds the subdirectory names of plugin `i`'s
    /// directory, or `None` when that directory does not exist, which is
    /// an error; plugins before the first missing directory keep the
    /// versions already resolved.
    pub fn find_plugin_versions(&mut self, plugins_dir: &str, listings: &Vec<Option<Vec<String>>>)
        -> (r: Result<(), PikeError>)
        requires
            listings@.len() == old(self).plugins@.len(),
            forall|i: int|
                0 <= i < listings@.len() ==> ((#[trigger] listings@[i]) is Some
                    ==> listings@[i].unwrap()@.len() > 0),
        ensures
            final(self).tiers == old(self).tiers,
            final(self).enviroment == old(self).enviroment,
            final(self).pre_install_sql == old(self).pre_install_sql,
            plugins_except_versions_equal(final(self).plugins@, old(self).plugins@),
            r is Ok <==> (forall|i: int|
                0 <= i < listings@.len() ==> (#[trigger] listings@[i]) is Some),
            r is Ok ==> versions_resolved_up_to(
                final(self).plugins@,
                listings@,
                listings@.len() as int,
            ),
            r is Err ==> exists|i: int|
                {
                    &&& 0 <= i < listings@.len()
                    &&& (#[trigger] listings@[i]) is None
                    &&& forall|j: int| 0 <= j < i ==> (#[trigger] listings@[j]) is Some
                    &&& r->Err_0.msg@ == "plugin directory "@ + path_join_spec(
                        plugins_dir@,
                        old(self).plugins@[i].0@,
                    ) + " does not exist"@
                    &&& versions_resolved_up_to(final(self).plugins@, listings@, i)
                    &&& versions_unchanged_from(final(self).plugins@, old(self).plugins@, i)
                },
    {
        let n = self.plugins.len();
        let mut i: usize = 0;
        while i < n
            invariant
                n == self.plugins@.len(),
                n == listings@.len(),
                0 <= i <= n,
                forall|k: int|
                    0 <= k < listings@.len() ==> ((#[trigger] listings@[k]) is Some
                        ==> listings@[k].unwrap()@.len() > 0),
                self.tiers == old(self).tiers,
                self.enviroment == old(self).enviroment,
                self.pre_install_sql == old(self).pre_install_sql,
                plugins_except_versions_equal(self.plugins@, old(self).plugins@),
                forall|k: int| 0 <= k < i ==> (#[trigger] listings@[k]) is Some,
                versions_resolved_up_to(self.plugins@, listings@, i as int),
                versions_unchanged_from(self.plugins@, old(self).plugins@, i as int),
            decreases n - i,
        {
            match &listings[i] {
                Some(names) => {
                    let newest = latest_version(names);
                    let plugin: &mut Plugin = &mut self.plugins[i].1;
                    plugin.version = Some(newest);
                },
                None => {
                    let mut msg: String = "plugin directory ".to_owned();
                    let dir = path_join(plugins_dir, self.plugins[i].0.as_str());
                    msg.append(dir.as_str());
                    msg.append(" does not exist");
                    return Err(PikeError { msg });
                },
            }
            i = i + 1;
        }
        Ok(())
    }
}

} // verus!
