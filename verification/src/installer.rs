//! The plugin installer's logic: the ordered list of administrative
//! statements that activates the topology's plugins, and the selective
//! tolerance that lets an already-configured cluster be reinstalled.
//!
//! Executing a statement means one admin-console run; that I/O lives
//! outside the library, which decides here what to send and whether an
//! outcome aborts the install.
use vstd::prelude::*;

use crate::text::{contains, contains_seq};
use crate::topology::{Plugin, Service, Topology};
use crate::PikeError;

verus! {

/// The statement that creates one plugin.
pub open spec fn create_stmt(name: Seq<char>, v: Seq<char>) -> Seq<char> {
    "CREATE PLUGIN \""@ + name + "\" "@ + v + ";"@
}

/// The statement that sets one migration-context variable.
pub open spec fn ctx_stmt(name: Seq<char>, v: Seq<char>, var: Seq<char>, value: Seq<char>)
    -> Seq<char> {
    "ALTER PLUGIN \""@ + name + "\" "@ + v + " SET migration_context."@ + var + "='"@ + value
        + "';"@
}

/// The statement that runs one plugin's migrations.
pub open spec fn migrate_stmt(name: Seq<char>, v: Seq<char>) -> Seq<char> {
    "ALTER PLUGIN \""@ + name + "\" MIGRATE TO "@ + v + ";"@
}

/// The statement that attaches one service to one tier.
pub open spec fn service_stmt(name: Seq<char>, v: Seq<char>, svc: Seq<char>, tier: Seq<char>)
    -> Seq<char> {
    "ALTER PLUGIN \""@ + name + "\" "@ + v + " ADD SERVICE \""@ + svc + "\" TO TIER \""@ + tier
        + "\";"@
}

/// The statement that enables one plugin.
pub open spec fn enable_stmt(name: Seq<char>, v: Seq<char>) -> Seq<char> {
    "ALTER PLUGIN \""@ + name + "\" "@ + v + " ENABLE;"@
}

/// The migration-context statements of one plugin, in declared order.
pub open spec fn ctx_stmts(
    name: Seq<char>,
    v: Seq<char>,
    vars: Seq<crate::topology::MigrationContextVar>,
) -> Seq<Seq<char>> {
    vars.map_values(|var: crate::topology::MigrationContextVar| ctx_stmt(name, v, var.name@, var.value@))
}

/// The add-service statements of one service, one per tier in order.
pub open spec fn tier_stmts(name: Seq<char>, v: Seq<char>, svc: Seq<char>, tiers: Seq<String>)
    -> Seq<Seq<char>> {
    tiers.map_values(|t: String| service_stmt(name, v, svc, t@))
}

/// The add-service statements of a plugin's services, in declared order.
pub open spec fn service_stmts(name: Seq<char>, v: Seq<char>, svcs: Seq<(String, Service)>)
    -> Seq<Seq<char>>
    decreases svcs.len(),
{
    if svcs.len() == 0 {
        Seq::empty()
    } else {
        service_stmts(name, v, svcs.take(svcs.len() - 1)) + tier_stmts(
            name,
            v,
            svcs.last().0@,
            svcs.last().1.tiers@,
        )
    }
}

/// The whole activation sequence of one plugin: create, migration context,
/// migrate, add services, enable.
pub open spec fn one_plugin_stmts(name: Seq<char>, p: Plugin) -> Seq<Seq<char>> {
    let v = p.version.unwrap()@;
    seq![create_stmt(name, v)] + ctx_stmts(name, v, p.migration_context@) + seq![
        migrate_stmt(name, v),
    ] + service_stmts(name, v, p.services@) + seq![enable_stmt(name, v)]
}

/// The activation sequences of all plugins, in topology order.
pub open spec fn plugins_stmts(plugins: Seq<(String, Plugin)>) -> Seq<Seq<char>>
    decreases plugins.len(),
{
    if plugins.len() == 0 {
        Seq::empty()
    } else {
        plugins_stmts(plugins.take(plugins.len() - 1)) + one_plugin_stmts(
            plugins.last().0@,
            plugins.last().1,
        )
    }
}

/// The whole install sequence of a topology: its pre-install statements in
/// declared order, then every plugin's activation sequence.
pub open spec fn install_stmts(t: Topology) -> Seq<Seq<char>> {
    t.pre_install_sql.deep_view() + plugins_stmts(t.plugins@)
}

/// Appends one statement to the list, tracked on the deep view.
fn push_stmt(out: &mut Vec<String>, s: String)
    ensures
        final(out).deep_view() == old(out).deep_view().push(s@),
{
    let ghost dv = out.deep_view();
    let ghost sv = s@;
    out.push(s);
    proof {
        assert(out.deep_view() =~= dv.push(sv));
    }
}

fn build_create_stmt(name: &str, v: &str) -> (r: String)
    ensures
        r@ == create_stmt(name@, v@),
{
    let mut s: String = "CREATE PLUGIN \"".to_owned();
    s.append(name);
    s.append("\" ");
    s.append(v);
    s.append(";");
    proof {
        reveal_strlit("CREATE PLUGIN \"");
        reveal_strlit("\" ");
        reveal_strlit(";");
        assert(s@ =~= create_stmt(name@, v@));
    }
    s
}

fn build_ctx_stmt(name: &str, v: &str, var: &str, value: &str) -> (r: String)
    ensures
        r@ == ctx_stmt(name@, v@, var@, value@),
{
    let mut s: String = "ALTER PLUGIN \"".to_owned();
    s.append(name);
    s.append("\" ");
    s.append(v);
    s.append(" SET migration_context.");
    s.append(var);
    s.append("='");
    s.append(value);
    s.append("';");
    proof {
        assert(s@ =~= ctx_stmt(name@, v@, var@, value@));
    }
    s
}

fn build_migrate_stmt(name: &str, v: &str) -> (r: String)
    ensures
        r@ == migrate_stmt(name@, v@),
{
    let mut s: String = "ALTER PLUGIN \"".to_owned();
    s.append(name);
    s.append("\" MIGRATE TO ");
    s.append(v);
    s.append(";");
    proof {
        assert(s@ =~= migrate_stmt(name@, v@));
    }
    s
}

fn build_service_stmt(name: &str, v: &str, svc: &str, tier: &str) -> (r: String)
    ensures
        r@ == service_stmt(name@, v@, svc@, tier@),
{
    let mut s: String = "ALTER PLUGIN \"".to_owned();
    s.append(name);
    s.append("\" ");
    s.append(v);
    s.append(" ADD SERVICE \"");
    s.append(svc);
    s.append("\" TO TIER \"");
    s.append(tier);
    s.append("\";");
    proof {
        assert(s@ =~= service_stmt(name@, v@, svc@, tier@));
    }
    s
}

fn build_enable_stmt(name: &str, v: &str) -> (r: String)
    ensures
        r@ == enable_stmt(name@, v@),
{
    let mut s: String = "ALTER PLUGIN \"".to_owned();
    s.append(name);
    s.append("\" ");
    s.append(v);
    s.append(" ENABLE;");
    proof {
        assert(s@ =~= enable_stmt(name@, v@));
    }
    s
}

/// Builds the ordered statement list that installs the topology's plugins:
/// pre-install statements first, then per plugin its create statement, one
/// statement per migration-context variable, the migrate statement, one
/// add-service statement per service and tier, and the enable statement.
pub fn build_install_statements(t: &Topology) -> (r: Vec<String>)
    requires
        forall|i: int|
            0 <= i < t.plugins@.len() ==> (#[trigger] t.plugins@[i]).1.version is Some,
    ensures
        r.deep_view() == install_stmts(*t),
{
    let mut out: Vec<String> = Vec::new();
    let mut i: usize = 0;
    let npre = t.pre_install_sql.len();
    while i < npre
        invariant
            npre == t.pre_install_sql@.len(),
            0 <= i <= npre,
            out.deep_view() =~= t.pre_install_sql.deep_view().take(i as int),
        decreases npre - i,
    {
        push_stmt(&mut out, t.pre_install_sql[i].clone());
        proof {
            assert(out.deep_view() =~= t.pre_install_sql.deep_view().take(i + 1));
        }
        i = i + 1;
    }
    proof {
        assert(t.pre_install_sql.deep_view().take(npre as int) =~= t.pre_install_sql.deep_view());
    }
    let nplug = t.plugins.len();
    let mut p: usize = 0;
    while p < nplug
        invariant
            nplug == t.plugins@.len(),
            0 <= p <= nplug,
            forall|k: int|
                0 <= k < t.plugins@.len() ==> (#[trigger] t.plugins@[k]).1.version is Some,
            out.deep_view() =~= t.pre_install_sql.deep_view() + plugins_stmts(
                t.plugins@.take(p as int),
            ),
        decreases nplug - p,
    {
        let name: &String = &t.plugins[p].0;
        let plugin: &Plugin = &t.plugins[p].1;
        let version: &String = match &plugin.version {
            Some(v) => v,
            None => {
                proof {
                    assert(false);
                }
                unreached()
            },
        };
        let ghost out_before_plugin = out.deep_view();
        let ghost nm = name@;
        let ghost vv = version@;

        push_stmt(&mut out, build_create_stmt(name.as_str(), version.as_str()));

        let nctx = plugin.migration_context.len();
        let mut c: usize = 0;
        while c < nctx
            invariant
                nctx == plugin.migration_context@.len(),
                0 <= c <= nctx,
                nm == name@,
                vv == version@,
                out.deep_view() =~= out_before_plugin + seq![create_stmt(nm, vv)] + ctx_stmts(
                    nm,
                    vv,
                    plugin.migration_context@.take(c as int),
                ),
            decreases nctx - c,
        {
            let var = &plugin.migration_context[c];
            push_stmt(&mut out, build_ctx_stmt(name.as_str(), version.as_str(), var.name.as_str(), var.value.as_str()));
            proof {
                assert(ctx_stmts(nm, vv, plugin.migration_context@.take(c + 1)) =~= ctx_stmts(
                    nm,
                    vv,
                    plugin.migration_context@.take(c as int),
                ).push(ctx_stmt(nm, vv, var.name@, var.value@)));
            }
            c = c + 1;
        }
        proof {
            assert(plugin.migration_context@.take(nctx as int) =~= plugin.migration_context@);
        }

        push_stmt(&mut out, build_migrate_stmt(name.as_str(), version.as_str()));

        let ghost out_before_services = out.deep_view();
        let nsvc = plugin.services.len();
        let mut sv: usize = 0;
        while sv < nsvc
            invariant
                nsvc == plugin.services@.len(),
                0 <= sv <= nsvc,
                nm == name@,
                vv == version@,
                out.deep_view() =~= out_before_services + service_stmts(
                    nm,
                    vv,
                    plugin.services@.take(sv as int),
                ),
            decreases nsvc - sv,
        {
            let svc_name: &String = &plugin.services[sv].0;
            let svc: &Service = &plugin.services[sv].1;
            let ghost out_before_tiers = out.deep_view();
            let ntier = svc.tiers.len();
            let mut tn: usize = 0;
            while tn < ntier
                invariant
                    ntier == svc.tiers@.len(),
                    0 <= tn <= ntier,
                    nm == name@,
                    vv == version@,
                    out.deep_view() =~= out_before_tiers + tier_stmts(
                        nm,
                        vv,
                        svc_name@,
                        svc.tiers@.take(tn as int),
                    ),
                decreases ntier - tn,
            {
                let tier: &String = &svc.tiers[tn];
                push_stmt(&mut out, build_service_stmt(name.as_str(), version.as_str(), svc_name.as_str(), tier.as_str()));
                proof {
                    assert(tier_stmts(nm, vv, svc_name@, svc.tiers@.take(tn + 1)) =~= tier_stmts(
                        nm,
                        vv,
                        svc_name@,
                        svc.tiers@.take(tn as int),
                    ).push(service_stmt(nm, vv, svc_name@, tier@)));
                }
                tn = tn + 1;
            }
            proof {
                assert(svc.tiers@.take(ntier as int) =~= svc.tiers@);
                let taken = plugin.services@.take(sv + 1);
                assert(taken.take(taken.len() - 1) =~= plugin.services@.take(sv as int));
                assert(taken.last() == plugin.services@[sv as int]);
            }
            sv = sv + 1;
        }
        proof {
            assert(plugin.services@.take(nsvc as int) =~= plugin.services@);
        }

        push_stmt(&mut out, build_enable_stmt(name.as_str(), version.as_str()));
        proof {
            let taken = t.plugins@.take(p + 1);
            assert(taken.take(taken.len() - 1) =~= t.plugins@.take(p as int));
            assert(taken.last() == t.plugins@[p as int]);
            assert(out.deep_view() =~= t.pre_install_sql.deep_view() + plugins_stmts(
                t.plugins@.take(p + 1),
            ));
        }
        p = p + 1;
    }
    proof {
        assert(t.plugins@.take(nplug as int) =~= t.plugins@);
    }
    out
}

/// Whether captured console output excuses a failing exit: it holds one of
/// the idempotency phrases of an already-configured plugin.
pub open spec fn output_tolerated(out: Seq<char>) -> bool {
    contains_seq(out, "already enabled"@) || contains_seq(out, "already exists"@)
}

/// Decides one installer statement's outcome: a clean exit proceeds, exit
/// code 1 is tolerated only when the captured output holds an idempotency
/// phrase, and every other failure aborts with the statement echoed.
pub fn installer_statement_verdict(query: &str, exit_code: i32, stdout: &str, stderr: &str) -> (r:
    Result<(), PikeError>)
    ensures
        r is Ok <==> (exit_code == 0 || (exit_code == 1 && (output_tolerated(stdout@)
            || output_tolerated(stderr@)))),
        r is Err ==> r->Err_0.msg@ == "failed to execute picodata query "@ + query@,
{
    if exit_code == 0 {
        return Ok(());
    }
    if exit_code == 1 {
        let tolerated = contains(stdout, "already enabled") || contains(stdout, "already exists")
            || contains(stderr, "already enabled") || contains(stderr, "already exists");
        if tolerated {
            return Ok(());
        }
    }
    let mut msg: String = "failed to execute picodata query ".to_owned();
    msg.append(query);
    Err(PikeError { msg })
}

} // verus!
