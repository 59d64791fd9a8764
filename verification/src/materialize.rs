//! The external plugin materializer: what an external plugin path turns
//! out to be, and the ordered actions that bring every external plugin
//! into the run's plugin directory.
//!
//! Probing the filesystem, listing archives, copying trees and invoking
//! the build tool are I/O and live outside the library, which classifies
//! the gathered facts and plans the actions.
use vstd::prelude::*;

use crate::run::BuildType;
use crate::text::{is_suffix, path_join, path_join_spec, str_eq};
use crate::topology::{Plugin, PluginPathKind};
use crate::PikeError;

verus! {

/// Whether a plugin project lives at a path: a directory with a
/// `Cargo.toml` that carries a manifest template at its root or in some
/// member directory.
pub fn is_plugin_dir(
    is_dir: bool,
    has_cargo_toml: bool,
    has_root_manifest_template: bool,
    any_member_has_manifest_template: bool,
) -> (r: bool)
    ensures
        r == (is_dir && has_cargo_toml && (has_root_manifest_template
            || any_member_has_manifest_template)),
{
    is_dir && has_cargo_toml && (has_root_manifest_template || any_member_has_manifest_template)
}

/// The list holds a name with this text.
pub open spec fn names_contain(names: Seq<String>, text: Seq<char>) -> bool {
    exists|j: int| 0 <= j < names.len() && (#[trigger] names[j])@ == text
}

/// Some version subdirectory's files include a `manifest.yaml`.
pub open spec fn some_version_has_manifest(dirs: Seq<Vec<String>>) -> bool {
    exists|i: int| 0 <= i < dirs.len() && names_contain((#[trigger] dirs[i])@, "manifest.yaml"@)
}

/// Checks that a path holds a plugin shipping directory: a directory one
/// of whose version subdirectories carries a `manifest.yaml` file.
/// `version_dir_files[i]` lists the regular files of the `i`-th
/// subdirectory.
pub fn is_plugin_shipping_dir(is_dir: bool, version_dir_files: &Vec<Vec<String>>) -> (r: Result<
    (),
    PikeError,
>)
    ensures
        r is Ok <==> (is_dir && some_version_has_manifest(version_dir_files@)),
        !is_dir ==> (r matches Err(e) && e.msg@ == "path is not a plugin shipping directory"@),
        is_dir && !some_version_has_manifest(version_dir_files@) ==> (r matches Err(e) && e.msg@
            == "path does not match plugin dir structure"@),
{
    if !is_dir {
        return Err(PikeError { msg: "path is not a plugin shipping directory".to_owned() });
    }
    let n = version_dir_files.len();
    let mut i: usize = 0;
    while i < n
        invariant
            is_dir,
            n == version_dir_files@.len(),
            0 <= i <= n,
            forall|k: int|
                0 <= k < i ==> !names_contain((#[trigger] version_dir_files@[k])@, "manifest.yaml"@),
        decreases n - i,
    {
        let files: &Vec<String> = &version_dir_files[i];
        let m = files.len();
        let mut j: usize = 0;
        while j < m
            invariant
                is_dir,
                0 <= i < n,
                n == version_dir_files@.len(),
                files@ == version_dir_files@[i as int]@,
                m == files@.len(),
                0 <= j <= m,
                forall|k: int| 0 <= k < j ==> (#[trigger] files@[k])@ != "manifest.yaml"@,
            decreases m - j,
        {
            if str_eq(files[j].as_str(), "manifest.yaml") {
                proof {
                    assert(names_contain(version_dir_files@[i as int]@, "manifest.yaml"@));
                    assert(some_version_has_manifest(version_dir_files@));
                }
                return Ok(());
            }
            j = j + 1;
        }
        i = i + 1;
    }
    Err(PikeError { msg: "path does not match plugin dir structure".to_owned() })
}

/// An archive entry at `name/version/file` depth whose file is the
/// manifest.
pub open spec fn entry_is_manifest(comp: Seq<String>) -> bool {
    comp.len() == 3 && comp[2]@ == "manifest.yaml"@
}

/// An archive entry at `name/version/file` depth whose file is a shared
/// library.
pub open spec fn entry_is_lib(comp: Seq<String>) -> bool {
    comp.len() == 3 && is_suffix(".so"@, comp[2]@)
}

/// The archive holds a manifest entry.
pub open spec fn archive_has_manifest(entries: Seq<Vec<String>>) -> bool {
    exists|i: int| 0 <= i < entries.len() && entry_is_manifest((#[trigger] entries[i])@)
}

/// The archive holds a shared-library entry.
pub open spec fn archive_has_lib(entries: Seq<Vec<String>>) -> bool {
    exists|i: int| 0 <= i < entries.len() && entry_is_lib((#[trigger] entries[i])@)
}

/// Checks that a path holds a packed plugin archive: a readable archive
/// whose three-level entries include a manifest and a shared library.
/// Each element of `entries` lists one archive entry's path components;
/// an unreadable archive arrives as `None`.
pub fn is_plugin_archive(is_file: bool, entries: Option<&Vec<Vec<String>>>) -> (r: Result<
    (),
    PikeError,
>)
    ensures
        r is Ok <==> (is_file && (entries matches Some(es) && archive_has_manifest(es@)
            && archive_has_lib(es@))),
        !is_file ==> (r matches Err(e) && e.msg@ == "plugin archive path must be a file"@),
        is_file && entries is None ==> (r matches Err(e) && e.msg@
            == "unable to read plugin archive candidate"@),
        is_file && (entries matches Some(es) && !archive_has_manifest(es@)) ==> (r matches Err(e)
            && e.msg@ == "plugin archive candidate missing manifest"@),
        is_file && (entries matches Some(es) && archive_has_manifest(es@) && !archive_has_lib(
            es@,
        )) ==> (r matches Err(e) && e.msg@ == "plugin archive candidate missing plugin library"@),
{
    if !is_file {
        return Err(PikeError { msg: "plugin archive path must be a file".to_owned() });
    }
    let es: &Vec<Vec<String>> = match entries {
        Some(es) => es,
        None => {
            return Err(PikeError { msg: "unable to read plugin archive candidate".to_owned() });
        },
    };
    let n = es.len();
    let mut has_manifest: bool = false;
    let mut has_lib: bool = false;
    let mut i: usize = 0;
    while i < n
        invariant
            n == es@.len(),
            0 <= i <= n,
            has_manifest ==> archive_has_manifest(es@),
            !has_manifest ==> (forall|k: int|
                0 <= k < i ==> !entry_is_manifest((#[trigger] es@[k])@)),
            has_lib ==> archive_has_lib(es@),
            !has_lib ==> (forall|k: int| 0 <= k < i ==> !entry_is_lib((#[trigger] es@[k])@)),
        decreases n - i,
    {
        let comp: &Vec<String> = &es[i];
        if comp.len() == 3 {
            if str_eq(comp[2].as_str(), "manifest.yaml") {
                proof {
                    assert(entry_is_manifest(es@[i as int]@));
                }
                has_manifest = true;
            }
            if crate::text::ends_with(comp[2].as_str(), ".so") {
                proof {
                    assert(entry_is_lib(es@[i as int]@));
                }
                has_lib = true;
            }
        }
        i = i + 1;
    }
    if has_manifest && has_lib {
        Ok(())
    } else if !has_manifest {
        Err(PikeError { msg: "plugin archive candidate missing manifest".to_owned() })
    } else {
        Err(PikeError { msg: "plugin archive candidate missing plugin library".to_owned() })
    }
}

// ---------------------------------------------------------------------------
// Classifying one external path
// ---------------------------------------------------------------------------

/// What the filesystem shows about one external plugin path.
pub struct ExternalPathFacts {
    /// The path is relative.
    pub is_relative: bool,
    /// Its metadata could be read.
    pub metadata_ok: bool,
    pub is_file: bool,
    pub is_dir: bool,
    pub is_symlink: bool,
    /// For a file: the archive's entry components, or `None` when it
    /// cannot be read as an archive.
    pub archive_entries: Option<Vec<Vec<String>>>,
    /// For a directory: whether it is a plugin project directory.
    pub plugin_dir: bool,
    /// For a directory: the regular files of each subdirectory.
    pub version_dir_files: Vec<Vec<String>>,
}

/// The classification the facts lead to, with `Err` meaning the reason no
/// kind fits. A symlinked path is rejected before anything else the
/// metadata (which follows the link) could say: its provenance is
/// ambiguous.
pub open spec fn path_kind_spec(f: ExternalPathFacts) -> Result<PluginPathKind, ()> {
    if !f.is_relative {
        Err(())
    } else if !f.metadata_ok {
        Err(())
    } else if f.is_symlink {
        Err(())
    } else if f.is_file {
        if f.archive_entries matches Some(es) && archive_has_manifest(es@) && archive_has_lib(
            es@,
        ) {
            Ok(PluginPathKind::ShippingArchive)
        } else {
            Err(())
        }
    } else if f.is_dir {
        if f.plugin_dir {
            Ok(PluginPathKind::CrateOrWorkspaceDirectory)
        } else if some_version_has_manifest(f.version_dir_files@) {
            Ok(PluginPathKind::ShippingDirectory)
        } else {
            Err(())
        }
    } else {
        Err(())
    }
}

/// Classifies an external plugin path into exactly one kind: a shipping
/// archive, a shipping directory, or a buildable project; relative paths
/// only, and symlinks are rejected outright.
pub fn get_external_plugin_path_kind(facts: &ExternalPathFacts) -> (r: Result<
    PluginPathKind,
    PikeError,
>)
    ensures
        r is Ok <==> path_kind_spec(*facts) is Ok,
        r matches Ok(k) ==> k == path_kind_spec(*facts).unwrap(),
        !facts.is_relative ==> (r matches Err(e) && e.msg@
            == "external plugin path must be relative"@),
        facts.is_relative && !facts.metadata_ok ==> (r matches Err(e) && e.msg@
            == "failed to query external plugin path metadata"@),
        facts.is_relative && facts.metadata_ok && facts.is_symlink ==> (r matches Err(e)
            && e.msg@ == "symlink as external plugin path is not supported"@),
        facts.is_relative && facts.metadata_ok && !facts.is_symlink && facts.is_file
            && path_kind_spec(*facts) is Err ==> (r matches Err(e) && crate::text::is_prefix(
            "external plugin path is an unknown file: "@,
            e.msg@,
        )),
        facts.is_relative && facts.metadata_ok && !facts.is_symlink && !facts.is_file
            && facts.is_dir && path_kind_spec(*facts) is Err ==> (r matches Err(e)
            && crate::text::is_prefix(
            "external plugin path directory has invalid structure: "@,
            e.msg@,
        )),
        facts.is_relative && facts.metadata_ok && !facts.is_symlink && !facts.is_file
            && !facts.is_dir ==> (r matches Err(e) && e.msg@
            == "unknown external plugin path type"@),
{
    if !facts.is_relative {
        return Err(PikeError { msg: "external plugin path must be relative".to_owned() });
    }
    if !facts.metadata_ok {
        return Err(
            PikeError { msg: "failed to query external plugin path metadata".to_owned() },
        );
    }
    if facts.is_symlink {
        return Err(
            PikeError { msg: "symlink as external plugin path is not supported".to_owned() },
        );
    }
    if facts.is_file {
        return match is_plugin_archive(true, facts.archive_entries.as_ref()) {
            Ok(()) => Ok(PluginPathKind::ShippingArchive),
            Err(e) => {
                let mut msg: String = "external plugin path is an unknown file: ".to_owned();
                msg.append(e.msg.as_str());
                proof {
                    assert(msg@.subrange(
                        0,
                        "external plugin path is an unknown file: "@.len() as int,
                    ) =~= "external plugin path is an unknown file: "@);
                }
                Err(PikeError { msg })
            },
        };
    }
    if facts.is_dir {
        if facts.plugin_dir {
            return Ok(PluginPathKind::CrateOrWorkspaceDirectory);
        }
        return match is_plugin_shipping_dir(true, &facts.version_dir_files) {
            Ok(()) => Ok(PluginPathKind::ShippingDirectory),
            Err(e) => {
                let mut msg: String =
                    "external plugin path directory has invalid structure: ".to_owned();
                msg.append(e.msg.as_str());
                proof {
                    assert(msg@.subrange(
                        0,
                        "external plugin path directory has invalid structure: "@.len() as int,
                    ) =~= "external plugin path directory has invalid structure: "@);
                }
                Err(PikeError { msg })
            },
        };
    }
    Err(PikeError { msg: "unknown external plugin path type".to_owned() })
}

// ---------------------------------------------------------------------------
// The materialization plan
// ---------------------------------------------------------------------------

/// One action that brings an external plugin into the run's plugin
/// directory.
#[derive(Debug)]
pub enum MaterializeStep {
    /// Unpack a shipping archive into the plugin directory.
    Unpack { src: String, dst: String },
    /// Copy a shipping directory into the plugin directory.
    CopyDir { src: String, dst: String },
    /// Build a plugin project (unless builds are disabled) and copy its
    /// produced shipping directory into the plugin directory.
    BuildAndCopy { project: String, run_build: bool, copy_src: String, dst: String },
}

/// The ghost shape of one action.
pub enum StepModel {
    Unpack { src: Seq<char>, dst: Seq<char> },
    CopyDir { src: Seq<char>, dst: Seq<char> },
    BuildAndCopy { project: Seq<char>, run_build: bool, copy_src: Seq<char>, dst: Seq<char> },
}

/// The ghost shape of an action list.
pub open spec fn step_model(s: MaterializeStep) -> StepModel {
    match s {
        MaterializeStep::Unpack { src, dst } => StepModel::Unpack { src: src@, dst: dst@ },
        MaterializeStep::CopyDir { src, dst } => StepModel::CopyDir { src: src@, dst: dst@ },
        MaterializeStep::BuildAndCopy { project, run_build, copy_src, dst } =>
            StepModel::BuildAndCopy {
            project: project@,
            run_build,
            copy_src: copy_src@,
            dst: dst@,
        },
    }
}

/// The unpack actions: one per external plugin whose path is a shipping
/// archive, in topology order.
pub open spec fn unpack_steps(
    plugins: Seq<(String, Plugin)>,
    kinds: Seq<Option<PluginPathKind>>,
    run_dir: Seq<char>,
) -> Seq<StepModel>
    decreases plugins.len(),
{
    if plugins.len() == 0 {
        Seq::empty()
    } else {
        unpack_steps(plugins.drop_last(), kinds.drop_last(), run_dir) + (if kinds.last() == Some(
            PluginPathKind::ShippingArchive,
        ) {
            seq![
                StepModel::Unpack {
                    src: plugins.last().1.path.unwrap()@,
                    dst: run_dir,
                },
            ]
        } else {
            Seq::<StepModel>::empty()
        })
    }
}

/// The copy actions: one per external plugin whose path is a shipping
/// directory, in topology order.
pub open spec fn copy_steps(
    plugins: Seq<(String, Plugin)>,
    kinds: Seq<Option<PluginPathKind>>,
    run_dir: Seq<char>,
) -> Seq<StepModel>
    decreases plugins.len(),
{
    if plugins.len() == 0 {
        Seq::empty()
    } else {
        copy_steps(plugins.drop_last(), kinds.drop_last(), run_dir) + (if kinds.last() == Some(
            PluginPathKind::ShippingDirectory,
        ) {
            seq![
                StepModel::CopyDir {
                    src: plugins.last().1.path.unwrap()@,
                    dst: run_dir,
                },
            ]
        } else {
            Seq::<StepModel>::empty()
        })
    }
}

/// The build-and-copy actions: one per external plugin whose path is a
/// plugin project, in topology order; the produced shipping directory is
/// `<path>/<target dir>/<profile>/<plugin name>`.
pub open spec fn build_steps(
    plugins: Seq<(String, Plugin)>,
    kinds: Seq<Option<PluginPathKind>>,
    run_dir: Seq<char>,
    profile: Seq<char>,
    target_dir: Seq<char>,
    no_build: bool,
) -> Seq<StepModel>
    decreases plugins.len(),
{
    if plugins.len() == 0 {
        Seq::empty()
    } else {
        build_steps(
            plugins.drop_last(),
            kinds.drop_last(),
            run_dir,
            profile,
            target_dir,
            no_build,
        ) + (if kinds.last() == Some(PluginPathKind::CrateOrWorkspaceDirectory) {
            seq![
                StepModel::BuildAndCopy {
                    project: plugins.last().1.path.unwrap()@,
                    run_build: !no_build,
                    copy_src: path_join_spec(
                        path_join_spec(
                            path_join_spec(plugins.last().1.path.unwrap()@, target_dir),
                            profile,
                        ),
                        plugins.last().0@,
                    ),
                    dst: run_dir,
                },
            ]
        } else {
            Seq::<StepModel>::empty()
        })
    }
}

/// Plans the materialization of a topology's external plugins into the
/// run's plugin directory: shipping archives are unpacked first, shipping
/// directories copied next, and plugin projects built (unless builds are
/// disabled) and their shipping output copied last, each phase walking
/// the plugins in topology order.
///
/// `kinds[i]` is the classified kind of plugin `i`'s external path, or
/// `None` for a local plugin.
pub fn prepare_external_plugins(
    plugins: &Vec<(String, Plugin)>,
    kinds: &Vec<Option<PluginPathKind>>,
    plugin_run_dir: &str,
    profile: BuildType,
    target_dir: &str,
    no_build: bool,
) -> (r: Vec<MaterializeStep>)
    requires
        kinds@.len() == plugins@.len(),
        forall|i: int|
            0 <= i < plugins@.len() ==> ((#[trigger] kinds@[i]) is Some <==> plugins@[i].1.path
                is Some),
    ensures
        r@.map_values(|s: MaterializeStep| step_model(s)) == unpack_steps(
            plugins@,
            kinds@,
            plugin_run_dir@,
        ) + copy_steps(plugins@, kinds@, plugin_run_dir@) + build_steps(
            plugins@,
            kinds@,
            plugin_run_dir@,
            if profile is Release {
                "release"@
            } else {
                "debug"@
            },
            target_dir@,
            no_build,
        ),
{
    let n = plugins.len();
    let ghost profile_name: Seq<char> = if profile is Release {
        "release"@
    } else {
        "debug"@
    };
    let mut out: Vec<MaterializeStep> = Vec::new();
    let mut i: usize = 0;
    proof {
        assert(out@.map_values(|s: MaterializeStep| step_model(s)) =~= unpack_steps(
            plugins@.take(0),
            kinds@.take(0),
            plugin_run_dir@,
        ));
    }
    while i < n
        invariant
            n == plugins@.len(),
            n == kinds@.len(),
            forall|k: int|
                0 <= k < plugins@.len() ==> ((#[trigger] kinds@[k]) is Some
                    <==> plugins@[k].1.path is Some),
            0 <= i <= n,
            out@.map_values(|s: MaterializeStep| step_model(s)) =~= unpack_steps(
                plugins@.take(i as int),
                kinds@.take(i as int),
                plugin_run_dir@,
            ),
        decreases n - i,
    {
        let ghost dv = out@.map_values(|s: MaterializeStep| step_model(s));
        let is_archive = match &kinds[i] {
            Some(k) => matches!(k, PluginPathKind::ShippingArchive),
            None => false,
        };
        if is_archive {
            let src: String = match &plugins[i].1.path {
                Some(p) => p.clone(),
                None => {
                    proof {
                        assert(false);
                    }
                    unreached()
                },
            };
            out.push(MaterializeStep::Unpack { src, dst: plugin_run_dir.to_owned() });
            proof {
                assert(out@.map_values(|s: MaterializeStep| step_model(s)) =~= dv + seq![
                    StepModel::Unpack { src: plugins@[i as int].1.path.unwrap()@, dst: plugin_run_dir@ },
                ]);
            }
        }
        proof {
            assert(plugins@.take(i + 1).drop_last() =~= plugins@.take(i as int));
            assert(kinds@.take(i + 1).drop_last() =~= kinds@.take(i as int));
            assert(plugins@.take(i + 1).last() == plugins@[i as int]);
            assert(kinds@.take(i + 1).last() == kinds@[i as int]);
        }
        i = i + 1;
    }
    proof {
        assert(plugins@.take(n as int) =~= plugins@);
        assert(kinds@.take(n as int) =~= kinds@);
    }
    let ghost after_unpack = out@.map_values(|s: MaterializeStep| step_model(s));
    let mut i: usize = 0;
    proof {
        assert(after_unpack + copy_steps(plugins@.take(0), kinds@.take(0), plugin_run_dir@)
            =~= after_unpack);
    }
    while i < n
        invariant
            n == plugins@.len(),
            n == kinds@.len(),
            forall|k: int|
                0 <= k < plugins@.len() ==> ((#[trigger] kinds@[k]) is Some
                    <==> plugins@[k].1.path is Some),
            0 <= i <= n,
            out@.map_values(|s: MaterializeStep| step_model(s)) =~= after_unpack + copy_steps(
                plugins@.take(i as int),
                kinds@.take(i as int),
                plugin_run_dir@,
            ),
        decreases n - i,
    {
        let ghost dv = out@.map_values(|s: MaterializeStep| step_model(s));
        let is_shipping = match &kinds[i] {
            Some(k) => matches!(k, PluginPathKind::ShippingDirectory),
            None => false,
        };
        if is_shipping {
            let src: String = match &plugins[i].1.path {
                Some(p) => p.clone(),
                None => {
                    proof {
                        assert(false);
                    }
                    unreached()
                },
            };
            out.push(MaterializeStep::CopyDir { src, dst: plugin_run_dir.to_owned() });
            proof {
                assert(out@.map_values(|s: MaterializeStep| step_model(s)) =~= dv + seq![
                    StepModel::CopyDir { src: plugins@[i as int].1.path.unwrap()@, dst: plugin_run_dir@ },
                ]);
            }
        }
        proof {
            assert(plugins@.take(i + 1).drop_last() =~= plugins@.take(i as int));
            assert(kinds@.take(i + 1).drop_last() =~= kinds@.take(i as int));
            assert(plugins@.take(i + 1).last() == plugins@[i as int]);
            assert(kinds@.take(i + 1).last() == kinds@[i as int]);
        }
        i = i + 1;
    }
    proof {
        assert(plugins@.take(n as int) =~= plugins@);
        assert(kinds@.take(n as int) =~= kinds@);
    }
    let ghost after_copy = out@.map_values(|s: MaterializeStep| step_model(s));
    let mut i: usize = 0;
    proof {
        assert(after_copy + build_steps(
            plugins@.take(0),
            kinds@.take(0),
            plugin_run_dir@,
            profile_name,
            target_dir@,
            no_build,
        ) =~= after_copy);
    }
    while i < n
        invariant
            n == plugins@.len(),
            n == kinds@.len(),
            profile_name == (if profile is Release {
                "release"@
            } else {
                "debug"@
            }),
            forall|k: int|
                0 <= k < plugins@.len() ==> ((#[trigger] kinds@[k]) is Some
                    <==> plugins@[k].1.path is Some),
            0 <= i <= n,
            out@.map_values(|s: MaterializeStep| step_model(s)) =~= after_copy + build_steps(
                plugins@.take(i as int),
                kinds@.take(i as int),
                plugin_run_dir@,
                profile_name,
                target_dir@,
                no_build,
            ),
        decreases n - i,
    {
        let ghost dv = out@.map_values(|s: MaterializeStep| step_model(s));
        let is_crate = match &kinds[i] {
            Some(k) => matches!(k, PluginPathKind::CrateOrWorkspaceDirectory),
            None => false,
        };
        if is_crate {
            let src: String = match &plugins[i].1.path {
                Some(p) => p.clone(),
                None => {
                    proof {
                        assert(false);
                    }
                    unreached()
                },
            };
            let with_target = path_join(src.as_str(), target_dir);
            let with_profile = path_join(with_target.as_str(), profile.as_str());
            let copy_src = path_join(with_profile.as_str(), plugins[i].0.as_str());
            out.push(
                MaterializeStep::BuildAndCopy {
                    project: src,
                    run_build: !no_build,
                    copy_src,
                    dst: plugin_run_dir.to_owned(),
                },
            );
            proof {
                assert(out@.map_values(|s: MaterializeStep| step_model(s)) =~= dv + seq![
                    StepModel::BuildAndCopy {
                        project: plugins@[i as int].1.path.unwrap()@,
                        run_build: !no_build,
                        copy_src: path_join_spec(
                            path_join_spec(
                                path_join_spec(plugins@[i as int].1.path.unwrap()@, target_dir@),
                                profile_name,
                            ),
                            plugins@[i as int].0@,
                        ),
                        dst: plugin_run_dir@,
                    },
                ]);
            }
        }
        proof {
            assert(plugins@.take(i + 1).drop_last() =~= plugins@.take(i as int));
            assert(kinds@.take(i + 1).drop_last() =~= kinds@.take(i as int));
            assert(plugins@.take(i + 1).last() == plugins@[i as int]);
            assert(kinds@.take(i + 1).last() == kinds@[i as int]);
        }
        i = i + 1;
    }
    proof {
        assert(plugins@.take(n as int) =~= plugins@);
        assert(kinds@.take(n as int) =~= kinds@);
    }
    out
}

} // verus!
