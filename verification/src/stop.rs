//! The stop/kill controller's decisions: which cluster directory entries a
//! stop call touches, how a pid file's text is read, and the per-instance
//! stop sequence over facts the filesystem shows.
//!
//! Directory walking, socket probing and pid-file reading are I/O and live
//! outside the library; the kill itself goes through the process signal.
use vstd::prelude::*;

use crate::text::{all_digits, dec_val, file_name_of, parse_u32, path_join, trim_ascii, trim_spec};
use crate::PikeError;

verus! {

/// The parameters of one stop call.
#[derive(Clone, Debug)]
pub struct Params {
    pub data_dir: String,
    pub plugin_path: String,
    pub instance_name: Option<String>,
}

/// A builder of stop [`Params`], with the defaults of the command line.
#[derive(Clone, Debug)]
pub struct ParamsBuilder {
    pub data_dir: Option<String>,
    pub plugin_path: Option<String>,
    pub instance_name: Option<Option<String>>,
}

impl Default for ParamsBuilder {
    /// A builder with nothing set.
    fn default() -> (r: ParamsBuilder)
        ensures
            r.data_dir is None,
            r.plugin_path is None,
            r.instance_name is None,
    {
        ParamsBuilder { data_dir: None, plugin_path: None, instance_name: None }
    }
}

impl ParamsBuilder {
    /// Sets the data directory.
    pub fn data_dir(&mut self, v: String) -> (r: &mut ParamsBuilder)
        ensures
            *r == (ParamsBuilder { data_dir: Some(v), ..*old(self) }),
            *final(self) == *final(r),
    {
        self.data_dir = Some(v);
        self
    }

    /// Sets the plugin project path.
    pub fn plugin_path(&mut self, v: String) -> (r: &mut ParamsBuilder)
        ensures
            *r == (ParamsBuilder { plugin_path: Some(v), ..*old(self) }),
            *final(self) == *final(r),
    {
        self.plugin_path = Some(v);
        self
    }

    /// Restricts the stop to one named instance.
    pub fn instance_name(&mut self, v: Option<String>) -> (r: &mut ParamsBuilder)
        ensures
            *r == (ParamsBuilder { instance_name: Some(v), ..*old(self) }),
            *final(self) == *final(r),
    {
        self.instance_name = Some(v);
        self
    }

    /// Builds the parameters, filling every unset field with its default.
    pub fn build(self) -> (r: Params)
        ensures
            (match self.data_dir {
                Some(v) => r.data_dir@ == v@,
                None => r.data_dir@ == "./tmp"@,
            }),
            (match self.plugin_path {
                Some(v) => r.plugin_path@ == v@,
                None => r.plugin_path@ == "./"@,
            }),
            (match self.instance_name {
                Some(v) => r.instance_name == v,
                None => r.instance_name is None,
            }),
    {
        Params {
            data_dir: match self.data_dir {
                Some(v) => v,
                None => "./tmp".to_owned(),
            },
            plugin_path: match self.plugin_path {
                Some(v) => v,
                None => "./".to_owned(),
            },
            instance_name: match self.instance_name {
                Some(v) => v,
                None => None,
            },
        }
    }
}

// ---------------------------------------------------------------------------
// Which entries a stop touches
// ---------------------------------------------------------------------------

/// The names of the symlink entries, in directory order: the friendly
/// names, each of which stands for one running process; positional
/// directories are skipped so no process is stopped twice.
pub open spec fn symlink_names(entries: Seq<(String, bool)>) -> Seq<Seq<char>>
    decreases entries.len(),
{
    if entries.len() == 0 {
        Seq::empty()
    } else {
        symlink_names(entries.drop_last()) + (if entries.last().1 {
            seq![entries.last().0@]
        } else {
            Seq::<Seq<char>>::empty()
        })
    }
}

/// Whether some entry has this name.
pub open spec fn has_entry(entries: Seq<(String, bool)>, name: Seq<char>) -> bool {
    exists|i: int| 0 <= i < entries.len() && (#[trigger] entries[i]).0@ == name
}

/// Selects the entries a stop call touches: with an instance name exactly
/// that entry (an absent one is an error), and otherwise every symlink
/// entry of the cluster directory.
pub fn stop_selection(entries: &Vec<(String, bool)>, instance_name: Option<&String>) -> (r: Result<
    Vec<String>,
    PikeError,
>)
    ensures
        (match instance_name {
            Some(n) => {
                &&& (r is Ok <==> has_entry(entries@, n@))
                &&& (r matches Ok(sel) ==> sel.deep_view() =~= seq![n@])
                &&& (r matches Err(e) ==> e.msg@ == "failed to locate directory of the instance '"@
                    + n@ + "'"@)
            },
            None => r matches Ok(sel) && sel.deep_view() == symlink_names(entries@),
        }),
{
    let n = entries.len();
    match instance_name {
        Some(target) => {
            let mut i: usize = 0;
            while i < n
                invariant
                    instance_name == Some(target),
                    n == entries@.len(),
                    0 <= i <= n,
                    forall|j: int| 0 <= j < i ==> (#[trigger] entries@[j]).0@ != target@,
                decreases n - i,
            {
                if crate::text::str_eq(entries[i].0.as_str(), target.as_str()) {
                    let mut sel: Vec<String> = Vec::new();
                    sel.push(target.clone());
                    proof {
                        assert(instance_name == Some(target));
                        assert(entries@[i as int].0@ == target@);
                        assert(has_entry(entries@, target@));
                        assert(sel.deep_view() =~= seq![target@]);
                    }
                    return Ok(sel);
                }
                i = i + 1;
            }
            let mut msg: String = "failed to locate directory of the instance '".to_owned();
            msg.append(target.as_str());
            msg.append("'");
            Err(PikeError { msg })
        },
        None => {
            let mut sel: Vec<String> = Vec::new();
            let mut i: usize = 0;
            proof {
                assert(sel.deep_view() =~= symlink_names(entries@.take(0)));
            }
            while i < n
                invariant
                    n == entries@.len(),
                    0 <= i <= n,
                    sel.deep_view() =~= symlink_names(entries@.take(i as int)),
                decreases n - i,
            {
                let ghost dv = sel.deep_view();
                if entries[i].1 {
                    sel.push(entries[i].0.clone());
                    proof {
                        assert(sel.deep_view() =~= dv + seq![entries@[i as int].0@]);
                    }
                }
                proof {
                    assert(entries@.take(i + 1).drop_last() =~= entries@.take(i as int));
                    assert(entries@.take(i + 1).last() == entries@[i as int]);
                    assert(sel.deep_view() =~= symlink_names(entries@.take(i + 1)));
                }
                i = i + 1;
            }
            proof {
                assert(entries@.take(n as int) =~= entries@);
            }
            Ok(sel)
        },
    }
}

/// Stopping one named instance touches no sibling: the selection holds
/// the target alone, so every other instance's process and socket stay
/// as they were.
pub proof fn lemma_single_stop_leaves_siblings(
    selection: Seq<Seq<char>>,
    target: Seq<char>,
    sibling: Seq<char>,
)
    requires
        selection =~= seq![target],
        sibling != target,
    ensures
        !selection.contains(sibling),
{
    assert forall|i: int| 0 <= i < selection.len() implies selection[i] != sibling by {
        assert(selection[i] == target);
    }
}

// ---------------------------------------------------------------------------
// Reading pid files and stopping one instance
// ---------------------------------------------------------------------------

/// Reads a pid from the first line of a pid file: surrounding ASCII
/// whitespace is ignored.
pub fn parse_pid(line: &str) -> (r: Option<u32>)
    ensures
        r is Some <==> (trim_spec(line@).len() > 0 && all_digits(trim_spec(line@)) && dec_val(
            trim_spec(line@),
        ) <= u32::MAX),
        r matches Some(pid) ==> pid == dec_val(trim_spec(line@)),
{
    let t = trim_ascii(line);
    parse_u32(t)
}

/// Force-kills one process by pid; a refusal from the OS is an error
/// naming the pid.
pub fn kill_process_by_pid(pid: u32) -> (r: Result<(), PikeError>)
    ensures
        r matches Err(e) ==> crate::text::is_prefix(
            "failed to kill picodata instance (pid: "@,
            e.msg@,
        ),
{
    match crate::instance::send_sigkill_to(pid) {
        Ok(()) => Ok(()),
        Err(e) => {
            let mut msg: String = "failed to kill picodata instance (pid: ".to_owned();
            let pid_str = crate::text::u64_to_string(pid as u64);
            msg.append(pid_str.as_str());
            msg.append("): ");
            msg.append(e.msg.as_str());
            proof {
                assert(msg@.subrange(0, "failed to kill picodata instance (pid: "@.len() as int)
                    =~= "failed to kill picodata instance (pid: "@);
            }
            Err(PikeError { msg })
        },
    }
}

use crate::text::has_file_name;

/// What the filesystem shows for one instance directory entry about to be
/// stopped.
pub struct InstanceDirFacts {
    pub is_dir: bool,
    pub pid_file_exists: bool,
    pub pid_line: Option<String>,
    pub socket_active: bool,
}

/// Stops one instance: its directory must be real and carry a pid file;
/// an instance whose admin socket no longer answers is already stopped
/// and is skipped; otherwise its process is force-killed by pid.
pub fn stop_instance(instance_dir: &str, facts: &InstanceDirFacts) -> (r: Result<(), PikeError>)
    ensures
        !facts.is_dir ==> (r matches Err(e) && e.msg@ == instance_dir@ + " is not a directory"@),
        facts.is_dir && !has_file_name(instance_dir@) ==> (r matches Err(e) && e.msg@
            == "failed to obtain filename from "@ + instance_dir@),
        facts.is_dir && has_file_name(instance_dir@) && !facts.pid_file_exists ==> (r matches Err(
            e,
        ) && e.msg@ == "PID file does not exist in folder: "@ + instance_dir@),
        facts.is_dir && has_file_name(instance_dir@) && facts.pid_file_exists && facts.pid_line
            is None ==> (r matches Err(e) && crate::text::is_prefix(
            "failed to read the PID file"@,
            e.msg@,
        )),
        facts.is_dir && has_file_name(instance_dir@) && facts.pid_file_exists && (
        facts.pid_line matches Some(l) && !(trim_spec(l@).len() > 0 && all_digits(trim_spec(l@))
            && dec_val(trim_spec(l@)) <= u32::MAX)) ==> (r matches Err(e)
            && crate::text::is_prefix("failed to read the PID file"@, e.msg@)),
        facts.is_dir && has_file_name(instance_dir@) && facts.pid_file_exists && (
        facts.pid_line matches Some(l) && trim_spec(l@).len() > 0 && all_digits(trim_spec(l@))
            && dec_val(trim_spec(l@)) <= u32::MAX) && !facts.socket_active ==> r is Ok,
        facts.is_dir && has_file_name(instance_dir@) && facts.pid_file_exists && (
        facts.pid_line matches Some(l) && trim_spec(l@).len() > 0 && all_digits(trim_spec(l@))
            && dec_val(trim_spec(l@)) <= u32::MAX) && facts.socket_active ==> (r is Ok || (
        r matches Err(e) && crate::text::is_prefix(
            "failed to stop picodata instance with PID "@,
            e.msg@,
        ))),
{
    if !facts.is_dir {
        let mut msg: String = instance_dir.to_owned();
        msg.append(" is not a directory");
        return Err(PikeError { msg });
    }
    if file_name_of(instance_dir).is_none() {
        let mut msg: String = "failed to obtain filename from ".to_owned();
        msg.append(instance_dir);
        return Err(PikeError { msg });
    }
    if !facts.pid_file_exists {
        let mut msg: String = "PID file does not exist in folder: ".to_owned();
        msg.append(instance_dir);
        return Err(PikeError { msg });
    }
    let pid: u32 = match &facts.pid_line {
        None => {
            let mut msg: String = "failed to read the PID file".to_owned();
            msg.append(": PID file is empty");
            proof {
                assert(msg@.subrange(0, "failed to read the PID file"@.len() as int)
                    =~= "failed to read the PID file"@);
            }
            return Err(PikeError { msg });
        },
        Some(line) => {
            match parse_pid(line.as_str()) {
                Some(pid) => pid,
                None => {
                    let mut msg: String = "failed to read the PID file".to_owned();
                    msg.append(": failed to parse PID from file ");
                    let pid_path = path_join(instance_dir, "pid");
                    msg.append(pid_path.as_str());
                    proof {
                        assert(msg@.subrange(0, "failed to read the PID file"@.len() as int)
                            =~= "failed to read the PID file"@);
                    }
                    return Err(PikeError { msg });
                },
            }
        },
    };
    if !facts.socket_active {
        return Ok(());
    }
    match kill_process_by_pid(pid) {
        Ok(()) => Ok(()),
        Err(e) => {
            let mut msg: String = "failed to stop picodata instance with PID ".to_owned();
            let pid_str = crate::text::u64_to_string(pid as u64);
            msg.append(pid_str.as_str());
            msg.append(". Error: ");
            msg.append(e.msg.as_str());
            proof {
                assert(msg@.subrange(
                    0,
                    "failed to stop picodata instance with PID "@.len() as int,
                ) =~= "failed to stop picodata instance with PID "@);
            }
            Err(PikeError { msg })
        },
    }
}

} // verus!
