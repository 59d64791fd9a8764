//! The admin-console side of the orchestrator: the statements sent to a
//! node's administrative console, the interpretation of what the console
//! prints back, and the on-disk location of a node's admin socket.
//!
//! Spawning the console process and connecting to the socket are I/O and
//! live outside the library; every function here works on the captured
//! console output or on plain path strings.
use vstd::prelude::*;

use crate::text::{
    dec_val, is_prefix, lines_spec, lower_seq, parse_u64, path_join, path_join_spec, split_lines,
    starts_with, to_lower_string,
};
use crate::PikeError;

verus! {

/// The console statement that asks a node for its own name.
pub const GET_INSTANCE_NAME: &'static str = "\\lua\npico.instance_info().name";

/// The console statement that asks a node for its current state variant.
pub const GET_INSTANCE_CURRENT_STATE: &'static str = "\\lua\npico.instance_info().current_state.variant";

/// The console statement that asks a node for the negotiated leader id.
pub const GET_CLUSTER_LEADER_ID: &'static str = "\\lua\nbox.func[\".proc_runtime_info\"]:call().raft.leader_id";

/// The state a node reports for itself.
#[derive(Clone, Copy, Debug, PartialEq, Eq, Structural)]
pub enum InstanceState {
    Online,
    Offline,
    Expelled,
}

impl InstanceState {
    /// Whether the state is `Online`.
    pub fn is_online(self) -> (r: bool)
        ensures
            r == (self is Online),
    {
        matches!(self, InstanceState::Online)
    }
}

/// Parses a state variant as the console prints it, ignoring ASCII case.
pub fn parse_instance_state(s: &str) -> (r: Result<InstanceState, PikeError>)
    ensures
        r is Ok <==> (lower_seq(s@) == "online"@ || lower_seq(s@) == "offline"@ || lower_seq(s@)
            == "expelled"@),
        r is Ok ==> ((r->Ok_0 is Online <==> lower_seq(s@) == "online"@) && (r->Ok_0 is Offline
            <==> lower_seq(s@) == "offline"@) && (r->Ok_0 is Expelled <==> lower_seq(s@)
            == "expelled"@)),
        r is Err ==> r->Err_0.msg@ == "Unknown instane state variant: '"@ + lower_seq(s@)
            + "'"@,
{
    proof {
        reveal_strlit("online");
        reveal_strlit("offline");
        reveal_strlit("expelled");
        assert("online"@.len() == 6);
        assert("offline"@.len() == 7);
        assert("expelled"@.len() == 8);
    }
    let lowered = to_lower_string(s);
    if crate::text::str_eq(lowered.as_str(), "online") {
        Ok(InstanceState::Online)
    } else if crate::text::str_eq(lowered.as_str(), "offline") {
        Ok(InstanceState::Offline)
    } else if crate::text::str_eq(lowered.as_str(), "expelled") {
        Ok(InstanceState::Expelled)
    } else {
        let mut msg: String = "Unknown instane state variant: '".to_owned();
        msg.append(lowered.as_str());
        msg.append("'");
        Err(PikeError { msg })
    }
}

/// The first console line that carries a scalar result (prefix `"- "`),
/// with the prefix removed.
pub open spec fn first_scalar_line(ls: Seq<Seq<char>>) -> Option<Seq<char>>
    decreases ls.len(),
{
    if ls.len() == 0 {
        None
    } else if is_prefix("- "@, ls[0]) {
        Some(ls[0].skip(2))
    } else {
        first_scalar_line(ls.skip(1))
    }
}

proof fn lemma_first_scalar_line_at(ls: Seq<Seq<char>>, i: int)
    requires
        0 <= i <= ls.len(),
        forall|j: int| 0 <= j < i ==> !is_prefix("- "@, ls[j]),
        i == ls.len() || is_prefix("- "@, ls[i]),
    ensures
        i == ls.len() ==> first_scalar_line(ls) is None,
        i < ls.len() ==> first_scalar_line(ls) == Some(ls[i].skip(2)),
    decreases i,
{
    if i == 0 {
    } else {
        lemma_first_scalar_line_at(ls.skip(1), i - 1);
    }
}

/// Extracts the single scalar result line from captured console output.
///
/// The console marks a scalar reply with a `"- "` prefix; the first such
/// line is returned without the prefix, and output without one is an error.
pub fn get_lua_single_line_output(stdout: &str) -> (r: Result<String, PikeError>)
    ensures
        r is Ok <==> first_scalar_line(lines_spec(stdout@)) is Some,
        r is Ok ==> r.unwrap()@ == first_scalar_line(lines_spec(stdout@)).unwrap(),
        r is Err ==> r->Err_0.msg@ == "unable to extract single line from Lua query output '"@
            + stdout@ + "'"@,
{
    let lines = split_lines(stdout);
    let ghost ls = lines_spec(stdout@);
    let n = lines.len();
    let mut i: usize = 0;
    while i < n
        invariant
            n == lines.len(),
            lines.deep_view() == ls,
            ls == lines_spec(stdout@),
            0 <= i <= n,
            forall|j: int| 0 <= j < i ==> !is_prefix("- "@, ls[j]),
        decreases n - i,
    {
        let line: &String = &lines[i];
        assert(line@ == ls[i as int]);
        if starts_with(line.as_str(), "- ") {
            proof {
                lemma_first_scalar_line_at(ls, i as int);
            }
            let len = line.as_str().unicode_len();
            proof {
                reveal_strlit("- ");
            }
            let tail = line.as_str().substring_char(2, len);
            proof {
                assert(tail@ =~= ls[i as int].skip(2));
                assert(first_scalar_line(ls) == Some(ls[i as int].skip(2)));
                assert(first_scalar_line(lines_spec(stdout@)) is Some);
            }
            return Ok(tail.to_owned());
        }
        i = i + 1;
    }
    proof {
        lemma_first_scalar_line_at(ls, n as int);
    }
    let mut msg: String = "unable to extract single line from Lua query output '".to_owned();
    msg.append(stdout);
    msg.append("'");
    Err(PikeError { msg })
}

/// Interprets the name query's console output: the scalar line is the
/// node's reported name.
pub fn get_instance_name(stdout: &str) -> (r: Result<String, PikeError>)
    ensures
        r is Ok <==> first_scalar_line(lines_spec(stdout@)) is Some,
        r is Ok ==> r.unwrap()@ == first_scalar_line(lines_spec(stdout@)).unwrap(),
{
    get_lua_single_line_output(stdout)
}

/// Interprets the state query's console output: the scalar line parses to
/// the node's current state.
pub fn get_instance_current_state(stdout: &str) -> (r: Result<InstanceState, PikeError>)
    ensures
        r is Ok <==> ({
            let line = first_scalar_line(lines_spec(stdout@));
            line is Some && (lower_seq(line.unwrap()) == "online"@ || lower_seq(line.unwrap())
                == "offline"@ || lower_seq(line.unwrap()) == "expelled"@)
        }),
        r is Ok ==> (r.unwrap() is Online <==> lower_seq(
            first_scalar_line(lines_spec(stdout@)).unwrap(),
        ) == "online"@),
{
    match get_lua_single_line_output(stdout) {
        Ok(line) => parse_instance_state(line.as_str()),
        Err(e) => Err(e),
    }
}

/// Interprets the leader-id query's console output: the scalar line parses
/// to the negotiated leader id, `0` meaning none yet.
pub fn get_cluster_leader_id(stdout: &str) -> (r: Result<u64, PikeError>)
    ensures
        r is Ok <==> ({
            let line = first_scalar_line(lines_spec(stdout@));
            line is Some && line.unwrap().len() > 0 && crate::text::all_digits(line.unwrap())
                && dec_val(line.unwrap()) <= u64::MAX
        }),
        r is Ok ==> r.unwrap() == dec_val(first_scalar_line(lines_spec(stdout@)).unwrap()),
        r is Err ==> is_prefix("unable to get cluster leader id: "@, r->Err_0.msg@),
{
    match get_lua_single_line_output(stdout) {
        Ok(line) => {
            match parse_u64(line.as_str()) {
                Some(v) => Ok(v),
                None => {
                    let mut msg: String = "unable to get cluster leader id: ".to_owned();
                    msg.append("failed to parse leader id from string");
                    proof {
                        assert(msg@.subrange(
                            0,
                            "unable to get cluster leader id: "@.len() as int,
                        ) =~= "unable to get cluster leader id: "@);
                    }
                    Err(PikeError { msg })
                },
            }
        },
        Err(e) => {
            let mut msg: String = "unable to get cluster leader id: ".to_owned();
            msg.append(e.msg.as_str());
            proof {
                assert(msg@.subrange(0, "unable to get cluster leader id: "@.len() as int)
                    =~= "unable to get cluster leader id: "@);
            }
            Err(PikeError { msg })
        },
    }
}

/// Classifies one finished console run: a successful exit hands back the
/// captured stdout, a failed one an error embedding the captured stderr.
pub fn run_query_in_picodata_admin(exit_success: bool, stdout: String, stderr: &str) -> (r: Result<
    String,
    PikeError,
>)
    ensures
        exit_success <==> r is Ok,
        r is Ok ==> r.unwrap()@ == stdout@,
        r is Err ==> r->Err_0.msg@ == "failed to run query in picodata admin: "@ + stderr@,
{
    if exit_success {
        Ok(stdout)
    } else {
        let mut msg: String = "failed to run query in picodata admin: ".to_owned();
        msg.append(stderr);
        Err(PikeError { msg })
    }
}

/// The admin socket path of one instance under the cluster data directory.
pub fn active_socket_path(data_dir: &str, plugin_path: &str, instance_name: &str) -> (r: String)
    ensures
        r@ == path_join_spec(
            path_join_spec(
                path_join_spec(path_join_spec(plugin_path@, data_dir@), "cluster"@),
                instance_name@,
            ),
            "admin.sock"@,
        ),
{
    let a = path_join(plugin_path, data_dir);
    let b = path_join(a.as_str(), "cluster");
    let c = path_join(b.as_str(), instance_name);
    path_join(c.as_str(), "admin.sock")
}

/// The cluster directory under the run's data directory.
pub fn get_cluster_dir(plugin_path: &str, data_dir: &str) -> (r: String)
    ensures
        r@ == path_join_spec(path_join_spec(plugin_path@, data_dir@), "cluster"@),
{
    let a = path_join(plugin_path, data_dir);
    path_join(a.as_str(), "cluster")
}

} // verus!
