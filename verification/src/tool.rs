//! The optional external tool: where to look for it on the executable search
//! path, how each possible outcome of running it is reported, and why none of
//! those outcomes can fail the program.

use crate::text::joined_path;
use crate::text::join_path;
use crate::text::split_chars;
use crate::text::split_on;
use vstd::prelude::*;

verus! {

/// How the optional external tool step ended.
#[derive(Clone, Copy, Debug, PartialEq, Eq, Structural)]
pub enum ToolOutcome {
    /// No executable of the tool's name was found on the search path.
    NotFound,
    /// The tool ran and exited successfully.
    Succeeded,
    /// The tool ran and exited with a non-zero status.
    Failed,
    /// The tool was found but the subprocess could not be spawned.
    SpawnError,
}

/// The visual style a message is reported in.
#[derive(Clone, Copy, Debug, PartialEq, Eq, Structural)]
pub enum MessageKind {
    /// Informational, on standard output.
    Info,
    /// A warning, on standard error.
    Warning,
    /// An error, on standard error.
    Error,
}

/// The style each tool outcome is reported in: a missing tool is only a
/// warning, a successful run is informational, and everything else is an
/// error message — never a program failure.
pub fn tool_message_kind(outcome: &ToolOutcome) -> (k: MessageKind)
    ensures
        k == MessageKind::Warning <==> outcome is NotFound,
        k == MessageKind::Info <==> outcome is Succeeded,
        k == MessageKind::Error <==> (outcome is Failed || outcome is SpawnError),
{
    match outcome {
        ToolOutcome::NotFound => MessageKind::Warning,
        ToolOutcome::Succeeded => MessageKind::Info,
        ToolOutcome::Failed => MessageKind::Error,
        ToolOutcome::SpawnError => MessageKind::Error,
    }
}

/// The process exit code for a run: zero exactly when the main flow —
/// resolution, download, descriptor — succeeded. The tool outcome never
/// enters the computation.
pub open spec fn run_exit_code(flow_ok: bool, outcome: ToolOutcome) -> int {
    if flow_ok {
        0
    } else {
        1
    }
}

/// The process exit code for a run whose main flow ended as `flow_ok` says
/// and whose tool step ended as `outcome` says.
pub fn process_exit_code(flow_ok: bool, outcome: &ToolOutcome) -> (code: u8)
    ensures
        code as int == run_exit_code(flow_ok, *outcome),
        code == 0 <==> flow_ok,
{
    if flow_ok {
        0
    } else {
        1
    }
}

/// Whatever the external tool step came to — not found, failed, unspawnable —
/// the exit code is the same, and a run whose main flow succeeded exits with
/// code zero.
pub proof fn lemma_tool_outcome_cannot_fail_run(flow_ok: bool, a: ToolOutcome, b: ToolOutcome)
    ensures
        run_exit_code(flow_ok, a) == run_exit_code(flow_ok, b),
        flow_ok ==> run_exit_code(flow_ok, a) == 0,
{
}

/// The candidate paths at which the tool may sit: each directory of the
/// search-path variable, split on the separator, joined to the tool's name,
/// in order.
pub open spec fn candidate_paths(path_var: Seq<char>, sep: char, cmd: Seq<char>) -> Seq<
    Seq<char>,
> {
    split_chars(path_var, sep).map_values(|dir: Seq<char>| joined_path(dir, cmd))
}

/// Lists the candidate paths to probe for the tool, in search order.
pub fn search_candidates(path_var: &str, sep: char, cmd: &str) -> (v: Vec<String>)
    ensures
        v.deep_view() == candidate_paths(path_var@, sep, cmd@),
{
    let dirs = split_on(path_var, sep);
    let mut v: Vec<String> = Vec::new();
    let mut i: usize = 0;
    while i < dirs.len()
        invariant
            i <= dirs.len(),
            dirs.deep_view() == split_chars(path_var@, sep),
            v.deep_view() == candidate_paths(path_var@, sep, cmd@).subrange(0, i as int),
        decreases dirs.len() - i,
    {
        let joined = join_path(dirs[i].as_str(), cmd);
        let ghost pre = v.deep_view();
        let ghost prev = v@;
        v.push(joined);
        proof {
            let all = candidate_paths(path_var@, sep, cmd@);
            let lhs = v.deep_view();
            let rhs = all.subrange(0, i + 1 as int);
            assert(all.len() == split_chars(path_var@, sep).len());
            assert(dirs.deep_view().len() == dirs@.len());
            assert(i + 1 <= all.len());
            assert(pre.len() == prev.len());
            assert(pre.len() == i);
            assert(v@.len() == prev.len() + 1);
            assert(lhs.len() == i + 1);
            assert(rhs.len() == i + 1);
            assert(dirs.deep_view()[i as int] == dirs@[i as int]@);
            assert(all[i as int] == joined_path(dirs@[i as int]@, cmd@));
            assert forall|j: int| 0 <= j < lhs.len() implies lhs[j] == rhs[j] by {
                assert(lhs[j] == v@[j]@);
                assert(rhs[j] == all[j]);
                if j < lhs.len() - 1 {
                    assert(v@[j] == prev[j]);
                    assert(pre[j] == prev[j]@);
                    assert(pre[j] == all.subrange(0, i as int)[j]);
                } else {
                    assert(v@[j] == joined);
                }
            }
            assert(lhs =~= rhs);
        }
        i += 1;
    }
    proof {
        assert(candidate_paths(path_var@, sep, cmd@).subrange(
            0,
            candidate_paths(path_var@, sep, cmd@).len() as int,
        ) =~= candidate_paths(path_var@, sep, cmd@));
    }
    v
}

} // verus!
