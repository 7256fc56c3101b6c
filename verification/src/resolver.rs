//! Launch resolution: deciding which command starts a worker for a model.
//!
//! The policy is an ordered fallback.  A packaged model directory holding a
//! wrapper script is launched through the platform's interpreter; otherwise a
//! worker binary at a fixed local location is launched against the model
//! path; otherwise a demonstration command is used that emits periodic output
//! lines and exits.  The caller performs the filesystem existence checks and
//! hands the outcome in as [`FsFacts`], so resolution itself is a pure
//! function and never fails.

use vstd::prelude::*;
use crate::catalog::{ModelRecord, ModelRecordGhost};

verus! {

/// Filesystem facts about one model record, observed by the caller: whether
/// the record's path is a directory, whether that directory holds a shell or
/// batch wrapper script, and whether the fixed local worker binary exists.
#[derive(Clone, Copy, PartialEq, Eq, Structural, Debug)]
pub struct FsFacts {
    pub is_dir: bool,
    pub has_run_script: bool,
    pub has_batch_script: bool,
    pub has_worker_binary: bool,
}

/// A fully resolved launch command: the program, its ordered arguments, and
/// whether the invocation goes through a shell-like interpreter.
pub struct LaunchSpec {
    pub program: String,
    pub args: Vec<String>,
    pub via_shell: bool,
}

/// Mathematical image of a [`LaunchSpec`].
pub struct LaunchSpecGhost {
    pub program: Seq<char>,
    pub args: Seq<Seq<char>>,
    pub via_shell: bool,
}

impl View for LaunchSpec {
    type V = LaunchSpecGhost;

    open spec fn view(&self) -> LaunchSpecGhost {
        LaunchSpecGhost {
            program: self.program@,
            args: self.args.deep_view(),
            via_shell: self.via_shell,
        }
    }
}

/// The launch command the fallback policy picks for `rec` under the
/// filesystem facts `f`, in priority order: shell wrapper script, batch
/// wrapper script, local worker binary, demonstration command.
pub open spec fn spec_resolve(rec: ModelRecordGhost, f: FsFacts) -> LaunchSpecGhost {
    if f.is_dir && f.has_run_script {
        LaunchSpecGhost {
            program: "sh"@,
            args: seq![rec.path + "/run.sh"@],
            via_shell: true,
        }
    } else if f.is_dir && f.has_batch_script {
        LaunchSpecGhost {
            program: "cmd"@,
            args: seq!["/C"@, rec.path + "/run.bat"@],
            via_shell: true,
        }
    } else if f.has_worker_binary {
        LaunchSpecGhost {
            program: "./bin/llama"@,
            args: seq!["-m"@, rec.path, "--stream"@],
            via_shell: false,
        }
    } else {
        LaunchSpecGhost {
            program: "python3"@,
            args: seq![
                "-u"@,
                "-c"@,
                "import time\nfor i in range(200):\n print('TOKEN', i)\n time.sleep(0.12)\n"@,
            ],
            via_shell: false,
        }
    }
}

/// Resolves the launch command for `record` under the observed facts.
pub fn resolve(record: &ModelRecord, facts: &FsFacts) -> (s: LaunchSpec)
    ensures
        s@ == spec_resolve(record@, *facts),
{
    let mut args: Vec<String> = Vec::new();
    if facts.is_dir && facts.has_run_script {
        args.push(record.path.clone().concat("/run.sh"));
        let s = LaunchSpec { program: String::from_str("sh"), args, via_shell: true };
        proof {
            assert(s@.args =~= spec_resolve(record@, *facts).args);
        }
        s
    } else if facts.is_dir && facts.has_batch_script {
        args.push(String::from_str("/C"));
        args.push(record.path.clone().concat("/run.bat"));
        let s = LaunchSpec { program: String::from_str("cmd"), args, via_shell: true };
        proof {
            assert(s@.args =~= spec_resolve(record@, *facts).args);
        }
        s
    } else if facts.has_worker_binary {
        args.push(String::from_str("-m"));
        args.push(record.path.clone());
        args.push(String::from_str("--stream"));
        let s = LaunchSpec { program: String::from_str("./bin/llama"), args, via_shell: false };
        proof {
            assert(s@.args =~= spec_resolve(record@, *facts).args);
        }
        s
    } else {
        args.push(String::from_str("-u"));
        args.push(String::from_str("-c"));
        args.push(
            String::from_str(
                "import time\nfor i in range(200):\n print('TOKEN', i)\n time.sleep(0.12)\n",
            ),
        );
        let s = LaunchSpec { program: String::from_str("python3"), args, via_shell: false };
        proof {
            assert(s@.args =~= spec_resolve(record@, *facts).args);
        }
        s
    }
}

} // verus!
