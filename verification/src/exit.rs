//! The exit code mapper: the finished task's per-container results, in their
//! returned order, decide the process exit code.

use vstd::prelude::*;
use crate::model::ContainerResult;
use crate::model::Task;

verus! {

/// The first non-zero exit code among the container results, in order, or
/// zero when every reported code is zero or absent.
pub open spec fn first_nonzero_exit(cs: Seq<ContainerResult>) -> int
    decreases cs.len(),
{
    if cs.len() == 0 {
        0
    } else if cs[0].exit_code matches Some(e) && e != 0 {
        cs[0].exit_code->0 as int
    } else {
        first_nonzero_exit(cs.skip(1))
    }
}

/// The process exit code a terminal task snapshot maps to: the first
/// container whose exit code is present and non-zero decides it; a task with
/// no containers or no non-zero codes maps to zero.
pub open spec fn exit_code_of(task: Task) -> int {
    match task.containers {
        None => 0,
        Some(cs) => first_nonzero_exit(cs@),
    }
}

/// Scans the task's per-container results for the first non-zero exit code.
#[verifier::loop_isolation(false)]
pub fn get_exit_code(task: &Task) -> (r: i64)
    ensures
        r == exit_code_of(*task),
{
    match &task.containers {
        None => 0,
        Some(cs) => {
            proof {
                assert(cs@.skip(0) =~= cs@);
            }
            let mut i: usize = 0;
            while i < cs.len()
                invariant
                    0 <= i <= cs.len(),
                    first_nonzero_exit(cs@) == first_nonzero_exit(cs@.skip(i as int)),
                decreases cs.len() - i,
            {
                match cs[i].exit_code {
                    Some(e) => {
                        if e != 0 {
                            proof {
                                assert(cs@.skip(i as int)[0] == cs@[i as int]);
                                assert(first_nonzero_exit(cs@.skip(i as int)) == e as int);
                            }
                            return e;
                        }
                    },
                    None => {},
                }
                proof {
                    assert(cs@.skip(i as int)[0] == cs@[i as int]);
                    assert(cs@.skip(i as int).skip(1) =~= cs@.skip(i + 1));
                }
                i = i + 1;
            }
            proof {
                assert(cs@.skip(i as int).len() == 0);
            }
            0
        },
    }
}

} // verus!
