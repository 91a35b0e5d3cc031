//! The container selector: a run must bind to exactly one target container,
//! never zero or many ambiguous matches.

use vstd::prelude::*;
use crate::model::ContainerDefinition;
use crate::model::RunError;
use crate::model::TaskDefinition;

verus! {

/// Whether a container definition carries exactly the name `n`.
pub open spec fn name_matches(cd: ContainerDefinition, n: Seq<char>) -> bool {
    cd.name matches Some(m) && m@ == n
}

/// Whether some container in the list carries the name `n`.
pub open spec fn has_container_named(cds: Seq<ContainerDefinition>, n: Seq<char>) -> bool {
    exists|i: int| 0 <= i < cds.len() && name_matches(#[trigger] cds[i], n)
}

/// Picks the container a run targets. With a requested name, the first
/// container carrying exactly that name; without one, the single container of
/// the task definition. Anything else is an error: an unknown name is
/// `NotFound`, and zero or several containers with no name requested is
/// `AmbiguousContainer`.
#[verifier::loop_isolation(false)]
pub fn select_container(td: TaskDefinition, requested: Option<&String>) -> (r: Result<
    ContainerDefinition,
    RunError,
>)
    ensures
        match requested {
            Some(n) => if has_container_named(td.container_definitions@, n@) {
                r matches Ok(c) && exists|i: int|
                    0 <= i < td.container_definitions@.len() && name_matches(
                        #[trigger] td.container_definitions@[i],
                        n@,
                    ) && c == td.container_definitions@[i] && (forall|j: int|
                        0 <= j < i ==> !name_matches(td.container_definitions@[j], n@))
            } else {
                r matches Err(RunError::NotFound(m)) && m@ == "container "@ + n@
            },
            None => if td.container_definitions@.len() == 1 {
                r matches Ok(c) && c == td.container_definitions@[0]
            } else {
                r matches Err(RunError::AmbiguousContainer)
            },
        },
{
    let mut cds = td.container_definitions;
    match requested {
        Some(n) => {
            let ghost cds0 = cds@;
            let mut i: usize = 0;
            while i < cds.len()
                invariant
                    0 <= i <= cds.len(),
                    cds@ == cds0,
                    forall|j: int| 0 <= j < i ==> !name_matches(cds0[j], n@),
                decreases cds.len() - i,
            {
                let found = match &cds[i].name {
                    Some(m) => *m == *n,
                    None => false,
                };
                if found {
                    proof {
                        assert(name_matches(cds0[i as int], n@));
                        assert(has_container_named(cds0, n@));
                    }
                    let c = cds.remove(i);
                    return Ok(c);
                }
                proof {
                    assert(!name_matches(cds0[i as int], n@));
                }
                i = i + 1;
            }
            let mut m = "container ".to_owned();
            m.append(n.as_str());
            Err(RunError::NotFound(m))
        },
        None => {
            if cds.len() == 1 {
                Ok(cds.remove(0))
            } else {
                Err(RunError::AmbiguousContainer)
            }
        },
    }
}

} // verus!
