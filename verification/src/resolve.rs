//! Composite resolution: translating a human-supplied nickname into the
//! stable identifier of one child of a strip or hub.
//!
//! Matching is exact, case-sensitive string equality over one enumerated
//! snapshot; the first matching descriptor wins when nicknames repeat. A
//! nickname that matches nothing is a `ChildNotFound` error naming the
//! nickname and the endpoint — never a silent no-op.

use vstd::prelude::*;

use crate::device::{ChildDescriptor, Endpoint, Target};
use crate::error::CommandError;
use crate::handle::DeviceHandle;

verus! {

/// The first descriptor at or after position `i` whose nickname equals
/// `nickname` exactly.
pub open spec fn first_match_from(
    children: Seq<ChildDescriptor>,
    nickname: Seq<char>,
    i: int,
) -> Option<ChildDescriptor>
    decreases children.len() - i,
{
    if i < 0 || i >= children.len() {
        None
    } else if children[i].nickname@ == nickname {
        Some(children[i])
    } else {
        first_match_from(children, nickname, i + 1)
    }
}

/// The first descriptor in the enumerated order whose nickname equals
/// `nickname` exactly, if any.
pub open spec fn first_match(children: Seq<ChildDescriptor>, nickname: Seq<char>) -> Option<
    ChildDescriptor,
> {
    first_match_from(children, nickname, 0)
}

proof fn lemma_first_match_from_earliest(
    children: Seq<ChildDescriptor>,
    nickname: Seq<char>,
    i: int,
)
    requires
        0 <= i <= children.len(),
    ensures
        first_match_from(children, nickname, i) matches Some(d) ==> exists|k: int|
            i <= k < children.len() && children[k] == d && children[k].nickname@ == nickname
                && (forall|j: int| i <= j < k ==> #[trigger] children[j].nickname@ != nickname),
        first_match_from(children, nickname, i) is None ==> forall|k: int|
            i <= k < children.len() ==> #[trigger] children[k].nickname@ != nickname,
    decreases children.len() - i,
{
    if i < children.len() {
        if children[i].nickname@ == nickname {
        } else {
            lemma_first_match_from_earliest(children, nickname, i + 1);
            if first_match_from(children, nickname, i + 1) is Some {
                let d = first_match_from(children, nickname, i + 1).unwrap();
                let k = choose|k: int|
                    i + 1 <= k < children.len() && children[k] == d && children[k].nickname@
                        == nickname && (forall|j: int|
                        i + 1 <= j < k ==> #[trigger] children[j].nickname@ != nickname);
                assert(forall|j: int| i <= j < k ==> #[trigger] children[j].nickname@ != nickname);
            }
        }
    }
}

/// First match wins, and only an exact match wins: a `Some` result is the
/// matching descriptor with the smallest index, and a `None` result means no
/// descriptor in the snapshot carries the nickname.
pub proof fn lemma_first_match_earliest(children: Seq<ChildDescriptor>, nickname: Seq<char>)
    ensures
        first_match(children, nickname) matches Some(d) ==> exists|k: int|
            0 <= k < children.len() && children[k] == d && children[k].nickname@ == nickname && (
            forall|j: int| 0 <= j < k ==> #[trigger] children[j].nickname@ != nickname),
        first_match(children, nickname) is None ==> forall|k: int|
            0 <= k < children.len() ==> #[trigger] children[k].nickname@ != nickname,
{
    lemma_first_match_from_earliest(children, nickname, 0);
}

/// Scan one enumerated snapshot for the first child whose nickname matches
/// exactly, and hand back its position. No match is a `ChildNotFound` naming
/// the requested nickname and the endpoint it was requested of.
pub fn resolve_child_index(
    children: &Vec<ChildDescriptor>,
    nickname: &String,
    endpoint: &Endpoint,
) -> (r: Result<usize, CommandError>)
    ensures
        match r {
            Ok(i) => 0 <= i < children@.len() && first_match(children@, nickname@) == Some(
                children@[i as int],
            ),
            Err(e) => first_match(children@, nickname@) is None && (e matches
                CommandError::ChildNotFound { nickname: n, address: a } && n@ == nickname@ && a@
                == endpoint.address@),
        },
{
    let mut i: usize = 0;
    while i < children.len()
        invariant
            0 <= i <= children@.len(),
            first_match(children@, nickname@) == first_match_from(children@, nickname@, i as int),
        decreases children@.len() - i,
    {
        if children[i].nickname == *nickname {
            return Ok(i);
        }
        i = i + 1;
    }
    Err(
        CommandError::ChildNotFound {
            nickname: nickname.clone(),
            address: endpoint.address.clone(),
        },
    )
}

/// Resolve a nickname to a command target scoped to the child's stable
/// identifier — not its nickname, so the target stays correct if the child is
/// renamed before a retried command.
pub fn resolve_child_target(
    children: &Vec<ChildDescriptor>,
    nickname: &String,
    endpoint: &Endpoint,
) -> (r: Result<Target, CommandError>)
    ensures
        match r {
            Ok(t) => first_match(children@, nickname@) matches Some(d) && t == Target::Child(d.id),
            Err(e) => first_match(children@, nickname@) is None && (e matches
                CommandError::ChildNotFound { nickname: n, address: a } && n@ == nickname@ && a@
                == endpoint.address@),
        },
{
    match resolve_child_index(children, nickname, endpoint) {
        Ok(i) => Ok(Target::Child(children[i].id)),
        Err(e) => Err(e),
    }
}

/// Resolve a nickname to a device handle on the same endpoint, scoped to the
/// first matching child's stable identifier, for the caller to invoke power,
/// reboot or info on.
pub fn resolve_child_handle(
    children: &Vec<ChildDescriptor>,
    nickname: &String,
    endpoint: &Endpoint,
) -> (r: Result<DeviceHandle, CommandError>)
    ensures
        match r {
            Ok(h) => h.endpoint == *endpoint && (first_match(children@, nickname@) matches Some(d)
                && h.target == Target::Child(d.id)),
            Err(e) => first_match(children@, nickname@) is None && (e matches
                CommandError::ChildNotFound { nickname: n, address: a } && n@ == nickname@ && a@
                == endpoint.address@),
        },
{
    match resolve_child_index(children, nickname, endpoint) {
        Ok(i) => Ok(
            DeviceHandle {
                endpoint: Endpoint { address: endpoint.address.clone(), kind: endpoint.kind },
                target: Target::Child(children[i].id),
            },
        ),
        Err(e) => Err(e),
    }
}

} // verus!
