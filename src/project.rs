use vstd::prelude::*;

verus! {

/// What an ancestor directory holds: a `.buckroot`, a `.buckconfig`.
#[derive(Clone, Copy, Debug, PartialEq, Eq, Structural)]
pub struct RootMarkers {
    pub has_buckroot: bool,
    pub has_buckconfig: bool,
}

/// The project root among the ancestors `ms` (the current directory first,
/// then each parent): the nearest one with a `.buckroot`, which stops the
/// search; failing that, the furthest one with a `.buckconfig`.
pub open spec fn is_project_root(ms: Seq<RootMarkers>, i: int) -> bool {
    0 <= i < ms.len() && (
        (ms[i].has_buckroot && forall|j: int| 0 <= j < i ==> !ms[j].has_buckroot)
        || ((forall|j: int| 0 <= j < ms.len() ==> !ms[j].has_buckroot)
            && ms[i].has_buckconfig
            && forall|j: int| i < j < ms.len() ==> !ms[j].has_buckconfig)
    )
}

pub open spec fn has_no_root(ms: Seq<RootMarkers>) -> bool {
    forall|j: int| 0 <= j < ms.len() ==> !ms[j].has_buckroot && !ms[j].has_buckconfig
}

/// Finds the project root: the index of the ancestor that is the root.
pub fn project_root_index(markers: &Vec<RootMarkers>) -> (r: Option<usize>)
    ensures
        match r {
            Some(i) => is_project_root(markers@, i as int),
            None => has_no_root(markers@),
        },
{
    let mut current: Option<usize> = None;
    let mut i: usize = 0;
    while i < markers.len()
        invariant
            i <= markers@.len(),
            forall|j: int| 0 <= j < i ==> !markers@[j].has_buckroot,
            match current {
                Some(c) => c < i && markers@[c as int].has_buckconfig
                    && forall|j: int| c < j < i ==> !markers@[j].has_buckconfig,
                None => forall|j: int| 0 <= j < i ==> !markers@[j].has_buckconfig,
            },
        decreases markers@.len() - i,
    {
        if markers[i].has_buckroot {
            return Some(i);
        }
        if markers[i].has_buckconfig {
            current = Some(i);
        }
        i += 1;
    }
    current
}

} // verus!
