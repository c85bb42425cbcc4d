//! How a module's exports and imports are described to the host.
use vstd::prelude::*;

use crate::values::ValKind;

verus! {

/// What an export or import of a module is, as the host describes it.
#[derive(Clone, Debug)]
pub enum ExternInfo {
    Function { params: Vec<ValKind>, results: Vec<ValKind> },
    Global { content: ValKind, mutable: bool },
    Table { element: ValKind, minimum: u32, maximum: Option<u32> },
    Memory { minimum: u64, maximum: Option<u64>, shared: bool },
}

/// Imports grouped by namespace: each distinct namespace once, and for each
/// import the position of its namespace among them.
pub struct NamespaceGroups {
    pub names: Vec<String>,
    pub slot: Vec<usize>,
}

/// Some import has namespace `name`.
pub open spec fn is_namespace_of(ns: Seq<String>, name: String) -> bool {
    exists|i: int| 0 <= i < ns.len() && ns[i]@ == name@
}

/// `g` groups the namespaces `ns` (one per import): its names are distinct,
/// each import's slot names its namespace, and each name belongs to an import.
pub open spec fn groups(ns: Seq<String>, g: NamespaceGroups) -> bool {
    &&& g.slot@.len() == ns.len()
    &&& forall|a: int, b: int|
        0 <= a < b < g.names@.len() ==> #[trigger] g.names@[a]@ != #[trigger] g.names@[b]@
    &&& forall|i: int|
        #![trigger g.slot@[i]]
        0 <= i < ns.len() ==> g.slot@[i] < g.names@.len() && g.names@[g.slot@[i] as int]@ == ns[i]@
    &&& forall|k: int| 0 <= k < g.names@.len() ==> is_namespace_of(ns, #[trigger] g.names@[k])
}

/// Groups imports by namespace, given the namespace of each import in order.
pub fn group_namespaces(namespaces: &Vec<String>) -> (r: NamespaceGroups)
    ensures
        groups(namespaces@, r),
{
    let mut names: Vec<String> = Vec::new();
    let mut slot: Vec<usize> = Vec::new();
    let mut i: usize = 0;
    while i < namespaces.len()
        invariant
            0 <= i <= namespaces@.len(),
            slot@.len() == i,
            names@.len() <= i,
            forall|a: int, b: int|
                0 <= a < b < names@.len() ==> #[trigger] names@[a]@ != #[trigger] names@[b]@,
            forall|j: int|
                #![trigger slot@[j]]
                0 <= j < i ==> slot@[j] < names@.len() && names@[slot@[j] as int]@ == namespaces@[j]@,
            forall|m: int|
                0 <= m < names@.len() ==> is_namespace_of(
                    namespaces@.subrange(0, i as int),
                    #[trigger] names@[m],
                ),
        decreases namespaces@.len() - i,
    {
        let mut k: usize = 0;
        while k < names.len() && !(names[k] == namespaces[i])
            invariant
                0 <= k <= names@.len(),
                i < namespaces@.len(),
                forall|m: int| 0 <= m < k ==> names@[m]@ != namespaces@[i as int]@,
            decreases names@.len() - k,
        {
            k += 1;
        }
        let found = k < names.len();
        let ghost old_names = names@;
        let ghost old_slot = slot@;
        if !found {
            names.push(namespaces[i].clone());
            k = names.len() - 1;
            assert forall|a: int, b: int| 0 <= a < b < names@.len() implies #[trigger] names@[a]@
                != #[trigger] names@[b]@ by {
                if b == names@.len() - 1 {
                    assert(names@[b] == namespaces@[i as int]);
                    assert(names@[a] == old_names[a]);
                } else {
                    assert(names@[a] == old_names[a] && names@[b] == old_names[b]);
                }
            }
        }
        slot.push(k);
        assert forall|j: int| #![trigger slot@[j]] 0 <= j < i + 1 implies slot@[j] < names@.len()
            && names@[slot@[j] as int]@ == namespaces@[j]@ by {
            if j < i {
                assert(old_slot[j] == slot@[j]);
            }
        }
        assert forall|m: int| 0 <= m < names@.len() implies is_namespace_of(
            namespaces@.subrange(0, i + 1),
            #[trigger] names@[m],
        ) by {
            let prefix = namespaces@.subrange(0, i + 1);
            if m < old_names.len() {
                assert(names@[m] == old_names[m]);
                let j = choose|j: int|
                    0 <= j < i && namespaces@.subrange(0, i as int)[j]@ == old_names[m]@;
                assert(prefix[j] == namespaces@[j]);
            } else {
                assert(prefix[i as int]@ == names@[m]@);
            }
        }
        i += 1;
    }
    assert(namespaces@.subrange(0, i as int) =~= namespaces@);
    let r = NamespaceGroups { names, slot };
    r
}

} // verus!
