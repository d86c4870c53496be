//! Finding the interface to configure among the kernel's links.

use vstd::prelude::*;
use crate::error::BootstrapError;
use crate::model::{links_view, Link, LinkRecord, NetworkInterfaceHandle};

verus! {

/// The link at position `i` is the first one named `name`.
pub open spec fn is_first_match(links: Seq<Link>, name: Seq<char>, i: int) -> bool {
    &&& 0 <= i < links.len()
    &&& links[i].name == name
    &&& forall|j: int| 0 <= j < i ==> (#[trigger] links[j]).name != name
}

/// No link is named `name`.
pub open spec fn no_match(links: Seq<Link>, name: Seq<char>) -> bool {
    forall|j: int| 0 <= j < links.len() ==> (#[trigger] links[j]).name != name
}

/// The kernel index of the first link named `name`, if there is one. The
/// name has to match exactly.
pub open spec fn lookup(links: Seq<Link>, name: Seq<char>) -> Option<u32>
    decreases links.len(),
{
    if links.len() == 0 {
        None
    } else if links[0].name == name {
        Some(links[0].index)
    } else {
        lookup(links.drop_first(), name)
    }
}

/// `lookup` gives the index of the first match.
pub proof fn lemma_lookup_first_match(links: Seq<Link>, name: Seq<char>, i: int)
    requires
        is_first_match(links, name, i),
    ensures
        lookup(links, name) == Some(links[i].index),
    decreases i,
{
    if i > 0 {
        lemma_lookup_first_match(links.drop_first(), name, i - 1);
    }
}

/// `lookup` gives nothing where no link matches.
pub proof fn lemma_lookup_no_match(links: Seq<Link>, name: Seq<char>)
    requires
        no_match(links, name),
    ensures
        lookup(links, name) is None,
    decreases links.len(),
{
    if links.len() > 0 {
        lemma_lookup_no_match(links.drop_first(), name);
    }
}

/// What `lookup` gives is the index of the first match, and it gives
/// nothing only where no link matches.
pub proof fn lemma_lookup_sound(links: Seq<Link>, name: Seq<char>)
    ensures
        lookup(links, name) matches Some(index) ==> exists|i: int|
            is_first_match(links, name, i) && #[trigger] links[i].index == index,
        lookup(links, name) is None ==> no_match(links, name),
    decreases links.len(),
{
    if links.len() > 0 && links[0].name != name {
        let rest = links.drop_first();
        lemma_lookup_sound(rest, name);
        if let Some(index) = lookup(rest, name) {
            let i = choose|i: int| is_first_match(rest, name, i) && #[trigger] rest[i].index == index;
            assert forall|j: int| 0 <= j < i + 1 implies (#[trigger] links[j]).name != name by {
                if j > 0 {
                    assert(rest[j - 1] == links[j]);
                }
            }
        } else {
            assert forall|j: int| 0 <= j < links.len() implies (#[trigger] links[j]).name
                != name by {
                if j > 0 {
                    assert(rest[j - 1] == links[j]);
                }
            }
        }
    }
}

/// Picks the interface named `name` from the kernel's answer to a link
/// query: the first link whose name is exactly `name`. Where there is none
/// the interface is absent, which is `ResourceNotFound`.
pub fn resolve(links: &Vec<LinkRecord>, name: &String) -> (found: Result<
    NetworkInterfaceHandle,
    BootstrapError,
>)
    ensures
        match found {
            Ok(handle) => {
                &&& lookup(links_view(links@), name@) == Some(handle@.index)
                &&& handle@.name == name@
                &&& exists|i: int|
                    is_first_match(links_view(links@), name@, i) && handle@.index
                        == #[trigger] links[i].index
            },
            Err(error) => {
                &&& error == BootstrapError::ResourceNotFound
                &&& lookup(links_view(links@), name@) is None
                &&& no_match(links_view(links@), name@)
            },
        },
{
    let ghost all = links_view(links@);
    let mut i: usize = 0;
    while i < links.len()
        invariant
            i <= links.len(),
            all == links_view(links@),
            forall|j: int| 0 <= j < i ==> (#[trigger] all[j]).name != name@,
        decreases links.len() - i,
    {
        if links[i].name == *name {
            proof {
                lemma_lookup_first_match(all, name@, i as int);
            }
            return Ok(NetworkInterfaceHandle::from_parts(name.clone(), links[i].index));
        }
        i += 1;
    }
    proof {
        lemma_lookup_no_match(all, name@);
    }
    Err(BootstrapError::ResourceNotFound)
}

} // verus!
