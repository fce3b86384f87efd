//! Session setup: translating the filter list comes first, and only a
//! successful translation yields an enumerator — so no watch can be created
//! once a filter token is refused.

use vstd::prelude::*;

use crate::enumerate::Enumerator;
use crate::errors::WatchError;
use crate::mask::{all_recognized, first_bad, masks_of, or_all, translate, DEFAULT_MASK};

verus! {

/// Translate the filter list and, only on success, hand out the session
/// mask together with a fresh enumerator over the input paths; its registry
/// starts empty, so a refused token leaves no way to create a watch.
pub fn configure(events: &Vec<String>, roots: Vec<String>, recursive: bool) -> (r: Result<
    (u32, Enumerator),
    WatchError,
>)
    ensures
        r is Ok <==> all_recognized(events.deep_view()),
        r matches Ok(p) ==> {
            &&& p.0 == (if events.deep_view().len() == 0 {
                DEFAULT_MASK
            } else {
                or_all(masks_of(events.deep_view()))
            })
            &&& p.1.registry@ == Map::<u64, Seq<char>>::empty()
            &&& p.1.pending == roots
            &&& p.1.recursive == recursive
            &&& p.1.phase is Ready
        },
        r matches Err(e) ==> {
            let evs = events.deep_view();
            &&& e matches WatchError::Configuration { token }
            &&& token@ == evs[first_bad(evs)]
            &&& 0 <= first_bad(evs) < evs.len()
        },
{
    let mask = match translate(events) {
        Ok(m) => m,
        Err(e) => {
            return Err(e);
        },
    };
    let en = Enumerator::new(roots, recursive);
    Ok((mask, en))
}

} // verus!
