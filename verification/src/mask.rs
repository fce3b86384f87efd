//! Translation of human-readable event-filter tokens into the native event
//! bitmask of the change-notification facility.
//!
//! The bit values are the facility's native constants; a test holds them
//! against the notification crate's own mask type. Composition is pure
//! bitwise OR, so the result is independent of token order; that law is
//! proved below as `lemma_translate_order_independent`.

use vstd::prelude::*;

use crate::errors::WatchError;

verus! {

pub const ACCESS: u32 = 0x0001;
pub const MODIFY: u32 = 0x0002;
pub const ATTRIB: u32 = 0x0004;
pub const CLOSE_WRITE: u32 = 0x0008;
pub const CLOSE_NOWRITE: u32 = 0x0010;
pub const OPEN: u32 = 0x0020;
pub const MOVED_FROM: u32 = 0x0040;
pub const MOVED_TO: u32 = 0x0080;
pub const CREATE: u32 = 0x0100;
pub const DELETE: u32 = 0x0200;
pub const DELETE_SELF: u32 = 0x0400;
pub const MOVE_SELF: u32 = 0x0800;

/// `close` selects both close kinds at once.
pub const CLOSE: u32 = CLOSE_WRITE | CLOSE_NOWRITE;

/// `move` selects both move kinds at once.
pub const MOVE: u32 = MOVED_FROM | MOVED_TO;

/// The full default set used when no filter is given: access, attrib, both
/// close kinds, create, delete, delete_self, modify, both move kinds,
/// move_self and open.
pub const DEFAULT_MASK: u32 = ACCESS | ATTRIB | CLOSE_NOWRITE | CLOSE_WRITE | CREATE | DELETE
    | DELETE_SELF | MODIFY | MOVED_FROM | MOVED_TO | MOVE_SELF | OPEN;

/// The mask one recognized token selects; `None` for an unrecognized token.
pub open spec fn token_mask(t: Seq<char>) -> Option<u32> {
    if t == "access"@ {
        Some(ACCESS)
    } else if t == "modify"@ {
        Some(MODIFY)
    } else if t == "attrib"@ {
        Some(ATTRIB)
    } else if t == "close_write"@ {
        Some(CLOSE_WRITE)
    } else if t == "close_nowrite"@ {
        Some(CLOSE_NOWRITE)
    } else if t == "close"@ {
        Some(CLOSE)
    } else if t == "open"@ {
        Some(OPEN)
    } else if t == "moved_to"@ {
        Some(MOVED_TO)
    } else if t == "moved_from"@ {
        Some(MOVED_FROM)
    } else if t == "move"@ {
        Some(MOVE)
    } else if t == "moved_self"@ {
        Some(MOVE_SELF)
    } else if t == "create"@ {
        Some(CREATE)
    } else if t == "delete"@ {
        Some(DELETE)
    } else if t == "delete_self"@ {
        Some(DELETE_SELF)
    } else {
        None
    }
}

/// Every token of the filter list is in the recognized set.
pub open spec fn all_recognized(evs: Seq<Seq<char>>) -> bool {
    forall|i: int| 0 <= i < evs.len() ==> (#[trigger] token_mask(evs[i])) is Some
}

/// The masks of a list of recognized tokens, in list order.
pub open spec fn masks_of(evs: Seq<Seq<char>>) -> Seq<u32> {
    Seq::new(evs.len(), |i: int| token_mask(evs[i]).unwrap())
}

/// Bitwise OR of a sequence of masks, folded in list order.
pub open spec fn or_all(masks: Seq<u32>) -> u32
    decreases masks.len(),
{
    if masks.len() == 0 {
        0u32
    } else {
        or_all(masks.drop_last()) | masks.last()
    }
}

/// Index of the first unrecognized token (the list length if there is none).
pub open spec fn first_bad(evs: Seq<Seq<char>>) -> int
    decreases evs.len(),
{
    if evs.len() == 0 {
        0
    } else if token_mask(evs[0]) is None {
        0
    } else {
        1 + first_bad(evs.drop_first())
    }
}

fn str_eq(t: &String, lit: &str) -> (r: bool)
    ensures
        r == (t@ == lit@),
{
    *t == String::from_str(lit)
}

/// The mask one token selects, or `None` for an unrecognized token.
pub fn token_to_mask(t: &String) -> (r: Option<u32>)
    ensures
        r == token_mask(t@),
{
    if str_eq(t, "access") {
        Some(ACCESS)
    } else if str_eq(t, "modify") {
        Some(MODIFY)
    } else if str_eq(t, "attrib") {
        Some(ATTRIB)
    } else if str_eq(t, "close_write") {
        Some(CLOSE_WRITE)
    } else if str_eq(t, "close_nowrite") {
        Some(CLOSE_NOWRITE)
    } else if str_eq(t, "close") {
        Some(CLOSE)
    } else if str_eq(t, "open") {
        Some(OPEN)
    } else if str_eq(t, "moved_to") {
        Some(MOVED_TO)
    } else if str_eq(t, "moved_from") {
        Some(MOVED_FROM)
    } else if str_eq(t, "move") {
        Some(MOVE)
    } else if str_eq(t, "moved_self") {
        Some(MOVE_SELF)
    } else if str_eq(t, "create") {
        Some(CREATE)
    } else if str_eq(t, "delete") {
        Some(DELETE)
    } else if str_eq(t, "delete_self") {
        Some(DELETE_SELF)
    } else {
        None
    }
}

proof fn lemma_first_bad_at(evs: Seq<Seq<char>>, k: int)
    requires
        0 <= k < evs.len(),
        forall|j: int| 0 <= j < k ==> (#[trigger] token_mask(evs[j])) is Some,
        token_mask(evs[k]) is None,
    ensures
        first_bad(evs) == k,
    decreases k,
{
    if k == 0 {
    } else {
        lemma_first_bad_at(evs.drop_first(), k - 1);
    }
}

/// Translate an event-filter list into the session's event mask.
///
/// An empty list selects the full default set. A non-empty list of
/// recognized tokens yields the OR of the tokens' masks. The first
/// unrecognized token fails the whole translation, before any watch is
/// created.
pub fn translate(events: &Vec<String>) -> (r: Result<u32, WatchError>)
    ensures
        r is Ok <==> all_recognized(events.deep_view()),
        events.deep_view().len() == 0 ==> r == Ok::<u32, WatchError>(DEFAULT_MASK),
        (r is Ok && events.deep_view().len() > 0) ==> r == Ok::<u32, WatchError>(
            or_all(masks_of(events.deep_view())),
        ),
        r matches Err(e) ==> {
            let evs = events.deep_view();
            &&& e matches WatchError::Configuration { token }
            &&& token@ == evs[first_bad(evs)]
            &&& 0 <= first_bad(evs) < evs.len()
        },
{
    let ghost evs = events.deep_view();
    if events.len() == 0 {
        return Ok(DEFAULT_MASK);
    }
    let mut flags: u32 = 0;
    let mut k: usize = 0;
    while k < events.len()
        invariant
            evs == events.deep_view(),
            evs.len() == events@.len(),
            0 <= k <= evs.len(),
            forall|j: int| 0 <= j < k ==> (#[trigger] token_mask(evs[j])) is Some,
            flags == or_all(masks_of(evs.take(k as int))),
        decreases events@.len() - k,
    {
        assert(evs[k as int] == events@[k as int]@);
        match token_to_mask(&events[k]) {
            Some(m) => {
                proof {
                    let pre = masks_of(evs.take(k as int));
                    let post = masks_of(evs.take(k + 1 as int));
                    assert(post.drop_last() =~= pre);
                    assert(post.last() == m);
                }
                flags = flags | m;
            },
            None => {
                proof {
                    lemma_first_bad_at(evs, k as int);
                }
                return Err(WatchError::Configuration { token: events[k].clone() });
            },
        }
        k = k + 1;
    }
    proof {
        assert(evs.take(evs.len() as int) =~= evs);
    }
    Ok(flags)
}

/// OR-folding a sequence of masks is insensitive to removing one element
/// and OR-ing it back on.
proof fn lemma_or_all_remove(s: Seq<u32>, i: int)
    requires
        0 <= i < s.len(),
    ensures
        or_all(s) == or_all(s.remove(i)) | s[i],
    decreases s.len(),
{
    if i == s.len() - 1 {
        assert(s.remove(i) =~= s.drop_last());
    } else {
        let sdl = s.drop_last();
        lemma_or_all_remove(sdl, i);
        assert(s.remove(i).drop_last() =~= sdl.remove(i));
        assert(s.remove(i).last() == s.last());
        let p = or_all(sdl.remove(i));
        let q = s[i];
        let r = s.last();
        assert((p | q) | r == (p | r) | q) by (bit_vector);
    }
}

/// Law: the translated mask does not depend on the order of the filter
/// tokens. Two filter lists holding the same tokens (as a multiset) are
/// either both recognized or both not, and when recognized they compose to
/// the same mask.
pub proof fn lemma_translate_order_independent(a: Seq<Seq<char>>, b: Seq<Seq<char>>)
    requires
        a.to_multiset() == b.to_multiset(),
        all_recognized(a),
    ensures
        all_recognized(b),
        or_all(masks_of(a)) == or_all(masks_of(b)),
    decreases a.len(),
{
    broadcast use vstd::seq_lib::group_to_multiset_ensures;

    assert(all_recognized(b)) by {
        assert forall|i: int| 0 <= i < b.len() implies (#[trigger] token_mask(b[i])) is Some by {
            assert(b.contains(b[i]));
            assert(b.to_multiset().count(b[i]) > 0);
            assert(a.contains(b[i]));
            let j = choose|j: int| 0 <= j < a.len() && a[j] == b[i];
            assert(token_mask(a[j]) is Some);
        }
    }
    if a.len() == 0 {
        assert(a.to_multiset().len() == 0);
        assert(b.len() == 0);
        assert(masks_of(a) =~= masks_of(b));
    } else {
        let x = a.last();
        assert(a.contains(x));
        assert(b.to_multiset().count(x) > 0);
        assert(b.contains(x));
        let j = choose|j: int| 0 <= j < b.len() && b[j] == x;
        let a1 = a.drop_last();
        let b1 = b.remove(j);
        assert(a1 =~= a.remove(a.len() - 1));
        assert(a1.to_multiset() =~= a.to_multiset().remove(x));
        assert(b1.to_multiset() =~= b.to_multiset().remove(x));
        assert(a1.to_multiset() == b1.to_multiset());
        assert(forall|i: int| 0 <= i < a1.len() ==> a1[i] == a[i]);
        assert(all_recognized(a1));
        lemma_translate_order_independent(a1, b1);
        assert(masks_of(a).drop_last() =~= masks_of(a1));
        assert(masks_of(a).last() == token_mask(x).unwrap());
        lemma_or_all_remove(masks_of(b), j);
        assert(masks_of(b).remove(j) =~= masks_of(b1));
        assert(masks_of(b)[j] == token_mask(x).unwrap());
    }
}

/// Law: repeating a token that the filter list already holds leaves the
/// composed mask unchanged.
pub proof fn lemma_translate_duplicate_token(a: Seq<Seq<char>>, i: int)
    requires
        0 <= i < a.len(),
        all_recognized(a),
    ensures
        all_recognized(a.push(a[i])),
        or_all(masks_of(a.push(a[i]))) == or_all(masks_of(a)),
{
    let b = a.push(a[i]);
    assert(all_recognized(b)) by {
        assert forall|j: int| 0 <= j < b.len() implies (#[trigger] token_mask(b[j])) is Some by {
            if j < a.len() {
                assert(b[j] == a[j]);
            } else {
                assert(b[j] == a[i]);
            }
        }
    }
    let m = masks_of(a);
    assert(masks_of(b).drop_last() =~= m);
    assert(masks_of(b).last() == token_mask(a[i]).unwrap());
    lemma_or_all_remove(m, i);
    let p = or_all(m.remove(i));
    let q = m[i];
    assert((p | q) | q == p | q) by (bit_vector);
}

} // verus!

