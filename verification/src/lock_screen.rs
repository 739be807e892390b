//! The lock windows of a break: one per display, named by a common prefix
//! and the display's number.

use crate::text::{decimal_chars, decimal_string, has_prefix, starts_with};
use vstd::prelude::*;

verus! {

/// The prefix of the name of every lock window.
pub const LOCK_PREFIX: &'static str = "lock-screen-";

/// The name of the lock window of display `index`.
pub fn lock_window_label(index: usize) -> (r: String)
    ensures
        r@ == LOCK_PREFIX@ + decimal_chars(index as nat),
{
    let mut s = String::from_str(LOCK_PREFIX);
    s.append(decimal_string(index as u64).as_str());
    s
}

/// Whether a window is a lock window.
pub fn is_lock_window_label(label: &str) -> (r: bool)
    ensures
        r == has_prefix(label@, LOCK_PREFIX@),
{
    starts_with(label, LOCK_PREFIX)
}

/// The lock windows among `labels`, in their order.
pub open spec fn lock_labels_spec(labels: Seq<Seq<char>>) -> Seq<Seq<char>>
    decreases labels.len(),
{
    if labels.len() == 0 {
        Seq::empty()
    } else {
        let before = lock_labels_spec(labels.drop_last());
        if has_prefix(labels.last(), LOCK_PREFIX@) {
            before.push(labels.last())
        } else {
            before
        }
    }
}

/// The lock windows among the open windows `labels`, in their order: the
/// windows to close when a break ends.
pub fn lock_window_labels(labels: &Vec<String>) -> (r: Vec<String>)
    ensures
        r@.map_values(|s: String| s@) == lock_labels_spec(labels@.map_values(|s: String| s@)),
{
    let ghost all = labels@.map_values(|s: String| s@);
    let mut r: Vec<String> = Vec::new();
    let mut i: usize = 0;
    assert(all.take(0) =~= Seq::<Seq<char>>::empty());
    assert(r@.map_values(|s: String| s@) =~= Seq::<Seq<char>>::empty());
    while i < labels.len()
        invariant
            i <= labels@.len(),
            all == labels@.map_values(|s: String| s@),
            r@.map_values(|s: String| s@) == lock_labels_spec(all.take(i as int)),
        decreases labels@.len() - i,
    {
        let label = &labels[i];
        assert(all.take(i as int + 1).drop_last() =~= all.take(i as int));
        assert(all.take(i as int + 1).last() == label@);
        let ghost before = r@;
        if is_lock_window_label(label.as_str()) {
            r.push(label.clone());
            assert(r@.map_values(|s: String| s@) =~= before.map_values(|s: String| s@).push(
                label@,
            ));
        }
        i = i + 1;
    }
    assert(all.take(i as int) =~= all);
    r
}

/// The name given to the lock window of a display marks it as a lock
/// window.
pub proof fn lemma_lock_label_recognized(index: usize)
    ensures
        has_prefix(LOCK_PREFIX@ + decimal_chars(index as nat), LOCK_PREFIX@),
{
    let s = LOCK_PREFIX@ + decimal_chars(index as nat);
    assert(s.take(LOCK_PREFIX@.len() as int) =~= LOCK_PREFIX@);
}

} // verus!
