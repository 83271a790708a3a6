use vstd::prelude::*;
use crate::text::{opt_view, strings_view};

verus! {

/// Position of the first occurrence of `s` in `items` at or after `start`,
/// or 0 when there is none.
pub open spec fn index_from(items: Seq<Seq<char>>, s: Seq<char>, start: int) -> int
    decreases items.len() - start,
{
    if start < 0 || start >= items.len() {
        0
    } else if items[start] == s {
        start
    } else {
        index_from(items, s, start + 1)
    }
}

/// Position of the selection in the ring: the first occurrence of the selected
/// item, or 0 when nothing is selected or the selection is no longer present.
pub open spec fn current_index_of(items: Seq<Seq<char>>, selected: Option<Seq<char>>) -> int {
    match selected {
        Some(s) => index_from(items, s, 0),
        None => 0,
    }
}

/// The selection after moving one step forward, wrapping from last to first.
pub open spec fn next_selection(items: Seq<Seq<char>>, selected: Option<Seq<char>>) -> Option<Seq<char>> {
    if items.len() == 0 {
        selected
    } else {
        Some(items[(current_index_of(items, selected) + 1) % (items.len() as int)])
    }
}

/// The selection after moving one step back, wrapping from first to last.
pub open spec fn previous_selection(items: Seq<Seq<char>>, selected: Option<Seq<char>>) -> Option<Seq<char>> {
    if items.len() == 0 {
        selected
    } else {
        let i = current_index_of(items, selected);
        Some(items[if i == 0 { items.len() - 1 } else { i - 1 }])
    }
}

/// The selection after `k` steps forward.
pub open spec fn next_times(items: Seq<Seq<char>>, selected: Option<Seq<char>>, k: nat) -> Option<Seq<char>>
    decreases k,
{
    if k == 0 {
        selected
    } else {
        next_selection(items, next_times(items, selected, (k - 1) as nat))
    }
}

/// A ring is well formed when it has a selection exactly when it has items,
/// and the selection is one of its items.
pub open spec fn ring_wf(items: Seq<Seq<char>>, selected: Option<Seq<char>>) -> bool {
    match selected {
        Some(s) => items.contains(s),
        None => items.len() == 0,
    }
}

proof fn lemma_index_from_in_range(items: Seq<Seq<char>>, s: Seq<char>, start: int)
    requires
        items.len() > 0,
    ensures
        0 <= index_from(items, s, start) < items.len(),
    decreases items.len() - start,
{
    if 0 <= start < items.len() && items[start] != s {
        lemma_index_from_in_range(items, s, start + 1);
    }
}

/// The current index is a valid position of a non-empty ring.
pub proof fn lemma_current_index_in_range(items: Seq<Seq<char>>, selected: Option<Seq<char>>)
    ensures
        items.len() > 0 ==> 0 <= current_index_of(items, selected) < items.len(),
        items.len() == 0 ==> current_index_of(items, selected) == 0,
{
    if let Some(s) = selected {
        if items.len() > 0 {
            lemma_index_from_in_range(items, s, 0);
        }
    }
}

proof fn lemma_index_from_item(items: Seq<Seq<char>>, i: int, start: int)
    requires
        items.no_duplicates(),
        0 <= start <= i < items.len(),
    ensures
        index_from(items, items[i], start) == i,
    decreases i - start,
{
    if start < i {
        assert(items[start] != items[i]);
        lemma_index_from_item(items, i, start + 1);
    }
}

/// In a ring without duplicates, the item at position `i` has index `i`.
pub proof fn lemma_index_of_item(items: Seq<Seq<char>>, i: int)
    requires
        items.no_duplicates(),
        0 <= i < items.len(),
    ensures
        current_index_of(items, Some(items[i])) == i,
{
    lemma_index_from_item(items, i, 0);
}

proof fn lemma_succ_mod(i: int, n: int)
    requires
        0 <= i < n,
    ensures
        (i + 1) % n == if i + 1 < n { i + 1 } else { 0 },
{
    if i + 1 < n {
        vstd::arithmetic::div_mod::lemma_small_mod((i + 1) as nat, n as nat);
    } else {
        vstd::arithmetic::div_mod::lemma_mod_self_0(n);
    }
}

/// Position of the selection of a well-formed ring without duplicates.
proof fn lemma_selected_index(items: Seq<Seq<char>>, selected: Option<Seq<char>>) -> (i: int)
    requires
        ring_wf(items, selected),
        items.no_duplicates(),
        items.len() > 0,
    ensures
        0 <= i < items.len(),
        selected == Some(items[i]),
        current_index_of(items, selected) == i,
{
    let s = selected.unwrap();
    let i = choose|i: int| 0 <= i < items.len() && items[i] == s;
    lemma_index_of_item(items, i);
    i
}

/// In a well-formed ring without duplicates, a step forward followed by a
/// step back, or a step back followed by a step forward, restores the
/// selection.
pub proof fn lemma_next_previous_inverse(items: Seq<Seq<char>>, selected: Option<Seq<char>>)
    requires
        ring_wf(items, selected),
        items.no_duplicates(),
    ensures
        previous_selection(items, next_selection(items, selected)) == selected,
        next_selection(items, previous_selection(items, selected)) == selected,
{
    if items.len() > 0 {
        let n = items.len() as int;
        let i = lemma_selected_index(items, selected);
        lemma_succ_mod(i, n);
        let k = (i + 1) % n;
        lemma_index_of_item(items, k);
        let p = if i == 0 { n - 1 } else { i - 1 };
        lemma_index_of_item(items, p);
        lemma_succ_mod(p, n);
    }
}

/// After `k` steps forward from position `i`, with `k` at most the ring's
/// length, the selection is the item at `(i + k) mod len`.
proof fn lemma_next_times_index(items: Seq<Seq<char>>, i: int, k: nat)
    requires
        items.no_duplicates(),
        0 <= i < items.len(),
        k <= items.len(),
    ensures
        next_times(items, Some(items[i]), k) == Some(
            items[if i + k < items.len() { i + k } else { i + k - items.len() }],
        ),
    decreases k,
{
    if k > 0 {
        let n = items.len() as int;
        lemma_next_times_index(items, i, (k - 1) as nat);
        let j = if i + k - 1 < n { i + k - 1 } else { i + k - 1 - n };
        lemma_index_of_item(items, j);
        lemma_succ_mod(j, n);
    }
}

/// In a well-formed ring without duplicates, as many steps forward as there
/// are items restore the selection; in an empty ring both steps keep the
/// selection empty.
pub proof fn lemma_full_cycle(items: Seq<Seq<char>>, selected: Option<Seq<char>>)
    requires
        ring_wf(items, selected),
        items.no_duplicates(),
    ensures
        next_times(items, selected, items.len()) == selected,
        items.len() == 0 ==> next_selection(items, selected) is None
            && previous_selection(items, selected) is None,
{
    if items.len() > 0 {
        let i = lemma_selected_index(items, selected);
        lemma_next_times_index(items, i, items.len());
    }
}

/// Either step keeps a well-formed ring well formed.
pub proof fn lemma_steps_keep_wf(items: Seq<Seq<char>>, selected: Option<Seq<char>>)
    requires
        ring_wf(items, selected),
    ensures
        ring_wf(items, next_selection(items, selected)),
        ring_wf(items, previous_selection(items, selected)),
{
    if items.len() > 0 {
        let n = items.len() as int;
        lemma_current_index_in_range(items, selected);
        let i = current_index_of(items, selected);
        lemma_succ_mod(i, n);
        assert(items.contains(items[(i + 1) % n]));
        let p = if i == 0 { n - 1 } else { i - 1 };
        assert(items.contains(items[p]));
    }
}

/// `items` followed by each item of `extra` that is not yet present, in order.
pub open spec fn append_new(items: Seq<Seq<char>>, extra: Seq<Seq<char>>) -> Seq<Seq<char>>
    decreases extra.len(),
{
    if extra.len() == 0 {
        items
    } else {
        let before = append_new(items, extra.drop_last());
        if before.contains(extra.last()) {
            before
        } else {
            before.push(extra.last())
        }
    }
}

/// Appending only what is not yet present keeps a list free of duplicates.
pub proof fn lemma_append_new_no_duplicates(items: Seq<Seq<char>>, extra: Seq<Seq<char>>)
    requires
        items.no_duplicates(),
    ensures
        append_new(items, extra).no_duplicates(),
    decreases extra.len(),
{
    if extra.len() > 0 {
        lemma_append_new_no_duplicates(items, extra.drop_last());
        let before = append_new(items, extra.drop_last());
        if !before.contains(extra.last()) {
            let after = before.push(extra.last());
            assert forall|i: int, j: int| 0 <= i < after.len() && 0 <= j < after.len() && i != j
                implies after[i] != after[j] by {
                if i < before.len() && j < before.len() {
                } else if i == before.len() {
                    assert(before.contains(before[j]));
                } else {
                    assert(before.contains(before[i]));
                }
            }
        }
    }
}

/// Appending keeps what was there at the front.
pub proof fn lemma_append_new_grows(items: Seq<Seq<char>>, extra: Seq<Seq<char>>)
    ensures
        append_new(items, extra).len() >= items.len(),
        forall|i: int| 0 <= i < items.len() ==> append_new(items, extra)[i] == items[i],
    decreases extra.len(),
{
    if extra.len() > 0 {
        lemma_append_new_grows(items, extra.drop_last());
    }
}

/// Whether `v` holds a string equal to `s`.
pub fn contains_string(v: &Vec<String>, s: &String) -> (r: bool)
    ensures
        r == strings_view(v@).contains(s@),
{
    let mut i: usize = 0;
    while i < v.len()
        invariant
            i <= v@.len(),
            forall|j: int| 0 <= j < i ==> v@[j]@ != s@,
        decreases v@.len() - i,
    {
        if v[i] == *s {
            proof {
                assert(strings_view(v@)[i as int] == s@);
            }
            return true;
        }
        i = i + 1;
    }
    proof {
        if strings_view(v@).contains(s@) {
            let j = choose|j: int| 0 <= j < v@.len() && strings_view(v@)[j] == s@;
            assert(v@[j]@ == s@);
        }
    }
    false
}

/// Appends to `items` each string of `extra` that it does not hold yet.
pub fn push_new(items: &mut Vec<String>, extra: &Vec<String>)
    ensures
        strings_view(final(items)@) == append_new(strings_view(old(items)@), strings_view(extra@)),
{
    let ghost start = strings_view(items@);
    let mut i: usize = 0;
    while i < extra.len()
        invariant
            i <= extra@.len(),
            strings_view(items@) == append_new(start, strings_view(extra@).subrange(0, i as int)),
        decreases extra@.len() - i,
    {
        let ghost prefix = strings_view(extra@).subrange(0, i as int + 1);
        proof {
            assert(prefix.drop_last() =~= strings_view(extra@).subrange(0, i as int));
            assert(prefix.last() == extra@[i as int]@);
        }
        if !contains_string(items, &extra[i]) {
            let ghost before = items@;
            items.push(extra[i].clone());
            proof {
                assert(strings_view(items@) =~= strings_view(before).push(extra@[i as int]@));
            }
        }
        i = i + 1;
    }
    proof {
        assert(strings_view(extra@).subrange(0, extra@.len() as int) =~= strings_view(extra@));
    }
}

/// Index of the selected item in `items`; 0 when nothing is selected or the
/// selected item is no longer present.
pub fn current_index(items: &Vec<String>, selected: &Option<String>) -> (r: usize)
    ensures
        r == current_index_of(strings_view(items@), opt_view(*selected)),
        items@.len() > 0 ==> r < items@.len(),
        items@.len() == 0 ==> r == 0,
{
    let ghost v = strings_view(items@);
    proof {
        lemma_current_index_in_range(v, opt_view(*selected));
    }
    match selected {
        Some(s) => {
            let mut i: usize = 0;
            while i < items.len()
                invariant
                    v == strings_view(items@),
                    i <= items@.len(),
                    index_from(v, s@, 0) == index_from(v, s@, i as int),
                    opt_view(*selected) == Some(s@),
                decreases items@.len() - i,
            {
                if items[i] == *s {
                    assert(v[i as int] == s@);
                    return i;
                }
                i = i + 1;
            }
            0
        },
        None => 0,
    }
}

/// The selection one step forward, wrapping from the last item to the first;
/// unchanged when there are no items.
pub fn next_of(items: &Vec<String>, selected: &Option<String>) -> (r: Option<String>)
    ensures
        opt_view(r) == next_selection(strings_view(items@), opt_view(*selected)),
{
    if items.len() == 0 {
        return selected.clone();
    }
    let i = current_index(items, selected);
    let k = (i + 1) % items.len();
    Some(items[k].clone())
}

/// The selection one step back, wrapping from the first item to the last;
/// unchanged when there are no items.
pub fn previous_of(items: &Vec<String>, selected: &Option<String>) -> (r: Option<String>)
    ensures
        opt_view(r) == previous_selection(strings_view(items@), opt_view(*selected)),
{
    if items.len() == 0 {
        return selected.clone();
    }
    let i = current_index(items, selected);
    let k = if i == 0 {
        items.len() - 1
    } else {
        i - 1
    };
    Some(items[k].clone())
}

} // verus!
