use vstd::prelude::*;

verus! {

/// The row selected after moving down in a list of `len` rows: the next row,
/// wrapping from the last to the first; the first row when none was selected;
/// none when the list is empty.
pub open spec fn advance_spec(len: nat, selected: Option<usize>) -> Option<usize> {
    if len == 0 {
        None
    } else {
        match selected {
            Some(i) => if i >= len - 1 { Some(0) } else { Some((i + 1) as usize) },
            None => Some(0),
        }
    }
}

/// The row selected after moving up in a list of `len` rows: the previous row,
/// wrapping from the first to the last; the first row when none was selected;
/// none when the list is empty.
pub open spec fn retreat_spec(len: nat, selected: Option<usize>) -> Option<usize> {
    if len == 0 {
        None
    } else {
        match selected {
            Some(i) => if i == 0 { Some((len - 1) as usize) } else { Some((i - 1) as usize) },
            None => Some(0),
        }
    }
}

/// The selection kept when the list changes to `len` rows: none for an empty
/// list, the same row when it is still in range, the first row otherwise.
pub open spec fn revalidate_spec(len: nat, selected: Option<usize>) -> Option<usize> {
    if len == 0 {
        None
    } else {
        match selected {
            Some(i) => if i < len { Some(i) } else { Some(0) },
            None => Some(0),
        }
    }
}

/// A selection is valid for `len` rows when it is none exactly for an empty
/// list and otherwise names one of the rows.
pub open spec fn cursor_valid(len: nat, selected: Option<usize>) -> bool {
    match selected {
        Some(i) => i < len,
        None => len == 0,
    }
}

/// The selection after `k` moves down.
pub open spec fn advance_times(len: nat, selected: Option<usize>, k: nat) -> Option<usize>
    decreases k,
{
    if k == 0 {
        selected
    } else {
        advance_spec(len, advance_times(len, selected, (k - 1) as nat))
    }
}

pub fn advance(len: usize, selected: Option<usize>) -> (r: Option<usize>)
    ensures
        r == advance_spec(len as nat, selected),
{
    if len == 0 {
        None
    } else {
        match selected {
            Some(i) => if i >= len - 1 {
                Some(0)
            } else {
                Some(i + 1)
            },
            None => Some(0),
        }
    }
}

pub fn retreat(len: usize, selected: Option<usize>) -> (r: Option<usize>)
    ensures
        r == retreat_spec(len as nat, selected),
{
    if len == 0 {
        None
    } else {
        match selected {
            Some(i) => if i == 0 {
                Some(len - 1)
            } else {
                Some(i - 1)
            },
            None => Some(0),
        }
    }
}

pub fn revalidate(len: usize, selected: Option<usize>) -> (r: Option<usize>)
    ensures
        r == revalidate_spec(len as nat, selected),
        cursor_valid(len as nat, r),
{
    if len == 0 {
        None
    } else {
        match selected {
            Some(i) => if i < len {
                Some(i)
            } else {
                Some(0)
            },
            None => Some(0),
        }
    }
}

/// Moving down or up keeps a selection valid.
pub proof fn lemma_moves_keep_valid(len: nat, selected: Option<usize>)
    requires
        len <= usize::MAX,
        cursor_valid(len, selected),
    ensures
        cursor_valid(len, advance_spec(len, selected)),
        cursor_valid(len, retreat_spec(len, selected)),
{
}

/// After `k` moves down from row `i`, with `k` at most the number of rows
/// past `i` plus the rows before it, the selection is row `(i + k) mod len`.
proof fn lemma_advance_times_index(len: nat, i: usize, k: nat)
    requires
        len <= usize::MAX,
        i < len,
        k <= len,
    ensures
        advance_times(len, Some(i), k) == Some(
            (if i + k < len { i + k } else { i + k - len }) as usize,
        ),
    decreases k,
{
    if k > 0 {
        lemma_advance_times_index(len, i, (k - 1) as nat);
        let j: int = if i + k - 1 < len { i + k - 1 } else { i + k - 1 - len };
        assert(advance_times(len, Some(i), (k - 1) as nat) == Some(j as usize));
    }
}

/// Moving down once per row returns to the row one started on; on an empty
/// list every move leaves nothing selected.
pub proof fn lemma_advance_full_cycle(len: nat, selected: Option<usize>)
    requires
        len <= usize::MAX,
        cursor_valid(len, selected),
    ensures
        advance_times(len, selected, len) == selected,
        len == 0 ==> advance_spec(len, selected) is None && retreat_spec(len, selected) is None,
{
    if let Some(i) = selected {
        lemma_advance_times_index(len, i, len);
    }
}

} // verus!
