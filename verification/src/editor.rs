//! The pure part of the configuration editor: removing a chosen set of
//! entries from a value list. The interactive shell that gathers the choice
//! stays outside; the state transition itself is verified.

use vstd::prelude::*;

use crate::text::eq_exact;

verus! {

/// The list without the first entry that equals `item`; the list as it is
/// when none does.
pub open spec fn remove_first(values: Seq<String>, item: Seq<char>) -> Seq<String>
    decreases values.len(),
{
    if values.len() == 0 {
        values
    } else if values[0]@ == item {
        values.skip(1)
    } else {
        seq![values[0]] + remove_first(values.skip(1), item)
    }
}

/// The list after removing, for each selected item from index `i` on and in
/// that order, its first occurrence.
pub open spec fn remove_selected(values: Seq<String>, selected: Seq<String>, i: int) -> Seq<String>
    decreases selected.len() - i,
{
    if i < 0 || i >= selected.len() {
        values
    } else {
        remove_selected(remove_first(values, selected[i]@), selected, i + 1)
    }
}

/// Lets the user's selection delete entries from a collection: each selected
/// item removes its first occurrence, in selection order.
pub fn delete_selected_entries(values: &mut Vec<String>, selected: &Vec<String>)
    ensures
        final(values)@ == remove_selected(old(values)@, selected@, 0),
{
    let ghost target = remove_selected(old(values)@, selected@, 0);
    let mut s: usize = 0;
    while s < selected.len()
        invariant
            s <= selected@.len(),
            target == remove_selected(old(values)@, selected@, 0),
            remove_selected(values@, selected@, s as int) == target,
        decreases selected@.len() - s,
    {
        let ghost before = values@;
        match position_of(values, selected[s].as_str()) {
            Some(idx) => {
                values.remove(idx);
                proof {
                    lemma_remove_first_at(before, selected@[s as int]@, idx as int);
                }
            },
            None => {
                proof {
                    lemma_remove_first_absent(before, selected@[s as int]@);
                }
            },
        }
        s = s + 1;
    }
}

/// The index of the first entry that equals `item`, when there is one.
fn position_of(values: &Vec<String>, item: &str) -> (r: Option<usize>)
    ensures
        r matches Some(idx) ==> idx < values@.len() && values@[idx as int]@ == item@ && (forall|
            k: int,
        |
            0 <= k < idx ==> values@[k]@ != item@),
        r is None ==> forall|k: int| 0 <= k < values@.len() ==> values@[k]@ != item@,
{
    let mut idx: usize = 0;
    while idx < values.len()
        invariant
            idx <= values@.len(),
            forall|k: int| 0 <= k < idx ==> values@[k]@ != item@,
        decreases values@.len() - idx,
    {
        if eq_exact(values[idx].as_str(), item) {
            return Some(idx);
        }
        idx = idx + 1;
    }
    None
}

/// Removing the first occurrence, found at index `idx`, is removing at `idx`.
proof fn lemma_remove_first_at(values: Seq<String>, item: Seq<char>, idx: int)
    requires
        0 <= idx < values.len(),
        values[idx]@ == item,
        forall|k: int| 0 <= k < idx ==> values[k]@ != item,
    ensures
        remove_first(values, item) == values.remove(idx),
    decreases idx,
{
    if idx == 0 {
        assert(values.skip(1) =~= values.remove(0));
    } else {
        lemma_remove_first_at(values.skip(1), item, idx - 1);
        assert(seq![values[0]] + values.skip(1).remove(idx - 1) =~= values.remove(idx));
    }
}

/// When no entry equals `item`, nothing is removed.
proof fn lemma_remove_first_absent(values: Seq<String>, item: Seq<char>)
    requires
        forall|k: int| 0 <= k < values.len() ==> values[k]@ != item,
    ensures
        remove_first(values, item) == values,
    decreases values.len(),
{
    if values.len() > 0 {
        lemma_remove_first_absent(values.skip(1), item);
        assert(seq![values[0]] + values.skip(1) =~= values);
    }
}

} // verus!
