//! Package specifiers and ordered lists of them.
//!
//! A list is described by the sequence of its specifiers' characters, so that
//! two lists with the same text are the same list.

use vstd::prelude::*;

verus! {

/// The characters that may not occur in a package specifier.
pub open spec fn is_blank(c: char) -> bool {
    c == ' ' || c == '\t' || c == '\n' || c == '\r'
}

/// A package specifier is well formed when it is not empty and holds no
/// blank character.
pub open spec fn well_formed(name: Seq<char>) -> bool {
    &&& name.len() > 0
    &&& forall|i: int| 0 <= i < name.len() ==> !is_blank(#[trigger] name[i])
}

/// Every specifier of the list is well formed.
pub open spec fn all_well_formed(list: Seq<Seq<char>>) -> bool {
    forall|i: int| 0 <= i < list.len() ==> well_formed(#[trigger] list[i])
}

/// Every item of `items` occurs in `list`.
pub open spec fn all_within<T>(items: Seq<T>, list: Seq<T>) -> bool {
    forall|i: int| 0 <= i < items.len() ==> list.contains(#[trigger] items[i])
}

/// The test "does not occur in `other`".
pub open spec fn absent_from<T>(other: Seq<T>) -> spec_fn(T) -> bool {
    |item: T| !other.contains(item)
}

/// The items of `list` that do not occur in `other`, in the order of `list`.
pub open spec fn difference<T>(list: Seq<T>, other: Seq<T>) -> Seq<T> {
    list.filter(absent_from(other))
}

/// `list`, followed by the items of `extra` that are new, each once and in
/// the order of its first occurrence.
pub open spec fn union<T>(list: Seq<T>, extra: Seq<T>) -> Seq<T>
    decreases extra.len(),
{
    if extra.len() == 0 {
        list
    } else {
        let before = union(list, extra.drop_last());
        if before.contains(extra.last()) {
            before
        } else {
            before.push(extra.last())
        }
    }
}

/// A union holds exactly what either list holds, keeps `list` as its
/// beginning, and repeats nothing that `list` did not repeat.
pub proof fn union_properties<T>(list: Seq<T>, extra: Seq<T>)
    ensures
        list.is_prefix_of(union(list, extra)),
        forall|item: T| #[trigger]
            union(list, extra).contains(item) <==> list.contains(item) || extra.contains(item),
        list.no_duplicates() ==> union(list, extra).no_duplicates(),
    decreases extra.len(),
{
    if extra.len() > 0 {
        let shorter = extra.drop_last();
        let before = union(list, shorter);
        union_properties(list, shorter);
        let whole = union(list, extra);
        assert forall|item: T| #[trigger]
            whole.contains(item) <==> list.contains(item) || extra.contains(item) by {
            if extra.contains(item) {
                let k = choose|k: int| 0 <= k < extra.len() && extra[k] == item;
                if k < shorter.len() {
                    assert(shorter[k] == item);
                    assert(before.contains(item));
                }
            }
            if before.contains(item) {
                let k = choose|k: int| 0 <= k < before.len() && before[k] == item;
                assert(whole[k] == item);
                if shorter.contains(item) {
                    let j = choose|j: int| 0 <= j < shorter.len() && shorter[j] == item;
                    assert(extra[j] == item);
                }
            }
            if !before.contains(extra.last()) {
                assert(whole[before.len() as int] == extra.last());
            }
            assert(extra[extra.len() - 1] == extra.last());
        }
    }
}

/// What passes a test out of a list is exactly what the list holds and the
/// test accepts, and repeats nothing that the list did not repeat.
pub proof fn filter_properties<T>(list: Seq<T>, keep: spec_fn(T) -> bool)
    ensures
        forall|item: T| #[trigger]
            list.filter(keep).contains(item) <==> list.contains(item) && keep(item),
        list.no_duplicates() ==> list.filter(keep).no_duplicates(),
        list.filter(keep).len() <= list.len(),
    decreases list.len(),
{
    if list.len() == 0 {
        reveal(Seq::filter);
    } else {
        let shorter = list.drop_last();
        filter_properties(shorter, keep);
        let before = shorter.filter(keep);
        let whole = list.filter(keep);
        assert(whole == if keep(list.last()) {
            before.push(list.last())
        } else {
            before
        }) by {
            assert(shorter.push(list.last()) =~= list);
            shorter.lemma_filter_push(list.last(), keep);
        }
        assert forall|item: T| #[trigger]
            whole.contains(item) <==> list.contains(item) && keep(item) by {
            if list.contains(item) {
                let k = choose|k: int| 0 <= k < list.len() && list[k] == item;
                if k < shorter.len() {
                    assert(shorter[k] == item);
                }
            }
            if before.contains(item) {
                let k = choose|k: int| 0 <= k < before.len() && before[k] == item;
                assert(whole[k] == item);
                let j = choose|j: int| 0 <= j < shorter.len() && shorter[j] == item;
                assert(list[j] == item);
            }
            if keep(list.last()) {
                assert(whole[before.len() as int] == list.last());
            }
            assert(list[list.len() - 1] == list.last());
        }
        if list.no_duplicates() {
            assert(shorter.no_duplicates());
            assert(!shorter.contains(list.last())) by {
                if shorter.contains(list.last()) {
                    let j = choose|j: int| 0 <= j < shorter.len() && shorter[j] == list.last();
                    assert(list[j] == list[list.len() - 1]);
                }
            }
            assert(!before.contains(list.last()));
            assert forall|a: int, b: int|
                0 <= a < whole.len() && 0 <= b < whole.len() && a != b implies whole[a]
                != whole[b] by {
                if a == before.len() {
                    assert(before.contains(whole[b]));
                } else if b == before.len() {
                    assert(before.contains(whole[a]));
                }
            }
        }
    }
}

/// A difference holds exactly the items of `list` that `other` lacks, and
/// repeats nothing that `list` did not repeat.
pub proof fn difference_properties<T>(list: Seq<T>, other: Seq<T>)
    ensures
        forall|item: T| #[trigger]
            difference(list, other).contains(item) <==> list.contains(item) && !other.contains(
                item,
            ),
        list.no_duplicates() ==> difference(list, other).no_duplicates(),
        difference(list, other).len() <= list.len(),
{
    filter_properties(list, absent_from(other));
}

pub fn is_well_formed(name: &str) -> (ok: bool)
    ensures
        ok == well_formed(name@),
{
    let mut empty = true;
    for c in it: name.chars()
        invariant
            it.seq() == name@,
            empty == (it.index() == 0),
            forall|i: int| 0 <= i < it.index() ==> !is_blank(#[trigger] name@[i]),
    {
        if c == ' ' || c == '\t' || c == '\n' || c == '\r' {
            return false;
        }
        empty = false;
    }
    !empty
}

pub fn are_well_formed(list: &Vec<String>) -> (ok: bool)
    ensures
        ok == all_well_formed(list.deep_view()),
{
    let mut i: usize = 0;
    while i < list.len()
        invariant
            i <= list.len(),
            forall|j: int| 0 <= j < i ==> well_formed(#[trigger] list.deep_view()[j]),
        decreases list.len() - i,
    {
        if !is_well_formed(list[i].as_str()) {
            assert(!well_formed(list.deep_view()[i as int]));
            return false;
        }
        i = i + 1;
    }
    true
}

pub fn contains(list: &Vec<String>, name: &String) -> (found: bool)
    ensures
        found == list.deep_view().contains(name@),
{
    let mut i: usize = 0;
    while i < list.len()
        invariant
            i <= list.len(),
            forall|j: int| 0 <= j < i ==> list.deep_view()[j] != name@,
        decreases list.len() - i,
    {
        if list[i] == *name {
            assert(list.deep_view()[i as int] == name@);
            return true;
        }
        i = i + 1;
    }
    false
}

pub fn are_within(items: &Vec<String>, list: &Vec<String>) -> (ok: bool)
    ensures
        ok == all_within(items.deep_view(), list.deep_view()),
{
    let mut i: usize = 0;
    while i < items.len()
        invariant
            i <= items.len(),
            forall|j: int|
                0 <= j < i ==> list.deep_view().contains(#[trigger] items.deep_view()[j]),
        decreases items.len() - i,
    {
        if !contains(list, &items[i]) {
            assert(!list.deep_view().contains(items.deep_view()[i as int]));
            return false;
        }
        i = i + 1;
    }
    true
}

pub fn are_distinct(list: &Vec<String>) -> (ok: bool)
    ensures
        ok == list.deep_view().no_duplicates(),
{
    let mut i: usize = 0;
    while i < list.len()
        invariant
            i <= list.len(),
            forall|a: int, b: int|
                0 <= a < i && 0 <= b < list.len() && a != b ==> list.deep_view()[a]
                    != list.deep_view()[b],
        decreases list.len() - i,
    {
        let mut j: usize = i + 1;
        while j < list.len()
            invariant
                i < j <= list.len(),
                forall|b: int| i < b < j ==> list.deep_view()[i as int] != list.deep_view()[b],
            decreases list.len() - j,
        {
            if list[i] == list[j] {
                assert(list.deep_view()[i as int] == list.deep_view()[j as int]);
                return false;
            }
            j = j + 1;
        }
        i = i + 1;
    }
    true
}

pub fn same_list(left: &Vec<String>, right: &Vec<String>) -> (same: bool)
    ensures
        same == (left.deep_view() == right.deep_view()),
{
    if left.len() != right.len() {
        assert(left.deep_view().len() != right.deep_view().len());
        return false;
    }
    let mut i: usize = 0;
    while i < left.len()
        invariant
            i <= left.len(),
            left.len() == right.len(),
            forall|j: int| 0 <= j < i ==> left.deep_view()[j] == right.deep_view()[j],
        decreases left.len() - i,
    {
        if left[i] != right[i] {
            assert(left.deep_view()[i as int] != right.deep_view()[i as int]);
            return false;
        }
        i = i + 1;
    }
    assert(left.deep_view() =~= right.deep_view());
    true
}

pub fn copy_list(list: &Vec<String>) -> (copy: Vec<String>)
    ensures
        copy.deep_view() == list.deep_view(),
{
    let mut copy: Vec<String> = Vec::new();
    let mut i: usize = 0;
    while i < list.len()
        invariant
            i <= list.len(),
            copy.len() == i,
            forall|j: int| 0 <= j < i ==> copy.deep_view()[j] == list.deep_view()[j],
        decreases list.len() - i,
    {
        copy.push(list[i].clone());
        i = i + 1;
    }
    assert(copy.deep_view() =~= list.deep_view());
    copy
}

/// The items of `list` that `other` lacks.
pub fn difference_of(list: &Vec<String>, other: &Vec<String>) -> (rest: Vec<String>)
    ensures
        rest.deep_view() == difference(list.deep_view(), other.deep_view()),
{
    let mut rest: Vec<String> = Vec::new();
    let mut i: usize = 0;
    proof {
        reveal(Seq::filter);
        assert(list.deep_view().take(0) =~= Seq::empty());
        assert(rest.deep_view() =~= Seq::empty());
    }
    while i < list.len()
        invariant
            i <= list.len(),
            rest.deep_view() == difference(list.deep_view().take(i as int), other.deep_view()),
        decreases list.len() - i,
    {
        let ghost before = rest.deep_view();
        proof {
            let sofar = list.deep_view().take(i as int);
            assert(list.deep_view().take(i + 1) =~= sofar.push(list[i as int]@));
            sofar.lemma_filter_push(list[i as int]@, absent_from(other.deep_view()));
        }
        if !contains(other, &list[i]) {
            rest.push(list[i].clone());
            assert(rest.deep_view() =~= before.push(list[i as int]@));
        }
        i = i + 1;
    }
    assert(list.deep_view().take(i as int) =~= list.deep_view());
    rest
}

/// `list` followed by what is new in `extra`.
pub fn union_of(list: &Vec<String>, extra: &Vec<String>) -> (all: Vec<String>)
    ensures
        all.deep_view() == union(list.deep_view(), extra.deep_view()),
{
    let mut all = copy_list(list);
    let mut i: usize = 0;
    assert(extra.deep_view().take(0) =~= Seq::empty());
    while i < extra.len()
        invariant
            i <= extra.len(),
            all.deep_view() == union(list.deep_view(), extra.deep_view().take(i as int)),
        decreases extra.len() - i,
    {
        let ghost before = all.deep_view();
        let ghost upto = extra.deep_view().take(i + 1);
        assert(upto.drop_last() =~= extra.deep_view().take(i as int));
        assert(upto.last() == extra[i as int]@);
        if !contains(&all, &extra[i]) {
            all.push(extra[i].clone());
            assert(all.deep_view() =~= before.push(extra[i as int]@));
        }
        i = i + 1;
    }
    assert(extra.deep_view().take(i as int) =~= extra.deep_view());
    all
}

} // verus!
