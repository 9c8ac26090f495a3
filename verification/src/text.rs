//! Strings and lists of strings, seen as sequences of characters.
use vstd::prelude::*;

verus! {

/// The part of `items` that starts at index `start`; empty where `start` lies
/// beyond the end.
pub open spec fn from_index<A>(items: Seq<A>, start: int) -> Seq<A> {
    if 0 <= start <= items.len() {
        items.subrange(start, items.len() as int)
    } else {
        Seq::empty()
    }
}

/// `text` without its last character; the empty text stays as it is.
pub open spec fn without_last(text: Seq<char>) -> Seq<char> {
    if text.len() == 0 {
        text
    } else {
        text.drop_last()
    }
}

/// A copy of `text` without its last character; of the empty text, the empty
/// text.
pub(crate) fn drop_last_char(text: &str) -> (shorter: String)
    ensures
        shorter@ == without_last(text@),
{
    let length = text.unicode_len();
    if length == 0 {
        text.to_owned()
    } else {
        text.substring_char(0, length - 1).to_owned()
    }
}

/// Appends to `target` copies of the strings of `items` from index `start`
/// on, in their order.
pub(crate) fn push_strings_from(target: &mut Vec<String>, items: &Vec<String>, start: usize)
    ensures
        final(target).deep_view() == old(target).deep_view() + from_index(
            items.deep_view(),
            start as int,
        ),
{
    if start > items.len() {
        assert(target.deep_view() =~= old(target).deep_view() + Seq::<Seq<char>>::empty());
        return ;
    }
    let ghost before = target@;
    let mut i: usize = start;
    while i < items.len()
        invariant
            start <= i <= items.len(),
            target@.len() == before.len() + (i - start),
            forall|k: int| 0 <= k < before.len() ==> target@[k] == before[k],
            forall|k: int|
                before.len() <= k < target@.len() ==> (#[trigger] target@[k])@ == items@[k
                    - before.len() + start]@,
        decreases items.len() - i,
    {
        target.push(items[i].clone());
        i += 1;
    }
    assert(target.deep_view() =~= old(target).deep_view() + from_index(
        items.deep_view(),
        start as int,
    ));
}

/// Copies of the strings of `items` from index `start` on, in their order.
pub(crate) fn strings_from(items: &Vec<String>, start: usize) -> (tail: Vec<String>)
    ensures
        tail.deep_view() == from_index(items.deep_view(), start as int),
{
    let mut tail: Vec<String> = Vec::new();
    push_strings_from(&mut tail, items, start);
    assert(tail.deep_view() =~= from_index(items.deep_view(), start as int));
    tail
}

} // verus!
