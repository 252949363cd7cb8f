//! The frontier of a crawl: the leaves of a table of contents, numbered in
//! their declared order, less those whose files are already there.

use vstd::prelude::*;
use crate::chapter::file_name;
use crate::chapter::file_name_of;
use crate::item::WorkItem;
use crate::item::WorkItemView;
use crate::item::views_of;
use crate::text::push_char;
use crate::text::text_list;

verus! {

/// The ten digits.
pub open spec fn digits() -> Seq<char> {
    seq!['0', '1', '2', '3', '4', '5', '6', '7', '8', '9']
}

/// The decimal numeral of `n`, without leading zeros.
pub open spec fn decimal(n: nat) -> Seq<char>
    decreases n,
{
    if n < 10 {
        seq![digits()[n as int]]
    } else {
        decimal(n / 10).push(digits()[(n % 10) as int])
    }
}

/// `numeral` with zeros in front of it up to the given width; a longer
/// numeral stays as it is.
pub open spec fn zero_padded(numeral: Seq<char>, width: nat) -> Seq<char> {
    if numeral.len() >= width {
        numeral
    } else {
        Seq::new((width - numeral.len()) as nat, |i: int| '0') + numeral
    }
}

/// The width of an order key's number.
pub open spec fn key_width() -> nat {
    5
}

/// The order key of the leaf with the given number, counted from one.
pub open spec fn order_key_of(number: nat) -> Seq<char> {
    zero_padded(decimal(number), key_width())
}

/// The digit for a value below ten.
fn digit(d: usize) -> (out: char)
    requires
        d < 10,
    ensures
        out == digits()[d as int],
{
    match d {
        0 => '0',
        1 => '1',
        2 => '2',
        3 => '3',
        4 => '4',
        5 => '5',
        6 => '6',
        7 => '7',
        8 => '8',
        _ => '9',
    }
}

/// The decimal numeral of `n`.
pub fn decimal_digits(n: usize) -> (out: Vec<char>)
    ensures
        out@ == decimal(n as nat),
    decreases n,
{
    if n < 10 {
        let mut out: Vec<char> = Vec::new();
        out.push(digit(n));
        assert(out@ =~= decimal(n as nat));
        out
    } else {
        let mut out = decimal_digits(n / 10);
        out.push(digit(n % 10));
        out
    }
}

/// The order key of the leaf with the given number: the number in decimal,
/// filled with zeros to five places.
pub fn order_key(number: usize) -> (out: String)
    ensures
        out@ == order_key_of(number as nat),
{
    let numeral = decimal_digits(number);
    let mut out = String::new();
    let mut i: usize = numeral.len();
    while i < 5
        invariant
            numeral.len() <= i,
            numeral.len() < 5 ==> i <= 5,
            numeral.len() >= 5 ==> i == numeral.len(),
            out@ == Seq::new((i - numeral.len()) as nat, |k: int| '0'),
        decreases 5 - i,
    {
        push_char(&mut out, '0');
        assert(out@ =~= Seq::new((i + 1 - numeral.len()) as nat, |k: int| '0'));
        i += 1;
    }
    let ghost zeros = out@;
    assert(zeros =~= zero_padded(numeral@, key_width()).take(zeros.len() as int));
    let mut j: usize = 0;
    while j < numeral.len()
        invariant
            0 <= j <= numeral.len(),
            zeros == zero_padded(numeral@, key_width()).take(zeros.len() as int),
            zeros.len() + numeral.len() == zero_padded(numeral@, key_width()).len(),
            out@ == zeros + numeral@.take(j as int),
        decreases numeral.len() - j,
    {
        push_char(&mut out, numeral[j]);
        assert(numeral@.take(j + 1) =~= numeral@.take(j as int).push(numeral@[j as int]));
        assert(out@ =~= zeros + numeral@.take(j + 1));
        j += 1;
    }
    assert(numeral@.take(numeral@.len() as int) =~= numeral@);
    assert(out@ =~= zero_padded(numeral@, key_width()));
    out
}

/// The leaves numbered in their order, from one.
pub open spec fn numbered(urls: Seq<Seq<char>>) -> Seq<WorkItemView> {
    Seq::new(
        urls.len(),
        |i: int| WorkItemView { order_key: order_key_of((i + 1) as nat), url: urls[i] },
    )
}

/// Numbers the leaves in their order, from one.
pub fn append_urls_with_orders(urls: Vec<String>) -> (out: Vec<WorkItem>)
    ensures
        views_of(out@) == numbered(text_list(urls@)),
        forall|i: int| 0 <= i < out.len() ==> (#[trigger] out[i]).url == urls[i],
{
    let mut out: Vec<WorkItem> = Vec::new();
    let ghost all = urls@;
    let count = urls.len();
    for url in it: urls
        invariant
            it.seq() == all,
            all.len() == count,
            out.len() == it.index(),
            forall|i: int|
                0 <= i < out.len() ==> (#[trigger] out[i]).order_key@ == order_key_of(
                    (i + 1) as nat,
                ) && out[i].url == all[i],
    {
        assert(it.index() < all.len());
        let number = out.len() + 1;
        out.push(WorkItem::new(order_key(number), url));
    }
    assert(views_of(out@) =~= numbered(text_list(all)));
    out
}

/// The names that a list of strings holds.
pub open spec fn names_in(list: Seq<String>) -> Set<Seq<char>> {
    Set::new(|n: Seq<char>| exists|i: int| 0 <= i < list.len() && #[trigger] list[i]@ == n)
}

/// Whether the file of an item is still to be written: no file of its name
/// is among the given ones.
pub open spec fn is_unsaved(item: WorkItemView, existing: Set<Seq<char>>) -> bool {
    !existing.contains(file_name_of(item.order_key))
}

/// The items whose files are still to be written, in their order.
pub open spec fn unsaved(items: Seq<WorkItemView>, existing: Set<Seq<char>>) -> Seq<WorkItemView> {
    items.filter(|item: WorkItemView| is_unsaved(item, existing))
}

/// The frontier of a crawl: the leaves numbered in their order, less those
/// whose files exist.
pub open spec fn frontier_of(urls: Seq<Seq<char>>, existing: Set<Seq<char>>) -> Seq<WorkItemView> {
    unsaved(numbered(urls), existing)
}

/// Whether `name` is one of `list`.
pub fn holds_name(list: &Vec<String>, name: &String) -> (out: bool)
    ensures
        out == names_in(list@).contains(name@),
{
    let mut i: usize = 0;
    while i < list.len()
        invariant
            0 <= i <= list.len(),
            forall|k: int| 0 <= k < i ==> (#[trigger] list@[k])@ != name@,
        decreases list.len() - i,
    {
        if list[i] == *name {
            return true;
        }
        i += 1;
    }
    false
}

/// Drops the items whose file is among `existing`, the names of the files
/// that the book's directory holds; the others stay in their order.
pub fn remove_url_with_exist_file(urls: Vec<WorkItem>, existing: &Vec<String>) -> (out: Vec<
    WorkItem,
>)
    ensures
        views_of(out@) == unsaved(views_of(urls@), names_in(existing@)),
        out.len() <= urls.len(),
{
    let mut out: Vec<WorkItem> = Vec::new();
    let ghost all = urls@;
    let ghost keep = |item: WorkItemView| is_unsaved(item, names_in(existing@));
    proof {
        reveal(Seq::filter);
        assert(views_of(all.take(0)).filter(keep) =~= Seq::<WorkItemView>::empty());
        assert(views_of(out@) =~= Seq::<WorkItemView>::empty());
    }
    for item in it: urls
        invariant
            it.seq() == all,
            keep == (|item: WorkItemView| is_unsaved(item, names_in(existing@))),
            views_of(out@) == views_of(all.take(it.index() as int)).filter(keep),
            out.len() <= it.index(),
    {
        let name = file_name(item.order_key.as_str());
        let ghost before = out@;
        let found = holds_name(existing, &name);
        if !found {
            out.push(item);
        }
        proof {
            reveal(Seq::filter);
            let longer = views_of(all.take(it.index() + 1));
            assert(longer.drop_last() =~= views_of(all.take(it.index() as int)));
            assert(longer.last() == item@);
            if !found {
                assert(views_of(out@) =~= views_of(before).push(item@));
            }
        }
    }
    assert(all.take(all.len() as int) =~= all);
    out
}

/// The first batch of a crawl and its size, the count that the coordinator
/// starts from.
#[derive(Debug, Clone, PartialEq, Eq)]
pub struct Frontier {
    pub items: Vec<WorkItem>,
    pub tasks: i32,
}

/// Builds the first batch from the leaves of a table of contents, in their
/// declared order, and the names of the files that the book's directory
/// holds: the leaves are numbered, and those already saved are left out.
pub fn process_url_contents(urls: Vec<String>, existing: &Vec<String>) -> (out: Frontier)
    requires
        frontier_of(text_list(urls@), names_in(existing@)).len() <= i32::MAX,
    ensures
        views_of(out.items@) == frontier_of(text_list(urls@), names_in(existing@)),
        out.tasks == out.items.len(),
{
    let numbered = append_urls_with_orders(urls);
    let items = remove_url_with_exist_file(numbered, existing);
    assert(views_of(items@).len() == items.len());
    let tasks = items.len() as i32;
    Frontier { items, tasks }
}

/// Resume: the first batch holds no leaf whose file exists, it holds every
/// other leaf, and it is no longer than the table of contents.
pub proof fn lemma_frontier_skips_saved(urls: Seq<Seq<char>>, existing: Set<Seq<char>>)
    ensures
        frontier_of(urls, existing).len() <= urls.len(),
        forall|i: int|
            0 <= i < frontier_of(urls, existing).len() ==> !existing.contains(
                file_name_of(#[trigger] frontier_of(urls, existing)[i].order_key),
            ),
        forall|i: int|
            0 <= i < urls.len() && !existing.contains(
                file_name_of(order_key_of((i + 1) as nat)),
            ) ==> frontier_of(urls, existing).contains(#[trigger] numbered(urls)[i]),
{
    let all = numbered(urls);
    let keep = |item: WorkItemView| is_unsaved(item, existing);
    all.lemma_filter_len(keep);
    assert forall|i: int| 0 <= i < all.filter(keep).len() implies !existing.contains(
        file_name_of(#[trigger] all.filter(keep)[i].order_key),
    ) by {
        all.lemma_filter_pred(keep, i);
    }
    assert forall|i: int|
        0 <= i < urls.len() && !existing.contains(
            file_name_of(order_key_of((i + 1) as nat)),
        ) implies all.filter(keep).contains(#[trigger] all[i]) by {
        all.lemma_filter_contains(keep, i);
    }
}

} // verus!
