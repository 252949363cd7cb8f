//! The final pass: the saved chapters, sorted by file name, become one text.

use vstd::prelude::*;
use crate::chapter::txt_suffix;
use crate::text::chars_of;
use crate::text::comes_before;
use crate::text::precedes;

verus! {

/// A file of a book's directory as contracts see it.
pub struct SavedFileView {
    pub name: Seq<char>,
    pub content: Seq<u8>,
}

/// A file of a book's directory: its name and the bytes that it holds.
#[derive(Debug, Clone, PartialEq, Eq)]
pub struct SavedFile {
    pub name: String,
    pub content: Vec<u8>,
}

impl View for SavedFile {
    type V = SavedFileView;

    open spec fn view(&self) -> SavedFileView {
        SavedFileView { name: self.name@, content: self.content@ }
    }
}

/// The files of a list as contracts see them.
pub open spec fn file_views(files: Seq<SavedFile>) -> Seq<SavedFileView> {
    files.map_values(|f: SavedFile| f@)
}

/// No file stands before one whose name comes before its own.
pub open spec fn ascending(files: Seq<SavedFileView>) -> bool {
    forall|i: int, j: int|
        0 <= i < j < files.len() ==> !precedes(#[trigger] files[j].name, #[trigger] files[i].name)
}

/// Where a file of the given name goes into a sorted list: behind the last
/// file whose name does not come after its own.
pub open spec fn insertion_point(sorted: Seq<SavedFileView>, name: Seq<char>) -> int
    decreases sorted.len(),
{
    if sorted.len() == 0 {
        0
    } else if precedes(name, sorted.last().name) {
        insertion_point(sorted.drop_last(), name)
    } else {
        sorted.len() as int
    }
}

/// The files sorted by name; files of one name keep their order.
pub open spec fn in_name_order(files: Seq<SavedFileView>) -> Seq<SavedFileView>
    decreases files.len(),
{
    if files.len() == 0 {
        Seq::empty()
    } else {
        let sorted = in_name_order(files.drop_last());
        sorted.insert(insertion_point(sorted, files.last().name), files.last())
    }
}

/// The two line feeds that separate one file's content from the next.
pub open spec fn separator() -> Seq<u8> {
    seq![10u8, 10u8]
}

/// The contents of the files one after another, a blank line between every
/// two and nothing after the last.
pub open spec fn concatenated(files: Seq<SavedFileView>) -> Seq<u8>
    decreases files.len(),
{
    if files.len() == 0 {
        Seq::empty()
    } else if files.len() == 1 {
        files[0].content
    } else {
        concatenated(files.drop_last()) + separator() + files.last().content
    }
}

/// The text of a book: the contents of its files in the order of their
/// names, separated by blank lines.
pub open spec fn combined(files: Seq<SavedFileView>) -> Seq<u8> {
    concatenated(in_name_order(files))
}

/// The name of the file that holds a book's text: the name of the book's
/// directory and the extension of a text file.
pub open spec fn artifact_name_of(book: Seq<char>) -> Seq<char> {
    book + txt_suffix()
}

/// The name of the file that a book's text is written to, beside the
/// directory of its chapters.
pub fn artifact_name(book: &str) -> (out: String)
    ensures
        out@ == artifact_name_of(book@),
{
    proof {
        reveal_strlit(".txt");
    }
    let mut out = String::from_str(book);
    out.append(".txt");
    assert(out@ =~= artifact_name_of(book@));
    out
}

/// The insertion point lies within the list or at its end.
pub proof fn lemma_insertion_point_bounds(sorted: Seq<SavedFileView>, name: Seq<char>)
    ensures
        0 <= insertion_point(sorted, name) <= sorted.len(),
    decreases sorted.len(),
{
    if sorted.len() > 0 && precedes(name, sorted.last().name) {
        lemma_insertion_point_bounds(sorted.drop_last(), name);
    }
}

/// Sorts the files by name.
pub fn sort_by_name(files: Vec<SavedFile>) -> (out: Vec<SavedFile>)
    ensures
        file_views(out@) == in_name_order(file_views(files@)),
{
    let mut out: Vec<SavedFile> = Vec::new();
    let mut keys: Vec<Vec<char>> = Vec::new();
    let ghost all = files@;
    proof {
        assert(file_views(out@) =~= in_name_order(file_views(all.take(0))));
    }
    for file in it: files
        invariant
            it.seq() == all,
            keys.len() == out.len(),
            forall|k: int| 0 <= k < out.len() ==> (#[trigger] keys[k])@ == out[k].name@,
            file_views(out@) == in_name_order(file_views(all.take(it.index() as int))),
    {
        let key = chars_of(file.name.as_str());
        let ghost sorted = file_views(out@);
        let mut j: usize = out.len();
        assert(sorted.take(j as int) =~= sorted);
        while j > 0 && comes_before(&key, &keys[j - 1])
            invariant
                0 <= j <= out.len(),
                keys.len() == out.len(),
                sorted == file_views(out@),
                key@ == file.name@,
                forall|k: int| 0 <= k < out.len() ==> (#[trigger] keys[k])@ == out[k].name@,
                insertion_point(sorted, key@) == insertion_point(sorted.take(j as int), key@),
            decreases j,
        {
            assert(sorted.take(j as int).drop_last() =~= sorted.take(j - 1));
            j -= 1;
        }
        proof {
            assert(sorted.take(sorted.len() as int) =~= sorted);
            if j > 0 {
                assert(sorted.take(j as int).last() == sorted[j - 1]);
            }
            assert(insertion_point(sorted, key@) == j);
            let longer = file_views(all.take(it.index() + 1));
            assert(longer.drop_last() =~= file_views(all.take(it.index() as int)));
            assert(longer.last() == file@);
        }
        let ghost shown = file@;
        out.insert(j, file);
        keys.insert(j, key);
        assert(file_views(out@) =~= sorted.insert(j as int, shown));
    }
    assert(all.take(all.len() as int) =~= all);
    out
}

/// Appends the bytes of `more` to `out`.
fn append_bytes(out: &mut Vec<u8>, more: &Vec<u8>)
    ensures
        final(out)@ == old(out)@ + more@,
{
    let mut i: usize = 0;
    while i < more.len()
        invariant
            0 <= i <= more.len(),
            out@ == old(out)@ + more@.take(i as int),
        decreases more.len() - i,
    {
        out.push(more[i]);
        assert(more@.take(i + 1) =~= more@.take(i as int).push(more@[i as int]));
        assert(out@ =~= old(out)@ + more@.take(i + 1));
        i += 1;
    }
    assert(more@.take(more@.len() as int) =~= more@);
}

/// Writes the contents of the files out one after another, a blank line
/// between every two.
pub fn concatenate(files: &Vec<SavedFile>) -> (out: Vec<u8>)
    ensures
        out@ == concatenated(file_views(files@)),
{
    let mut out: Vec<u8> = Vec::new();
    let mut i: usize = 0;
    assert(file_views(files@.take(0)) =~= Seq::<SavedFileView>::empty());
    while i < files.len()
        invariant
            0 <= i <= files.len(),
            out@ == concatenated(file_views(files@.take(i as int))),
        decreases files.len() - i,
    {
        let ghost before = out@;
        if i > 0 {
            out.push(10u8);
            out.push(10u8);
        }
        append_bytes(&mut out, &files[i].content);
        proof {
            let longer = file_views(files@.take(i + 1));
            assert(longer.drop_last() =~= file_views(files@.take(i as int)));
            assert(longer.last() == files@[i as int]@);
            if i == 0 {
                assert(out@ =~= longer[0].content);
            } else {
                assert(out@ =~= before + separator() + longer.last().content);
            }
        }
        i += 1;
    }
    assert(files@.take(files@.len() as int) =~= files@);
    out
}

/// The text of a book from the files of its directory, in whatever order
/// they were listed.
pub fn combine_txt(files: Vec<SavedFile>) -> (out: Vec<u8>)
    ensures
        out@ == combined(file_views(files@)),
{
    let sorted = sort_by_name(files);
    concatenate(&sorted)
}

/// A file put in at its insertion point leaves a sorted list sorted.
pub proof fn lemma_insert_keeps_ascending(sorted: Seq<SavedFileView>, file: SavedFileView)
    requires
        ascending(sorted),
    ensures
        ascending(sorted.insert(insertion_point(sorted, file.name), file)),
    decreases sorted.len(),
{
    let p = insertion_point(sorted, file.name);
    lemma_insertion_point_bounds(sorted, file.name);
    lemma_before_point_not_after(sorted, file.name);
    lemma_after_point_follow(sorted, file.name);
    let longer = sorted.insert(p, file);
    assert forall|i: int, j: int| 0 <= i < j < longer.len() implies !precedes(
        #[trigger] longer[j].name,
        #[trigger] longer[i].name,
    ) by {
        if j < p {
            assert(longer[i] == sorted[i] && longer[j] == sorted[j]);
        } else if j == p {
            assert(longer[i] == sorted[i]);
        } else if i < p {
            assert(longer[i] == sorted[i] && longer[j] == sorted[j - 1]);
        } else if i == p {
            assert(longer[j] == sorted[j - 1]);
            crate::text::lemma_precedes_asymmetric(file.name, sorted[j - 1].name);
        } else {
            assert(longer[i] == sorted[i - 1] && longer[j] == sorted[j - 1]);
        }
    }
}

/// Every file from the insertion point on has a name that comes after the
/// given one.
pub proof fn lemma_after_point_follow(sorted: Seq<SavedFileView>, name: Seq<char>)
    ensures
        forall|k: int|
            insertion_point(sorted, name) <= k < sorted.len() ==> precedes(
                name,
                #[trigger] sorted[k].name,
            ),
    decreases sorted.len(),
{
    if sorted.len() > 0 && precedes(name, sorted.last().name) {
        lemma_after_point_follow(sorted.drop_last(), name);
        lemma_insertion_point_bounds(sorted.drop_last(), name);
        assert forall|k: int| insertion_point(sorted, name) <= k < sorted.len() implies precedes(
            name,
            #[trigger] sorted[k].name,
        ) by {
            if k < sorted.len() - 1 {
                assert(sorted.drop_last()[k] == sorted[k]);
            }
        }
    }
}

/// In a sorted list, no file before the insertion point has a name that
/// comes after the given one.
pub proof fn lemma_before_point_not_after(sorted: Seq<SavedFileView>, name: Seq<char>)
    requires
        ascending(sorted),
    ensures
        forall|k: int|
            0 <= k < insertion_point(sorted, name) ==> !precedes(name, #[trigger] sorted[k].name),
    decreases sorted.len(),
{
    if sorted.len() > 0 {
        let front = sorted.drop_last();
        assert(ascending(front)) by {
            assert forall|i: int, j: int| 0 <= i < j < front.len() implies !precedes(
                #[trigger] front[j].name,
                #[trigger] front[i].name,
            ) by {
                assert(front[i] == sorted[i] && front[j] == sorted[j]);
            }
        }
        if precedes(name, sorted.last().name) {
            lemma_before_point_not_after(front, name);
            assert forall|k: int| 0 <= k < insertion_point(sorted, name) implies !precedes(
                name,
                #[trigger] sorted[k].name,
            ) by {
                lemma_insertion_point_bounds(front, name);
                assert(front[k] == sorted[k]);
            }
        } else {
            let last = sorted.len() - 1;
            assert forall|k: int| 0 <= k < sorted.len() implies !precedes(
                name,
                #[trigger] sorted[k].name,
            ) by {
                if k < last && precedes(name, sorted[k].name) {
                    // name < sorted[k] and sorted[k] <= last, so name < last
                    assert(!precedes(sorted[last].name, sorted[k].name));
                    if sorted[k].name == sorted[last].name {
                    } else {
                        crate::text::lemma_precedes_total(sorted[k].name, sorted[last].name);
                        crate::text::lemma_precedes_transitive(
                            name,
                            sorted[k].name,
                            sorted[last].name,
                        );
                    }
                }
            }
        }
    }
}

/// The sorted files stand in the order of their names.
pub proof fn lemma_in_name_order_ascending(files: Seq<SavedFileView>)
    ensures
        ascending(in_name_order(files)),
    decreases files.len(),
{
    if files.len() > 0 {
        lemma_in_name_order_ascending(files.drop_last());
        lemma_insert_keeps_ascending(in_name_order(files.drop_last()), files.last());
    }
}

/// Sorting neither drops a file nor adds one.
pub proof fn lemma_in_name_order_permutes(files: Seq<SavedFileView>)
    ensures
        in_name_order(files).to_multiset() == files.to_multiset(),
    decreases files.len(),
{
    broadcast use vstd::seq_lib::group_to_multiset_ensures;

    if files.len() == 0 {
        assert(in_name_order(files) =~= files);
    } else {
        let front = files.drop_last();
        let sorted = in_name_order(front);
        lemma_in_name_order_permutes(front);
        lemma_insertion_point_bounds(sorted, files.last().name);
        let p = insertion_point(sorted, files.last().name);
        sorted.to_multiset_ensures();
        front.to_multiset_ensures();
        assert(files =~= front.push(files.last()));
        assert(sorted.insert(p, files.last()).to_multiset() =~= sorted.to_multiset().insert(
            files.last(),
        ));
        assert(files.to_multiset() =~= front.to_multiset().insert(files.last()));
    }
}

} // verus!
