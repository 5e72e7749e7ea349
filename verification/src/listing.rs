use crate::errors::BotError;
use crate::file_manager::FileManager;
use crate::text::join_text;
use crate::types::FileItem;
use vstd::prelude::*;
use vstd::seq_lib::to_multiset_insert;
use vstd::string::StrSliceExecFns;

verus! {

/// What came of reading one entry of a directory: the entry itself could not
/// be read, it was read but its metadata could not, or all of it was read.
#[derive(Debug)]
pub enum EntryRead {
    Unreadable(String),
    NoMetadata { name: String, reason: String },
    Item(FileItem),
}

/// Whether `left` comes before `right`, or equals it, in the order of the
/// dictionary, compared character by character from position `from` on.
pub open spec fn name_le_from(left: Seq<char>, right: Seq<char>, from: int) -> bool
    decreases left.len() - from,
{
    if from < 0 || from >= left.len() {
        true
    } else if from >= right.len() {
        false
    } else if left[from] != right[from] {
        left[from] < right[from]
    } else {
        name_le_from(left, right, from + 1)
    }
}

/// Whether `left` comes before `right`, or equals it, in the order of the
/// dictionary.
pub open spec fn name_le(left: Seq<char>, right: Seq<char>) -> bool {
    name_le_from(left, right, 0)
}

/// Whether the items stand in the order of their names.
pub open spec fn ordered_by_name(items: Seq<FileItem>) -> bool {
    forall|i: int, j: int|
        0 <= i < j < items.len() ==> name_le(#[trigger] items[i].name@, #[trigger] items[j].name@)
}

/// An ordered sequence with one more item put in its place: before the
/// first item whose name does not come before its own.
pub open spec fn insert_by_name(ordered: Seq<FileItem>, item: FileItem) -> Seq<FileItem>
    decreases ordered.len(),
{
    if ordered.len() == 0 {
        seq![item]
    } else if name_le(item.name@, ordered[0].name@) {
        seq![item] + ordered
    } else {
        seq![ordered[0]] + insert_by_name(ordered.drop_first(), item)
    }
}

/// The items in the order of their names; items of one name keep the order
/// they came in.
pub open spec fn sorted_by_name(items: Seq<FileItem>) -> Seq<FileItem>
    decreases items.len(),
{
    if items.len() == 0 {
        Seq::empty()
    } else {
        insert_by_name(sorted_by_name(items.drop_first()), items[0])
    }
}

/// The first entry that was not read in full, if there is one.
pub open spec fn first_failure(entries: Seq<EntryRead>) -> Option<EntryRead>
    decreases entries.len(),
{
    if entries.len() == 0 {
        None
    } else if entries[0] is Item {
        first_failure(entries.drop_first())
    } else {
        Some(entries[0])
    }
}

/// The item that an entry holds.
pub open spec fn item_of(entry: EntryRead) -> FileItem
    recommends
        entry is Item,
{
    entry->Item_0
}

/// The items that the entries hold, in the order of the entries.
pub open spec fn items_of(entries: Seq<EntryRead>) -> Seq<FileItem> {
    Seq::new(entries.len(), |i: int| item_of(entries[i]))
}

/// The message for an entry that was not read in full.
pub open spec fn failure_text(entry: EntryRead) -> Seq<char> {
    match entry {
        EntryRead::Unreadable(reason) => "Failed to read directory entry: "@ + reason@,
        EntryRead::NoMetadata { name, reason } => "Failed to get metadata for '"@ + name@ + "': "@
            + reason@,
        EntryRead::Item(_) => Seq::empty(),
    }
}

/// What a listing reports for what came of reading the directory: the
/// failure to read it; else the first entry that was not read in full; else
/// every item, in the order of the names.
pub open spec fn listing_of(
    read: Result<Vec<EntryRead>, String>,
    listing: Result<Vec<FileItem>, BotError>,
) -> bool {
    match read {
        Err(reason) => listing matches Err(BotError::FileError(message)) && message@
            == "Failed to read directory: "@ + reason@,
        Ok(entries) => match first_failure(entries@) {
            Some(failed) => listing matches Err(BotError::FileError(message)) && message@
                == failure_text(failed),
            None => listing matches Ok(items) && items@ == sorted_by_name(items_of(entries@)),
        },
    }
}

/// Of two names, one comes before the other or they are equal.
pub proof fn lemma_name_le_total(left: Seq<char>, right: Seq<char>, from: int)
    requires
        0 <= from,
    ensures
        name_le_from(left, right, from) || name_le_from(right, left, from),
    decreases left.len() - from,
{
    if from < left.len() && from < right.len() && left[from] == right[from] {
        lemma_name_le_total(left, right, from + 1);
    }
}

/// The order of names is transitive.
pub proof fn lemma_name_le_transitive(
    first: Seq<char>,
    second: Seq<char>,
    third: Seq<char>,
    from: int,
)
    requires
        0 <= from,
        name_le_from(first, second, from),
        name_le_from(second, third, from),
    ensures
        name_le_from(first, third, from),
    decreases first.len() - from,
{
    if from < first.len() {
        if first[from] == second[from] && second[from] == third[from] {
            lemma_name_le_transitive(first, second, third, from + 1);
        }
    }
}

/// Putting an item in its place keeps the order, keeps every item that was
/// there, and adds the one.
pub proof fn lemma_insert_by_name(ordered: Seq<FileItem>, item: FileItem)
    requires
        ordered_by_name(ordered),
    ensures
        ordered_by_name(insert_by_name(ordered, item)),
        insert_by_name(ordered, item).len() == ordered.len() + 1,
        insert_by_name(ordered, item).to_multiset() == ordered.to_multiset().insert(item),
        forall|i: int|
            0 <= i < insert_by_name(ordered, item).len() ==> #[trigger] insert_by_name(
                ordered,
                item,
            )[i] == item || ordered.contains(insert_by_name(ordered, item)[i]),
    decreases ordered.len(),
{
    let result = insert_by_name(ordered, item);
    if ordered.len() == 0 {
        assert(result =~= ordered.insert(0, item));
        to_multiset_insert(ordered, 0, item);
    } else if name_le(item.name@, ordered[0].name@) {
        assert(result =~= ordered.insert(0, item));
        to_multiset_insert(ordered, 0, item);
        assert forall|i: int, j: int| 0 <= i < j < result.len() implies name_le(
            #[trigger] result[i].name@,
            #[trigger] result[j].name@,
        ) by {
            if i == 0 {
                if j > 1 {
                    assert(name_le(ordered[0].name@, ordered[j - 1].name@));
                    lemma_name_le_transitive(item.name@, ordered[0].name@, ordered[j - 1].name@, 0);
                }
            } else {
                assert(name_le(ordered[i - 1].name@, ordered[j - 1].name@));
            }
        }
        assert forall|i: int| 0 <= i < result.len() implies #[trigger] result[i] == item
            || ordered.contains(result[i]) by {
            if i > 0 {
                assert(result[i] == ordered[i - 1]);
            }
        }
    } else {
        let tail = ordered.drop_first();
        assert forall|i: int, j: int| 0 <= i < j < tail.len() implies name_le(
            #[trigger] tail[i].name@,
            #[trigger] tail[j].name@,
        ) by {
            assert(name_le(ordered[i + 1].name@, ordered[j + 1].name@));
        }
        lemma_insert_by_name(tail, item);
        let rest = insert_by_name(tail, item);
        assert(result =~= seq![ordered[0]] + rest);
        assert(result =~= rest.insert(0, ordered[0]));
        to_multiset_insert(rest, 0, ordered[0]);
        assert(ordered =~= tail.insert(0, ordered[0]));
        to_multiset_insert(tail, 0, ordered[0]);
        assert(result.to_multiset() =~= ordered.to_multiset().insert(item));
        lemma_name_le_total(item.name@, ordered[0].name@, 0);
        assert forall|k: int| 0 <= k < rest.len() implies name_le(
            ordered[0].name@,
            #[trigger] rest[k].name@,
        ) by {
            if rest[k] != item {
                assert(tail.contains(rest[k]));
                let at = choose|at: int| 0 <= at < tail.len() && tail[at] == rest[k];
                assert(name_le(ordered[0].name@, ordered[at + 1].name@));
            }
        }
        assert forall|i: int, j: int| 0 <= i < j < result.len() implies name_le(
            #[trigger] result[i].name@,
            #[trigger] result[j].name@,
        ) by {
            if i == 0 {
                assert(result[j] == rest[j - 1]);
            } else {
                assert(result[i] == rest[i - 1]);
                assert(result[j] == rest[j - 1]);
                assert(name_le(rest[i - 1].name@, rest[j - 1].name@));
            }
        }
        assert forall|i: int| 0 <= i < result.len() implies #[trigger] result[i] == item
            || ordered.contains(result[i]) by {
            if i == 0 {
                assert(result[0] == ordered[0]);
            } else {
                assert(result[i] == rest[i - 1]);
                if rest[i - 1] != item {
                    assert(tail.contains(rest[i - 1]));
                    let at = choose|at: int| 0 <= at < tail.len() && tail[at] == rest[i - 1];
                    assert(ordered[at + 1] == rest[i - 1]);
                }
            }
        }
    }
}

/// Sorting by name gives the same items, each as often as before, in the
/// order of their names.
pub proof fn law_sorted_by_name(items: Seq<FileItem>)
    ensures
        ordered_by_name(sorted_by_name(items)),
        sorted_by_name(items).len() == items.len(),
        sorted_by_name(items).to_multiset() == items.to_multiset(),
    decreases items.len(),
{
    if items.len() == 0 {
        assert(sorted_by_name(items) =~= items);
    } else {
        let tail = items.drop_first();
        law_sorted_by_name(tail);
        lemma_insert_by_name(sorted_by_name(tail), items[0]);
        assert(items =~= tail.insert(0, items[0]));
        to_multiset_insert(tail, 0, items[0]);
    }
}

/// Whether `left` comes before `right`, or equals it, in the order of the
/// dictionary.
pub fn name_precedes(left: &str, right: &str) -> (precedes: bool)
    ensures
        precedes == name_le(left@, right@),
{
    let left_len = left.unicode_len();
    let right_len = right.unicode_len();
    let mut at: usize = 0;
    while at < left_len && at < right_len
        invariant
            at <= left_len,
            at <= right_len,
            left_len == left@.len(),
            right_len == right@.len(),
            name_le(left@, right@) == name_le_from(left@, right@, at as int),
        decreases left_len - at,
    {
        let l = left.get_char(at);
        let r = right.get_char(at);
        if l != r {
            return l < r;
        }
        at += 1;
    }
    left_len <= right_len
}

/// Putting an item at the first place whose item does not come before it
/// is putting it in its place by name.
proof fn lemma_insert_at_place(ordered: Seq<FileItem>, item: FileItem, place: int)
    requires
        0 <= place <= ordered.len(),
        forall|k: int| 0 <= k < place ==> !name_le(item.name@, #[trigger] ordered[k].name@),
        place < ordered.len() ==> name_le(item.name@, ordered[place].name@),
    ensures
        insert_by_name(ordered, item) == ordered.insert(place, item),
    decreases ordered.len(),
{
    if ordered.len() == 0 {
        assert(insert_by_name(ordered, item) =~= ordered.insert(place, item));
    } else if place == 0 {
        assert(insert_by_name(ordered, item) =~= ordered.insert(place, item));
    } else {
        let tail = ordered.drop_first();
        assert(!name_le(item.name@, ordered[0].name@));
        assert forall|k: int| 0 <= k < place - 1 implies !name_le(
            item.name@,
            #[trigger] tail[k].name@,
        ) by {
            assert(tail[k] == ordered[k + 1]);
        }
        lemma_insert_at_place(tail, item, place - 1);
        assert(insert_by_name(ordered, item) =~= ordered.insert(place, item));
    }
}

/// Puts an item in its place among items that stand in the order of their
/// names.
pub fn insert_item(ordered: &mut Vec<FileItem>, item: FileItem)
    requires
        old(ordered).len() < usize::MAX,
    ensures
        final(ordered)@ == insert_by_name(old(ordered)@, item),
        final(ordered).len() == old(ordered).len() + 1,
{
    let mut place: usize = 0;
    while place < ordered.len() && !name_precedes(
        item.name.as_str(),
        ordered[place].name.as_str(),
    )
        invariant
            place <= ordered.len(),
            ordered@ == old(ordered)@,
            forall|k: int| 0 <= k < place ==> !name_le(item.name@, #[trigger] ordered[k].name@),
        decreases ordered.len() - place,
    {
        place += 1;
    }
    proof {
        lemma_insert_at_place(ordered@, item, place as int);
    }
    ordered.insert(place, item);
}

/// Skipping entries that were read in full does not change which entry is
/// the first that was not.
proof fn lemma_first_failure_skips(entries: Seq<EntryRead>, read: int)
    requires
        0 <= read <= entries.len(),
        forall|k: int| 0 <= k < read ==> #[trigger] entries[k] is Item,
    ensures
        first_failure(entries) == first_failure(entries.skip(read)),
    decreases read,
{
    if read == 0 {
        assert(entries.skip(0) =~= entries);
    } else {
        let tail = entries.drop_first();
        assert(entries[0] is Item);
        assert forall|k: int| 0 <= k < read - 1 implies #[trigger] tail[k] is Item by {
            assert(tail[k] == entries[k + 1]);
        }
        lemma_first_failure_skips(tail, read - 1);
        assert(tail.skip(read - 1) =~= entries.skip(read));
    }
}

impl FileManager {
    /// Turns what came of reading a directory into its listing: the failure to
    /// read it, else the first entry that was not read in full, else every item
    /// in the order of the names.
    pub fn list_directory(read: Result<Vec<EntryRead>, String>) -> (listing: Result<
        Vec<FileItem>,
        BotError,
    >)
        ensures
            listing_of(read, listing),
    {
        let mut entries = match read {
            Err(reason) => {
                return Err(
                    BotError::FileError(join_text("Failed to read directory: ", reason.as_str())),
                );
            },
            Ok(entries) => entries,
        };
        let ghost all = entries@;
        let mut at: usize = 0;
        while at < entries.len()
            invariant
                at <= entries.len(),
                entries@ == all,
                read matches Ok(given) && given@ == all,
                forall|k: int| 0 <= k < at ==> #[trigger] all[k] is Item,
            decreases entries.len() - at,
        {
            proof {
                lemma_first_failure_skips(all, at as int);
                assert(all.skip(at as int)[0] == all[at as int]);
            }
            match &entries[at] {
                EntryRead::Unreadable(reason) => {
                    return Err(
                        BotError::FileError(
                            join_text("Failed to read directory entry: ", reason.as_str()),
                        ),
                    );
                },
                EntryRead::NoMetadata { name, reason } => {
                    let message = join_text("Failed to get metadata for '", name.as_str()).concat(
                        "': ",
                    ).concat(reason.as_str());
                    return Err(BotError::FileError(message));
                },
                EntryRead::Item(_) => {},
            }
            at += 1;
        }
        proof {
            lemma_first_failure_skips(all, all.len() as int);
        }
        let mut ordered: Vec<FileItem> = Vec::new();
        assert(items_of(all).skip(all.len() as int) =~= Seq::<FileItem>::empty());
        while entries.len() > 0
            invariant
                entries@ == all.take(entries.len() as int),
                entries.len() <= all.len() <= usize::MAX,
                forall|k: int| 0 <= k < all.len() ==> #[trigger] all[k] is Item,
                ordered@ == sorted_by_name(items_of(all).skip(entries.len() as int)),
                ordered.len() == all.len() - entries.len(),
            decreases entries.len(),
        {
            let ghost before = entries.len() as int;
            let entry = entries.pop();
            proof {
                let rest = items_of(all).skip(before - 1);
                assert(rest.drop_first() =~= items_of(all).skip(before));
                assert(rest[0] == item_of(all[before - 1]));
                assert(entry == Some(all[before - 1]));
                assert(all[before - 1] is Item);
            }
            match entry {
                Some(EntryRead::Item(item)) => {
                    insert_item(&mut ordered, item);
                },
                _ => {},
            }
        }
        assert(items_of(all).skip(0) =~= items_of(all));
        Ok(ordered)
    }
}

} // verus!
