use vstd::prelude::*;
use vstd::string::StrSliceExecFns;

verus! {

/// An error reported by the operating system while a directory was opened or
/// enumerated: its native error code, when it has one, and its message.
pub struct OsError {
    pub code: Option<i32>,
    pub message: String,
}

/// One entry of a listing: the entry's name as text.
pub struct EntryRecord {
    pub filename: String,
}

/// What `String::from_utf8_lossy` makes of a byte string: the text it encodes,
/// with U+FFFD in place of each invalid sequence.
pub uninterp spec fn utf8_lossy_of(b: Seq<u8>) -> Seq<char>;

/// Relies on `String::from_utf8_lossy`, which never fails and whose result
/// depends on the bytes alone.
#[verifier::external_body]
fn decode_lossy(b: &[u8]) -> (r: String)
    ensures
        r@ == utf8_lossy_of(b@),
{
    String::from_utf8_lossy(b).into_owned()
}

/// A name is hidden when its first character is a dot.
pub open spec fn hidden(name: Seq<char>) -> bool {
    name.len() > 0 && name[0] == '.'
}

/// Whether `name` is hidden: it starts with `.`.
pub fn is_hidden(name: &str) -> (r: bool)
    ensures
        r == hidden(name@),
{
    !name.is_empty() && name.get_char(0) == '.'
}

/// The record for an entry whose raw name is `raw`.
pub fn handle_dir_entry(raw: &Vec<u8>) -> (r: EntryRecord)
    ensures
        r.filename@ == utf8_lossy_of(raw@),
{
    EntryRecord { filename: decode_lossy(raw.as_slice()) }
}

/// Every read of the enumeration succeeded.
pub open spec fn all_read(entries: Seq<Result<Vec<u8>, OsError>>) -> bool {
    forall|i: int| 0 <= i < entries.len() ==> (#[trigger] entries[i]) is Ok
}

/// `i` is the position of the first failed read.
pub open spec fn is_first_failure(entries: Seq<Result<Vec<u8>, OsError>>, i: int) -> bool {
    &&& 0 <= i < entries.len()
    &&& entries[i] is Err
    &&& forall|j: int| 0 <= j < i ==> (#[trigger] entries[j]) is Ok
}

/// The names of the entries as text, in enumeration order.
pub open spec fn decoded(entries: Seq<Result<Vec<u8>, OsError>>) -> Seq<Seq<char>> {
    entries.map_values(|e: Result<Vec<u8>, OsError>| utf8_lossy_of(e->Ok_0@))
}

/// The names that a listing shows, in their order: all of them with
/// `almost_all`, else those that are not hidden.
pub open spec fn visible(names: Seq<Seq<char>>, almost_all: bool) -> Seq<Seq<char>>
    decreases names.len(),
{
    if names.len() == 0 {
        Seq::empty()
    } else {
        let rest = visible(names.drop_last(), almost_all);
        if almost_all || !hidden(names.last()) {
            rest.push(names.last())
        } else {
            rest
        }
    }
}

/// The file names that a sequence of records holds.
pub open spec fn filenames(records: Seq<EntryRecord>) -> Seq<Seq<char>> {
    records.map_values(|r: EntryRecord| r.filename@)
}

/// The position of the first failed read, if any.
pub fn first_failure(entries: &Vec<Result<Vec<u8>, OsError>>) -> (r: Option<usize>)
    ensures
        r is None <==> all_read(entries@),
        r matches Some(i) ==> is_first_failure(entries@, i as int),
{
    let mut i: usize = 0;
    while i < entries.len()
        invariant
            0 <= i <= entries.len(),
            forall|j: int| 0 <= j < i ==> (#[trigger] entries@[j]) is Ok,
        decreases entries.len() - i,
    {
        if entries[i].is_err() {
            return Some(i);
        }
        i += 1;
    }
    None
}

/// The listing of an enumeration: its entries' records in enumeration order,
/// without the hidden ones unless `almost_all` is set. When a read failed, the
/// error of the first failed read, and no listing.
pub fn list(entries: Vec<Result<Vec<u8>, OsError>>, almost_all: bool) -> (r: Result<
    Vec<EntryRecord>,
    OsError,
>)
    ensures
        r is Ok <==> all_read(entries@),
        r matches Ok(records) ==> filenames(records@) == visible(decoded(entries@), almost_all),
        r matches Err(e) ==> exists|i: int|
            is_first_failure(entries@, i) && entries@[i] == Err::<Vec<u8>, OsError>(e),
{
    let mut entries = entries;
    match first_failure(&entries) {
        Some(i) => {
            let ghost before = entries@;
            let failed = entries.remove(i);
            match failed {
                Ok(_) => vstd::pervasive::unreached(),
                Err(e) => {
                    assert(before[i as int] == Err::<Vec<u8>, OsError>(e));
                    Err(e)
                },
            }
        },
        None => {
            let ghost names = decoded(entries@);
            let mut records: Vec<EntryRecord> = Vec::new();
            let mut i: usize = 0;
            while i < entries.len()
                invariant
                    0 <= i <= entries.len(),
                    all_read(entries@),
                    names == decoded(entries@),
                    filenames(records@) == visible(names.take(i as int), almost_all),
                decreases entries.len() - i,
            {
                assert(entries@[i as int] is Ok);
                if let Ok(raw) = &entries[i] {
                    let record = handle_dir_entry(raw);
                    let ghost prev = records@;
                    if almost_all || !is_hidden(record.filename.as_str()) {
                        records.push(record);
                        assert(filenames(records@) =~= filenames(prev).push(names[i as int]));
                    }
                }
                assert(names.take(i + 1).drop_last() =~= names.take(i as int));
                i += 1;
            }
            assert(names.take(i as int) =~= names);
            Ok(records)
        },
    }
}

} // verus!
