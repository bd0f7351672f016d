use vstd::prelude::*;
use crate::listing::{OsError, all_read, decoded, hidden, utf8_lossy_of, visible};
use crate::driver::output_text;

verus! {

/// With `almost_all`, a listing holds every name of the enumeration exactly
/// once, in enumeration order, with no name left out.
pub proof fn law_almost_all_keeps_every_entry(names: Seq<Seq<char>>)
    ensures
        visible(names, true) == names,
    decreases names.len(),
{
    if names.len() > 0 {
        law_almost_all_keeps_every_entry(names.drop_last());
        assert(names.drop_last().push(names.last()) =~= names);
    }
}

/// Without `almost_all`, a listing leaves out exactly the names that start
/// with `.` and keeps all others in their relative order.
pub proof fn law_hidden_names_left_out(names: Seq<Seq<char>>)
    ensures
        visible(names, false) == names.filter(|n: Seq<char>| !hidden(n)),
        forall|i: int|
            0 <= i < visible(names, false).len() ==> !hidden(#[trigger] visible(names, false)[i]),
        forall|i: int|
            0 <= i < names.len() && !hidden(names[i]) ==> visible(names, false).contains(
                #[trigger] names[i],
            ),
    decreases names.len(),
{
    let p = |n: Seq<char>| !hidden(n);
    reveal(Seq::filter);
    if names.len() > 0 {
        law_hidden_names_left_out(names.drop_last());
    }
    names.filter_lemma(p);
}

/// Two enumerations that yield the same names give the same output: listing
/// an unmodified directory twice with the same flags prints the same text.
pub proof fn law_same_names_same_output(
    first: Seq<Result<Vec<u8>, OsError>>,
    second: Seq<Result<Vec<u8>, OsError>>,
    almost_all: bool,
    pretty: bool,
)
    requires
        first.len() == second.len(),
        forall|i: int| 0 <= i < first.len() ==> (#[trigger] first[i])->Ok_0@ == second[i]->Ok_0@,
    ensures
        output_text(first, almost_all, pretty) == output_text(second, almost_all, pretty),
{
    assert(decoded(first) =~= decoded(second));
}

/// A name that is not valid UTF-8 fails nothing: when every read succeeds,
/// each entry is listed under the lossy decoding of its bytes, whatever they are.
pub proof fn law_any_name_is_listed(entries: Seq<Result<Vec<u8>, OsError>>)
    requires
        all_read(entries),
    ensures
        visible(decoded(entries), true).len() == entries.len(),
        forall|i: int|
            0 <= i < entries.len() ==> #[trigger] visible(decoded(entries), true)[i]
                == utf8_lossy_of(entries[i]->Ok_0@),
{
    law_almost_all_keeps_every_entry(decoded(entries));
}

} // verus!
