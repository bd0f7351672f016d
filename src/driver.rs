use vstd::prelude::*;
use vstd::string::StringExecFns;
use crate::listing::{OsError, all_read, decoded, is_first_failure, list, visible};
use crate::output::{format_listing, listing_text};

verus! {

/// The directory listed when none is given.
pub open spec fn default_directory() -> Seq<char> {
    "./"@
}

/// What one run is asked to do.
pub struct Config {
    pub directory: String,
    pub pretty_print: bool,
    pub almost_all: bool,
}

impl Config {
    /// The configuration of a run; without a directory, the current one.
    pub fn new(directory: Option<String>, pretty_print: bool, almost_all: bool) -> (r: Config)
        ensures
            r.directory@ == (match directory {
                Some(d) => d@,
                None => default_directory(),
            }),
            r.pretty_print == pretty_print,
            r.almost_all == almost_all,
    {
        let directory = match directory {
            Some(d) => d,
            None => <String as StringExecFns>::from_str("./"),
        };
        Config { directory, pretty_print, almost_all }
    }
}

/// The text that a run prints for an enumeration in which every read succeeded.
pub open spec fn output_text(
    entries: Seq<Result<Vec<u8>, OsError>>,
    almost_all: bool,
    pretty: bool,
) -> Seq<char> {
    listing_text(visible(decoded(entries), almost_all), pretty)
}

/// The JSON text for an enumeration of the configured directory, or the error
/// of its first failed read.
pub fn process(config: &Config, entries: Vec<Result<Vec<u8>, OsError>>) -> (r: Result<
    String,
    OsError,
>)
    ensures
        r is Ok <==> all_read(entries@),
        r matches Ok(text) ==> text@ == output_text(entries@, config.almost_all, config.pretty_print),
        r matches Err(e) ==> exists|i: int|
            is_first_failure(entries@, i) && entries@[i] == Err::<Vec<u8>, OsError>(e),
{
    match list(entries, config.almost_all) {
        Ok(records) => Ok(format_listing(&records, config.pretty_print)),
        Err(e) => Err(e),
    }
}

/// The line written to standard error for a failed run: `jls: <message>`.
pub fn error_line(e: &OsError) -> (r: String)
    ensures
        r@ == "jls: "@ + e.message@,
{
    let mut line = <String as StringExecFns>::from_str("jls: ");
    line.append(e.message.as_str());
    line
}

/// The exit status of a failed run: the error's native code, else 1.
pub fn exit_code(e: &OsError) -> (r: i32)
    ensures
        r == (match e.code {
            Some(c) => c,
            None => 1,
        }),
{
    match e.code {
        Some(c) => c,
        None => 1,
    }
}

} // verus!
