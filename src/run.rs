use vstd::prelude::*;
use crate::classify::{classify, converted_seq, entries_view, missing_seq};
use crate::feed::{feed_error_text, feed_from_response, is_success_status, parsed_feed, Feed, FetchError};
use crate::xml::feed_supported;
use crate::laws::lemma_classification_total;
use crate::persist::{
    default_error_dir, document_path, normalize_dir, plan_writes, record_path, with_separator,
    PlannedWrite,
};

verus! {

/// What a run works on: the feed to fetch, the directory for documents and
/// the directory for missing-content records (both ending in `/` unless
/// empty).
#[derive(Debug, Clone, PartialEq, Eq)]
pub struct Config {
    pub feed_url: String,
    pub output_dir: String,
    pub error_dir: String,
}

/// The positional arguments are not exactly a feed URL and an output
/// directory.
#[derive(Debug, Clone, Copy, PartialEq, Eq, Structural)]
pub enum ArgumentError {
    MissingFeedUrl,
    MissingOutputDir,
    UnexpectedArgument,
}

/// Builds the configuration from the positional arguments (the program name
/// not included): exactly a feed URL and an output directory. Records go to
/// `errors/` under the output directory.
pub fn parse_arguments(args: &Vec<String>) -> (r: Result<Config, ArgumentError>)
    ensures
        args@.len() == 0 ==> r == Err::<Config, ArgumentError>(ArgumentError::MissingFeedUrl),
        args@.len() == 1 ==> r == Err::<Config, ArgumentError>(ArgumentError::MissingOutputDir),
        args@.len() > 2 ==> r == Err::<Config, ArgumentError>(ArgumentError::UnexpectedArgument),
        args@.len() == 2 ==> match r {
            Ok(c) => {
                &&& c.feed_url@ == args@[0]@
                &&& c.output_dir@ == with_separator(args@[1]@)
                &&& c.error_dir@ == default_error_dir(args@[1]@)
            },
            Err(_) => false,
        },
{
    if args.len() == 0 {
        return Err(ArgumentError::MissingFeedUrl);
    }
    if args.len() == 1 {
        return Err(ArgumentError::MissingOutputDir);
    }
    if args.len() > 2 {
        return Err(ArgumentError::UnexpectedArgument);
    }
    let output_dir = normalize_dir(args[1].as_str());
    let mut error_dir = normalize_dir(args[1].as_str());
    proof {
        reveal_strlit("errors/");
    }
    error_dir.append("errors/");
    Ok(Config { feed_url: args[0].clone(), output_dir, error_dir })
}

/// Why a run stopped before writing anything.
#[derive(Debug, Clone, PartialEq, Eq)]
pub enum RunError {
    Arguments(ArgumentError),
    Fetch(FetchError),
}

impl RunError {
    /// The process exit status: 1 for bad arguments, 2 for a failed fetch.
    /// A run that gets past the fetch exits with 0, whatever became of
    /// single entries.
    pub fn exit_code(&self) -> (r: u8)
        ensures
            r == match self {
                RunError::Arguments(_) => 1u8,
                RunError::Fetch(_) => 2u8,
            },
    {
        match self {
            RunError::Arguments(_) => 1,
            RunError::Fetch(_) => 2,
        }
    }
}

/// The writes that a feed's entries call for, given as the model: first one
/// document per converted entry, then one record per missing entry.
pub open spec fn planned_for(es: Seq<crate::feed::EntryView>, output_dir: Seq<char>, error_dir: Seq<char>, r: Seq<(Seq<char>, Seq<char>)>) -> bool {
    let cs = converted_seq(es);
    let ms = missing_seq(es);
    &&& r.len() == es.len()
    &&& forall|k: int| 0 <= k < cs.len() ==> #[trigger] r[k] == (document_path(output_dir, cs[k].0), cs[k].1)
    &&& forall|k: int| 0 <= k < ms.len() ==> #[trigger] r[cs.len() + k] == (record_path(error_dir, ms[k]), ms[k])
}

pub open spec fn writes_view(v: Seq<PlannedWrite>) -> Seq<(Seq<char>, Seq<char>)> {
    v.map_values(|w: PlannedWrite| w@)
}

/// Classifies a feed's entries and plans one write for each of them.
pub fn plan_feed(feed: &Feed, config: &Config) -> (r: Vec<PlannedWrite>)
    ensures
        planned_for(entries_view(feed.entries@), config.output_dir@, config.error_dir@, writes_view(r@)),
{
    let n = feed.entries.len();
    let (converted, missing) = classify(&feed.entries);
    proof {
        lemma_classification_total(entries_view(feed.entries@));
        assert(converted@.len() == converted_seq(entries_view(feed.entries@)).len());
        assert(missing@.len() == missing_seq(entries_view(feed.entries@)).len());
    }
    let r = plan_writes(&converted, &missing, config.output_dir.as_str(), config.error_dir.as_str());
    proof {
        let es = entries_view(feed.entries@);
        let cs = converted_seq(es);
        let ms = missing_seq(es);
        assert forall|k: int| 0 <= k < cs.len() implies #[trigger] writes_view(r@)[k]
            == (document_path(config.output_dir@, cs[k].0), cs[k].1) by {
            assert(cs[k] == crate::classify::docs_view(converted@)[k]);
        }
        assert forall|k: int| 0 <= k < ms.len() implies #[trigger] writes_view(r@)[cs.len() + k]
            == (record_path(config.error_dir@, ms[k]), ms[k]) by {
            assert(ms[k] == crate::classify::records_view(missing@)[k]);
            assert(r@[converted@.len() + k]@ == (record_path(config.error_dir@, missing@[k].title@), missing@[k].title@));
        }
    }
    r
}

/// Decides a run from the answer to the feed request: a failed fetch
/// (status, nesting or parse) is fatal and plans no write at all; otherwise
/// every entry gets its write.
pub fn plan_from_response(status: u16, body: &[u8], config: &Config) -> (r: Result<Vec<PlannedWrite>, RunError>)
    ensures
        !is_success_status(status) ==> r == Err::<Vec<PlannedWrite>, RunError>(RunError::Fetch(FetchError::HttpStatus(status))),
        is_success_status(status) && !feed_supported(body@) ==> match r {
            Err(RunError::Fetch(FetchError::ParseFailure(m))) => m@ == "element nesting too deep"@,
            _ => false,
        },
        is_success_status(status) && feed_supported(body@) ==> match (r, parsed_feed(body@)) {
            (Ok(w), Some(v)) => planned_for(v.entries, config.output_dir@, config.error_dir@, writes_view(w@)),
            (Err(RunError::Fetch(FetchError::ParseFailure(m))), None) => m@ == feed_error_text(body@),
            _ => false,
        },
{
    match feed_from_response(status, body) {
        Ok(feed) => Ok(plan_feed(&feed, config)),
        Err(e) => Err(RunError::Fetch(e)),
    }
}

} // verus!
