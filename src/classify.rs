use vstd::prelude::*;
use crate::convert::{conversion, convert_html_to_markdown, ConvertError};
use crate::feed::{Entry, EntryView};

verus! {

/// An entry whose content converted to a non-empty document.
#[derive(Debug, Clone, PartialEq, Eq)]
pub struct ConvertedDocument {
    pub title: String,
    pub document: String,
}

impl View for ConvertedDocument {
    type V = (Seq<char>, Seq<char>);

    open spec fn view(&self) -> (Seq<char>, Seq<char>) {
        (self.title@, self.document@)
    }
}

impl ConvertedDocument {
    /// A converted document is never empty.
    pub open spec fn wf(&self) -> bool {
        self.document@.len() > 0
    }
}

/// An entry that yielded no usable document.
#[derive(Debug, Clone, PartialEq, Eq)]
pub struct MissingRecord {
    pub title: String,
}

impl View for MissingRecord {
    type V = Seq<char>;

    open spec fn view(&self) -> Seq<char> {
        self.title@
    }
}

/// Where one entry goes.
#[derive(Debug, Clone, PartialEq, Eq)]
pub enum Routed {
    Converted(ConvertedDocument),
    Missing(MissingRecord),
}

/// An entry's title, or the empty string where it has none.
pub open spec fn entry_title(e: EntryView) -> Seq<char> {
    match e.title {
        Some(t) => t,
        None => Seq::empty(),
    }
}

/// The document that a conversion outcome provides, if any: `None` stands
/// for absent content; a failed or empty conversion provides nothing.
pub open spec fn usable_document(c: Option<Result<Seq<char>, ConvertError>>) -> Option<Seq<char>> {
    match c {
        Some(Ok(d)) => if d.len() > 0 { Some(d) } else { None },
        _ => None,
    }
}

pub open spec fn outcome_view(c: Option<Result<String, ConvertError>>) -> Option<Result<Seq<char>, ConvertError>> {
    match c {
        Some(Ok(d)) => Some(Ok(d@)),
        Some(Err(e)) => Some(Err(e)),
        None => None,
    }
}

/// The conversion outcome of an entry: `None` where it has no content.
pub open spec fn entry_outcome(e: EntryView) -> Option<Result<Seq<char>, ConvertError>> {
    match e.content {
        Some(h) => Some(conversion(h)),
        None => None,
    }
}

pub open spec fn entry_document(e: EntryView) -> Option<Seq<char>> {
    usable_document(entry_outcome(e))
}

/// The converted documents of `es`, as (title, document), in feed order.
pub open spec fn converted_seq(es: Seq<EntryView>) -> Seq<(Seq<char>, Seq<char>)>
    decreases es.len(),
{
    if es.len() == 0 {
        Seq::empty()
    } else {
        let prev = converted_seq(es.drop_last());
        match entry_document(es.last()) {
            Some(d) => prev.push((entry_title(es.last()), d)),
            None => prev,
        }
    }
}

/// The titles of the entries of `es` that yield no document, in feed order.
pub open spec fn missing_seq(es: Seq<EntryView>) -> Seq<Seq<char>>
    decreases es.len(),
{
    if es.len() == 0 {
        Seq::empty()
    } else {
        let prev = missing_seq(es.drop_last());
        match entry_document(es.last()) {
            Some(_) => prev,
            None => prev.push(entry_title(es.last())),
        }
    }
}

pub open spec fn docs_view(v: Seq<ConvertedDocument>) -> Seq<(Seq<char>, Seq<char>)> {
    v.map_values(|d: ConvertedDocument| d@)
}

pub open spec fn records_view(v: Seq<MissingRecord>) -> Seq<Seq<char>> {
    v.map_values(|m: MissingRecord| m@)
}

pub open spec fn entries_view(v: Seq<Entry>) -> Seq<EntryView> {
    v.map_values(|e: Entry| e@)
}

/// Routes one entry given its conversion outcome (`None`: no content). A
/// non-empty document makes a `ConvertedDocument`; absent content, a failed
/// conversion and an empty document all make a `MissingRecord`.
pub fn route_entry(title: String, converted: Option<Result<String, ConvertError>>) -> (r: Routed)
    ensures
        match (r, usable_document(outcome_view(converted))) {
            (Routed::Converted(c), Some(d)) => c@ == (title@, d),
            (Routed::Missing(m), None) => m@ == title@,
            _ => false,
        },
{
    match converted {
        Some(Ok(document)) => {
            if document.unicode_len() > 0 {
                Routed::Converted(ConvertedDocument { title, document })
            } else {
                Routed::Missing(MissingRecord { title })
            }
        },
        _ => Routed::Missing(MissingRecord { title }),
    }
}

/// Converts and routes one entry.
pub fn classify_entry(e: &Entry) -> (r: Routed)
    ensures
        match (r, entry_document(e@)) {
            (Routed::Converted(c), Some(d)) => c@ == (entry_title(e@), d),
            (Routed::Missing(m), None) => m@ == entry_title(e@),
            _ => false,
        },
{
    let title = match &e.title {
        Some(t) => t.clone(),
        None => String::new(),
    };
    let converted = match &e.content {
        Some(html) => Some(convert_html_to_markdown(html.clone())),
        None => None,
    };
    route_entry(title, converted)
}

/// Splits the entries into converted documents and missing records. Every
/// entry lands in exactly one of the two lists, and each list keeps feed
/// order.
pub fn classify(entries: &Vec<Entry>) -> (r: (Vec<ConvertedDocument>, Vec<MissingRecord>))
    ensures
        docs_view(r.0@) == converted_seq(entries_view(entries@)),
        records_view(r.1@) == missing_seq(entries_view(entries@)),
        forall|k: int| 0 <= k < r.0@.len() ==> (#[trigger] r.0@[k]).wf(),
{
    let mut converted: Vec<ConvertedDocument> = Vec::new();
    let mut missing: Vec<MissingRecord> = Vec::new();
    let n = entries.len();
    let mut i: usize = 0;
    while i < n
        invariant
            n == entries@.len(),
            i <= n,
            docs_view(converted@) == converted_seq(entries_view(entries@.take(i as int))),
            records_view(missing@) == missing_seq(entries_view(entries@.take(i as int))),
            forall|k: int| 0 <= k < converted@.len() ==> (#[trigger] converted@[k]).wf(),
        decreases n - i,
    {
        let ghost before = entries_view(entries@.take(i as int));
        let ghost after = entries_view(entries@.take(i + 1));
        proof {
            assert(after.drop_last() =~= before);
            assert(after.last() == entries@[i as int]@);
        }
        let ghost conv0 = converted@;
        let ghost miss0 = missing@;
        match classify_entry(&entries[i]) {
            Routed::Converted(c) => {
                converted.push(c);
                assert(converted@.drop_last() =~= conv0);
                assert(docs_view(converted@) =~= docs_view(conv0).push(c@));
            },
            Routed::Missing(m) => {
                missing.push(m);
                assert(missing@.drop_last() =~= miss0);
                assert(records_view(missing@) =~= records_view(miss0).push(m@));
            },
        }
        i = i + 1;
    }
    proof {
        assert(entries@.take(n as int) =~= entries@);
    }
    (converted, missing)
}

} // verus!
