use vstd::prelude::*;
use crate::classify::{ConvertedDocument, MissingRecord};

verus! {

/// The character that stands for `c` in a file name: path separators and
/// control characters become `_`, every other character is kept.
pub open spec fn safe_char(c: char) -> char {
    if c == '/' || c == '\\' || (c as u32) < 32 || (c as u32) == 127 {
        '_'
    } else {
        c
    }
}

/// A title made safe as a file name, one character for one. Two titles that
/// differ only in replaced characters give the same name; the later write
/// then wins.
pub open spec fn sanitized(s: Seq<char>) -> Seq<char> {
    s.map_values(|c: char| safe_char(c))
}

/// A directory path that ends in `/`, so that a file name can follow it.
/// The empty path (the working directory) stays empty.
pub open spec fn with_separator(dir: Seq<char>) -> Seq<char> {
    if dir.len() > 0 && dir.last() != '/' {
        dir.push('/')
    } else {
        dir
    }
}

pub open spec fn document_path(dir: Seq<char>, title: Seq<char>) -> Seq<char> {
    with_separator(dir) + sanitized(title) + seq!['.', 'm', 'd']
}

pub open spec fn record_path(dir: Seq<char>, title: Seq<char>) -> Seq<char> {
    with_separator(dir) + sanitized(title) + seq!['.', 't', 'x', 't']
}

/// Where missing-content records go by default: `errors/` under the output
/// directory.
pub open spec fn default_error_dir(output_dir: Seq<char>) -> Seq<char> {
    with_separator(output_dir) + seq!['e', 'r', 'r', 'o', 'r', 's', '/']
}

fn is_unsafe_char(c: char) -> (r: bool)
    ensures
        r == (safe_char(c) != c),
{
    c == '/' || c == '\\' || (c as u32) < 32 || (c as u32) == 127
}

/// Makes a title safe to use as a file name.
pub fn sanitize_title(title: &str) -> (r: String)
    ensures
        r@ == sanitized(title@),
{
    let n = title.unicode_len();
    let mut r = String::new();
    let mut i: usize = 0;
    while i < n
        invariant
            n == title@.len(),
            i <= n,
            r@ == sanitized(title@.take(i as int)),
        decreases n - i,
    {
        let c = title.get_char(i);
        let ghost r0 = r@;
        if is_unsafe_char(c) {
            proof {
                reveal_strlit("_");
            }
            r.append("_");
            assert(r@ =~= r0.push('_'));
        } else {
            let one = title.substring_char(i, i + 1);
            assert(one@ =~= seq![c]);
            r.append(one);
            assert(r@ =~= r0.push(c));
        }
        assert(title@.take(i + 1) =~= title@.take(i as int).push(c));
        assert(sanitized(title@.take(i + 1)) =~= sanitized(title@.take(i as int)).push(safe_char(c)));
        i = i + 1;
    }
    assert(title@.take(n as int) =~= title@);
    r
}

/// Appends `/` to a non-empty directory path that does not end in one.
pub fn normalize_dir(dir: &str) -> (r: String)
    ensures
        r@ == with_separator(dir@),
{
    let n = dir.unicode_len();
    let mut r = String::from_str(dir);
    proof {
        reveal_strlit("/");
    }
    if n > 0 && dir.get_char(n - 1) != '/' {
        r.append("/");
    }
    r
}

/// The file that holds the document of the entry titled `title`.
pub fn document_file(dir: &str, title: &str) -> (r: String)
    ensures
        r@ == document_path(dir@, title@),
{
    let mut r = normalize_dir(dir);
    let name = sanitize_title(title);
    r.append(name.as_str());
    proof {
        reveal_strlit(".md");
    }
    r.append(".md");
    r
}

/// The file that records the entry titled `title` as missing.
pub fn record_file(dir: &str, title: &str) -> (r: String)
    ensures
        r@ == record_path(dir@, title@),
{
    let mut r = normalize_dir(dir);
    let name = sanitize_title(title);
    r.append(name.as_str());
    proof {
        reveal_strlit(".txt");
    }
    r.append(".txt");
    r
}

/// One file to create (or truncate) and the text to write into it.
#[derive(Debug, Clone, PartialEq, Eq)]
pub struct PlannedWrite {
    pub path: String,
    pub contents: String,
}

impl View for PlannedWrite {
    type V = (Seq<char>, Seq<char>);

    open spec fn view(&self) -> (Seq<char>, Seq<char>) {
        (self.path@, self.contents@)
    }
}

/// The writes for a classified feed: first each converted document, into
/// `<output_dir><title>.md`, then each missing record, into
/// `<error_dir><title>.txt` holding the title itself, both in list order.
pub fn plan_writes(
    converted: &Vec<ConvertedDocument>,
    missing: &Vec<MissingRecord>,
    output_dir: &str,
    error_dir: &str,
) -> (r: Vec<PlannedWrite>)
    requires
        converted@.len() + missing@.len() <= usize::MAX,
    ensures
        r@.len() == converted@.len() + missing@.len(),
        forall|k: int| 0 <= k < converted@.len() ==> #[trigger] r@[k]@ == (
            document_path(output_dir@, converted@[k].title@),
            converted@[k].document@,
        ),
        forall|k: int| 0 <= k < missing@.len() ==> #[trigger] r@[converted@.len() + k]@ == (
            record_path(error_dir@, missing@[k].title@),
            missing@[k].title@,
        ),
{
    let mut r: Vec<PlannedWrite> = Vec::new();
    let mut i: usize = 0;
    while i < converted.len()
        invariant
            i <= converted@.len(),
            r@.len() == i,
            forall|k: int| 0 <= k < i ==> #[trigger] r@[k]@ == (
                document_path(output_dir@, converted@[k].title@),
                converted@[k].document@,
            ),
        decreases converted@.len() - i,
    {
        let c = &converted[i];
        let path = document_file(output_dir, c.title.as_str());
        r.push(PlannedWrite { path, contents: c.document.clone() });
        i = i + 1;
    }
    let n = converted.len();
    let mut j: usize = 0;
    while j < missing.len()
        invariant
            n == converted@.len(),
            n + missing@.len() <= usize::MAX,
            j <= missing@.len(),
            r@.len() == n + j,
            forall|k: int| 0 <= k < n ==> #[trigger] r@[k]@ == (
                document_path(output_dir@, converted@[k].title@),
                converted@[k].document@,
            ),
            forall|k: int| 0 <= k < j ==> #[trigger] r@[n + k]@ == (
                record_path(error_dir@, missing@[k].title@),
                missing@[k].title@,
            ),
        decreases missing@.len() - j,
    {
        let m = &missing[j];
        let path = record_file(error_dir, m.title.as_str());
        r.push(PlannedWrite { path, contents: m.title.clone() });
        assert(r@[n + j as int] == r@.last());
        j = j + 1;
    }
    r
}

/// The number of `false` outcomes in `s`.
pub open spec fn failures(s: Seq<bool>) -> nat
    decreases s.len(),
{
    if s.len() == 0 {
        0
    } else {
        failures(s.drop_last()) + if s.last() { 0nat } else { 1nat }
    }
}

/// Counts the writes that failed, for the closing summary.
pub fn count_failures(outcomes: &Vec<bool>) -> (r: usize)
    ensures
        r == failures(outcomes@),
{
    let mut count: usize = 0;
    let mut i: usize = 0;
    while i < outcomes.len()
        invariant
            i <= outcomes@.len(),
            count == failures(outcomes@.take(i as int)),
            count <= i,
        decreases outcomes@.len() - i,
    {
        assert(outcomes@.take(i + 1).drop_last() =~= outcomes@.take(i as int));
        if !outcomes[i] {
            count = count + 1;
        }
        i = i + 1;
    }
    assert(outcomes@.take(outcomes@.len() as int) =~= outcomes@);
    count
}

} // verus!
