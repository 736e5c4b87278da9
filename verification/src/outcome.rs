//! What an operation came back with, and the line that reports it.

use crate::request::Step;
use vstd::prelude::*;

verus! {

/// The result of one operation: what the backend answered, or the error that
/// stood in the way, described for the operator.
#[derive(Debug, PartialEq, Eq)]
pub enum TransferResult {
    /// The names of the buckets that the credentials can see.
    Buckets(Vec<String>),
    /// The backend did what was asked; the text describes its answer.
    Acknowledged(String),
    /// The body of an object was received; the text describes the response.
    Body(String),
    /// The operation failed; the text describes the error.
    Failed(String),
}

/// The names among the entries of a listing, in the order of the listing.
pub open spec fn named(entries: Seq<Option<Seq<char>>>) -> Seq<Seq<char>>
    decreases entries.len(),
{
    if entries.len() == 0 {
        Seq::empty()
    } else {
        let rest = named(entries.drop_last());
        match entries.last() {
            Some(name) => rest.push(name),
            None => rest,
        }
    }
}

/// The names with `", "` between each two of them.
pub open spec fn joined(names: Seq<Seq<char>>) -> Seq<char>
    decreases names.len(),
{
    if names.len() == 0 {
        Seq::empty()
    } else if names.len() == 1 {
        names[0]
    } else {
        joined(names.drop_last()) + ", "@ + names.last()
    }
}

/// A list of names as it is reported: in square brackets, with `", "`
/// between each two of them.
pub open spec fn listed(names: Seq<Seq<char>>) -> Seq<char> {
    "["@ + joined(names) + "]"@
}

/// The word that opens the report of an operation: `Error` for a failure
/// of any operation, else what the operation yields.
pub open spec fn spec_label(step: Step, success: bool) -> Seq<char> {
    if !success {
        "Error"@
    } else {
        match step {
            Step::ListBuckets => "Buckets"@,
            Step::DeleteBucket => "Bucket"@,
            Step::CreateBucket => "Bucket"@,
            Step::Upload => "Upload"@,
            Step::Download => "Download"@,
        }
    }
}

/// The line that reports the result of an operation: the label, a colon and
/// a space, and the result's detail.
pub open spec fn spec_report(step: Step, result: TransferResult) -> Seq<char> {
    spec_label(step, result.is_success()) + ": "@ + result.spec_detail()
}

impl TransferResult {
    /// Everything but `Failed` is a success, an empty list of buckets too.
    pub open spec fn is_success(self) -> bool {
        !(self is Failed)
    }

    /// What the report says of the result after its label.
    pub open spec fn spec_detail(self) -> Seq<char> {
        match self {
            TransferResult::Buckets(names) => listed(names.deep_view()),
            TransferResult::Acknowledged(text) => text@,
            TransferResult::Body(text) => text@,
            TransferResult::Failed(text) => text@,
        }
    }

    /// The result of listing the buckets, from the entries that the backend
    /// sent. Entries without a name are passed over; no entries at all give
    /// an empty list, which is a success like any other.
    pub fn listing(entries: &Vec<Option<String>>) -> (result: TransferResult)
        ensures
            result matches TransferResult::Buckets(names) && names.deep_view() == named(
                entries.deep_view(),
            ),
    {
        let mut names: Vec<String> = Vec::new();
        let mut i: usize = 0;
        while i < entries.len()
            invariant
                i <= entries.len(),
                names.deep_view() == named(entries.deep_view().take(i as int)),
            decreases entries.len() - i,
        {
            let ghost before = names.deep_view();
            let ghost prefix = entries.deep_view().take(i as int + 1);
            assert(prefix.drop_last() == entries.deep_view().take(i as int));
            assert(prefix.last() == entries[i as int].deep_view());
            match &entries[i] {
                Some(name) => {
                    names.push(name.clone());
                    assert(names.deep_view() == before.push(name@));
                },
                None => {},
            }
            i += 1;
        }
        assert(entries.deep_view().take(i as int) == entries.deep_view());
        TransferResult::Buckets(names)
    }

    /// Whether the operation did what was asked of it.
    pub fn succeeded(&self) -> (yes: bool)
        ensures
            yes == self.is_success(),
    {
        match self {
            TransferResult::Failed(_) => false,
            _ => true,
        }
    }

    /// What the report says of the result after its label.
    pub fn detail(&self) -> (text: String)
        ensures
            text@ == self.spec_detail(),
    {
        match self {
            TransferResult::Buckets(names) => list_names(names),
            TransferResult::Acknowledged(text) => text.clone(),
            TransferResult::Body(text) => text.clone(),
            TransferResult::Failed(text) => text.clone(),
        }
    }
}

/// Writes a list of names as it is reported.
pub fn list_names(names: &Vec<String>) -> (text: String)
    ensures
        text@ == listed(names.deep_view()),
{
    let mut text = String::from_str("[");
    let mut i: usize = 0;
    while i < names.len()
        invariant
            i <= names.len(),
            text@ == "["@ + joined(names.deep_view().take(i as int)),
        decreases names.len() - i,
    {
        let ghost prefix = names.deep_view().take(i as int + 1);
        assert(prefix.drop_last() == names.deep_view().take(i as int));
        assert(prefix.last() == names[i as int]@);
        if i > 0 {
            text.append(", ");
        }
        text.append(names[i].as_str());
        assert(text@ == "["@ + joined(prefix));
        i += 1;
    }
    assert(names.deep_view().take(i as int) == names.deep_view());
    text.append("]");
    text
}

/// The word that opens the report of an operation.
pub fn label(step: Step, success: bool) -> (text: &'static str)
    ensures
        text@ == spec_label(step, success),
{
    if !success {
        "Error"
    } else {
        match step {
            Step::ListBuckets => "Buckets",
            Step::DeleteBucket => "Bucket",
            Step::CreateBucket => "Bucket",
            Step::Upload => "Upload",
            Step::Download => "Download",
        }
    }
}

/// The line that reports the result of an operation.
pub fn report(step: Step, result: &TransferResult) -> (line: String)
    ensures
        line@ == spec_report(step, *result),
{
    let mut line = String::from_str(label(step, result.succeeded()));
    line.append(": ");
    let detail = result.detail();
    line.append(detail.as_str());
    line
}

} // verus!
