//! Where a branch's upload lands on disk: `data/<identifier>` for the
//! directory and a fixed report filename inside it.

use vstd::prelude::*;

verus! {

/// The directory a branch's reports land in.
pub open spec fn directory_path(identifier: Seq<char>) -> Seq<char> {
    "data/"@ + identifier
}

/// The file a branch's weekly report is written to, inside its directory.
pub open spec fn report_path(identifier: Seq<char>) -> Seq<char> {
    directory_path(identifier) + "/branch_weekly_sales.txt"@
}

/// Relies on String::push_str: appends the slice to the end of the string.
#[verifier::external_body]
fn push_str(s: &mut String, t: &str)
    ensures
        final(s)@ == old(s)@ + t@,
{
    s.push_str(t);
}

/// Builds the directory path for a branch identifier.
pub fn branch_directory(identifier: &str) -> (p: String)
    ensures
        p@ == directory_path(identifier@),
{
    let mut p = String::new();
    push_str(&mut p, "data/");
    push_str(&mut p, identifier);
    proof {
        assert(p@ =~= directory_path(identifier@));
    }
    p
}

/// Builds the report file path for a branch identifier.
pub fn branch_report_file(identifier: &str) -> (p: String)
    ensures
        p@ == report_path(identifier@),
{
    let mut p = branch_directory(identifier);
    push_str(&mut p, "/branch_weekly_sales.txt");
    p
}

/// Different identifiers never share a directory or a report file: the
/// paths differ whenever the identifiers do.
pub proof fn lemma_distinct_identifiers_distinct_paths(a: Seq<char>, b: Seq<char>)
    requires
        a != b,
    ensures
        directory_path(a) != directory_path(b),
        report_path(a) != report_path(b),
{
    reveal_strlit("data/");
    reveal_strlit("/branch_weekly_sales.txt");
    assert("data/"@.len() == 5);
    assert("/branch_weekly_sales.txt"@.len() == 24);
    if directory_path(a) == directory_path(b) {
        assert(directory_path(a).len() == directory_path(b).len());
        assert(a.len() == b.len());
        assert forall|i: int| 0 <= i < a.len() implies a[i] == b[i] by {
            assert(directory_path(a)[5 + i] == a[i]);
            assert(directory_path(b)[5 + i] == b[i]);
        }
        assert(a =~= b);
    }
    if report_path(a) == report_path(b) {
        assert(report_path(a).len() == 29 + a.len());
        assert(report_path(b).len() == 29 + b.len());
        assert(a.len() == b.len());
        assert forall|i: int| 0 <= i < a.len() implies a[i] == b[i] by {
            assert(report_path(a)[5 + i] == a[i]);
            assert(report_path(b)[5 + i] == b[i]);
        }
        assert(a =~= b);
    }
}

} // verus!
