//! Address of the downstream insert endpoint: the base address with its
//! trailing slashes removed, followed by the path that names project,
//! dataset and table.

use vstd::prelude::*;
use vstd::string::*;

verus! {

/// `s` without the slashes that end it.
pub open spec fn trim_trailing_slashes(s: Seq<char>) -> Seq<char>
    decreases s.len(),
{
    if s.len() > 0 && s.last() == '/' {
        trim_trailing_slashes(s.drop_last())
    } else {
        s
    }
}

/// An identifier that can stand as one segment of a path: it is not empty
/// and holds no slash.
pub open spec fn is_path_segment(s: Seq<char>) -> bool {
    s.len() > 0 && forall|i: int| 0 <= i < s.len() ==> #[trigger] s[i] != '/'
}

/// No two neighbouring characters of `s` are both slashes.
pub open spec fn single_slashes(s: Seq<char>) -> bool {
    forall|i: int| 0 <= i && i + 1 < s.len() ==> !(#[trigger] s[i] == '/' && s[i + 1] == '/')
}

/// Path of the insert endpoint for a table of a dataset of a project.
pub open spec fn insert_path(project: Seq<char>, dataset: Seq<char>, table: Seq<char>) -> Seq<
    char,
> {
    "/bigquery/v2/projects/"@ + project + "/datasets/"@ + dataset + "/tables/"@ + table
        + "/insertAll"@
}

/// Address of the insert endpoint below `base`.
pub open spec fn insert_url(
    base: Seq<char>,
    project: Seq<char>,
    dataset: Seq<char>,
    table: Seq<char>,
) -> Seq<char> {
    trim_trailing_slashes(base) + insert_path(project, dataset, table)
}

/// What trimming keeps: a prefix of `s` that does not end in a slash, and
/// all it drops are slashes.
pub proof fn lemma_trim_trailing_slashes(s: Seq<char>)
    ensures
        trim_trailing_slashes(s).len() <= s.len(),
        trim_trailing_slashes(s) == s.subrange(0, trim_trailing_slashes(s).len() as int),
        trim_trailing_slashes(s).len() > 0 ==> trim_trailing_slashes(s).last() != '/',
        forall|i: int| trim_trailing_slashes(s).len() <= i < s.len() ==> #[trigger] s[i] == '/',
    decreases s.len(),
{
    if s.len() > 0 && s.last() == '/' {
        let shorter = s.drop_last();
        lemma_trim_trailing_slashes(shorter);
        let kept = trim_trailing_slashes(shorter);
        assert forall|i: int| kept.len() <= i < s.len() implies #[trigger] s[i] == '/' by {
            if i < shorter.len() {
                assert(shorter[i] == '/');
            }
        }
    }
}

/// Joining two runs without doubled slashes gives one, unless a slash ends
/// the first and another begins the second.
proof fn lemma_single_slashes_concat(a: Seq<char>, b: Seq<char>)
    requires
        single_slashes(a),
        single_slashes(b),
        a.len() > 0 && b.len() > 0 ==> !(a.last() == '/' && b[0] == '/'),
    ensures
        single_slashes(a + b),
{
}

/// A path segment has no doubled slash, having no slash at all.
proof fn lemma_segment_single_slashes(s: Seq<char>)
    requires
        is_path_segment(s),
    ensures
        single_slashes(s),
        s[0] != '/',
        s.last() != '/',
{
}

/// The insert path begins with one slash and nowhere holds two in a row,
/// whenever the three identifiers are path segments.
pub proof fn lemma_insert_path_single_slashes(
    project: Seq<char>,
    dataset: Seq<char>,
    table: Seq<char>,
)
    requires
        is_path_segment(project),
        is_path_segment(dataset),
        is_path_segment(table),
    ensures
        insert_path(project, dataset, table).len() > 0,
        insert_path(project, dataset, table)[0] == '/',
        single_slashes(insert_path(project, dataset, table)),
{
    reveal_strlit("/bigquery/v2/projects/");
    reveal_strlit("/datasets/");
    reveal_strlit("/tables/");
    reveal_strlit("/insertAll");
    let p0 = "/bigquery/v2/projects/"@;
    lemma_segment_single_slashes(project);
    lemma_segment_single_slashes(dataset);
    lemma_segment_single_slashes(table);
    let p1 = p0 + project;
    let p2 = p1 + "/datasets/"@;
    let p3 = p2 + dataset;
    let p4 = p3 + "/tables/"@;
    let p5 = p4 + table;
    lemma_single_slashes_concat(p0, project);
    lemma_single_slashes_concat(p1, "/datasets/"@);
    lemma_single_slashes_concat(p2, dataset);
    lemma_single_slashes_concat(p3, "/tables/"@);
    lemma_single_slashes_concat(p4, table);
    lemma_single_slashes_concat(p5, "/insertAll"@);
}

/// The constructed address is the trimmed base followed by the insert path,
/// and from the last character of the base onward no slash is doubled: the
/// only doubled slashes of the address are those inside the base itself,
/// such as the pair after its scheme.
pub proof fn lemma_insert_url_single_slashes(
    base: Seq<char>,
    project: Seq<char>,
    dataset: Seq<char>,
    table: Seq<char>,
)
    requires
        is_path_segment(project),
        is_path_segment(dataset),
        is_path_segment(table),
    ensures
        ({
            let kept = trim_trailing_slashes(base);
            let url = insert_url(base, project, dataset, table);
            &&& url == kept + insert_path(project, dataset, table)
            &&& url.subrange(0, kept.len() as int) == kept
            &&& url.subrange(kept.len() as int, url.len() as int) == insert_path(
                project,
                dataset,
                table,
            )
            &&& forall|i: int|
                0 <= i && kept.len() - 1 <= i && i + 1 < url.len() ==> !(#[trigger] url[i] == '/'
                    && url[i + 1] == '/')
            &&& single_slashes(kept) ==> single_slashes(url)
        }),
{
    let kept = trim_trailing_slashes(base);
    let path = insert_path(project, dataset, table);
    lemma_trim_trailing_slashes(base);
    lemma_insert_path_single_slashes(project, dataset, table);
    if single_slashes(kept) {
        lemma_single_slashes_concat(kept, path);
    }
}

/// A base address made of a scheme and an authority: `scheme://authority`.
pub open spec fn origin(scheme: Seq<char>, authority: Seq<char>) -> Seq<char> {
    scheme + "://"@ + authority
}

/// Slashes added at the end of a base address change nothing of what
/// trimming keeps, and so nothing of the constructed address.
pub proof fn lemma_trailing_slashes_ignored(base: Seq<char>, slashes: Seq<char>)
    requires
        forall|i: int| 0 <= i < slashes.len() ==> #[trigger] slashes[i] == '/',
    ensures
        trim_trailing_slashes(base + slashes) == trim_trailing_slashes(base),
    decreases slashes.len(),
{
    if slashes.len() > 0 {
        let fewer = slashes.drop_last();
        assert((base + slashes).drop_last() =~= base + fewer);
        lemma_trailing_slashes_ignored(base, fewer);
    }
}

/// For a base address `scheme://authority`, with or without slashes after
/// it, the constructed address is that base followed by the insert path, and
/// its only doubled slash is the one after the scheme.
pub proof fn lemma_insert_url_of_origin(
    scheme: Seq<char>,
    authority: Seq<char>,
    slashes: Seq<char>,
    project: Seq<char>,
    dataset: Seq<char>,
    table: Seq<char>,
)
    requires
        is_path_segment(scheme),
        is_path_segment(authority),
        forall|i: int| 0 <= i < slashes.len() ==> #[trigger] slashes[i] == '/',
        is_path_segment(project),
        is_path_segment(dataset),
        is_path_segment(table),
    ensures
        ({
            let url = insert_url(origin(scheme, authority) + slashes, project, dataset, table);
            &&& url == origin(scheme, authority) + insert_path(project, dataset, table)
            &&& forall|i: int|
                0 <= i && i + 1 < url.len() && #[trigger] url[i] == '/' && url[i + 1] == '/' ==> i
                    == scheme.len() + 1
        }),
{
    reveal_strlit("://");
    let base = origin(scheme, authority);
    lemma_trailing_slashes_ignored(base, slashes);
    lemma_insert_url_single_slashes(base, project, dataset, table);
}

/// `base` without the slashes that end it.
pub fn trimmed_base(base: &str) -> (kept: &str)
    ensures
        kept@ == trim_trailing_slashes(base@),
{
    let n: usize = base.unicode_len();
    let mut end: usize = n;
    assert(base@.subrange(0, end as int) =~= base@);
    while end > 0 && base.get_char(end - 1) == '/'
        invariant
            end <= n,
            n == base@.len(),
            trim_trailing_slashes(base@) == trim_trailing_slashes(base@.subrange(0, end as int)),
        decreases end,
    {
        proof {
            let cur = base@.subrange(0, end as int);
            assert(cur.drop_last() =~= base@.subrange(0, end - 1));
        }
        end = end - 1;
    }
    base.substring_char(0, end)
}

/// Builds the address of the insert endpoint: `base` without its trailing
/// slashes, then the path that names `project`, `dataset` and `table`.
pub fn build_insert_url(base: &str, project: &str, dataset: &str, table: &str) -> (url: String)
    ensures
        url@ == insert_url(base@, project@, dataset@, table@),
{
    let mut url = String::from_str(trimmed_base(base));
    url.append("/bigquery/v2/projects/");
    url.append(project);
    url.append("/datasets/");
    url.append(dataset);
    url.append("/tables/");
    url.append(table);
    url.append("/insertAll");
    url
}

} // verus!
