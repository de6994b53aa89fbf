//! How directory paths are written into the index: `/` as the only separator
//! and no trailing separator, so that one directory has one spelling.
use vstd::prelude::*;
use crate::text::push_char;
use crate::mod_database::constants::DatabaseTableName;

verus! {

/// `s` with every `\` replaced by `/`.
pub open spec fn replace_backslashes(s: Seq<char>) -> Seq<char> {
    Seq::new(s.len(), |i: int| if s[i] == '\\' { '/' } else { s[i] })
}

/// `s` without its trailing `/` characters.
pub open spec fn trim_trailing_slashes(s: Seq<char>) -> Seq<char>
    decreases s.len(),
{
    if s.len() > 0 && s.last() == '/' {
        trim_trailing_slashes(s.drop_last())
    } else {
        s
    }
}

/// The normal spelling of a directory path.
pub open spec fn normalized_path(s: Seq<char>) -> Seq<char> {
    trim_trailing_slashes(replace_backslashes(s))
}

/// The index of the last `/` in `s`, if there is one.
pub open spec fn last_slash(s: Seq<char>) -> Option<int>
    decreases s.len(),
{
    if s.len() == 0 {
        None
    } else if s.last() == '/' {
        Some(s.len() - 1)
    } else {
        last_slash(s.drop_last())
    }
}

/// The path of the parent directory of `s`: everything before the last `/`,
/// or the empty path (the root) when there is no `/`.
pub open spec fn parent_path(s: Seq<char>) -> Seq<char> {
    match last_slash(s) {
        Some(k) => s.subrange(0, k),
        None => Seq::empty(),
    }
}

/// Trimming trailing slashes keeps a prefix of the text, and what is left
/// does not end in `/`.
pub proof fn lemma_trim_is_prefix(s: Seq<char>)
    ensures
        trim_trailing_slashes(s).len() <= s.len(),
        trim_trailing_slashes(s) =~= s.subrange(0, trim_trailing_slashes(s).len() as int),
        trim_trailing_slashes(s).len() > 0 ==> trim_trailing_slashes(s).last() != '/',
    decreases s.len(),
{
    if s.len() > 0 && s.last() == '/' {
        lemma_trim_is_prefix(s.drop_last());
    }
}

/// The last slash lies inside the text and is a `/`.
pub proof fn lemma_last_slash_in_range(s: Seq<char>)
    ensures
        last_slash(s) matches Some(k) ==> 0 <= k < s.len() && s[k] == '/',
        last_slash(s) is None ==> forall|i: int| 0 <= i < s.len() ==> s[i] != '/',
    decreases s.len(),
{
    if s.len() > 0 && s.last() != '/' {
        lemma_last_slash_in_range(s.drop_last());
        assert forall|i: int| 0 <= i < s.len() && last_slash(s) is None implies s[i] != '/' by {
            if i < s.len() - 1 {
                assert(s[i] == s.drop_last()[i]);
            }
        }
    }
}

/// Normalising a normal path changes nothing; a normal path holds no `\`
/// and does not end in `/`.
pub proof fn lemma_normalized_path_idempotent(s: Seq<char>)
    ensures
        normalized_path(normalized_path(s)) == normalized_path(s),
        forall|i: int| 0 <= i < normalized_path(s).len() ==> normalized_path(s)[i] != '\\',
        normalized_path(s).len() > 0 ==> normalized_path(s).last() != '/',
{
    let r = replace_backslashes(s);
    let n = normalized_path(s);
    lemma_trim_is_prefix(r);
    assert forall|i: int| 0 <= i < n.len() implies n[i] != '\\' by {
        assert(n[i] == r[i]);
    }
    assert(replace_backslashes(n) =~= n);
}

/// Trimming trailing slashes removes only `/` characters.
pub proof fn lemma_trim_removes_only_slashes(s: Seq<char>)
    ensures
        forall|j: int| trim_trailing_slashes(s).len() <= j < s.len() ==> #[trigger] s[j] == '/',
    decreases s.len(),
{
    lemma_trim_is_prefix(s);
    if s.len() > 0 && s.last() == '/' {
        lemma_trim_removes_only_slashes(s.drop_last());
        assert forall|j: int| trim_trailing_slashes(s).len() <= j < s.len() implies #[trigger] s[j] == '/' by {
            if j < s.len() - 1 {
                assert(s[j] == s.drop_last()[j]);
            }
        }
    }
}

/// The normal form of a path is the path itself with every `\` written as
/// `/`, cut just before its trailing separators: it keeps every other
/// character in place, and what it cuts off is made only of `/` and `\`.
pub proof fn lemma_normalized_path_shape(s: Seq<char>)
    ensures
        normalized_path(s).len() <= s.len(),
        forall|i: int|
            0 <= i < normalized_path(s).len() ==> #[trigger] normalized_path(s)[i] == (if s[i] == '\\' {
                '/'
            } else {
                s[i]
            }),
        forall|j: int|
            normalized_path(s).len() <= j < s.len() ==> (#[trigger] s[j] == '/' || s[j] == '\\'),
        normalized_path(s).len() > 0 ==> normalized_path(s).last() != '/',
{
    let r = replace_backslashes(s);
    lemma_trim_is_prefix(r);
    lemma_trim_removes_only_slashes(r);
    let n = normalized_path(s);
    assert forall|i: int| 0 <= i < n.len() implies #[trigger] n[i] == (if s[i] == '\\' {
        '/'
    } else {
        s[i]
    }) by {
        assert(n[i] == r[i]);
    }
    assert forall|j: int| n.len() <= j < s.len() implies (#[trigger] s[j] == '/' || s[j] == '\\') by {
        assert(r[j] == '/');
    }
}

/// The parent of a non-empty path is strictly shorter, so walking up from any
/// directory reaches the root.
pub proof fn lemma_parent_path_shorter(s: Seq<char>)
    requires
        s.len() > 0,
    ensures
        parent_path(s).len() < s.len(),
        parent_path(s) =~= s.subrange(0, parent_path(s).len() as int),
{
    lemma_last_slash_in_range(s);
}

fn normalized_text(p: &str) -> (r: String)
    ensures
        r@ == normalized_path(p@),
{
    let n = p.unicode_len();
    let mut chars: Vec<char> = Vec::new();
    let mut i: usize = 0;
    while i < n
        invariant
            n == p@.len(),
            i <= n,
            chars@ =~= replace_backslashes(p@.subrange(0, i as int)),
        decreases n - i,
    {
        let c = p.get_char(i);
        if c == '\\' {
            chars.push('/');
        } else {
            chars.push(c);
        }
        i = i + 1;
    }
    proof {
        assert(p@.subrange(0, n as int) =~= p@);
    }
    let ghost whole = chars@;
    assert(whole.subrange(0, n as int) =~= whole);
    let mut end: usize = n;
    while end > 0 && chars[end - 1] == '/'
        invariant
            end <= n,
            chars@ == whole,
            whole.len() == n,
            trim_trailing_slashes(whole) == trim_trailing_slashes(whole.subrange(0, end as int)),
        decreases end,
    {
        proof {
            assert(whole.subrange(0, end as int).drop_last() =~= whole.subrange(0, end - 1));
        }
        end = end - 1;
    }
    let mut r = String::new();
    let mut k: usize = 0;
    while k < end
        invariant
            end <= n,
            chars@ == whole,
            whole.len() == n,
            k <= end,
            r@ =~= whole.subrange(0, k as int),
        decreases end - k,
    {
        push_char(&mut r, chars[k]);
        k = k + 1;
    }
    r
}

/// Writes a directory path in its normal form: `\` becomes `/` and trailing
/// `/` characters are removed. An empty path, or one made only of separators,
/// gives no path; no path gives no path.
pub fn normalize_directory_path(path: &Option<String>) -> (r: Option<String>)
    ensures
        path is None ==> r is None,
        path matches Some(p) ==> (normalized_path(p@).len() == 0 <==> r is None),
        path matches Some(p) ==> (r matches Some(q) ==> q@ == normalized_path(p@)),
{
    match path {
        None => None,
        Some(p) => {
            let q = normalized_text(p.as_str());
            if q.as_str().unicode_len() == 0 {
                None
            } else {
                Some(q)
            }
        },
    }
}

/// The path under which the parent of a directory is looked up: `None` when
/// the normal form of the path is empty (the root has no parent); otherwise
/// the part of that normal form before its last `/`, or the empty path when
/// it has none.
pub fn parent_directory_path(directory_path: &str) -> (r: Option<String>)
    ensures
        r is None <==> normalized_path(directory_path@).len() == 0,
        r matches Some(q) ==> q@ == parent_path(normalized_path(directory_path@)),
{
    let normal = normalized_text(directory_path);
    let n = normal.as_str().unicode_len();
    if n == 0 {
        return None;
    }
    assert(normal@.subrange(0, n as int) =~= normal@);
    let mut end: usize = n;
    while end > 0 && normal.as_str().get_char(end - 1) != '/'
        invariant
            end <= n,
            n == normal@.len(),
            last_slash(normal@) == last_slash(normal@.subrange(0, end as int)),
        decreases end,
    {
        proof {
            assert(normal@.subrange(0, end as int).drop_last() =~= normal@.subrange(0, end - 1));
        }
        end = end - 1;
    }
    let mut r = String::new();
    if end > 0 {
        let mut k: usize = 0;
        while k < end - 1
            invariant
                0 < end <= n,
                n == normal@.len(),
                k <= end - 1,
                r@ =~= normal@.subrange(0, k as int),
            decreases end - 1 - k,
        {
            push_char(&mut r, normal.as_str().get_char(k));
            k = k + 1;
        }
    }
    Some(r)
}

/// The statement that sets the status of one row of `table_name` and stamps
/// its update time; its parameters are the status (`?1`) and the row id
/// (`?2`).
pub open spec fn spec_status_update_sql(table_name: DatabaseTableName) -> Seq<char> {
    "UPDATE "@ + table_name.spec_as_str()
        + " SET status = ?1, updated_at = strftime('%s', 'now') WHERE id = ?2"@
}

/// Builds the statement that sets the status of one row of `table_name`.
pub fn status_update_sql(table_name: DatabaseTableName) -> (r: String)
    ensures
        r@ == spec_status_update_sql(table_name),
{
    let mut r = "UPDATE ".to_owned();
    r.append(table_name.as_str());
    r.append(" SET status = ?1, updated_at = strftime('%s', 'now') WHERE id = ?2");
    r
}

} // verus!
