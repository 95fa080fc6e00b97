//! A textual model of filesystem paths.
//!
//! Destinations arrive as strings; this module gives them just enough
//! structure for the resolution algorithm: the `{datetime}` token
//! substitution, the parent and filename components of a path, and joining a
//! directory with a filename. Paths use `/` as the separator. Trailing
//! separators are ignored when a path is split into parent and filename.

use vstd::prelude::*;
use vstd::string::*;

verus! {

/// The path separator.
pub open spec fn sep() -> char {
    '/'
}

/// Whether the path contains a separator anywhere.
pub open spec fn contains_sep(s: Seq<char>) -> bool {
    exists|i: int| 0 <= i < s.len() && s[i] == sep()
}

/// The index of the last separator of `s`, or `-1` if there is none.
pub open spec fn last_sep(s: Seq<char>) -> int
    decreases s.len(),
{
    if s.len() == 0 {
        -1
    } else if s.last() == sep() {
        s.len() - 1
    } else {
        last_sep(s.drop_last())
    }
}

/// The path without its trailing separators.
pub open spec fn strip_trailing_seps(s: Seq<char>) -> Seq<char>
    decreases s.len(),
{
    if s.len() > 0 && s.last() == sep() {
        strip_trailing_seps(s.drop_last())
    } else {
        s
    }
}

/// `last_sep` points at a separator, and nothing after it is one.
pub proof fn lemma_last_sep(s: Seq<char>)
    ensures
        -1 <= last_sep(s) < s.len(),
        last_sep(s) >= 0 <==> contains_sep(s),
        last_sep(s) >= 0 ==> s[last_sep(s)] == sep(),
        forall|j: int| last_sep(s) < j < s.len() ==> s[j] != sep(),
    decreases s.len(),
{
    if s.len() == 0 {
    } else if s.last() == sep() {
        assert(s[s.len() - 1] == sep());
    } else {
        lemma_last_sep(s.drop_last());
        assert forall|j: int| last_sep(s) < j < s.len() implies s[j] != sep() by {
            if j < s.len() - 1 {
                assert(s.drop_last()[j] != sep());
            }
        }
        if last_sep(s) >= 0 {
            assert(s.drop_last()[last_sep(s)] == sep());
        }
        if contains_sep(s) {
            let i = choose|i: int| 0 <= i < s.len() && s[i] == sep();
            assert(i < s.len() - 1);
            assert(s.drop_last()[i] == sep());
        }
    }
}

/// The stripped path is a prefix of the original with no trailing separator.
pub proof fn lemma_strip_trailing_seps(s: Seq<char>)
    ensures
        strip_trailing_seps(s).len() <= s.len(),
        strip_trailing_seps(s) == s.take(strip_trailing_seps(s).len() as int),
        strip_trailing_seps(s).len() > 0 ==> strip_trailing_seps(s).last() != sep(),
        forall|j: int| strip_trailing_seps(s).len() <= j < s.len() ==> s[j] == sep(),
    decreases s.len(),
{
    if s.len() > 0 && s.last() == sep() {
        lemma_strip_trailing_seps(s.drop_last());
        assert(s.drop_last() == s.take(s.len() - 1));
        assert(strip_trailing_seps(s) == s.take(strip_trailing_seps(s).len() as int));
        assert forall|j: int| strip_trailing_seps(s).len() <= j < s.len() implies s[j] == sep() by {
            if j < s.len() - 1 {
                assert(s.drop_last()[j] == sep());
            }
        }
    } else {
        assert(s == s.take(s.len() as int));
    }
}

/// A path that already ends in no separator strips to itself.
pub proof fn lemma_strip_noop(s: Seq<char>)
    requires
        s.len() == 0 || s.last() != sep(),
    ensures
        strip_trailing_seps(s) == s,
{
}

/// The parent component of a path, `None` when the path is empty or consists
/// of separators only. A path without any separator has the empty parent
/// (its implicit parent is the working directory). Otherwise the parent is
/// everything before the last separator, itself stripped of trailing
/// separators, or the root when nothing is left.
pub open spec fn parent_of_spec(p: Seq<char>) -> Option<Seq<char>> {
    let q = strip_trailing_seps(p);
    if q.len() == 0 {
        None
    } else if !contains_sep(q) {
        Some(Seq::empty())
    } else {
        let par = strip_trailing_seps(q.take(last_sep(q)));
        if par.len() == 0 {
            Some(seq![sep()])
        } else {
            Some(par)
        }
    }
}

/// The filename component of a path: everything after the last separator,
/// trailing separators ignored. The whole (stripped) path when there is no
/// separator.
pub open spec fn file_name_spec(p: Seq<char>) -> Seq<char> {
    let q = strip_trailing_seps(p);
    if !contains_sep(q) {
        q
    } else {
        q.skip(last_sep(q) + 1)
    }
}

/// A directory path joined with a filename: a separator is put between them
/// unless the directory already ends in one.
pub open spec fn join_spec(dir: Seq<char>, name: Seq<char>) -> Seq<char> {
    if dir.len() > 0 && dir.last() == sep() {
        dir + name
    } else {
        dir + seq![sep()] + name
    }
}

/// The filename component of a nonempty path is nonempty and holds no
/// separator, and the parent component is strictly shorter than the path.
pub proof fn lemma_components(p: Seq<char>)
    requires
        strip_trailing_seps(p).len() > 0,
    ensures
        file_name_spec(p).len() > 0,
        !contains_sep(file_name_spec(p)),
        parent_of_spec(p) matches Some(par) ==> par.len() < p.len(),
{
    let q = strip_trailing_seps(p);
    lemma_strip_trailing_seps(p);
    lemma_last_sep(q);
    if !contains_sep(q) {
        assert(file_name_spec(p) == q);
    } else {
        let i = last_sep(q);
        assert(q.last() != sep());
        assert(i < q.len() - 1);
        let name = q.skip(i + 1);
        assert(name.len() > 0);
        assert forall|j: int| 0 <= j < name.len() implies name[j] != sep() by {
            assert(name[j] == q[i + 1 + j]);
        }
        lemma_strip_trailing_seps(q.take(i));
        assert(strip_trailing_seps(q.take(i)).len() <= i < q.len() <= p.len());
    }
}

/// `last_sep` ignores a suffix that holds no separator.
pub proof fn lemma_last_sep_concat(a: Seq<char>, b: Seq<char>)
    requires
        !contains_sep(b),
    ensures
        last_sep(a + b) == last_sep(a),
    decreases b.len(),
{
    if b.len() == 0 {
        assert(a + b == a);
    } else {
        assert(b[b.len() - 1] != sep());
        assert((a + b).last() == b.last());
        assert((a + b).drop_last() == a + b.drop_last());
        assert(!contains_sep(b.drop_last())) by {
            assert forall|i: int| 0 <= i < b.drop_last().len() implies b.drop_last()[i] != sep() by {
                assert(b[i] != sep());
            }
        }
        lemma_last_sep_concat(a, b.drop_last());
    }
}

/// Joining a directory with a separator-free filename yields a path whose
/// filename component is exactly that filename.
pub proof fn lemma_file_name_of_join(dir: Seq<char>, name: Seq<char>)
    requires
        name.len() > 0,
        !contains_sep(name),
    ensures
        file_name_spec(join_spec(dir, name)) == name,
{
    let d = if dir.len() > 0 && dir.last() == sep() {
        dir
    } else {
        dir + seq![sep()]
    };
    let j = join_spec(dir, name);
    assert(j == d + name);
    assert(j.last() == name.last());
    assert(name[name.len() - 1] != sep());
    lemma_strip_noop(j);
    lemma_last_sep_concat(d, name);
    assert(d[d.len() - 1] == sep());
    lemma_last_sep(d);
    assert(last_sep(d) == d.len() - 1) by {
        if last_sep(d) < d.len() - 1 {
            assert(d[d.len() - 1] != sep());
        }
    }
    assert(j[d.len() - 1] == sep());
    assert(contains_sep(j));
    assert(file_name_spec(j) == j.skip(d.len() as int));
    assert(j.skip(d.len() as int) =~= name);
}

/// Joining a canonically shaped directory (absolute, no trailing separator
/// unless it is the root itself) with a separator-free filename yields a
/// path whose parent component is exactly that directory.
pub proof fn lemma_parent_of_join(dir: Seq<char>, name: Seq<char>)
    requires
        name.len() > 0,
        !contains_sep(name),
        dir.len() > 0,
        dir[0] == sep(),
        dir == seq![sep()] || dir.last() != sep(),
    ensures
        parent_of_spec(join_spec(dir, name)) == Some(dir),
{
    let j = join_spec(dir, name);
    assert(j.last() == name.last());
    assert(name[name.len() - 1] != sep());
    lemma_strip_noop(j);
    if dir == seq![sep()] {
        assert(j == dir + name);
        lemma_last_sep_concat(dir, name);
        assert(last_sep(dir) == 0);
        assert(j[0] == sep());
        assert(contains_sep(j));
        assert(j.take(0) =~= Seq::<char>::empty());
        assert(parent_of_spec(j) == Some(seq![sep()]));
    } else {
        assert(dir.last() != sep());
        let d = dir + seq![sep()];
        assert(j == d + name);
        lemma_last_sep_concat(d, name);
        lemma_last_sep(d);
        assert(d[d.len() - 1] == sep());
        assert(last_sep(d) == d.len() - 1) by {
            if last_sep(d) < d.len() - 1 {
                assert(d[d.len() - 1] != sep());
            }
        }
        assert(j[dir.len() as int] == sep());
        assert(contains_sep(j));
        assert(last_sep(j) == dir.len());
        assert(j.take(dir.len() as int) =~= dir);
        lemma_strip_noop(dir);
        assert(parent_of_spec(j) == Some(dir));
    }
}

/// A nonempty path without any separator is a bare filename: its parent is
/// the empty component and its filename is the path itself.
pub proof fn lemma_bare_filename(p: Seq<char>)
    requires
        p.len() > 0,
        !contains_sep(p),
    ensures
        parent_of_spec(p) == Some(Seq::<char>::empty()),
        file_name_spec(p) == p,
{
    assert(p[p.len() - 1] != sep());
    lemma_strip_noop(p);
}

/// Index one past the end of `strip_trailing_seps(p@.take(upto))`.
fn strip_end_upto(p: &str, upto: usize) -> (end: usize)
    requires
        upto <= p@.len(),
    ensures
        end <= upto,
        p@.take(end as int) == strip_trailing_seps(p@.take(upto as int)),
{
    let mut end = upto;
    while end > 0 && p.get_char(end - 1) == '/'
        invariant
            end <= upto <= p@.len(),
            strip_trailing_seps(p@.take(upto as int)) == strip_trailing_seps(
                p@.take(end as int),
            ),
        decreases end,
    {
        proof {
            assert(p@.take(end as int).last() == sep());
            assert(p@.take(end as int).drop_last() =~= p@.take(end - 1));
        }
        end = end - 1;
    }
    proof {
        if end > 0 {
            assert(p@.take(end as int).last() != sep());
            lemma_strip_noop(p@.take(end as int));
        } else {
            assert(p@.take(0) =~= Seq::<char>::empty());
        }
    }
    end
}

/// The index of the last separator of `p@.take(end)`, if any.
fn last_sep_upto(p: &str, end: usize) -> (r: Option<usize>)
    requires
        end <= p@.len(),
    ensures
        match r {
            Some(i) => i == last_sep(p@.take(end as int)),
            None => !contains_sep(p@.take(end as int)),
        },
{
    proof {
        lemma_last_sep(p@.take(end as int));
    }
    let ghost q = p@.take(end as int);
    let mut i = end;
    while i > 0
        invariant
            i <= end <= p@.len(),
            q == p@.take(end as int),
            forall|j: int| i <= j < end ==> q[j] != sep(),
        decreases i,
    {
        if p.get_char(i - 1) == '/' {
            proof {
                lemma_last_sep(q);
                assert(q[i - 1] == sep());
                assert(contains_sep(q));
                if last_sep(q) > i - 1 {
                    assert(q[last_sep(q)] != sep());
                }
            }
            return Some(i - 1);
        }
        i = i - 1;
    }
    proof {
        if contains_sep(q) {
            assert(q[last_sep(q)] == sep());
        }
    }
    None
}

/// The parent component of a path, or `None` when the path is empty or all
/// separators. The empty string stands for the implicit working-directory
/// parent of a bare filename.
pub fn parent_of(p: &str) -> (r: Option<String>)
    ensures
        match r {
            Some(s) => parent_of_spec(p@) == Some(s@),
            None => parent_of_spec(p@) is None,
        },
{
    let len = p.unicode_len();
    let end = strip_end_upto(p, len);
    proof {
        assert(p@.take(len as int) =~= p@);
    }
    if end == 0 {
        return None;
    }
    match last_sep_upto(p, end) {
        None => Some(String::new()),
        Some(i) => {
            proof {
                lemma_last_sep(p@.take(end as int));
                assert(p@.take(end as int).take(i as int) =~= p@.take(i as int));
            }
            let pend = strip_end_upto(p, i);
            if pend == 0 {
                let root = String::from_str("/");
                proof {
                    reveal_strlit("/");
                    assert(root@ =~= seq![sep()]);
                }
                Some(root)
            } else {
                Some(p.substring_char(0, pend).to_owned())
            }
        },
    }
}

/// The filename component of a path: everything after the last separator,
/// trailing separators ignored.
pub fn file_name_of(p: &str) -> (r: String)
    ensures
        r@ == file_name_spec(p@),
{
    let len = p.unicode_len();
    let end = strip_end_upto(p, len);
    proof {
        assert(p@.take(len as int) =~= p@);
    }
    match last_sep_upto(p, end) {
        None => p.substring_char(0, end).to_owned(),
        Some(i) => {
            proof {
                lemma_last_sep(p@.take(end as int));
                assert(p@.take(end as int).skip(i + 1) =~= p@.subrange(i + 1, end as int));
            }
            p.substring_char(i + 1, end).to_owned()
        },
    }
}

/// The substitution token recognized in raw destinations.
pub open spec fn datetime_token() -> Seq<char> {
    "{datetime}"@
}

/// `s` with every occurrence of the `{datetime}` token replaced by `ts`,
/// scanning left to right without overlap.
pub open spec fn replace_datetime_spec(s: Seq<char>, ts: Seq<char>) -> Seq<char>
    decreases s.len(),
{
    if s.len() == 0 {
        s
    } else if s.len() >= 10 && s.take(10) == datetime_token() {
        ts + replace_datetime_spec(s.skip(10), ts)
    } else {
        seq![s[0]] + replace_datetime_spec(s.skip(1), ts)
    }
}

/// Whether the token starts at position `i` of `raw`.
fn matches_token_at(raw: &str, i: usize) -> (b: bool)
    requires
        i + 10 <= raw@.len(),
        raw@.len() <= usize::MAX,
    ensures
        b == (raw@.subrange(i as int, i + 10) == datetime_token()),
{
    proof {
        reveal_strlit("{datetime}");
    }
    let pat = "{datetime}";
    let mut j: usize = 0;
    while j < 10
        invariant
            j <= 10,
            i + 10 <= raw@.len() <= usize::MAX,
            pat@ == datetime_token(),
            pat@.len() == 10,
            forall|k: int| 0 <= k < j ==> raw@[i + k] == pat@[k],
        decreases 10 - j,
    {
        if raw.get_char(i + j) != pat.get_char(j) {
            proof {
                assert(raw@.subrange(i as int, i + 10)[j as int] != pat@[j as int]);
            }
            return false;
        }
        j = j + 1;
    }
    proof {
        assert(raw@.subrange(i as int, i + 10) =~= pat@);
    }
    true
}

/// `raw` with every occurrence of the `{datetime}` token replaced by the
/// timestamp, scanning left to right without overlap.
pub fn substitute_datetime(raw: &str, datetime: &str) -> (r: String)
    ensures
        r@ == replace_datetime_spec(raw@, datetime@),
{
    let len = raw.unicode_len();
    let mut out = String::new();
    let mut i: usize = 0;
    proof {
        assert(raw@.skip(0) =~= raw@);
    }
    while i < len
        invariant
            i <= len,
            len == raw@.len(),
            replace_datetime_spec(raw@, datetime@) == out@ + replace_datetime_spec(
                raw@.skip(i as int),
                datetime@,
            ),
        decreases len - i,
    {
        let ghost rest = raw@.skip(i as int);
        if len - i >= 10 && matches_token_at(raw, i) {
            proof {
                assert(rest.take(10) =~= raw@.subrange(i as int, i + 10));
                assert(rest.skip(10) =~= raw@.skip(i + 10));
            }
            out.append(datetime);
            i = i + 10;
            proof {
                assert(replace_datetime_spec(raw@, datetime@) =~= out@ + replace_datetime_spec(
                    raw@.skip(i as int),
                    datetime@,
                ));
            }
        } else {
            proof {
                if rest.len() >= 10 {
                    assert(rest.take(10) =~= raw@.subrange(i as int, i + 10));
                }
            }
            let c = raw.substring_char(i, i + 1);
            proof {
                assert(c@ =~= seq![rest[0]]);
                assert(rest.skip(1) =~= raw@.skip(i + 1));
            }
            out.append(c);
            i = i + 1;
            proof {
                assert(replace_datetime_spec(raw@, datetime@) =~= out@ + replace_datetime_spec(
                    raw@.skip(i as int),
                    datetime@,
                ));
            }
        }
    }
    proof {
        assert(raw@.skip(len as int) =~= Seq::<char>::empty());
    }
    out
}

/// A directory path joined with a filename, with a single separator between
/// them.
pub fn join_path(dir: &str, name: &str) -> (r: String)
    ensures
        r@ == join_spec(dir@, name@),
{
    let dl = dir.unicode_len();
    let mut r = dir.to_owned();
    if dl == 0 || dir.get_char(dl - 1) != '/' {
        r.append("/");
        proof {
            reveal_strlit("/");
            assert(r@ =~= dir@ + seq![sep()]);
        }
    }
    r.append(name);
    r
}

} // verus!
