use vstd::prelude::*;

verus! {

/// `name` appended to `dir` as one more path component: a separator is put
/// between them unless `dir` is empty or already ends with one.
pub open spec fn join_spec(dir: Seq<char>, name: Seq<char>) -> Seq<char> {
    if dir.len() == 0 || dir.last() == '/' {
        dir + name
    } else {
        dir + seq!['/'] + name
    }
}

/// `s` without its trailing separators.
pub open spec fn trim_end_separators(s: Seq<char>) -> Seq<char>
    decreases s.len(),
{
    if s.len() > 0 && s.last() == '/' {
        trim_end_separators(s.drop_last())
    } else {
        s
    }
}

/// What follows the last separator of `s` (all of `s` if it has none).
pub open spec fn after_last_separator(s: Seq<char>) -> Seq<char>
    decreases s.len(),
{
    if s.len() == 0 || s.last() == '/' {
        Seq::empty()
    } else {
        after_last_separator(s.drop_last()).push(s.last())
    }
}

/// The final component of a path, trailing separators ignored; none where
/// that component is empty, `.` or `..` (an empty path, the root, a path
/// that ends by going up).
pub open spec fn file_name_spec(path: Seq<char>) -> Option<Seq<char>> {
    let c = after_last_separator(trim_end_separators(path));
    if c.len() == 0 || c == seq!['.'] || c == seq!['.', '.'] {
        None
    } else {
        Some(c)
    }
}

/// Appends `name` to `dir` as a path component.
pub fn join(dir: &str, name: &str) -> (r: String)
    ensures
        r@ == join_spec(dir@, name@),
{
    let mut r = dir.to_owned();
    let n = dir.unicode_len();
    if n != 0 && dir.get_char(n - 1) != '/' {
        let sep = "/";
        proof {
            reveal_strlit("/");
        }
        r.append(sep);
    }
    r.append(name);
    r
}

fn is_dot_name(s: &str) -> (r: bool)
    ensures
        r == (s@ == seq!['.'] || s@ == seq!['.', '.']),
{
    let n = s.unicode_len();
    if n == 1 {
        let r = s.get_char(0) == '.';
        assert(r ==> s@ =~= seq!['.']);
        r
    } else if n == 2 {
        let r = s.get_char(0) == '.' && s.get_char(1) == '.';
        assert(r ==> s@ =~= seq!['.', '.']);
        assert(s@ == seq!['.', '.'] ==> s@[0] == '.' && s@[1] == '.');
        r
    } else {
        assert(seq!['.'].len() == 1 && seq!['.', '.'].len() == 2);
        false
    }
}

/// The final component of `path`, if it has one that names an entry.
pub fn file_name(path: &str) -> (r: Option<String>)
    ensures
        match r {
            Some(n) => file_name_spec(path@) == Some(n@),
            None => file_name_spec(path@) is None,
        },
{
    let ghost s = path@;
    let n = path.unicode_len();
    let mut end: usize = n;
    assert(s.subrange(0, n as int) =~= s);
    while end > 0 && path.get_char(end - 1) == '/'
        invariant
            end <= s.len(),
            n == s.len(),
            path@ == s,
            trim_end_separators(s) == trim_end_separators(s.subrange(0, end as int)),
        decreases end,
    {
        assert(s.subrange(0, end as int).drop_last() =~= s.subrange(0, end - 1));
        end -= 1;
    }
    let ghost t = s.subrange(0, end as int);
    assert(trim_end_separators(s) == t);
    let mut start: usize = end;
    assert(t.subrange(0, end as int) =~= t);
    assert(t.subrange(end as int, end as int) =~= Seq::<char>::empty());
    while start > 0 && path.get_char(start - 1) != '/'
        invariant
            start <= end <= s.len(),
            path@ == s,
            t == s.subrange(0, end as int),
            after_last_separator(t) == after_last_separator(t.subrange(0, start as int))
                + t.subrange(start as int, end as int),
        decreases start,
    {
        let ghost k = start as int;
        assert(t.subrange(0, k).drop_last() =~= t.subrange(0, k - 1));
        assert(after_last_separator(t.subrange(0, k)) == after_last_separator(
            t.subrange(0, k - 1),
        ).push(t[k - 1]));
        assert(t.subrange(k - 1, end as int) =~= seq![t[k - 1]] + t.subrange(k, end as int));
        assert(after_last_separator(t.subrange(0, k - 1)).push(t[k - 1]) + t.subrange(
            k,
            end as int,
        ) =~= after_last_separator(t.subrange(0, k - 1)) + t.subrange(k - 1, end as int));
        start -= 1;
    }
    assert(after_last_separator(t.subrange(0, start as int)) =~= Seq::<char>::empty());
    assert(after_last_separator(t) =~= s.subrange(start as int, end as int));
    let c = path.substring_char(start, end);
    if start == end || is_dot_name(c) {
        None
    } else {
        Some(c.to_owned())
    }
}

} // verus!
