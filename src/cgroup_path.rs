use vstd::prelude::*;

verus! {

/// Where the cgroup hierarchy is mounted, with the separator that follows.
pub open spec fn mount_root() -> Seq<char> {
    "/sys/fs/cgroup/"@
}

/// `s` without its leading separators.
pub open spec fn strip_leading(s: Seq<char>) -> Seq<char>
    decreases s.len(),
{
    if s.len() > 0 && s[0] == '/' {
        strip_leading(s.drop_first())
    } else {
        s
    }
}

/// The directory of the cgroup at `base`, a path within the hierarchy.
pub open spec fn cgroup_dir_of(base: Seq<char>) -> Seq<char> {
    mount_root() + strip_leading(base)
}

/// A character with the Unicode White_Space property, as `char::is_whitespace`
/// documents it.
pub open spec fn is_white_space(c: char) -> bool {
    ('\u{9}' <= c && c <= '\u{d}') || c == ' ' || c == '\u{85}' || c == '\u{a0}' || c
        == '\u{1680}' || ('\u{2000}' <= c && c <= '\u{200a}') || c == '\u{2028}' || c
        == '\u{2029}' || c == '\u{202f}' || c == '\u{205f}' || c == '\u{3000}'
}

/// `s` without its trailing white space.
pub open spec fn trim_end(s: Seq<char>) -> Seq<char>
    decreases s.len(),
{
    if s.len() > 0 && is_white_space(s.last()) {
        trim_end(s.drop_last())
    } else {
        s
    }
}

/// What follows the last colon of `s`, or all of `s` if it has none.
pub open spec fn last_field(s: Seq<char>) -> Seq<char>
    decreases s.len(),
{
    if s.len() == 0 {
        s
    } else if s.last() == ':' {
        Seq::empty()
    } else {
        last_field(s.drop_last()).push(s.last())
    }
}

/// Whether `c` is white space.
pub fn is_space(c: char) -> (r: bool)
    ensures
        r == is_white_space(c),
{
    ('\u{9}' <= c && c <= '\u{d}') || c == ' ' || c == '\u{85}' || c == '\u{a0}' || c
        == '\u{1680}' || ('\u{2000}' <= c && c <= '\u{200a}') || c == '\u{2028}' || c
        == '\u{2029}' || c == '\u{202f}' || c == '\u{205f}' || c == '\u{3000}'
}

/// The directory of the cgroup at `base`: `base` is read relative to the
/// mount root once its leading separators are stripped.
pub fn cgroup_dir(base: &str) -> (r: String)
    ensures
        r@ == cgroup_dir_of(base@),
{
    let n = base.unicode_len();
    let mut i: usize = 0;
    assert(base@.subrange(0, n as int) =~= base@);
    while i < n && base.get_char(i) == '/'
        invariant
            i <= n,
            n == base@.len(),
            strip_leading(base@.subrange(i as int, n as int)) == strip_leading(base@),
        decreases n - i,
    {
        assert(base@.subrange(i as int, n as int).drop_first() =~= base@.subrange(
            i + 1,
            n as int,
        ));
        i = i + 1;
    }
    let rest = base.substring_char(i, n);
    let mut dir = String::from_str("/sys/fs/cgroup/");
    dir.append(rest);
    dir
}

/// The path of the cgroup that the text of a process's cgroup file names:
/// the last colon-separated field of its last line, trailing white space
/// removed.
pub fn current_cgroup(contents: &str) -> (r: String)
    ensures
        r@ == last_field(trim_end(contents@)),
{
    let n = contents.unicode_len();
    let mut e: usize = n;
    assert(contents@.subrange(0, n as int) =~= contents@);
    while e > 0 && is_space(contents.get_char(e - 1))
        invariant
            e <= n,
            n == contents@.len(),
            trim_end(contents@.subrange(0, e as int)) == trim_end(contents@),
        decreases e,
    {
        assert(contents@.subrange(0, e as int).drop_last() =~= contents@.subrange(
            0,
            e - 1,
        ));
        e = e - 1;
    }
    let ghost t = contents@.subrange(0, e as int);
    assert(trim_end(t) == t);
    let mut j: usize = e;
    while j > 0 && contents.get_char(j - 1) != ':'
        invariant
            j <= e <= n,
            n == contents@.len(),
            t == contents@.subrange(0, e as int),
            last_field(t) == last_field(contents@.subrange(0, j as int))
                + contents@.subrange(j as int, e as int),
        decreases j,
    {
        let ghost c = contents@[j - 1];
        let ghost head = contents@.subrange(0, j - 1);
        assert(contents@.subrange(0, j as int).drop_last() =~= head);
        assert(contents@.subrange(j - 1, e as int) =~= seq![c] + contents@.subrange(
            j as int,
            e as int,
        ));
        assert(last_field(head).push(c) + contents@.subrange(j as int, e as int)
            =~= last_field(head) + contents@.subrange(j - 1, e as int));
        j = j - 1;
    }
    assert(last_field(contents@.subrange(0, j as int)) =~= Seq::<char>::empty());
    assert(last_field(t) =~= contents@.subrange(j as int, e as int));
    let field = contents.substring_char(j, e);
    String::from_str(field)
}

} // verus!
