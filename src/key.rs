use vstd::prelude::*;
use vstd::string::StringExecFns;

verus! {

/// Index just past the last `/` in `s`, or 0 if there is none: where the
/// basename begins.
pub open spec fn basename_start(s: Seq<char>) -> int
    decreases s.len(),
{
    if s.len() == 0 {
        0
    } else if s.last() == '/' {
        s.len() as int
    } else {
        basename_start(s.drop_last())
    }
}

/// `s` without the separators at its end.
pub open spec fn trim_trailing_slashes(s: Seq<char>) -> Seq<char>
    decreases s.len(),
{
    if s.len() > 0 && s.last() == '/' {
        trim_trailing_slashes(s.drop_last())
    } else {
        s
    }
}

/// The last component of a `/`-separated key; separators at the end do not
/// start an empty component.
pub open spec fn basename(s: Seq<char>) -> Seq<char> {
    let t = trim_trailing_slashes(s);
    t.subrange(basename_start(t), t.len() as int)
}

/// Index of the last `.` in `s`, or -1 if there is none.
pub open spec fn last_dot(s: Seq<char>) -> int
    decreases s.len(),
{
    if s.len() == 0 {
        -1
    } else if s.last() == '.' {
        s.len() - 1
    } else {
        last_dot(s.drop_last())
    }
}

/// A basename without its final extension. A dot in first position starts a
/// hidden name, not an extension, so such a name is kept whole.
pub open spec fn stem(name: Seq<char>) -> Seq<char> {
    if last_dot(name) > 0 {
        name.subrange(0, last_dot(name))
    } else {
        name
    }
}

pub open spec fn gz_suffix() -> Seq<char> {
    seq!['.', 'g', 'z']
}

/// The destination key for a source key: the basename's stem followed by
/// `.gz`; the source's directories are not carried over.
pub open spec fn derived_key(source_key: Seq<char>) -> Seq<char> {
    stem(basename(source_key)) + gz_suffix()
}

/// Relies on String::push: the character is appended at the end.
#[verifier::external_body]
fn push_char(s: &mut String, c: char)
    ensures
        final(s)@ == old(s)@.push(c),
{
    s.push(c)
}

/// The characters of `s`, in order.
fn chars_of(s: &str) -> (r: Vec<char>)
    ensures
        r@ == s@,
{
    let mut r: Vec<char> = Vec::new();
    for c in it: s.chars()
        invariant
            r@ == it.seq().take(it.index() as int),
    {
        r.push(c);
    }
    r
}

/// Computes the destination key of a source key: the stem of its basename
/// followed by `.gz`. An empty key is refused.
pub fn derive_key(source_key: &str) -> (r: Option<String>)
    ensures
        source_key@.len() == 0 <==> r is None,
        r matches Some(k) ==> k@ == derived_key(source_key@),
{
    let cs = chars_of(source_key);
    if cs.len() == 0 {
        return None;
    }
    let ghost s = cs@;
    // Drop the separators at the end.
    let mut len: usize = cs.len();
    assert(s.take(cs.len() as int) =~= s);
    while len > 0 && cs[len - 1] == '/'
        invariant
            0 <= len <= cs.len(),
            cs@ == s,
            trim_trailing_slashes(s) == trim_trailing_slashes(s.take(len as int)),
        decreases len,
    {
        assert(s.take(len as int).drop_last() =~= s.take(len - 1));
        len = len - 1;
    }
    let ghost t = s.take(len as int);
    assert(trim_trailing_slashes(s) == t);
    // Scan backwards for the last separator.
    let mut start: usize = len;
    assert(t.take(len as int) =~= t);
    while start > 0 && cs[start - 1] != '/'
        invariant
            0 <= start <= len <= cs.len(),
            cs@ == s,
            t == s.take(len as int),
            basename_start(t) == basename_start(t.take(start as int)),
        decreases start,
    {
        assert(t.take(start as int).drop_last() =~= t.take(start - 1));
        start = start - 1;
    }
    proof {
        if start > 0 {
            assert(t.take(start as int).last() == '/');
        }
        assert(t.take(len as int) =~= t);
    }
    let ghost name = s.subrange(start as int, len as int);
    assert(name =~= basename(s));
    // Scan backwards inside the basename for the last dot.
    let mut end: usize = len;
    assert(name.take(name.len() as int) =~= name);
    while end > start && cs[end - 1] != '.'
        invariant
            start <= end <= len <= cs.len(),
            cs@ == s,
            name == s.subrange(start as int, len as int),
            last_dot(name) == last_dot(name.take(end - start)),
        decreases end,
    {
        assert(name.take(end - start).drop_last() =~= name.take(end - start - 1));
        assert(name[end - start - 1] == cs@[end - 1]);
        end = end - 1;
    }
    proof {
        if end > start {
            assert(name.take(end - start).last() == '.');
        }
        assert(name.take(name.len() as int) =~= name);
    }
    // A dot in first position does not start an extension.
    let stop: usize = if end > start && end - 1 > start { end - 1 } else { len };
    let mut out = String::new();
    let mut i: usize = start;
    while i < stop
        invariant
            start <= i <= stop <= cs.len(),
            cs@ == s,
            out@ == s.subrange(start as int, i as int),
        decreases stop - i,
    {
        push_char(&mut out, cs[i]);
        assert(s.subrange(start as int, i + 1) =~= s.subrange(start as int, i as int).push(cs@[i as int]));
        i = i + 1;
    }
    proof {
        reveal_strlit(".gz");
        assert(stem(name) =~= s.subrange(start as int, stop as int));
    }
    out.append(".gz");
    Some(out)
}

} // verus!
