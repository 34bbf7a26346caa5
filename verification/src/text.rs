//! Character-level helpers shared by the scanning and rendering passes.
//!
//! Lines are modelled as sequences of characters; all indices and counts are
//! in characters, never bytes.

use vstd::prelude::*;

use crate::is_indent_char;
use crate::is_indent_char_spec;

verus! {

/// The line with its first `n` characters removed; a line shorter than `n`
/// becomes empty.
pub open spec fn skip_chars(l: Seq<char>, n: nat) -> Seq<char> {
    if n >= l.len() {
        Seq::empty()
    } else {
        l.subrange(n as int, l.len() as int)
    }
}

/// A line is blank when it has no characters.
pub open spec fn line_blank(l: Seq<char>) -> bool {
    l.len() == 0
}

/// A line is indented when it starts with an indent character.
pub open spec fn line_indented(l: Seq<char>) -> bool {
    l.len() > 0 && is_indent_char_spec(l[0])
}

/// `n` spaces.
pub open spec fn spaces(n: nat) -> Seq<char> {
    Seq::new(n, |i: int| ' ')
}

/// The line prefixed with `n` spaces.
pub open spec fn indented(s: Seq<char>, n: nat) -> Seq<char> {
    spaces(n) + s
}

/// `needle` occurs contiguously somewhere in `hay`.
pub open spec fn contains_sub(hay: Seq<char>, needle: Seq<char>) -> bool {
    exists|i: int|
        0 <= i && i + needle.len() <= hay.len() && #[trigger] hay.subrange(i, i + needle.len())
            == needle
}

/// The suffix of `line` after its first `skip` characters (empty if the line
/// is no longer than `skip`).
pub fn line_after_skip<'a>(line: &'a str, skip: usize) -> (r: &'a str)
    ensures
        r@ == skip_chars(line@, skip as nat),
{
    let n = line.unicode_len();
    if skip >= n {
        let r = "";
        proof {
            reveal_strlit("");
            assert(r@ =~= skip_chars(line@, skip as nat));
        }
        r
    } else {
        line.substring_char(skip, n)
    }
}

/// Whether the line starts with an indent character.
pub fn starts_indented(line: &str) -> (r: bool)
    ensures
        r == line_indented(line@),
{
    let n = line.unicode_len();
    if n == 0 {
        false
    } else {
        is_indent_char(line.get_char(0))
    }
}

/// Case-sensitive substring search.
pub fn str_contains(hay: &str, needle: &str) -> (r: bool)
    ensures
        r == contains_sub(hay@, needle@),
{
    let hay_len = hay.unicode_len();
    let needle_len = needle.unicode_len();
    if needle_len == 0 {
        proof {
            let n: int = needle@.len() as int;
            assert(hay@.subrange(0, 0 + n) =~= needle@);
            assert(contains_sub(hay@, needle@));
        }
        return true;
    }
    if needle_len > hay_len {
        proof {
            assert(!contains_sub(hay@, needle@));
        }
        return false;
    }
    let mut start: usize = 0;
    while start <= hay_len - needle_len
        invariant
            needle_len == needle@.len(),
            hay_len == hay@.len(),
            1 <= needle_len <= hay_len,
            0 <= start <= hay_len - needle_len + 1,
            forall|i: int|
                0 <= i < start as int ==> #[trigger] hay@.subrange(i, i + needle@.len() as int)
                    != needle@,
        decreases hay_len - needle_len - start + 1,
    {
        let mut j: usize = 0;
        let mut mismatch = false;
        while j < needle_len && !mismatch
            invariant
                needle_len == needle@.len(),
                hay_len == hay@.len(),
                needle_len <= hay_len,
                0 <= start <= hay_len - needle_len,
                0 <= j <= needle_len,
                !mismatch ==> forall|k: int| 0 <= k < j as int ==> hay@[start + k] == needle@[k],
                mismatch ==> hay@.subrange(
                    start as int,
                    start as int + needle@.len() as int,
                ) != needle@,
            decreases needle_len - j + (if mismatch { 0int } else { 1int }),
        {
            if hay.get_char(start + j) == needle.get_char(j) {
                j = j + 1;
            } else {
                proof {
                    let sub = hay@.subrange(start as int, start as int + needle@.len() as int);
                    assert(sub[j as int] == hay@[start as int + j as int]);
                    assert(sub != needle@);
                }
                mismatch = true;
            }
        }
        if !mismatch {
            proof {
                let sub = hay@.subrange(start as int, start as int + needle@.len() as int);
                assert(sub =~= needle@);
            }
            return true;
        }
        start = start + 1;
    }
    proof {
        assert forall|i: int| 0 <= i && i + needle@.len() <= hay@.len() implies #[trigger] hay@.subrange(
            i,
            i + needle@.len() as int,
        ) != needle@ by {
            assert(i < start as int);
        }
    }
    false
}

/// Append one line, extending the model by its characters.
pub fn push_line(out: &mut Vec<String>, s: String)
    ensures
        final(out).deep_view() == old(out).deep_view().push(s@),
{
    let ghost pre = out@;
    let ghost pre_deep = out.deep_view();
    out.push(s);
    proof {
        assert(pre_deep.len() == pre.len());
        assert(out.deep_view().len() == pre.len() + 1);
        assert forall|j: int| 0 <= j < out.deep_view().len() implies #[trigger] out.deep_view()[j]
            == pre_deep.push(out@[pre.len() as int]@)[j] by {
            assert(out.deep_view()[j] == out@[j].deep_view());
            if j < pre.len() {
                assert(out@[j] == pre[j]);
                assert(pre_deep[j] == pre[j].deep_view());
            }
        }
        assert(out.deep_view() =~= pre_deep.push(out@[pre.len() as int]@));
    }
}

/// Move all lines of `more` to the end of `out`.
pub fn append_lines(out: &mut Vec<String>, more: Vec<String>)
    ensures
        final(out).deep_view() == old(out).deep_view() + more.deep_view(),
{
    let ghost base = out.deep_view();
    let ghost mdv = more.deep_view();
    let ghost basev = out@;
    let mut more = more;
    out.append(&mut more);
    proof {
        assert(out.deep_view().len() == base.len() + mdv.len());
        assert forall|j: int| 0 <= j < out.deep_view().len() implies #[trigger] out.deep_view()[j]
            == (base + mdv)[j] by {
            assert(out.deep_view()[j] == out@[j]@);
            if j < base.len() {
                assert(out@[j] == basev[j]);
                assert(base[j] == basev[j]@);
            } else {
                assert(mdv[j - base.len()] == out@[j]@);
            }
        }
        assert(out.deep_view() =~= base + mdv);
    }
}

/// Copy the lines of `v` with indices in `[from, to)`.
pub fn clone_line_range(v: &Vec<String>, from: usize, to: usize) -> (r: Vec<String>)
    requires
        from <= to <= v@.len(),
    ensures
        r.deep_view() == v.deep_view().subrange(from as int, to as int),
{
    let mut r: Vec<String> = Vec::new();
    let mut i: usize = from;
    proof {
        assert(r.deep_view() =~= v.deep_view().subrange(from as int, from as int));
    }
    while i < to
        invariant
            from <= i <= to <= v@.len(),
            r.deep_view() == v.deep_view().subrange(from as int, i as int),
        decreases to - i,
    {
        let ghost pre = r@;
        let ghost pre_deep = r.deep_view();
        r.push(v[i].clone());
        proof {
            assert(pre_deep.len() == pre.len());
            assert(pre.len() == i as int - from as int);
            assert(r@.len() == pre.len() + 1);
            assert(r.deep_view().len() == r@.len());
            assert forall|j: int| 0 <= j < r.deep_view().len() implies #[trigger] r.deep_view()[j]
                == v.deep_view().subrange(from as int, i as int + 1)[j] by {
                assert(r.deep_view()[j] == r@[j].deep_view());
                assert(v.deep_view()[from as int + j] == v@[from as int + j]@);
                if j < pre.len() {
                    assert(r@[j] == pre[j]);
                    assert(pre_deep[j] == pre[j].deep_view());
                    assert(pre_deep[j] == v.deep_view().subrange(from as int, i as int)[j]);
                } else {
                    assert(r@[j] == v@[i as int]);
                }
            }
            assert(r.deep_view() =~= v.deep_view().subrange(from as int, i as int + 1));
        }
        i = i + 1;
    }
    proof {
        assert(r.deep_view() =~~= v.deep_view().subrange(from as int, to as int));
    }
    r
}

} // verus!
