//! Words on a wire: a short read off a socket or a serial line, stripped
//! of the white space around it and held against a known word.

use vstd::prelude::*;

verus! {

/// The ASCII white space that may surround a word: blank, tab, line feed,
/// vertical tab, form feed and carriage return.
pub open spec fn is_space(b: u8) -> bool {
    b == 32 || (9 <= b && b <= 13)
}

/// `s` without the white space it starts with.
pub open spec fn trim_start(s: Seq<u8>) -> Seq<u8>
    decreases s.len(),
{
    if s.len() > 0 && is_space(s[0]) {
        trim_start(s.drop_first())
    } else {
        s
    }
}

/// `s` without the white space it ends with.
pub open spec fn trim_end(s: Seq<u8>) -> Seq<u8>
    decreases s.len(),
{
    if s.len() > 0 && is_space(s.last()) {
        trim_end(s.drop_last())
    } else {
        s
    }
}

/// `s` without the white space around it.
pub open spec fn trimmed(s: Seq<u8>) -> Seq<u8> {
    trim_end(trim_start(s))
}

/// Whether a byte is white space.
pub fn space(b: u8) -> (yes: bool)
    ensures
        yes == is_space(b),
{
    b == 32 || (9 <= b && b <= 13)
}

/// Where the trimmed text stands in `bytes`: from the first index up to,
/// and without, the second.
pub fn trim_bounds(bytes: &[u8]) -> (bounds: (usize, usize))
    ensures
        bounds.0 <= bounds.1 <= bytes@.len(),
        trimmed(bytes@) == bytes@.subrange(bounds.0 as int, bounds.1 as int),
{
    let len = bytes.len();
    let mut from: usize = 0;
    assert(bytes@.subrange(0, len as int) =~= bytes@);
    while from < len && space(bytes[from])
        invariant
            from <= len,
            len == bytes@.len(),
            trim_start(bytes@) == trim_start(bytes@.subrange(from as int, len as int)),
        decreases len - from,
    {
        assert(bytes@.subrange(from as int, len as int).drop_first() =~= bytes@.subrange(
            from + 1,
            len as int,
        ));
        from += 1;
    }
    let ghost body = bytes@.subrange(from as int, len as int);
    assert(trim_start(bytes@) == body);
    let mut to: usize = len;
    while to > from && space(bytes[to - 1])
        invariant
            from <= to <= len,
            len == bytes@.len(),
            trim_end(body) == trim_end(bytes@.subrange(from as int, to as int)),
        decreases to - from,
    {
        assert(bytes@.subrange(from as int, to as int).drop_last() =~= bytes@.subrange(
            from as int,
            to - 1,
        ));
        to -= 1;
    }
    (from, to)
}

/// Where `mark` stands first in `s` at or behind `from`; the length of `s`
/// where it stands nowhere.
pub open spec fn find_from(s: Seq<u8>, mark: u8, from: int) -> int
    decreases s.len() - from,
{
    if from < 0 || from >= s.len() {
        s.len() as int
    } else if s[from] == mark {
        from
    } else {
        find_from(s, mark, from + 1)
    }
}

/// The bytes of `bytes` from `from` up to, and without, `to`.
pub fn copy_range(bytes: &[u8], from: usize, to: usize) -> (part: Vec<u8>)
    requires
        from <= to <= bytes@.len(),
    ensures
        part@ == bytes@.subrange(from as int, to as int),
{
    let mut part: Vec<u8> = Vec::new();
    let mut i: usize = from;
    while i < to
        invariant
            from <= i <= to <= bytes@.len(),
            part@ == bytes@.subrange(from as int, i as int),
        decreases to - i,
    {
        part.push(bytes[i]);
        assert(part@ =~= bytes@.subrange(from as int, i + 1));
        i += 1;
    }
    part
}

/// Where `mark` stands first at or behind `from`.
pub fn find_mark(s: &[u8], mark: u8, from: usize) -> (at: usize)
    requires
        from <= s@.len(),
    ensures
        at == find_from(s@, mark, from as int),
        from <= at <= s@.len(),
{
    let mut i: usize = from;
    while i < s.len() && s[i] != mark
        invariant
            from <= i <= s@.len(),
            find_from(s@, mark, from as int) == find_from(s@, mark, i as int),
        decreases s@.len() - i,
    {
        i += 1;
    }
    i
}

/// Whether the bytes of `s` from `from` up to `to` are those of `word`.
pub fn same_bytes(s: &[u8], from: usize, to: usize, word: &[u8]) -> (yes: bool)
    requires
        from <= to <= s@.len(),
    ensures
        yes == (s@.subrange(from as int, to as int) == word@),
{
    let ghost part = s@.subrange(from as int, to as int);
    if to - from != word.len() {
        return false;
    }
    let mut i: usize = 0;
    while i < word.len()
        invariant
            i <= word@.len(),
            from <= to <= s@.len(),
            to - from == word@.len(),
            part == s@.subrange(from as int, to as int),
            forall|k: int| 0 <= k < i ==> part[k] == word@[k],
        decreases word@.len() - i,
    {
        if s[from + i] != word[i] {
            assert(part[i as int] != word@[i as int]);
            return false;
        }
        i += 1;
    }
    assert(part =~= word@);
    true
}

/// Whether `bytes`, white space around it aside, spells `word`.
pub fn spells(bytes: &[u8], word: &[u8]) -> (yes: bool)
    ensures
        yes == (trimmed(bytes@) == word@),
{
    let (from, to) = trim_bounds(bytes);
    same_bytes(bytes, from, to, word)
}

} // verus!
