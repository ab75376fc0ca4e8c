//! Translation of byte offsets in UTF-8 text into UTF-16 code-unit offsets.
use vstd::prelude::*;

verus! {

/// Bytes that `c` takes in UTF-8.
pub open spec fn utf8_width(c: char) -> nat {
    if (c as u32) < 0x80 {
        1
    } else if (c as u32) < 0x800 {
        2
    } else if (c as u32) < 0x10000 {
        3
    } else {
        4
    }
}

/// Code units that `c` takes in UTF-16.
pub open spec fn utf16_width(c: char) -> nat {
    if (c as u32) < 0x10000 {
        1
    } else {
        2
    }
}

/// Length of `s` in UTF-8 bytes.
pub open spec fn byte_len(s: Seq<char>) -> nat
    decreases s.len(),
{
    if s.len() == 0 {
        0
    } else {
        byte_len(s.drop_last()) + utf8_width(s.last())
    }
}

/// Length of `s` in UTF-16 code units.
pub open spec fn utf16_len(s: Seq<char>) -> nat
    decreases s.len(),
{
    if s.len() == 0 {
        0
    } else {
        utf16_len(s.drop_last()) + utf16_width(s.last())
    }
}

/// UTF-16 code units of the characters of `s` that start strictly before byte `b`.
/// Characters start at increasing byte offsets, so these form a prefix of `s`:
/// all of `s` when its last character starts before `b`.
pub open spec fn utf16_index(s: Seq<char>, b: int) -> nat
    decreases s.len(),
{
    if s.len() == 0 {
        0
    } else if byte_len(s.drop_last()) < b {
        utf16_len(s)
    } else {
        utf16_index(s.drop_last(), b)
    }
}

proof fn lemma_prefix_lens_monotonic(s: Seq<char>, i: int, j: int)
    requires
        0 <= i <= j <= s.len(),
    ensures
        byte_len(s.subrange(0, i)) <= byte_len(s.subrange(0, j)),
        utf16_len(s.subrange(0, i)) <= utf16_len(s.subrange(0, j)),
    decreases j - i,
{
    if i < j {
        lemma_prefix_lens_monotonic(s, i, j - 1);
        assert(s.subrange(0, j).drop_last() =~= s.subrange(0, j - 1));
    }
}

proof fn lemma_index_at_boundary(s: Seq<char>, b: int, i: int)
    requires
        0 <= i <= s.len(),
        i == 0 || byte_len(s.subrange(0, i - 1)) < b,
        i == s.len() || byte_len(s.subrange(0, i)) >= b,
    ensures
        utf16_index(s, b) == utf16_len(s.subrange(0, i)),
    decreases s.len(),
{
    if s.len() > 0 {
        let p = s.drop_last();
        if i == s.len() {
            assert(s.subrange(0, i - 1) =~= p);
            assert(s.subrange(0, i) =~= s);
        } else {
            lemma_prefix_lens_monotonic(s, i, s.len() - 1);
            assert(s.subrange(0, s.len() - 1) =~= p);
            assert(p.subrange(0, i) =~= s.subrange(0, i));
            if i > 0 {
                assert(p.subrange(0, i - 1) =~= s.subrange(0, i - 1));
            }
            lemma_index_at_boundary(p, b, i);
        }
    } else {
        assert(s.subrange(0, i) =~= s);
    }
}

/// Translated offsets keep their order and stay within the text: for byte
/// offsets `a <= b`, their UTF-16 offsets satisfy
/// `0 <= utf16_index(s, a) <= utf16_index(s, b) <= utf16_len(s)`.
pub proof fn lemma_offsets_well_formed(s: Seq<char>, a: int, b: int)
    requires
        a <= b,
    ensures
        utf16_index(s, a) <= utf16_index(s, b) <= utf16_len(s),
    decreases s.len(),
{
    if s.len() > 0 {
        lemma_offsets_well_formed(s.drop_last(), a, b);
        lemma_index_bounded(s.drop_last(), b);
    }
}

proof fn lemma_index_bounded(s: Seq<char>, b: int)
    ensures
        utf16_index(s, b) <= utf16_len(s),
    decreases s.len(),
{
    if s.len() > 0 {
        lemma_index_bounded(s.drop_last(), b);
    }
}

proof fn lemma_utf16_len_first(s: Seq<char>)
    requires
        s.len() > 0,
    ensures
        utf16_len(s) == utf16_width(s[0]) + utf16_len(s.drop_first()),
    decreases s.len(),
{
    if s.len() == 1 {
        assert(utf16_len(s.drop_last()) == 0);
        assert(utf16_len(s.drop_first()) == 0);
        assert(s.last() == s[0]);
    } else {
        let d = s.drop_last();
        let t = s.drop_first();
        lemma_utf16_len_first(d);
        assert(d[0] == s[0]);
        assert(d.drop_first() =~= t.drop_last());
        assert(t.last() == s.last());
        assert(utf16_len(t) == utf16_len(t.drop_last()) + utf16_width(t.last()));
    }
}

/// A text takes no more UTF-16 code units than UTF-8 bytes.
proof fn lemma_utf16_len_within_bytes(s: Seq<char>)
    ensures
        utf16_len(s) <= vstd::utf8::encode_utf8(s).len(),
    decreases s.len(),
{
    if s.len() > 0 {
        lemma_utf16_len_first(s);
        lemma_utf16_len_within_bytes(s.drop_first());
        assert(utf16_width(s[0]) <= vstd::utf8::encode_scalar(s[0] as u32).len());
    }
}

fn char_utf8_width(c: char) -> (r: usize)
    ensures
        r == utf8_width(c),
{
    let v = c as u32;
    if v < 0x80 {
        1
    } else if v < 0x800 {
        2
    } else if v < 0x10000 {
        3
    } else {
        4
    }
}

fn char_utf16_width(c: char) -> (r: usize)
    ensures
        r == utf16_width(c),
{
    if (c as u32) < 0x10000 {
        1
    } else {
        2
    }
}

/// The UTF-16 code-unit offset that corresponds to byte offset `byte_index`
/// of `text`: the UTF-16 length of every character that starts strictly
/// before it.
pub fn utf16_index_for_byte(text: &str, byte_index: usize) -> (r: usize)
    ensures
        r == utf16_index(text@, byte_index as int),
{
    let byte_count: usize = text.as_bytes().len();
    proof {
        lemma_utf16_len_within_bytes(text@);
        assert(utf16_len(text@) <= byte_count);
    }
    let n = text.unicode_len();
    let ghost s = text@;
    let mut i: usize = 0;
    let mut byte_pos: u128 = 0;
    let mut units: usize = 0;
    while i < n
        invariant
            n == s.len(),
            s == text@,
            0 <= i <= n,
            byte_pos == byte_len(s.subrange(0, i as int)),
            units == utf16_len(s.subrange(0, i as int)),
            byte_pos <= 4 * i,
            utf16_len(s) <= usize::MAX,
            i == 0 || byte_len(s.subrange(0, i - 1)) < byte_index,
        decreases n - i,
    {
        if byte_pos >= byte_index as u128 {
            proof {
                lemma_index_at_boundary(s, byte_index as int, i as int);
            }
            return units;
        }
        let c = text.get_char(i);
        proof {
            assert(s.subrange(0, i + 1).drop_last() =~= s.subrange(0, i as int));
            lemma_prefix_lens_monotonic(s, i + 1, s.len() as int);
            assert(s.subrange(0, s.len() as int) =~= s);
        }
        byte_pos = byte_pos + char_utf8_width(c) as u128;
        units = units + char_utf16_width(c);
        i = i + 1;
    }
    proof {
        lemma_index_at_boundary(s, byte_index as int, i as int);
    }
    units
}

} // verus!
