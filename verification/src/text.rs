use vstd::prelude::*;

verus! {

/// The characters with the Unicode `White_Space` property, the set that
/// `str::trim` removes from the ends of a string.
pub open spec fn is_unicode_whitespace(c: char) -> bool {
    ||| c as u32 == 0x9
    ||| c as u32 == 0xA
    ||| c as u32 == 0xB
    ||| c as u32 == 0xC
    ||| c as u32 == 0xD
    ||| c as u32 == 0x20
    ||| c as u32 == 0x85
    ||| c as u32 == 0xA0
    ||| c as u32 == 0x1680
    ||| (0x2000 <= c as u32 && c as u32 <= 0x200A)
    ||| c as u32 == 0x2028
    ||| c as u32 == 0x2029
    ||| c as u32 == 0x202F
    ||| c as u32 == 0x205F
    ||| c as u32 == 0x3000
}

/// The sequence with its longest white-space prefix removed.
pub open spec fn trim_start_of(s: Seq<char>) -> Seq<char>
    decreases s.len(),
{
    if s.len() > 0 && is_unicode_whitespace(s[0]) {
        trim_start_of(s.drop_first())
    } else {
        s
    }
}

/// The sequence with its longest white-space suffix removed.
pub open spec fn trim_end_of(s: Seq<char>) -> Seq<char>
    decreases s.len(),
{
    if s.len() > 0 && is_unicode_whitespace(s.last()) {
        trim_end_of(s.drop_last())
    } else {
        s
    }
}

/// The sequence with white-space removed from both ends.
pub open spec fn trim_of(s: Seq<char>) -> Seq<char> {
    trim_end_of(trim_start_of(s))
}

/// The UTF-8 bytes of a string, as a fresh vector.
pub(crate) fn str_bytes(s: &str) -> (r: Vec<u8>)
    ensures
        r@ == vstd::utf8::encode_utf8(s@),
{
    vstd::slice::slice_to_vec(s.as_bytes())
}

/// Dropping a fully white-space prefix of length `i` is what
/// `trim_start_of` does.
proof fn lemma_trim_start_subrange(s: Seq<char>, i: int)
    requires
        0 <= i <= s.len(),
        forall|j: int| 0 <= j < i ==> is_unicode_whitespace(s[j]),
        i == s.len() || !is_unicode_whitespace(s[i]),
    ensures
        trim_start_of(s) == s.subrange(i, s.len() as int),
    decreases i,
{
    if i == 0 {
        assert(s.subrange(0, s.len() as int) =~= s);
    } else {
        assert(is_unicode_whitespace(s[0]));
        let t = s.drop_first();
        lemma_trim_start_subrange(t, i - 1);
        assert(t.subrange(i - 1, t.len() as int) =~= s.subrange(i, s.len() as int));
    }
}

/// Dropping a fully white-space suffix that starts at `e` is what
/// `trim_end_of` does.
proof fn lemma_trim_end_subrange(s: Seq<char>, e: int)
    requires
        0 <= e <= s.len(),
        forall|j: int| e <= j < s.len() ==> is_unicode_whitespace(s[j]),
        e == 0 || !is_unicode_whitespace(s[e - 1]),
    ensures
        trim_end_of(s) == s.subrange(0, e),
    decreases s.len() - e,
{
    if e == s.len() {
        assert(s.subrange(0, e) =~= s);
    } else {
        assert(is_unicode_whitespace(s.last()));
        let t = s.drop_last();
        lemma_trim_end_subrange(t, e);
        assert(t.subrange(0, e) =~= s.subrange(0, e));
    }
}

/// Whether the character is Unicode white-space.
fn is_ws_char(c: char) -> (b: bool)
    ensures
        b == is_unicode_whitespace(c),
{
    let u: u32 = c as u32;
    u == 0x9 || u == 0xA || u == 0xB || u == 0xC || u == 0xD || u == 0x20 || u == 0x85 || u
        == 0xA0 || u == 0x1680 || (0x2000 <= u && u <= 0x200A) || u == 0x2028 || u == 0x2029 || u
        == 0x202F || u == 0x205F || u == 0x3000
}

/// Removes the longest run of Unicode white-space characters from each end
/// of the string.
pub(crate) fn trim(s: &str) -> (r: String)
    ensures
        r@ == trim_of(s@),
{
    let n: usize = s.unicode_len();
    let mut start: usize = 0;
    while start < n && is_ws_char(s.get_char(start))
        invariant
            start <= n,
            n as nat == s@.len(),
            forall|j: int| 0 <= j < start ==> is_unicode_whitespace(s@[j]),
        decreases n - start,
    {
        start = start + 1;
    }
    let mut end: usize = n;
    while end > start && is_ws_char(s.get_char(end - 1))
        invariant
            start <= end <= n,
            n as nat == s@.len(),
            forall|j: int| end <= j < n ==> is_unicode_whitespace(s@[j]),
        decreases end,
    {
        end = end - 1;
    }
    proof {
        lemma_trim_start_subrange(s@, start as int);
        let t = s@.subrange(start as int, s@.len() as int);
        lemma_trim_end_subrange(t, end as int - start as int);
        assert(t.subrange(0, end as int - start as int) =~= s@.subrange(
            start as int,
            end as int,
        ));
    }
    s.substring_char(start, end).to_owned()
}

} // verus!
