//! Names for what std's text functions return, and the wrappers that call them

use vstd::prelude::*;

verus! {

/// What `str::to_lowercase` returns for a string: the lowercase mapping of
/// each character. fzf_wrapped lowercases an option's name with it too,
/// before it looks the name up.
pub uninterp spec fn lower_of(s: Seq<char>) -> Seq<char>;

/// Relies on `str::to_lowercase`: the result depends on the characters alone
#[verifier::external_body]
pub(crate) fn lowercase(s: &str) -> (r: String)
    ensures
        r@ == lower_of(s@),
{
    s.to_lowercase()
}

/// Whether a character is whitespace as `char::is_whitespace` says: one
/// of the characters with Unicode's `White_Space` property
pub open spec fn is_whitespace(c: char) -> bool {
    let u = c as u32;
    ||| 0x9 <= u <= 0xd
    ||| u == 0x20
    ||| u == 0x85
    ||| u == 0xa0
    ||| u == 0x1680
    ||| 0x2000 <= u <= 0x200a
    ||| u == 0x2028
    ||| u == 0x2029
    ||| u == 0x202f
    ||| u == 0x205f
    ||| u == 0x3000
}

/// A text without its leading whitespace
pub open spec fn trim_start_ws(s: Seq<char>) -> Seq<char>
    decreases s.len(),
{
    if s.len() > 0 && is_whitespace(s[0]) {
        trim_start_ws(s.drop_first())
    } else {
        s
    }
}

/// A text without its trailing whitespace
pub open spec fn trim_end_ws(s: Seq<char>) -> Seq<char>
    decreases s.len(),
{
    if s.len() > 0 && is_whitespace(s.last()) {
        trim_end_ws(s.drop_last())
    } else {
        s
    }
}

/// A text without its leading and trailing whitespace
pub open spec fn trimmed(s: Seq<char>) -> Seq<char> {
    trim_end_ws(trim_start_ws(s))
}

/// A text that starts with a character that is not whitespace loses only
/// its trailing whitespace
pub proof fn lemma_trim_from_non_space(s: Seq<char>)
    requires
        s.len() > 0,
        !is_whitespace(s[0]),
    ensures
        trimmed(s) == trim_end_ws(s),
{
}

/// Trailing whitespace is taken from the end alone: what remains is a
/// prefix of the text, and it keeps every character up to the last one that
/// is not whitespace
pub proof fn lemma_trim_end_prefix(s: Seq<char>, k: int)
    requires
        0 <= k < s.len(),
        !is_whitespace(s[k]),
    ensures
        k < trim_end_ws(s).len() <= s.len(),
        trim_end_ws(s) == s.take(trim_end_ws(s).len() as int),
    decreases s.len(),
{
    if is_whitespace(s.last()) {
        lemma_trim_end_prefix(s.drop_last(), k);
        assert(s.drop_last().take(trim_end_ws(s).len() as int) =~= s.take(trim_end_ws(s).len() as int));
    } else {
        assert(s.take(s.len() as int) =~= s);
    }
}

/// Trimming the end of `a + b` trims `b` alone where `b` keeps a character
pub proof fn lemma_trim_end_concat(a: Seq<char>, b: Seq<char>)
    requires
        trim_end_ws(b).len() > 0,
    ensures
        trim_end_ws(a + b) == a + trim_end_ws(b),
    decreases b.len(),
{
    if b.len() > 0 && is_whitespace(b.last()) {
        assert((a + b).last() == b.last());
        assert((a + b).drop_last() =~= a + b.drop_last());
        lemma_trim_end_concat(a, b.drop_last());
    } else if b.len() > 0 {
        assert((a + b).last() == b.last());
    }
}

/// Whether a text holds no `c`
pub open spec fn free_of(s: Seq<char>, c: char) -> bool {
    forall|i: int| 0 <= i < s.len() ==> s[i] != c
}

/// Whether a text holds no line break
pub open spec fn single_line(s: Seq<char>) -> bool {
    free_of(s, '\n')
}

/// The position of the first `c` in a text, or its length if it has none
pub open spec fn index_of(s: Seq<char>, c: char) -> nat
    decreases s.len(),
{
    if s.len() == 0 {
        0
    } else if s[0] == c {
        0
    } else {
        1 + index_of(s.drop_first(), c)
    }
}

/// The lines of a text, parted at each line break
pub open spec fn lines(s: Seq<char>) -> Seq<Seq<char>>
    decreases s.len(),
{
    if index_of(s, '\n') < s.len() {
        seq![s.take(index_of(s, '\n') as int)] + lines(s.skip(index_of(s, '\n') as int + 1))
    } else {
        seq![s]
    }
}

/// The first `c` of `a + b`, where `a` holds none, is the first of `b`
pub proof fn lemma_index_after(a: Seq<char>, b: Seq<char>, c: char)
    requires
        free_of(a, c),
    ensures
        index_of(a + b, c) == a.len() + index_of(b, c),
    decreases a.len(),
{
    if a.len() > 0 {
        assert((a + b)[0] == a[0]);
        assert((a + b).drop_first() =~= a.drop_first() + b);
        lemma_index_after(a.drop_first(), b, c);
    } else {
        assert(a + b =~= b);
    }
}

/// A text that holds no `c` has it at its end
pub proof fn lemma_index_absent(a: Seq<char>, c: char)
    requires
        free_of(a, c),
    ensures
        index_of(a, c) == a.len(),
{
    lemma_index_after(a, Seq::empty(), c);
    assert(a + Seq::<char>::empty() =~= a);
}

/// The first `c` of a text that has `c` at `k` and none before
pub proof fn lemma_index_found(s: Seq<char>, k: int, c: char)
    requires
        0 <= k < s.len(),
        s[k] == c,
        free_of(s.take(k), c),
    ensures
        index_of(s, c) == k,
{
    assert(s =~= s.take(k) + s.skip(k));
    lemma_index_after(s.take(k), s.skip(k), c);
}

pub proof fn lemma_lines_one(a: Seq<char>)
    requires
        single_line(a),
    ensures
        lines(a) == seq![a],
{
    lemma_index_absent(a, '\n');
}

pub proof fn lemma_lines_cons(a: Seq<char>, b: Seq<char>)
    requires
        single_line(a),
    ensures
        lines(a + "\n"@ + b) == seq![a] + lines(b),
{
    reveal_strlit("\n");
    let t = a + "\n"@ + b;
    assert(t =~= a + ("\n"@ + b));
    lemma_index_after(a, "\n"@ + b, '\n');
    assert(("\n"@ + b)[0] == '\n');
    assert(t.take(a.len() as int) =~= a);
    assert(t.skip(a.len() as int + 1) =~= b);
}

pub proof fn lemma_free_of_concat(a: Seq<char>, b: Seq<char>, c: char)
    requires
        free_of(a, c),
        free_of(b, c),
    ensures
        free_of(a + b, c),
{
    assert forall|i: int| 0 <= i < (a + b).len() implies (a + b)[i] != c by {
        if i >= a.len() {
            assert((a + b)[i] == b[i - a.len()]);
        }
    }
}

/// Relies on `str::trim`
#[verifier::external_body]
pub(crate) fn trim(s: &str) -> (r: String)
    ensures
        r@ == trimmed(s@),
{
    s.trim().to_string()
}

} // verus!
