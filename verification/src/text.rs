use vstd::prelude::*;

verus! {

/// The text held by an optional string.
pub open spec fn opt_text(o: Option<String>) -> Option<Seq<char>> {
    match o {
        Some(s) => Some(s@),
        None => None,
    }
}

/// The text of one decimal digit.
pub open spec fn digit_text(d: nat) -> Seq<char> {
    if d == 0 {
        "0"@
    } else if d == 1 {
        "1"@
    } else if d == 2 {
        "2"@
    } else if d == 3 {
        "3"@
    } else if d == 4 {
        "4"@
    } else if d == 5 {
        "5"@
    } else if d == 6 {
        "6"@
    } else if d == 7 {
        "7"@
    } else if d == 8 {
        "8"@
    } else {
        "9"@
    }
}

/// The decimal notation of a natural number, most significant digit first,
/// without leading zeros.
pub open spec fn decimal(n: nat) -> Seq<char>
    decreases n,
{
    if n < 10 {
        digit_text(n)
    } else {
        decimal(n / 10) + digit_text(n % 10)
    }
}

fn digit_str(d: u128) -> (s: &'static str)
    requires
        d < 10,
    ensures
        s@ == digit_text(d as nat),
{
    if d == 0 {
        "0"
    } else if d == 1 {
        "1"
    } else if d == 2 {
        "2"
    } else if d == 3 {
        "3"
    } else if d == 4 {
        "4"
    } else if d == 5 {
        "5"
    } else if d == 6 {
        "6"
    } else if d == 7 {
        "7"
    } else if d == 8 {
        "8"
    } else {
        "9"
    }
}

/// Writes a number in decimal notation.
pub fn decimal_text(n: u128) -> (s: String)
    ensures
        s@ == decimal(n as nat),
    decreases n,
{
    if n < 10 {
        String::from_str(digit_str(n))
    } else {
        let mut s = decimal_text(n / 10);
        s.append(digit_str(n % 10));
        s
    }
}

/// `n` spaces.
pub open spec fn spaces(n: nat) -> Seq<char> {
    Seq::new(n, |i: int| ' ')
}

/// The text left-aligned in a field of `width` characters: padded with
/// spaces on the right up to the width, never cut.
pub open spec fn pad_right(s: Seq<char>, width: nat) -> Seq<char> {
    if s.len() < width {
        s + spaces((width - s.len()) as nat)
    } else {
        s
    }
}

/// Left-aligns a text in a field of `width` characters.
pub fn padded(s: &str, width: usize) -> (out: String)
    ensures
        out@ == pad_right(s@, width as nat),
{
    let n = s.unicode_len();
    let mut out = String::from_str(s);
    if n < width {
        let mut i: usize = 0;
        while i < width - n
            invariant
                n == s@.len(),
                n < width,
                i <= width - n,
                out@ == s@ + spaces(i as nat),
            decreases width - n - i,
        {
            out.append(" ");
            proof {
                reveal_strlit(" ");
                assert(spaces(i as nat).push(' ') =~= spaces((i + 1) as nat));
                assert(out@ =~= s@ + spaces((i + 1) as nat));
            }
            i = i + 1;
        }
    }
    proof {
        if !(n < width) {
            assert(out@ == s@);
        }
    }
    out
}

/// Lexicographic order of two texts from position `i` on, character by
/// character by code point; a proper prefix comes first.
pub open spec fn text_le_from(a: Seq<char>, b: Seq<char>, i: int) -> bool
    decreases a.len() - i,
{
    if i >= a.len() {
        true
    } else if i >= b.len() {
        false
    } else if a[i] != b[i] {
        (a[i] as int) < (b[i] as int)
    } else {
        text_le_from(a, b, i + 1)
    }
}

/// Lexicographic order of texts by code point, the order in which Rust
/// compares strings (UTF-8 keeps the order of code points).
pub open spec fn text_le(a: Seq<char>, b: Seq<char>) -> bool {
    text_le_from(a, b, 0)
}

/// Whether `a` comes no later than `b` in lexicographic order.
pub fn text_le_exec(a: &str, b: &str) -> (r: bool)
    ensures
        r == text_le(a@, b@),
{
    let la = a.unicode_len();
    let lb = b.unicode_len();
    let mut i: usize = 0;
    while i < la && i < lb
        invariant
            la == a@.len(),
            lb == b@.len(),
            i <= la,
            i <= lb,
            text_le(a@, b@) == text_le_from(a@, b@, i as int),
        decreases la - i,
    {
        let ca = a.get_char(i);
        let cb = b.get_char(i);
        if ca != cb {
            return ca < cb;
        }
        i = i + 1;
    }
    i == la
}

proof fn lemma_text_le_from_total(a: Seq<char>, b: Seq<char>, i: int)
    requires
        0 <= i,
    ensures
        text_le_from(a, b, i) || text_le_from(b, a, i),
    decreases a.len() - i,
{
    if i < a.len() && i < b.len() {
        if a[i] == b[i] {
            lemma_text_le_from_total(a, b, i + 1);
        } else {
            assert((a[i] as int) != (b[i] as int));
        }
    }
}

proof fn lemma_text_le_from_transitive(a: Seq<char>, b: Seq<char>, c: Seq<char>, i: int)
    requires
        0 <= i,
        text_le_from(a, b, i),
        text_le_from(b, c, i),
    ensures
        text_le_from(a, c, i),
    decreases a.len() - i,
{
    if i < a.len() && i < b.len() && i < c.len() && a[i] == b[i] && b[i] == c[i] {
        lemma_text_le_from_transitive(a, b, c, i + 1);
    }
}

/// Any two texts are ordered one way or the other.
pub proof fn lemma_text_le_total(a: Seq<char>, b: Seq<char>)
    ensures
        text_le(a, b) || text_le(b, a),
{
    lemma_text_le_from_total(a, b, 0);
}

/// The order of texts is transitive.
pub proof fn lemma_text_le_transitive(a: Seq<char>, b: Seq<char>, c: Seq<char>)
    requires
        text_le(a, b),
        text_le(b, c),
    ensures
        text_le(a, c),
{
    lemma_text_le_from_transitive(a, b, c, 0);
}

/// `a` and `b` agree on their first `n` characters.
pub open spec fn agree_up_to(a: Seq<char>, b: Seq<char>, n: int) -> bool {
    forall|j: int| 0 <= j < n ==> a[j] == b[j]
}

proof fn lemma_text_le_from_lexicographic(a: Seq<char>, b: Seq<char>, k: int)
    requires
        0 <= k <= a.len(),
        k <= b.len(),
        agree_up_to(a, b, k),
    ensures
        text_le_from(a, b, k) <==> ((a.len() <= b.len() && agree_up_to(a, b, a.len() as int))
            || exists|i: int|
            0 <= i < a.len() && i < b.len() && agree_up_to(a, b, i) && (a[i] as int) < (
            b[i] as int)),
    decreases a.len() - k,
{
    if k == a.len() {
        assert(agree_up_to(a, b, a.len() as int));
    } else if k == b.len() {
        assert forall|i: int|
            0 <= i < a.len() && i < b.len() && agree_up_to(a, b, i) implies !((a[i] as int) < (
            b[i] as int)) by {
            assert(a[i] == b[i]);
        }
    } else if a[k] != b[k] {
        assert((a[k] as int) != (b[k] as int));
        if (a[k] as int) < (b[k] as int) {
            assert(0 <= k < a.len() && k < b.len() && agree_up_to(a, b, k) && (a[k] as int) < (
            b[k] as int));
        } else {
            assert(!agree_up_to(a, b, a.len() as int));
            assert forall|i: int|
                0 <= i < a.len() && i < b.len() && agree_up_to(a, b, i) implies !((a[i] as int) < (
                b[i] as int)) by {
                if i < k {
                    assert(a[i] == b[i]);
                } else if i > k {
                    assert(a[k] == b[k]);
                }
            }
        }
    } else {
        assert(agree_up_to(a, b, k + 1));
        lemma_text_le_from_lexicographic(a, b, k + 1);
    }
}

/// The order of texts is the lexicographic order of code points: `a` comes
/// no later than `b` exactly when `a` is a prefix of `b`, or at the first
/// position where they differ the character of `a` has the lower code point.
pub proof fn lemma_text_le_is_lexicographic(a: Seq<char>, b: Seq<char>)
    ensures
        text_le(a, b) <==> ((a.len() <= b.len() && agree_up_to(a, b, a.len() as int)) || exists|
            i: int|
            0 <= i < a.len() && i < b.len() && agree_up_to(a, b, i) && (a[i] as int) < (
            b[i] as int)),
{
    lemma_text_le_from_lexicographic(a, b, 0);
}

} // verus!
