//! Text helpers: equality and ordering of strings, proved against their views.

use vstd::prelude::*;
use vstd::string::*;
use vstd::utf8::*;

verus! {

/// The view of a string: its characters.
pub type Text = Seq<char>;

/// The texts of a sequence of strings.
pub open spec fn texts(v: Seq<String>) -> Seq<Text> {
    v.map_values(|s: String| s@)
}

/// The text of an optional string.
pub open spec fn opt_text(o: Option<String>) -> Option<Text> {
    match o {
        Some(s) => Some(s@),
        None => None,
    }
}

/// A copy of an optional string.
pub fn copy_opt(o: &Option<String>) -> (copy: Option<String>)
    ensures
        opt_text(copy) == opt_text(*o),
{
    match o {
        Some(s) => Some(s.clone()),
        None => None,
    }
}

/// A copy of a list of strings.
pub fn copy_strings(v: &Vec<String>) -> (copy: Vec<String>)
    ensures
        texts(copy@) == texts(v@),
{
    let mut copy: Vec<String> = Vec::new();
    let mut i: usize = 0;
    while i < v.len()
        invariant
            i <= v.len(),
            copy@.len() == i,
            forall|j: int| 0 <= j < i ==> copy@[j]@ == v@[j]@,
        decreases v.len() - i,
    {
        copy.push(v[i].clone());
        i += 1;
    }
    assert(texts(copy@) =~= texts(v@));
    copy
}

/// `a` and `b` agree on their first `k` bytes.
pub open spec fn common_prefix(a: Seq<u8>, b: Seq<u8>, k: int) -> bool {
    &&& 0 <= k <= a.len()
    &&& k <= b.len()
    &&& forall|j: int| 0 <= j < k ==> a[j] == b[j]
}

/// `a` comes strictly before `b` in the lexicographic order of byte strings,
/// witnessed at position `k`: the two agree before `k`, and there `a` ends or
/// holds the smaller byte.
pub open spec fn precedes_at(a: Seq<u8>, b: Seq<u8>, k: int) -> bool {
    &&& common_prefix(a, b, k)
    &&& k < b.len()
    &&& k < a.len() ==> a[k] < b[k]
}

/// Strict lexicographic order on byte strings.
pub open spec fn bytes_lt(a: Seq<u8>, b: Seq<u8>) -> bool {
    exists|k: int| precedes_at(a, b, k)
}

/// Strict order on texts: the lexicographic order of their UTF-8 encodings,
/// which is the order `str` has.
pub open spec fn text_lt(a: Text, b: Text) -> bool {
    bytes_lt(encode_utf8(a), encode_utf8(b))
}

/// Two texts with the same encoding are the same text.
pub proof fn lemma_encoding_injective(a: Text, b: Text)
    requires
        encode_utf8(a) == encode_utf8(b),
    ensures
        a == b,
{
    encode_utf8_decode_utf8(a);
    encode_utf8_decode_utf8(b);
}

/// No byte string precedes itself.
pub proof fn lemma_bytes_lt_irreflexive(a: Seq<u8>)
    ensures
        !bytes_lt(a, a),
{
    if bytes_lt(a, a) {
        let k = choose|k: int| precedes_at(a, a, k);
        assert(a[k] < a[k]);
    }
}

/// The order is transitive.
pub proof fn lemma_bytes_lt_transitive(a: Seq<u8>, b: Seq<u8>, c: Seq<u8>)
    requires
        bytes_lt(a, b),
        bytes_lt(b, c),
    ensures
        bytes_lt(a, c),
{
    let k1 = choose|k: int| precedes_at(a, b, k);
    let k2 = choose|k: int| precedes_at(b, c, k);
    let k = if k1 <= k2 { k1 } else { k2 };
    assert(precedes_at(a, c, k));
}

/// Of two different byte strings one precedes the other.
pub proof fn lemma_bytes_lt_total(a: Seq<u8>, b: Seq<u8>)
    ensures
        a == b || bytes_lt(a, b) || bytes_lt(b, a),
{
    lemma_first_difference(a, b, 0);
}

/// From a common prefix of length `k` on, the two strings are equal or one
/// precedes the other.
proof fn lemma_first_difference(a: Seq<u8>, b: Seq<u8>, k: int)
    requires
        common_prefix(a, b, k),
    ensures
        a == b || bytes_lt(a, b) || bytes_lt(b, a),
    decreases a.len() - k,
{
    if k == a.len() {
        if k == b.len() {
            assert(a =~= b);
        } else {
            assert(precedes_at(a, b, k));
        }
    } else if k == b.len() {
        assert(precedes_at(b, a, k));
    } else if a[k] < b[k] {
        assert(precedes_at(a, b, k));
    } else if b[k] < a[k] {
        assert(precedes_at(b, a, k));
    } else {
        lemma_first_difference(a, b, k + 1);
    }
}

/// No text precedes itself.
pub proof fn lemma_text_lt_irreflexive(a: Text)
    ensures
        !text_lt(a, a),
{
    lemma_bytes_lt_irreflexive(encode_utf8(a));
}

/// The order on texts is transitive.
pub proof fn lemma_text_lt_transitive(a: Text, b: Text, c: Text)
    requires
        text_lt(a, b),
        text_lt(b, c),
    ensures
        text_lt(a, c),
{
    lemma_bytes_lt_transitive(encode_utf8(a), encode_utf8(b), encode_utf8(c));
}

/// Of two different texts one precedes the other.
pub proof fn lemma_text_lt_total(a: Text, b: Text)
    ensures
        a == b || text_lt(a, b) || text_lt(b, a),
{
    lemma_bytes_lt_total(encode_utf8(a), encode_utf8(b));
    if encode_utf8(a) == encode_utf8(b) {
        lemma_encoding_injective(a, b);
    }
}

/// Whether two strings hold the same characters.
pub fn str_eq(a: &str, b: &str) -> (same: bool)
    ensures
        same == (a@ == b@),
{
    let x = a.as_bytes();
    let y = b.as_bytes();
    proof {
        if x@ == y@ {
            lemma_encoding_injective(a@, b@);
        }
    }
    if x.len() != y.len() {
        return false;
    }
    let mut i: usize = 0;
    while i < x.len()
        invariant
            i <= x.len(),
            x.len() == y.len(),
            x@ == encode_utf8(a@),
            y@ == encode_utf8(b@),
            forall|j: int| 0 <= j < i ==> x@[j] == y@[j],
        decreases x.len() - i,
    {
        if x[i] != y[i] {
            return false;
        }
        i += 1;
    }
    assert(x@ =~= y@);
    true
}

/// Whether `a` sorts strictly before `b`.
pub fn str_lt(a: &str, b: &str) -> (before: bool)
    ensures
        before == text_lt(a@, b@),
{
    let x = a.as_bytes();
    let y = b.as_bytes();
    let mut i: usize = 0;
    while i < x.len() && i < y.len() && x[i] == y[i]
        invariant
            common_prefix(x@, y@, i as int),
        decreases x.len() - i,
    {
        i += 1;
    }
    let before = i < y.len() && (i == x.len() || x[i] < y[i]);
    proof {
        if before {
            assert(precedes_at(x@, y@, i as int));
        } else if bytes_lt(x@, y@) {
            let k = choose|k: int| precedes_at(x@, y@, k);
            if k < i {
                assert(x@[k] == y@[k]);
            } else if k > i {
                assert(x@[i as int] == y@[i as int]);
            }
        }
    }
    before
}

/// The character of the decimal digit `d`.
pub open spec fn digit_char(d: int) -> char {
    if d == 0 {
        '0'
    } else if d == 1 {
        '1'
    } else if d == 2 {
        '2'
    } else if d == 3 {
        '3'
    } else if d == 4 {
        '4'
    } else if d == 5 {
        '5'
    } else if d == 6 {
        '6'
    } else if d == 7 {
        '7'
    } else if d == 8 {
        '8'
    } else {
        '9'
    }
}

/// The decimal numeral of `n`, without leading zeros.
pub open spec fn decimal(n: nat) -> Text
    decreases n,
{
    if n < 10 {
        seq![digit_char(n as int)]
    } else {
        decimal(n / 10).push(digit_char((n % 10) as int))
    }
}

/// The numeral of one decimal digit.
pub fn digit_str(d: u64) -> (numeral: &'static str)
    requires
        d < 10,
    ensures
        numeral@ == seq![digit_char(d as int)],
{
    proof {
        reveal_strlit("0");
        reveal_strlit("1");
        reveal_strlit("2");
        reveal_strlit("3");
        reveal_strlit("4");
        reveal_strlit("5");
        reveal_strlit("6");
        reveal_strlit("7");
        reveal_strlit("8");
        reveal_strlit("9");
    }
    let numeral = if d == 0 {
        "0"
    } else if d == 1 {
        "1"
    } else if d == 2 {
        "2"
    } else if d == 3 {
        "3"
    } else if d == 4 {
        "4"
    } else if d == 5 {
        "5"
    } else if d == 6 {
        "6"
    } else if d == 7 {
        "7"
    } else if d == 8 {
        "8"
    } else {
        "9"
    };
    assert(numeral@ =~= seq![digit_char(d as int)]);
    numeral
}

/// The decimal numeral of `n`.
pub fn decimal_string(n: u128) -> (numeral: String)
    ensures
        numeral@ == decimal(n as nat),
{
    let mut rest: u128 = n / 10;
    let mut numeral: String = digit_str((n % 10) as u64).to_owned();
    while rest > 0
        invariant
            decimal(n as nat) == if rest > 0 {
                decimal(rest as nat) + numeral@
            } else {
                numeral@
            },
        decreases rest,
    {
        let digit = digit_str((rest % 10) as u64);
        let ghost before = numeral@;
        numeral = digit.to_owned().concat(numeral.as_str());
        proof {
            let r = rest as nat;
            if r >= 10 {
                assert(decimal(r) + before =~= decimal(r / 10) + (seq![digit_char((r % 10) as int)]
                    + before));
            } else {
                assert(decimal(r) + before =~= seq![digit_char(r as int)] + before);
            }
        }
        rest = rest / 10;
    }
    numeral
}

/// `n` spaces.
pub open spec fn spaces(n: nat) -> Text {
    Seq::new(n, |i: int| ' ')
}

/// `s`, with spaces after it as far as it has fewer than `width` characters.
pub open spec fn padded(s: Text, width: nat) -> Text {
    if s.len() < width {
        s + spaces((width - s.len()) as nat)
    } else {
        s
    }
}

/// `s`, filled up with spaces to `width` characters.
pub fn pad_right(s: &str, width: usize) -> (filled: String)
    ensures
        filled@ == padded(s@, width as nat),
{
    let length = s.unicode_len();
    let mut filled = s.to_owned();
    let mut reached: usize = length;
    proof {
        reveal_strlit(" ");
        assert(s@ + spaces(0) =~= s@);
    }
    while reached < width
        invariant
            length == s@.len(),
            length <= reached,
            reached <= width || reached == length,
            filled@ == s@ + spaces((reached - length) as nat),
            " "@ == seq![' '],
        decreases width - reached,
    {
        let ghost before = filled@;
        filled = filled.concat(" ");
        reached += 1;
        assert(filled@ =~= s@ + spaces((reached - length) as nat));
    }
    filled
}

/// The greatest length in bytes among `names`, 0 if there are none.
pub open spec fn widest(names: Seq<Text>) -> nat
    decreases names.len(),
{
    if names.len() == 0 {
        0
    } else {
        let rest = widest(names.drop_last());
        let last = encode_utf8(names.last()).len();
        if last > rest {
            last
        } else {
            rest
        }
    }
}

/// The greatest length in bytes among `names`.
pub fn max_len(names: &Vec<String>) -> (width: usize)
    ensures
        width == widest(texts(names@)),
{
    let ghost all = texts(names@);
    let mut width: usize = 0;
    let mut i: usize = 0;
    assert(all.take(0) =~= Seq::empty());
    while i < names.len()
        invariant
            i <= names.len(),
            all == texts(names@),
            width == widest(all.take(i as int)),
        decreases names.len() - i,
    {
        assert(all.take(i + 1).drop_last() =~= all.take(i as int));
        let name = names[i].as_str();
        let length = name.as_bytes().len();
        assert(name@ == all[i as int]);
        assert(all.take(i + 1).last() == all[i as int]);
        if length > width {
            width = length;
        }
        i += 1;
    }
    assert(all.take(i as int) =~= all);
    width
}

} // verus!
