use vstd::prelude::*;
use vstd::string::StringExecFns;
use vstd::string::StringSliceAdditionalSpecFns;
use vstd::utf8::*;

verus! {

/// Encoding distributes over concatenation.
pub proof fn lemma_encode_concat(a: Seq<char>, b: Seq<char>)
    ensures
        encode_utf8(a + b) == encode_utf8(a) + encode_utf8(b),
    decreases a.len(),
{
    if a.len() == 0 {
        assert(a + b =~= b);
        assert(encode_utf8(a) + encode_utf8(b) =~= encode_utf8(b));
    } else {
        assert((a + b).drop_first() =~= a.drop_first() + b);
        lemma_encode_concat(a.drop_first(), b);
        assert(encode_utf8(a + b) =~= encode_utf8(a) + encode_utf8(b));
    }
}

/// Two texts with the same encoding are the same text.
pub proof fn lemma_encode_injective(a: Seq<char>, b: Seq<char>)
    requires
        encode_utf8(a) == encode_utf8(b),
    ensures
        a == b,
{
    encode_utf8_decode_utf8(a);
    encode_utf8_decode_utf8(b);
}

/// The encoding of a non-empty text starts with the encoding of its first
/// character, followed by the encoding of the rest.
pub proof fn lemma_encode_unfold(s: Seq<char>)
    requires
        s.len() > 0,
    ensures
        encode_utf8(s) == encode_scalar(s[0] as u32) + encode_utf8(s.drop_first()),
        1 <= encode_scalar(s[0] as u32).len() <= 4,
        valid_first_scalar(encode_utf8(s)),
        decode_first_scalar(encode_utf8(s)) == s[0] as u32,
        length_of_first_scalar(encode_utf8(s)) == encode_scalar(s[0] as u32).len(),
        pop_first_scalar(encode_utf8(s)) == encode_utf8(s.drop_first()),
{
    encode_utf8_first_scalar(s);
    assert(pop_first_scalar(encode_utf8(s)) =~= encode_utf8(s.drop_first()));
}

/// A text is a prefix of another exactly when its encoding is a prefix of
/// the other's encoding.
pub proof fn lemma_prefix_by_bytes(p: Seq<char>, s: Seq<char>)
    ensures
        encode_utf8(p).is_prefix_of(encode_utf8(s)) <==> p.is_prefix_of(s),
    decreases p.len(),
{
    let ep = encode_utf8(p);
    let es = encode_utf8(s);
    if p.is_prefix_of(s) {
        let rest = s.subrange(p.len() as int, s.len() as int);
        assert(s =~= p + rest);
        lemma_encode_concat(p, rest);
        assert(ep =~= es.subrange(0, ep.len() as int));
    }
    if ep.is_prefix_of(es) {
        if p.len() == 0 {
            assert(p =~= s.subrange(0, 0));
        } else {
            lemma_encode_unfold(p);
            assert(es.len() > 0);
            assert(s.len() > 0);
            lemma_encode_unfold(s);
            let n = length_of_first_scalar(ep);
            assert(n <= ep.len());
            assert(ep[0] == es[0]);
            assert(n >= 2 ==> ep[1] == es[1]);
            assert(n >= 3 ==> ep[2] == es[2]);
            assert(n >= 4 ==> ep[3] == es[3]);
            assert(decode_first_scalar(ep) == decode_first_scalar(es));
            char_u32_cast(p[0], decode_first_scalar(ep));
            char_u32_cast(s[0], decode_first_scalar(es));
            assert(p[0] == s[0]);
            assert(length_of_first_scalar(es) == n);
            let ep1 = encode_utf8(p.drop_first());
            let es1 = encode_utf8(s.drop_first());
            assert(ep1 =~= es1.subrange(0, ep1.len() as int)) by {
                assert(ep1 == ep.subrange(n, ep.len() as int));
                assert(es1 == es.subrange(n, es.len() as int));
                assert forall|i: int| 0 <= i < ep1.len() implies ep1[i] == es1[i] by {
                    assert(ep1[i] == ep[i + n]);
                    assert(es1[i] == es[i + n]);
                    assert(ep[i + n] == es.subrange(0, ep.len() as int)[i + n]);
                }
            }
            lemma_prefix_by_bytes(p.drop_first(), s.drop_first());
            assert(p.drop_first() =~= s.drop_first().subrange(0, p.len() - 1));
            assert(p =~= s.subrange(0, p.len() as int)) by {
                assert forall|i: int| 0 <= i < p.len() implies p[i] == s[i] by {
                    if i > 0 {
                        assert(p[i] == p.drop_first()[i - 1]);
                        assert(s[i] == s.drop_first()[i - 1]);
                        assert(p.drop_first()[i - 1] == s.drop_first().subrange(0, p.len() - 1)[i
                            - 1]);
                    }
                }
            }
        }
    }
}

/// The end of the encoding of `a` is a character boundary in the encoding
/// of `a + b`.
pub proof fn lemma_boundary_after_prefix(a: Seq<char>, b: Seq<char>)
    ensures
        is_char_boundary(encode_utf8(a + b), encode_utf8(a).len() as int),
    decreases a.len(),
{
    encode_utf8_valid_utf8(a + b);
    if a.len() > 0 {
        lemma_encode_unfold(a);
        lemma_encode_unfold(a + b);
        assert((a + b).drop_first() =~= a.drop_first() + b);
        lemma_boundary_after_prefix(a.drop_first(), b);
        lemma_encode_concat(a, b);
    }
}

/// A character below 128 is encoded as the one byte with its code, and no
/// other character's encoding ends in that byte.
pub proof fn lemma_last_ascii(s: Seq<char>, c: char)
    requires
        s.len() > 0,
        (c as u32) < 0x80,
    ensures
        encode_utf8(s).len() > 0,
        (encode_utf8(s).last() == c as u8) <==> (s.last() == c),
        s.last() == c ==> encode_utf8(s.drop_last()) == encode_utf8(s).drop_last(),
{
    let x = s.last();
    let v = x as u32;
    let w = c as u32;
    let tail = seq![x];
    assert(s =~= s.drop_last() + tail);
    lemma_encode_concat(s.drop_last(), tail);
    lemma_encode_unfold(tail);
    assert(tail.drop_first() =~= Seq::<char>::empty());
    assert(encode_utf8(Seq::<char>::empty()) =~= Seq::<u8>::empty());
    let e = encode_scalar(v);
    assert(encode_utf8(tail) =~= e);
    assert(encode_utf8(s).last() == e.last());
    char_is_scalar(x);
    assert(w < 0x80 ==> (v <= 0x7F ==> (((v & 0x7F) as u8 == w as u8) <==> v == w))) by (bit_vector);
    assert(w < 0x80 ==> (0x80u8 | (v & 0x3F) as u8) != w as u8) by (bit_vector);
    if x == c {
        assert(e.len() == 1);
        assert(encode_utf8(s).drop_last() =~= encode_utf8(s.drop_last()));
    }
    if v == w {
        char_u32_cast(x, w);
        char_u32_cast(c, w);
    }
}

/// Whether two byte strings are equal.
pub fn bytes_eq(a: &[u8], b: &[u8]) -> (r: bool)
    ensures
        r == (a@ == b@),
{
    if a.len() != b.len() {
        return false;
    }
    let mut i: usize = 0;
    while i < a.len()
        invariant
            i <= a.len(),
            a.len() == b.len(),
            a@.subrange(0, i as int) == b@.subrange(0, i as int),
        decreases a.len() - i,
    {
        if a[i] != b[i] {
            return false;
        }
        assert(a@.subrange(0, i + 1) =~= a@.subrange(0, i as int).push(a@[i as int]));
        assert(b@.subrange(0, i + 1) =~= b@.subrange(0, i as int).push(b@[i as int]));
        i = i + 1;
    }
    assert(a@ =~= a@.subrange(0, i as int));
    assert(b@ =~= b@.subrange(0, i as int));
    true
}

/// Whether the first `n` bytes of `p` open the byte string `s`.
pub fn bytes_open_with(s: &[u8], p: &[u8], n: usize) -> (r: bool)
    requires
        n <= p.len(),
    ensures
        r == p@.subrange(0, n as int).is_prefix_of(s@),
{
    if n > s.len() {
        return false;
    }
    let ghost head = p@.subrange(0, n as int);
    let mut i: usize = 0;
    while i < n
        invariant
            i <= n,
            n <= s.len(),
            n <= p.len(),
            head == p@.subrange(0, n as int),
            forall|j: int| 0 <= j < i ==> s@[j] == p@[j],
        decreases n - i,
    {
        if s[i] != p[i] {
            assert(head[i as int] != s@.subrange(0, n as int)[i as int]);
            return false;
        }
        i = i + 1;
    }
    assert(head =~= s@.subrange(0, n as int));
    true
}

/// Whether two texts are equal, character for character.
pub fn str_eq(a: &str, b: &str) -> (r: bool)
    ensures
        r == (a@ == b@),
{
    let r = bytes_eq(a.as_bytes(), b.as_bytes());
    proof {
        if r {
            lemma_encode_injective(a@, b@);
        }
    }
    r
}

/// Whether `s` begins with `prefix`, character for character.
pub fn str_starts_with(s: &str, prefix: &str) -> (r: bool)
    ensures
        r == prefix@.is_prefix_of(s@),
{
    let p = prefix.as_bytes();
    let r = bytes_open_with(s.as_bytes(), p, p.len());
    proof {
        assert(p@.subrange(0, p@.len() as int) =~= p@);
        lemma_prefix_by_bytes(prefix@, s@);
    }
    r
}

/// What is left of `s` after `prefix`, where `s` begins with it.
pub fn str_strip_prefix<'a>(s: &'a str, prefix: &str) -> (r: Option<&'a str>)
    ensures
        r is Some <==> prefix@.is_prefix_of(s@),
        r matches Some(rest) ==> rest@ == s@.subrange(prefix@.len() as int, s@.len() as int),
{
    if !str_starts_with(s, prefix) {
        return None;
    }
    let n = prefix.as_bytes().len();
    let ghost tail = s@.subrange(prefix@.len() as int, s@.len() as int);
    proof {
        assert(s@ =~= prefix@ + tail);
        lemma_boundary_after_prefix(prefix@, tail);
        lemma_encode_concat(prefix@, tail);
    }
    let (_, rest) = s.split_at(n);
    proof {
        assert(rest.spec_bytes() =~= encode_utf8(tail));
        lemma_encode_injective(rest@, tail);
    }
    Some(rest)
}

/// The text before a final `*`, where `s` ends in one.
pub fn str_strip_star<'a>(s: &'a str) -> (r: Option<&'a str>)
    ensures
        r is Some <==> (s@.len() > 0 && s@.last() == '*'),
        r matches Some(head) ==> head@ == s@.drop_last(),
{
    let b = s.as_bytes();
    let n = b.len();
    if n == 0 {
        assert(s@.len() > 0 ==> encode_utf8(s@).len() > 0) by {
            if s@.len() > 0 {
                lemma_encode_unfold(s@);
            }
        }
        return None;
    }
    assert(s@.len() > 0) by {
        if s@.len() == 0 {
            assert(encode_utf8(s@) =~= Seq::<u8>::empty());
        }
    }
    proof {
        lemma_last_ascii(s@, '*');
    }
    if b[n - 1] != 42u8 {
        return None;
    }
    let ghost head = s@.drop_last();
    proof {
        let tail = seq!['*'];
        assert(s@ =~= head + tail);
        lemma_boundary_after_prefix(head, tail);
        assert(encode_utf8(head).len() == n - 1);
    }
    let (front, _) = s.split_at(n - 1);
    proof {
        assert(front.spec_bytes() =~= encode_utf8(head));
        lemma_encode_injective(front@, head);
    }
    Some(front)
}

/// The character that stands for a digit.
pub open spec fn digit_char(d: nat) -> char {
    if d == 0 {
        '0'
    } else if d == 1 {
        '1'
    } else if d == 2 {
        '2'
    } else if d == 3 {
        '3'
    } else if d == 4 {
        '4'
    } else if d == 5 {
        '5'
    } else if d == 6 {
        '6'
    } else if d == 7 {
        '7'
    } else if d == 8 {
        '8'
    } else {
        '9'
    }
}

/// A number in decimal digits, without leading zeros.
pub open spec fn decimal(n: nat) -> Seq<char>
    decreases n,
{
    if n < 10 {
        seq![digit_char(n)]
    } else {
        decimal(n / 10).push(digit_char(n % 10))
    }
}

/// The text of one digit.
pub fn digit_text(d: u64) -> (out: &'static str)
    requires
        d < 10,
    ensures
        out@ == seq![digit_char(d as nat)],
{
    proof {
        reveal_strlit("0");
        reveal_strlit("1");
        reveal_strlit("2");
        reveal_strlit("3");
        reveal_strlit("4");
        reveal_strlit("5");
        reveal_strlit("6");
        reveal_strlit("7");
        reveal_strlit("8");
        reveal_strlit("9");
    }
    let out = if d == 0 {
        "0"
    } else if d == 1 {
        "1"
    } else if d == 2 {
        "2"
    } else if d == 3 {
        "3"
    } else if d == 4 {
        "4"
    } else if d == 5 {
        "5"
    } else if d == 6 {
        "6"
    } else if d == 7 {
        "7"
    } else if d == 8 {
        "8"
    } else {
        "9"
    };
    assert(out@ =~= seq![digit_char(d as nat)]);
    out
}

/// A number as decimal text.
pub fn decimal_text(n: u64) -> (out: String)
    ensures
        out@ == decimal(n as nat),
    decreases n,
{
    if n < 10 {
        String::from_str(digit_text(n))
    } else {
        let mut out = decimal_text(n / 10);
        out.append(digit_text(n % 10));
        assert(out@ =~= decimal(n as nat));
        out
    }
}

} // verus!
