//! Standard Base64 (RFC 4648, section 4: the `A-Z a-z 0-9 + /` alphabet with `=`
//! padding), as a mathematical function of the bytes.

use vstd::prelude::*;

verus! {

/// The character of a 6-bit value in the standard alphabet.
pub open spec fn base64_char(v: int) -> char
    recommends
        0 <= v < 64,
{
    if v < 26 {
        (65 + v) as char
    } else if v < 52 {
        (97 + v - 26) as char
    } else if v < 62 {
        (48 + v - 52) as char
    } else if v == 62 {
        '+'
    } else {
        '/'
    }
}

/// The standard Base64 encoding of a byte string: each group of three bytes becomes
/// four characters; a final group of one or two bytes is padded with `=`.
pub open spec fn base64_standard(data: Seq<u8>) -> Seq<char>
    decreases data.len(),
{
    if data.len() == 0 {
        seq![]
    } else if data.len() == 1 {
        let a = data[0] as int;
        seq![base64_char(a / 4), base64_char((a % 4) * 16), '=', '=']
    } else if data.len() == 2 {
        let a = data[0] as int;
        let b = data[1] as int;
        seq![base64_char(a / 4), base64_char((a % 4) * 16 + b / 16), base64_char((b % 16) * 4), '=']
    } else {
        let a = data[0] as int;
        let b = data[1] as int;
        let c = data[2] as int;
        seq![
            base64_char(a / 4),
            base64_char((a % 4) * 16 + b / 16),
            base64_char((b % 16) * 4 + c / 64),
            base64_char(c % 64),
        ] + base64_standard(data.subrange(3, data.len() as int))
    }
}

/// The character belongs to the standard Base64 alphabet or is the padding `=`.
pub open spec fn is_base64_char(c: char) -> bool {
    ||| 'A' <= c <= 'Z'
    ||| 'a' <= c <= 'z'
    ||| '0' <= c <= '9'
    ||| c == '+'
    ||| c == '/'
    ||| c == '='
}

proof fn lemma_base64_char(v: int)
    requires
        0 <= v < 64,
    ensures
        is_base64_char(base64_char(v)),
        base64_char(v) != '=',
{
}

/// The encoding of `n` bytes is `4 * ceil(n / 3)` characters long, all of the
/// standard alphabet or `=`.
pub proof fn lemma_base64_shape(data: Seq<u8>)
    ensures
        base64_standard(data).len() == (data.len() + 2) / 3 * 4,
        forall|i: int|
            0 <= i < base64_standard(data).len() ==> is_base64_char(#[trigger] base64_standard(data)[i]),
    decreases data.len(),
{
    let s = base64_standard(data);
    if data.len() == 0 {
    } else if data.len() == 1 {
        let a = data[0] as int;
        lemma_base64_char(a / 4);
        lemma_base64_char((a % 4) * 16);
        assert(forall|i: int| 0 <= i < s.len() ==> is_base64_char(#[trigger] s[i]));
    } else if data.len() == 2 {
        let a = data[0] as int;
        let b = data[1] as int;
        lemma_base64_char(a / 4);
        lemma_base64_char((a % 4) * 16 + b / 16);
        lemma_base64_char((b % 16) * 4);
        assert(forall|i: int| 0 <= i < s.len() ==> is_base64_char(#[trigger] s[i]));
    } else {
        let a = data[0] as int;
        let b = data[1] as int;
        let c = data[2] as int;
        let rest = data.subrange(3, data.len() as int);
        lemma_base64_shape(rest);
        lemma_base64_char(a / 4);
        lemma_base64_char((a % 4) * 16 + b / 16);
        lemma_base64_char((b % 16) * 4 + c / 64);
        lemma_base64_char(c % 64);
        let head = seq![
            base64_char(a / 4),
            base64_char((a % 4) * 16 + b / 16),
            base64_char((b % 16) * 4 + c / 64),
            base64_char(c % 64),
        ];
        assert(s == head + base64_standard(rest));
        assert forall|i: int| 0 <= i < s.len() implies is_base64_char(#[trigger] s[i]) by {
            if i >= 4 {
                assert(s[i] == base64_standard(rest)[i - 4]);
            }
        }
    }
}

proof fn lemma_base64_char_injective(v: int, w: int)
    requires
        0 <= v < 64,
        0 <= w < 64,
        base64_char(v) == base64_char(w),
    ensures
        v == w,
{
}

proof fn lemma_base64_head(a: Seq<u8>)
    requires
        a.len() >= 1,
    ensures
        ({
            let s = base64_standard(a);
            let a0 = a[0] as int;
            &&& s.len() >= 4
            &&& s[0] == base64_char(a0 / 4)
            &&& a.len() == 1 ==> s[1] == base64_char((a0 % 4) * 16) && s[2] == '=' && s[3] == '='
            &&& a.len() == 2 ==> s[1] == base64_char((a0 % 4) * 16 + a[1] as int / 16) && s[2]
                == base64_char((a[1] as int % 16) * 4) && s[3] == '='
            &&& a.len() >= 3 ==> s[1] == base64_char((a0 % 4) * 16 + a[1] as int / 16) && s[2]
                == base64_char((a[1] as int % 16) * 4 + a[2] as int / 64) && s[3] == base64_char(
                a[2] as int % 64,
            ) && s.subrange(4, s.len() as int) == base64_standard(a.subrange(3, a.len() as int))
        }),
{
    let s = base64_standard(a);
    if a.len() >= 3 {
        let rest = base64_standard(a.subrange(3, a.len() as int));
        assert(s.subrange(4, s.len() as int) =~= rest);
    }
}

proof fn lemma_group_decodes(a0: int, a1: int, a2: int, b0: int, b1: int, b2: int)
    requires
        0 <= a0 < 256,
        0 <= a1 < 256,
        0 <= a2 < 256,
        0 <= b0 < 256,
        0 <= b1 < 256,
        0 <= b2 < 256,
        a0 / 4 == b0 / 4,
        (a0 % 4) * 16 + a1 / 16 == (b0 % 4) * 16 + b1 / 16,
        (a1 % 16) * 4 + a2 / 64 == (b1 % 16) * 4 + b2 / 64,
        a2 % 64 == b2 % 64,
    ensures
        a0 == b0,
        a1 == b1,
        a2 == b2,
{
    assert(a0 % 4 == b0 % 4 && a1 / 16 == b1 / 16);
    assert(a1 % 16 == b1 % 16 && a2 / 64 == b2 / 64);
}

/// Distinct byte strings have distinct standard Base64 encodings: the encoding
/// determines the bytes.
pub proof fn lemma_base64_injective(a: Seq<u8>, b: Seq<u8>)
    requires
        base64_standard(a) == base64_standard(b),
    ensures
        a == b,
    decreases a.len(),
{
    lemma_base64_shape(a);
    lemma_base64_shape(b);
    let s = base64_standard(a);
    if a.len() == 0 || b.len() == 0 {
        assert(a.len() == 0 && b.len() == 0);
        assert(a =~= b);
        return;
    }
    lemma_base64_head(a);
    lemma_base64_head(b);
    let a0 = a[0] as int;
    let b0 = b[0] as int;
    lemma_base64_char(a0 / 4);
    lemma_base64_char(b0 / 4);
    lemma_base64_char_injective(a0 / 4, b0 / 4);
    if a.len() == 1 {
        lemma_base64_char((a0 % 4) * 16);
        if b.len() >= 2 {
            let b1 = b[1] as int;
            lemma_base64_char((b0 % 4) * 16 + b1 / 16);
            if b.len() == 2 {
                lemma_base64_char((b1 % 16) * 4);
            } else {
                let b2 = b[2] as int;
                lemma_base64_char((b1 % 16) * 4 + b2 / 64);
            }
            assert(false);
        }
        lemma_base64_char((b0 % 4) * 16);
        lemma_base64_char_injective((a0 % 4) * 16, (b0 % 4) * 16);
        lemma_group_decodes(a0, 0, 0, b0, 0, 0);
        assert(a =~= b);
    } else if a.len() == 2 {
        let a1 = a[1] as int;
        lemma_base64_char((a0 % 4) * 16 + a1 / 16);
        lemma_base64_char((a1 % 16) * 4);
        if b.len() == 1 {
            lemma_base64_char((b0 % 4) * 16);
            assert(false);
        }
        let b1 = b[1] as int;
        if b.len() >= 3 {
            let b2 = b[2] as int;
            lemma_base64_char(b2 % 64);
            assert(false);
        }
        lemma_base64_char((b0 % 4) * 16 + b1 / 16);
        lemma_base64_char((b1 % 16) * 4);
        lemma_base64_char_injective((a0 % 4) * 16 + a1 / 16, (b0 % 4) * 16 + b1 / 16);
        lemma_base64_char_injective((a1 % 16) * 4, (b1 % 16) * 4);
        lemma_group_decodes(a0, a1, 0, b0, b1, 0);
        assert(a =~= b);
    } else {
        let a1 = a[1] as int;
        let a2 = a[2] as int;
        lemma_base64_char((a0 % 4) * 16 + a1 / 16);
        lemma_base64_char((a1 % 16) * 4 + a2 / 64);
        lemma_base64_char(a2 % 64);
        if b.len() < 3 {
            if b.len() == 1 {
                lemma_base64_char((b0 % 4) * 16);
            } else {
                let b1 = b[1] as int;
                lemma_base64_char((b0 % 4) * 16 + b1 / 16);
                lemma_base64_char((b1 % 16) * 4);
            }
            assert(false);
        }
        let b1 = b[1] as int;
        let b2 = b[2] as int;
        lemma_base64_char((b0 % 4) * 16 + b1 / 16);
        lemma_base64_char((b1 % 16) * 4 + b2 / 64);
        lemma_base64_char(b2 % 64);
        lemma_base64_char_injective((a0 % 4) * 16 + a1 / 16, (b0 % 4) * 16 + b1 / 16);
        lemma_base64_char_injective((a1 % 16) * 4 + a2 / 64, (b1 % 16) * 4 + b2 / 64);
        lemma_base64_char_injective(a2 % 64, b2 % 64);
        lemma_group_decodes(a0, a1, a2, b0, b1, b2);
        let ra = a.subrange(3, a.len() as int);
        let rb = b.subrange(3, b.len() as int);
        lemma_base64_injective(ra, rb);
        assert(a =~= b) by {
            assert forall|i: int| 0 <= i < a.len() implies a[i] == b[i] by {
                if i >= 3 {
                    assert(a[i] == ra[i - 3] && b[i] == rb[i - 3]);
                }
            }
        }
    }
}

} // verus!
