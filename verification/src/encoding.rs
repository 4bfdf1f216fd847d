use vstd::prelude::*;
use vstd::utf8::encode_utf8;

verus! {

/// The character of the URL-safe base64 alphabet that stands for six bits:
/// `A` to `Z`, `a` to `z`, `0` to `9`, `-` and `_`, in this order.
pub open spec fn base64_url_safe_symbol(sextet: int) -> char {
    if sextet < 26 {
        ((65 + sextet) as u8) as char
    } else if sextet < 52 {
        ((71 + sextet) as u8) as char
    } else if sextet < 62 {
        ((sextet - 4) as u8) as char
    } else if sextet == 62 {
        '-'
    } else {
        '_'
    }
}

/// The six bits that a character of the URL-safe base64 alphabet stands for.
pub open spec fn base64_url_safe_value(c: char) -> int {
    let code = c as u32 as int;
    if 65 <= code <= 90 {
        code - 65
    } else if 97 <= code <= 122 {
        code - 71
    } else if 48 <= code <= 57 {
        code + 4
    } else if code == 45 {
        62
    } else {
        63
    }
}

/// Whether a character belongs to the URL-safe base64 alphabet: a letter, a
/// digit, `-` or `_`.
pub open spec fn is_url_safe_base64_char(c: char) -> bool {
    let code = c as u32;
    (65 <= code <= 90) || (97 <= code <= 122) || (48 <= code <= 57) || code == 45 || code == 95
}

/// The URL-safe base64 text of a sequence of bytes, without padding. Every
/// three bytes are twenty-four bits and give four characters of six bits each,
/// most significant bits first; one byte that is left over gives two
/// characters, two bytes give three, and the bits that are missing are zero.
pub open spec fn base64_url_safe_no_pad(bytes: Seq<u8>) -> Seq<char>
    decreases bytes.len(),
{
    if bytes.len() == 0 {
        Seq::<char>::empty()
    } else if bytes.len() == 1 {
        seq![
            base64_url_safe_symbol(bytes[0] as int / 4),
            base64_url_safe_symbol(bytes[0] as int % 4 * 16),
        ]
    } else if bytes.len() == 2 {
        seq![
            base64_url_safe_symbol(bytes[0] as int / 4),
            base64_url_safe_symbol(bytes[0] as int % 4 * 16 + bytes[1] as int / 16),
            base64_url_safe_symbol(bytes[1] as int % 16 * 4),
        ]
    } else {
        seq![
            base64_url_safe_symbol(bytes[0] as int / 4),
            base64_url_safe_symbol(bytes[0] as int % 4 * 16 + bytes[1] as int / 16),
            base64_url_safe_symbol(bytes[1] as int % 16 * 4 + bytes[2] as int / 64),
            base64_url_safe_symbol(bytes[2] as int % 64),
        ] + base64_url_safe_no_pad(bytes.skip(3))
    }
}

/// How many characters of base64 without padding stand for a number of bytes:
/// four for every three bytes, and two or three for the one or two bytes that
/// are left over.
pub open spec fn base64_no_pad_len(bytes: nat) -> nat {
    let rest = bytes % 3;
    (bytes / 3 * 4 + if rest == 0 {
        0
    } else {
        rest + 1
    }) as nat
}

/// Whether a text is URL-safe base64 without padding, as a strict decoder
/// takes it: every character is of the alphabet, the length is one that some
/// number of bytes gives, and the last character carries no bits beyond the
/// last whole byte.
pub open spec fn is_url_safe_base64_no_pad(text: Seq<char>) -> bool {
    &&& text.len() % 4 != 1
    &&& forall|i: int| 0 <= i < text.len() ==> is_url_safe_base64_char(#[trigger] text[i])
    &&& text.len() % 4 == 2 ==> base64_url_safe_value(text.last()) % 16 == 0
    &&& text.len() % 4 == 3 ==> base64_url_safe_value(text.last()) % 4 == 0
}

/// Every six bits have their character in the alphabet, and the character
/// stands for those six bits.
pub proof fn lemma_base64_symbol(sextet: int)
    requires
        0 <= sextet < 64,
    ensures
        is_url_safe_base64_char(base64_url_safe_symbol(sextet)),
        base64_url_safe_value(base64_url_safe_symbol(sextet)) == sextet,
{
    let c = base64_url_safe_symbol(sextet);
    if sextet < 26 {
        assert(c as u32 == 65 + sextet);
    } else if sextet < 52 {
        assert(c as u32 == 71 + sextet);
    } else if sextet < 62 {
        assert(c as u32 == sextet - 4);
    } else if sextet == 62 {
        assert(c as u32 == 45);
    } else {
        assert(c as u32 == 95);
    }
}

/// The encoding of bytes has the length that their number calls for.
pub proof fn lemma_base64_len(bytes: Seq<u8>)
    ensures
        base64_url_safe_no_pad(bytes).len() == base64_no_pad_len(bytes.len()),
    decreases bytes.len(),
{
    if bytes.len() >= 3 {
        lemma_base64_len(bytes.skip(3));
    }
}

/// Every character of the encoding of bytes is of the alphabet.
pub proof fn lemma_base64_alphabet(bytes: Seq<u8>)
    ensures
        forall|i: int|
            0 <= i < base64_url_safe_no_pad(bytes).len() ==> is_url_safe_base64_char(
                #[trigger] base64_url_safe_no_pad(bytes)[i],
            ),
    decreases bytes.len(),
{
    let text = base64_url_safe_no_pad(bytes);
    if bytes.len() == 0 {
    } else if bytes.len() == 1 {
        lemma_base64_symbol(bytes[0] as int / 4);
        lemma_base64_symbol(bytes[0] as int % 4 * 16);
    } else if bytes.len() == 2 {
        lemma_base64_symbol(bytes[0] as int / 4);
        lemma_base64_symbol(bytes[0] as int % 4 * 16 + bytes[1] as int / 16);
        lemma_base64_symbol(bytes[1] as int % 16 * 4);
    } else {
        let rest = base64_url_safe_no_pad(bytes.skip(3));
        lemma_base64_alphabet(bytes.skip(3));
        lemma_base64_symbol(bytes[0] as int / 4);
        lemma_base64_symbol(bytes[0] as int % 4 * 16 + bytes[1] as int / 16);
        lemma_base64_symbol(bytes[1] as int % 16 * 4 + bytes[2] as int / 64);
        lemma_base64_symbol(bytes[2] as int % 64);
        assert forall|i: int| 0 <= i < text.len() implies is_url_safe_base64_char(
            #[trigger] text[i],
        ) by {
            if i >= 4 {
                assert(text[i] == rest[i - 4]);
            }
        }
    }
}

/// The last character of the encoding of bytes carries no bits beyond the
/// last whole byte.
pub proof fn lemma_base64_tail(bytes: Seq<u8>)
    ensures
        ({
            let text = base64_url_safe_no_pad(bytes);
            &&& text.len() % 4 == 2 ==> base64_url_safe_value(text.last()) % 16 == 0
            &&& text.len() % 4 == 3 ==> base64_url_safe_value(text.last()) % 4 == 0
        }),
    decreases bytes.len(),
{
    let text = base64_url_safe_no_pad(bytes);
    if bytes.len() == 0 {
    } else if bytes.len() == 1 {
        let low = bytes[0] as int % 4 * 16;
        lemma_base64_symbol(low);
        assert(text.last() == base64_url_safe_symbol(low));
    } else if bytes.len() == 2 {
        let low = bytes[1] as int % 16 * 4;
        lemma_base64_symbol(low);
        assert(text.last() == base64_url_safe_symbol(low));
    } else {
        let rest = base64_url_safe_no_pad(bytes.skip(3));
        lemma_base64_tail(bytes.skip(3));
        assert(text.len() == 4 + rest.len());
        if rest.len() > 0 {
            assert(text.last() == rest.last());
        }
    }
}

/// The encoding of bytes is URL-safe base64 without padding, as a strict
/// decoder takes it.
pub proof fn lemma_base64_valid(bytes: Seq<u8>)
    ensures
        is_url_safe_base64_no_pad(base64_url_safe_no_pad(bytes)),
{
    lemma_base64_len(bytes);
    lemma_base64_alphabet(bytes);
    lemma_base64_tail(bytes);
}

/// The first bytes of a sequence can be read off the first characters of its
/// encoding.
proof fn lemma_base64_head(bytes: Seq<u8>)
    requires
        bytes.len() > 0,
    ensures
        ({
            let text = base64_url_safe_no_pad(bytes);
            let v0 = base64_url_safe_value(text[0]);
            let v1 = base64_url_safe_value(text[1]);
            &&& text.len() >= 2
            &&& bytes[0] == v0 * 4 + v1 / 16
            &&& bytes.len() >= 2 ==> text.len() >= 3 && bytes[1] == v1 % 16 * 16
                + base64_url_safe_value(text[2]) / 4
            &&& bytes.len() >= 3 ==> text.len() >= 4 && bytes[2] == base64_url_safe_value(text[2])
                % 4 * 64 + base64_url_safe_value(text[3]) && text.skip(4)
                == base64_url_safe_no_pad(bytes.skip(3))
        }),
{
    let text = base64_url_safe_no_pad(bytes);
    lemma_base64_symbol(bytes[0] as int / 4);
    if bytes.len() == 1 {
        lemma_base64_symbol(bytes[0] as int % 4 * 16);
    } else if bytes.len() == 2 {
        lemma_base64_symbol(bytes[0] as int % 4 * 16 + bytes[1] as int / 16);
        lemma_base64_symbol(bytes[1] as int % 16 * 4);
    } else {
        lemma_base64_symbol(bytes[0] as int % 4 * 16 + bytes[1] as int / 16);
        lemma_base64_symbol(bytes[1] as int % 16 * 4 + bytes[2] as int / 64);
        lemma_base64_symbol(bytes[2] as int % 64);
        assert(text.skip(4) =~= base64_url_safe_no_pad(bytes.skip(3)));
    }
}

/// Two sequences of bytes with the same encoding are the same: a text is the
/// encoding of at most one sequence of bytes, which is what decoding it gives.
pub proof fn lemma_base64_injective(a: Seq<u8>, b: Seq<u8>)
    requires
        base64_url_safe_no_pad(a) == base64_url_safe_no_pad(b),
    ensures
        a == b,
    decreases a.len(),
{
    lemma_base64_len(a);
    lemma_base64_len(b);
    assert(a.len() == b.len());
    if a.len() == 0 {
        assert(a =~= b);
    } else {
        lemma_base64_head(a);
        lemma_base64_head(b);
        if a.len() >= 3 {
            lemma_base64_injective(a.skip(3), b.skip(3));
            assert forall|i: int| 0 <= i < a.len() implies a[i] == b[i] by {
                if i >= 3 {
                    assert(a[i] == a.skip(3)[i - 3]);
                    assert(b[i] == b.skip(3)[i - 3]);
                }
            }
        }
        assert(a =~= b);
    }
}

/// Appends the URL-safe base64 text of a string's bytes, without padding, to
/// a buffer.
///
/// Trusted: this is `base64::encode_config_buf` with `URL_SAFE_NO_PAD`. It
/// leaves what the buffer held in place and adds the base64 text of the bytes,
/// in the URL-safe alphabet and without padding.
#[verifier::external_body]
pub(crate) fn append_base64_url_safe_no_pad(input: &str, buf: &mut String)
    ensures
        final(buf)@ == old(buf)@ + base64_url_safe_no_pad(encode_utf8(input@)),
{
    base64::encode_config_buf(input, base64::URL_SAFE_NO_PAD, buf)
}

} // verus!
