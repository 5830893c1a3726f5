//! Base64 encoding of byte sequences, as used by the terminal clipboard
//! escape sequence: the standard alphabet, with `=` padding.
use crate::text::push_char;
use vstd::prelude::*;

verus! {

/// The base64 alphabet: letters, then lower-case letters, then digits,
/// then `+` and `/`.
pub open spec fn spec_b64_char(v: int) -> char
    recommends
        0 <= v < 64,
{
    if v < 26 {
        ((65 + v) as u8) as char
    } else if v < 52 {
        ((97 + (v - 26)) as u8) as char
    } else if v < 62 {
        ((48 + (v - 52)) as u8) as char
    } else if v == 62 {
        '+'
    } else {
        '/'
    }
}

/// The base64 rendering of a byte sequence: four characters for each full
/// group of three bytes, and a padded final group for one or two trailing
/// bytes.
pub open spec fn spec_base64(bytes: Seq<u8>) -> Seq<char>
    decreases bytes.len(),
{
    if bytes.len() == 0 {
        Seq::<char>::empty()
    } else if bytes.len() == 1 {
        let b0 = bytes[0];
        seq![
            spec_b64_char((b0 >> 2) as int),
            spec_b64_char(((b0 & 3) << 4) as int),
            '=',
            '=',
        ]
    } else if bytes.len() == 2 {
        let b0 = bytes[0];
        let b1 = bytes[1];
        seq![
            spec_b64_char((b0 >> 2) as int),
            spec_b64_char((((b0 & 3) << 4) | (b1 >> 4)) as int),
            spec_b64_char(((b1 & 15) << 2) as int),
            '=',
        ]
    } else {
        let b0 = bytes[0];
        let b1 = bytes[1];
        let b2 = bytes[2];
        seq![
            spec_b64_char((b0 >> 2) as int),
            spec_b64_char((((b0 & 3) << 4) | (b1 >> 4)) as int),
            spec_b64_char((((b1 & 15) << 2) | (b2 >> 6)) as int),
            spec_b64_char((b2 & 63) as int),
        ] + spec_base64(bytes.skip(3))
    }
}

/// Encoding distributes over splitting off whole groups of three bytes.
pub proof fn lemma_base64_append(a: Seq<u8>, b: Seq<u8>)
    requires
        a.len() % 3 == 0,
    ensures
        spec_base64(a + b) == spec_base64(a) + spec_base64(b),
    decreases a.len(),
{
    if a.len() == 0 {
        assert(a + b =~= b);
        assert(spec_base64(a) + spec_base64(b) =~= spec_base64(b));
    } else {
        let rest = a.skip(3);
        lemma_base64_append(rest, b);
        assert((a + b).skip(3) =~= rest + b);
        assert((a + b)[0] == a[0] && (a + b)[1] == a[1] && (a + b)[2] == a[2]);
        assert(spec_base64(a + b) =~= spec_base64(a) + spec_base64(b));
    }
}

fn b64_char(v: u8) -> (c: char)
    requires
        v < 64,
    ensures
        c == spec_b64_char(v as int),
{
    if v < 26 {
        (65 + v) as char
    } else if v < 52 {
        (97 + (v - 26)) as char
    } else if v < 62 {
        (48 + (v - 52)) as char
    } else if v == 62 {
        '+'
    } else {
        '/'
    }
}

/// Encode a byte slice in base64 with padding.
pub fn encode(bytes: &[u8]) -> (r: String)
    ensures
        r@ == spec_base64(bytes@),
{
    let mut s = String::new();
    let len = bytes.len();
    let mut i: usize = 0;
    while len - i >= 3
        invariant
            i % 3 == 0,
            i <= len,
            len == bytes@.len(),
            s@ == spec_base64(bytes@.take(i as int)),
        decreases len - i,
    {
        let b0 = bytes[i];
        let b1 = bytes[i + 1];
        let b2 = bytes[i + 2];
        assert(b0 >> 2 < 64 && ((b0 & 3) << 4) | (b1 >> 4) < 64 && ((b1 & 15) << 2) | (b2 >> 6)
            < 64 && b2 & 63 < 64) by (bit_vector);
        let c0 = b64_char(b0 >> 2);
        let c1 = b64_char(((b0 & 3) << 4) | (b1 >> 4));
        let c2 = b64_char(((b1 & 15) << 2) | (b2 >> 6));
        let c3 = b64_char(b2 & 63);
        push_char(&mut s, c0);
        push_char(&mut s, c1);
        push_char(&mut s, c2);
        push_char(&mut s, c3);
        proof {
            let pre = bytes@.take(i as int);
            let grp = bytes@.subrange(i as int, i as int + 3);
            lemma_base64_append(pre, grp);
            assert(pre + grp =~= bytes@.take(i as int + 3));
            assert(grp.len() == 3 && grp[0] == b0 && grp[1] == b1 && grp[2] == b2);
            assert(grp.skip(3) =~= Seq::<u8>::empty());
            assert(spec_base64(grp.skip(3)) =~= Seq::<char>::empty());
            assert(spec_base64(grp) =~= seq![
                spec_b64_char((b0 >> 2) as int),
                spec_b64_char((((b0 & 3) << 4) | (b1 >> 4)) as int),
                spec_b64_char((((b1 & 15) << 2) | (b2 >> 6)) as int),
                spec_b64_char((b2 & 63) as int),
            ]);
            assert(s@ =~= spec_base64(bytes@.take(i as int + 3)));
        }
        i = i + 3;
    }
    if len - i == 1 {
        let b0 = bytes[i];
        assert(b0 >> 2 < 64 && (b0 & 3) << 4 < 64) by (bit_vector);
        let c0 = b64_char(b0 >> 2);
        let c1 = b64_char((b0 & 3) << 4);
        push_char(&mut s, c0);
        push_char(&mut s, c1);
        push_char(&mut s, '=');
        push_char(&mut s, '=');
        proof {
            let pre = bytes@.take(i as int);
            let grp = bytes@.subrange(i as int, len as int);
            lemma_base64_append(pre, grp);
            assert(pre + grp =~= bytes@);
            assert(grp.len() == 1 && grp[0] == b0);
            assert(s@ =~= spec_base64(bytes@));
        }
    } else if len - i == 2 {
        let b0 = bytes[i];
        let b1 = bytes[i + 1];
        assert(b0 >> 2 < 64 && ((b0 & 3) << 4) | (b1 >> 4) < 64 && (b1 & 15) << 2 < 64)
            by (bit_vector);
        let c0 = b64_char(b0 >> 2);
        let c1 = b64_char(((b0 & 3) << 4) | (b1 >> 4));
        let c2 = b64_char((b1 & 15) << 2);
        push_char(&mut s, c0);
        push_char(&mut s, c1);
        push_char(&mut s, c2);
        push_char(&mut s, '=');
        proof {
            let pre = bytes@.take(i as int);
            let grp = bytes@.subrange(i as int, len as int);
            lemma_base64_append(pre, grp);
            assert(pre + grp =~= bytes@);
            assert(grp.len() == 2 && grp[0] == b0 && grp[1] == b1);
            assert(s@ =~= spec_base64(bytes@));
        }
    } else {
        proof {
            assert(bytes@.take(i as int) =~= bytes@);
        }
    }
    s
}

} // verus!
