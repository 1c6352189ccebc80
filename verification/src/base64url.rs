//! Verified decoder for the URL-safe base64 alphabet without padding, the
//! encoding used for the segments of a compact session token.

use vstd::prelude::*;

verus! {

/// The 6-bit value of a character of the URL-safe base64 alphabet
/// (`A`-`Z`, `a`-`z`, `0`-`9`, `-`, `_`), or `None` for any other character.
pub open spec fn b64_char_val(c: char) -> Option<u8> {
    let n = c as u32;
    if 65 <= n <= 90 {
        // 'A'..='Z'
        Some((n - 65) as u8)
    } else if 97 <= n <= 122 {
        // 'a'..='z'
        Some((n - 97 + 26) as u8)
    } else if 48 <= n <= 57 {
        // '0'..='9'
        Some((n - 48 + 52) as u8)
    } else if n == 45 {
        // '-'
        Some(62u8)
    } else if n == 95 {
        // '_'
        Some(63u8)
    } else {
        None
    }
}

/// The 6-bit value of a character, with an arbitrary default for characters
/// outside the alphabet; only applied to valid input.
pub open spec fn b64_val(c: char) -> u8 {
    match b64_char_val(c) {
        Some(v) => v,
        None => 0,
    }
}

/// A sequence of characters is a well-formed unpadded base64url encoding:
/// every character belongs to the alphabet, and the length leaves no
/// impossible remainder (a single trailing character cannot encode a byte).
pub open spec fn b64_valid(s: Seq<char>) -> bool {
    s.len() % 4 != 1 && (forall|i: int| 0 <= i < s.len() ==> b64_char_val(s[i]) is Some)
}

/// First output byte of a group: all six bits of the first character and the
/// top two bits of the second.
pub open spec fn b64_byte0(a: char, b: char) -> u8 {
    (b64_val(a) * 4 + b64_val(b) / 16) as u8
}

/// Second output byte of a group: the low four bits of the second character
/// and the top four bits of the third.
pub open spec fn b64_byte1(b: char, c: char) -> u8 {
    ((b64_val(b) % 16) * 16 + b64_val(c) / 4) as u8
}

/// Third output byte of a group: the low two bits of the third character and
/// all six bits of the fourth.
pub open spec fn b64_byte2(c: char, d: char) -> u8 {
    ((b64_val(c) % 4) * 64 + b64_val(d)) as u8
}

/// The bytes encoded by an unpadded base64url character sequence: full
/// groups of four characters yield three bytes each, a trailing pair yields
/// one byte and a trailing triple yields two.  Meaningful only on input
/// accepted by [`b64_valid`].
pub open spec fn b64_decoded(s: Seq<char>) -> Seq<u8>
    decreases s.len(),
{
    if s.len() >= 4 {
        seq![b64_byte0(s[0], s[1]), b64_byte1(s[1], s[2]), b64_byte2(s[2], s[3])] + b64_decoded(
            s.skip(4),
        )
    } else if s.len() == 3 {
        seq![b64_byte0(s[0], s[1]), b64_byte1(s[1], s[2])]
    } else if s.len() == 2 {
        seq![b64_byte0(s[0], s[1])]
    } else {
        Seq::<u8>::empty()
    }
}

/// Decoding distributes over splitting the input at a group boundary.
pub proof fn lemma_b64_decoded_append(u: Seq<char>, v: Seq<char>)
    requires
        u.len() % 4 == 0,
    ensures
        b64_decoded(u + v) == b64_decoded(u) + b64_decoded(v),
    decreases u.len(),
{
    if u.len() == 0 {
        assert(u + v =~= v);
        assert(b64_decoded(u) + b64_decoded(v) =~= b64_decoded(v));
    } else {
        let w = u + v;
        assert(w.len() >= 4);
        assert(w[0] == u[0] && w[1] == u[1] && w[2] == u[2] && w[3] == u[3]);
        lemma_b64_decoded_append(u.skip(4), v);
        assert(w.skip(4) =~= u.skip(4) + v);
        assert(b64_decoded(u + v) =~= b64_decoded(u) + b64_decoded(v));
    }
}

/// Decodes an unpadded base64url string: `Some` exactly on well-formed
/// input, and then the bytes given by [`b64_decoded`].
#[verifier::rlimit(50)]
pub fn b64_decode(s: &str) -> (r: Option<Vec<u8>>)
    ensures
        match r {
            Some(v) => b64_valid(s@) && v@ == b64_decoded(s@),
            None => !b64_valid(s@),
        },
{
    let n = s.unicode_len();
    if n % 4 == 1 {
        return None;
    }
    let mut out: Vec<u8> = Vec::new();
    let mut i: usize = 0;
    while n - i >= 4
        invariant
            i % 4 == 0,
            i <= n,
            n == s@.len(),
            n % 4 != 1,
            forall|k: int| 0 <= k < i ==> b64_char_val(s@[k]) is Some,
            out@ == b64_decoded(s@.subrange(0, i as int)),
        decreases n - i,
    {
        let a = match b64_val_exec(s.get_char(i)) {
            Some(v) => v,
            None => return None,
        };
        let b = match b64_val_exec(s.get_char(i + 1)) {
            Some(v) => v,
            None => return None,
        };
        let c = match b64_val_exec(s.get_char(i + 2)) {
            Some(v) => v,
            None => return None,
        };
        let d = match b64_val_exec(s.get_char(i + 3)) {
            Some(v) => v,
            None => return None,
        };
        out.push(a * 4 + b / 16);
        out.push((b % 16) * 16 + c / 4);
        out.push((c % 4) * 64 + d);
        proof {
            let pre = s@.subrange(0, i as int);
            let grp = s@.subrange(i as int, i + 4);
            assert(grp[0] == s@[i as int] && grp[1] == s@[i + 1] && grp[2] == s@[i + 2]
                && grp[3] == s@[i + 3]);
            assert(a == b64_val(grp[0]) && b == b64_val(grp[1]) && c == b64_val(grp[2]) && d
                == b64_val(grp[3]));
            assert(grp.skip(4) =~= Seq::<char>::empty());
            assert(b64_decoded(Seq::<char>::empty()) =~= Seq::<u8>::empty());
            assert(b64_decoded(grp) =~= seq![
                b64_byte0(grp[0], grp[1]),
                b64_byte1(grp[1], grp[2]),
                b64_byte2(grp[2], grp[3]),
            ]);
            lemma_b64_decoded_append(pre, grp);
            assert(pre + grp =~= s@.subrange(0, i + 4));
            assert(out@ =~= b64_decoded(pre) + b64_decoded(grp));
            assert(out@ =~= b64_decoded(s@.subrange(0, i + 4)));
        }
        i = i + 4;
    }
    let rem: usize = n - i;
    proof {
        assert(rem == n % 4) by {
            assert(n == i + rem);
            assert(i % 4 == 0 && rem < 4);
        };
    }
    if rem == 2 {
        let a = match b64_val_exec(s.get_char(i)) {
            Some(v) => v,
            None => return None,
        };
        let b = match b64_val_exec(s.get_char(i + 1)) {
            Some(v) => v,
            None => return None,
        };
        out.push(a * 4 + b / 16);
        proof {
            let pre = s@.subrange(0, i as int);
            let tail = s@.subrange(i as int, n as int);
            lemma_b64_decoded_append(pre, tail);
            assert(pre + tail =~= s@);
            assert(out@ =~= b64_decoded(s@));
        }
        Some(out)
    } else if rem == 3 {
        let a = match b64_val_exec(s.get_char(i)) {
            Some(v) => v,
            None => return None,
        };
        let b = match b64_val_exec(s.get_char(i + 1)) {
            Some(v) => v,
            None => return None,
        };
        let c = match b64_val_exec(s.get_char(i + 2)) {
            Some(v) => v,
            None => return None,
        };
        out.push(a * 4 + b / 16);
        out.push((b % 16) * 16 + c / 4);
        proof {
            let pre = s@.subrange(0, i as int);
            let tail = s@.subrange(i as int, n as int);
            lemma_b64_decoded_append(pre, tail);
            assert(pre + tail =~= s@);
            assert(out@ =~= b64_decoded(s@));
        }
        Some(out)
    } else {
        proof {
            assert(s@.subrange(0, i as int) =~= s@);
        }
        Some(out)
    }
}

/// The 6-bit value of one character, or `None` outside the alphabet.
fn b64_val_exec(c: char) -> (r: Option<u8>)
    ensures
        r == b64_char_val(c),
{
    let n = c as u32;
    if 65 <= n && n <= 90 {
        Some((n - 65) as u8)
    } else if 97 <= n && n <= 122 {
        Some((n - 97 + 26) as u8)
    } else if 48 <= n && n <= 57 {
        Some((n - 48 + 52) as u8)
    } else if n == 45 {
        Some(62u8)
    } else if n == 95 {
        Some(63u8)
    } else {
        None
    }
}

} // verus!
