//! Byte-level encodings used when exporting and loading images: standard
//! base64 (RFC 4648, with padding), and the conversion of RGBA pixels
//! between straight and premultiplied alpha.

use vstd::prelude::*;

verus! {

// ===== base64 =====

/// The standard base64 alphabet.
pub open spec fn b64_alphabet() -> Seq<char> {
    "ABCDEFGHIJKLMNOPQRSTUVWXYZabcdefghijklmnopqrstuvwxyz0123456789+/"@
}

/// The 24-bit group of a chunk of one to three bytes (missing bytes are 0).
pub open spec fn group(c: Seq<u8>) -> int {
    let b1: int = if c.len() > 1 {
        c[1] as int
    } else {
        0
    };
    let b2: int = if c.len() > 2 {
        c[2] as int
    } else {
        0
    };
    c[0] * 65536 + b1 * 256 + b2
}

/// The four characters of a chunk of one to three bytes: four 6-bit digits
/// of its group, the last one or two replaced by `=` for a short chunk.
pub open spec fn b64_chunk(c: Seq<u8>) -> Seq<char> {
    let n = group(c);
    seq![
        b64_alphabet()[n / 262144],
        b64_alphabet()[(n / 4096) % 64],
        if c.len() > 1 {
            b64_alphabet()[(n / 64) % 64]
        } else {
            '='
        },
        if c.len() > 2 {
            b64_alphabet()[n % 64]
        } else {
            '='
        },
    ]
}

/// The base64 text of `data`: one four-character chunk per three bytes.
pub open spec fn base64_seq(data: Seq<u8>) -> Seq<char>
    decreases data.len(),
{
    if data.len() == 0 {
        seq![]
    } else if data.len() <= 3 {
        b64_chunk(data)
    } else {
        b64_chunk(data.take(3)) + base64_seq(data.skip(3))
    }
}

/// Appends the alphabet character of digit `d`.
fn push_digit(out: &mut String, d: u32)
    requires
        d < 64,
    ensures
        final(out)@ == old(out)@.push(b64_alphabet()[d as int]),
{
    let alphabet = "ABCDEFGHIJKLMNOPQRSTUVWXYZabcdefghijklmnopqrstuvwxyz0123456789+/";
    proof {
        reveal_strlit("ABCDEFGHIJKLMNOPQRSTUVWXYZabcdefghijklmnopqrstuvwxyz0123456789+/");
    }
    let k = d as usize;
    let one = alphabet.substring_char(k, k + 1);
    out.append(one);
    assert(one@ =~= seq![b64_alphabet()[d as int]]);
}

/// The base64 text of `data` (standard alphabet, `=` padding).
pub fn base64_encode(data: &[u8]) -> (r: String)
    ensures
        r@ == base64_seq(data@),
{
    let mut out = String::new();
    let n = data.len();
    let mut i: usize = 0;
    assert(data@.skip(0) =~= data@);
    while i < n
        invariant
            n == data@.len(),
            i <= n,
            out@ + base64_seq(data@.skip(i as int)) == base64_seq(data@),
        decreases n - i,
    {
        let rest = n - i;
        let len: usize = if rest >= 3 {
            3
        } else {
            rest
        };
        let ghost chunk = data@.skip(i as int).take(len as int);
        let b0 = data[i] as u32;
        let b1: u32 = if len > 1 {
            data[i + 1] as u32
        } else {
            0
        };
        let b2: u32 = if len > 2 {
            data[i + 2] as u32
        } else {
            0
        };
        let g = b0 * 65536 + b1 * 256 + b2;
        assert(g == group(chunk));
        let ghost before = out@;
        push_digit(&mut out, g / 262144);
        push_digit(&mut out, (g / 4096) % 64);
        if len > 1 {
            push_digit(&mut out, (g / 64) % 64);
        } else {
            out.append("=");
        }
        if len > 2 {
            push_digit(&mut out, g % 64);
        } else {
            out.append("=");
        }
        proof {
            reveal_strlit("=");
            assert(out@ =~= before + b64_chunk(chunk));
            let s = data@.skip(i as int);
            if s.len() <= 3 {
                assert(chunk =~= s);
                assert(data@.skip(i + len) =~= Seq::<u8>::empty());
            } else {
                assert(s.skip(3) =~= data@.skip(i + 3));
            }
        }
        i = i + len;
    }
    assert(base64_seq(data@.skip(n as int)) =~= Seq::<char>::empty());
    assert(out@ + Seq::<char>::empty() =~= out@);
    out
}

// ===== alpha =====

/// A colour channel scaled by alpha, rounded to nearest.
pub open spec fn premul(c: u8, a: u8) -> u8 {
    ((c * a + 127) / 255) as u8
}

/// A premultiplied channel brought back to straight alpha (rounded to
/// nearest, at most 255); untouched for transparent and opaque pixels.
pub open spec fn unpremul(c: u8, a: u8) -> u8 {
    if a > 0 && a < 255 {
        let v = (c * 255 + a / 2) / (a as int);
        if v > 255 {
            255
        } else {
            v as u8
        }
    } else {
        c
    }
}

/// The alpha of the pixel that byte `k` belongs to.
pub open spec fn alpha_at(px: Seq<u8>, k: int) -> u8 {
    px[k - k % 4 + 3]
}

/// Byte `k` belongs to a whole pixel and is a colour channel.
pub open spec fn is_channel(len: nat, k: int) -> bool {
    k < len - len % 4 && k % 4 < 3
}

/// Premultiplies every whole RGBA pixel (bytes after the last whole pixel are
/// left as they are).
pub fn premultiply_rgba(px: &mut Vec<u8>)
    ensures
        final(px)@.len() == old(px)@.len(),
        forall|k: int|
            0 <= k < old(px)@.len() ==> #[trigger] final(px)@[k] == if is_channel(
                old(px)@.len(),
                k,
            ) {
                premul(old(px)@[k], alpha_at(old(px)@, k))
            } else {
                old(px)@[k]
            },
{
    let n = px.len();
    let whole = n - n % 4;
    let mut i: usize = 0;
    while i < whole
        invariant
            n == px@.len(),
            n == old(px)@.len(),
            whole == n - n % 4,
            i <= whole,
            i % 4 == 0,
            forall|k: int|
                0 <= k < n ==> #[trigger] px@[k] == if k < i && k % 4 < 3 {
                    premul(old(px)@[k], alpha_at(old(px)@, k))
                } else {
                    old(px)@[k]
                },
        decreases whole - i,
    {
        let a = px[i + 3];
        assert(alpha_at(old(px)@, i as int) == a);
        assert(alpha_at(old(px)@, i + 1) == a);
        assert(alpha_at(old(px)@, i + 2) == a);
        let mut j: usize = 0;
        while j < 3
            invariant
                n == px@.len(),
                n == old(px)@.len(),
                whole == n - n % 4,
                i + 4 <= whole,
                i % 4 == 0,
                a == old(px)@[i + 3],
                j <= 3,
                forall|k: int|
                    0 <= k < n ==> #[trigger] px@[k] == if (k < i && k % 4 < 3) || (i <= k < i
                        + j) {
                        premul(old(px)@[k], alpha_at(old(px)@, k))
                    } else {
                        old(px)@[k]
                    },
                alpha_at(old(px)@, i as int) == a,
                alpha_at(old(px)@, i + 1) == a,
                alpha_at(old(px)@, i + 2) == a,
            decreases 3 - j,
        {
            let c = px[i + j];
            assert(c == old(px)@[i + j]);
            assert((c as u32) * (a as u32) <= 65025) by (nonlinear_arith)
                requires
                    c <= 255,
                    a <= 255,
            ;
            let v = ((c as u32) * (a as u32) + 127) / 255;
            px.set(i + j, v as u8);
            j = j + 1;
        }
        i = i + 4;
    }
}

/// Brings every whole RGBA pixel back from premultiplied alpha (bytes after
/// the last whole pixel are left as they are).
pub fn unpremultiply_rgba(px: &mut Vec<u8>)
    ensures
        final(px)@.len() == old(px)@.len(),
        forall|k: int|
            0 <= k < old(px)@.len() ==> #[trigger] final(px)@[k] == if is_channel(
                old(px)@.len(),
                k,
            ) {
                unpremul(old(px)@[k], alpha_at(old(px)@, k))
            } else {
                old(px)@[k]
            },
{
    let n = px.len();
    let whole = n - n % 4;
    let mut i: usize = 0;
    while i < whole
        invariant
            n == px@.len(),
            n == old(px)@.len(),
            whole == n - n % 4,
            i <= whole,
            i % 4 == 0,
            forall|k: int|
                0 <= k < n ==> #[trigger] px@[k] == if k < i && k % 4 < 3 {
                    unpremul(old(px)@[k], alpha_at(old(px)@, k))
                } else {
                    old(px)@[k]
                },
        decreases whole - i,
    {
        let a = px[i + 3];
        assert(alpha_at(old(px)@, i as int) == a);
        assert(alpha_at(old(px)@, i + 1) == a);
        assert(alpha_at(old(px)@, i + 2) == a);
        let mut j: usize = 0;
        while j < 3
            invariant
                n == px@.len(),
                n == old(px)@.len(),
                whole == n - n % 4,
                i + 4 <= whole,
                i % 4 == 0,
                a == old(px)@[i + 3],
                j <= 3,
                forall|k: int|
                    0 <= k < n ==> #[trigger] px@[k] == if (k < i && k % 4 < 3) || (i <= k < i
                        + j) {
                        unpremul(old(px)@[k], alpha_at(old(px)@, k))
                    } else {
                        old(px)@[k]
                    },
                alpha_at(old(px)@, i as int) == a,
                alpha_at(old(px)@, i + 1) == a,
                alpha_at(old(px)@, i + 2) == a,
            decreases 3 - j,
        {
            let c = px[i + j];
            assert(c == old(px)@[i + j]);
            if a > 0 && a < 255 {
                assert((c as u32) * 255 <= 65025) by (nonlinear_arith)
                    requires
                        c <= 255,
                ;
                let v = ((c as u32) * 255 + (a as u32) / 2) / (a as u32);
                let w: u8 = if v > 255 {
                    255
                } else {
                    v as u8
                };
                px.set(i + j, w);
            }
            j = j + 1;
        }
        i = i + 4;
    }
}

/// Base64 text is four characters for every started group of three bytes.
pub proof fn law_base64_length(data: Seq<u8>)
    ensures
        base64_seq(data).len() == 4 * ((data.len() + 2) / 3),
    decreases data.len(),
{
    if data.len() > 3 {
        law_base64_length(data.skip(3));
    }
}

/// Opaque pixels keep their colour both ways, and a transparent pixel's
/// colour premultiplies to black.
pub proof fn law_opaque_pixels_unchanged(c: u8)
    ensures
        premul(c, 255) == c,
        unpremul(c, 255) == c,
        premul(c, 0) == 0,
{
    assert((c * 255 + 127) / 255 == c as int) by (nonlinear_arith)
        requires
            0 <= c <= 255,
    ;
}

} // verus!
