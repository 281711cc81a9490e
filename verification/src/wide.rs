//! Wide-string key encoding for the credential store.
//!
//! The credential facility is keyed by nul-terminated UTF-16 strings. This
//! module defines the UTF-16 encoding as a specification, proves that it is
//! injective (so keys built from distinct identities never collide), and
//! provides verified executable encoders: [`wstr`] for a single string and
//! [`target_name`] for the namespaced registry key.

use vstd::prelude::*;
use vstd::utf8::{char_is_scalar, char_u32_cast, is_scalar};
use vstd::string::StrSliceExecFns;
use vstd::arithmetic::div_mod::{lemma_div_is_ordered, lemma_fundamental_div_mod, lemma_mod_bound};

verus! {

/// The UTF-16 code units of one Unicode scalar value: scalars below `0x10000`
/// are one unit, the rest a surrogate pair.
pub open spec fn utf16_scalar(v: u32) -> Seq<u16> {
    if v < 0x10000 {
        seq![v as u16]
    } else {
        seq![
            (0xD800 + (v - 0x10000) / 0x400) as u16,
            (0xDC00 + (v - 0x10000) % 0x400) as u16,
        ]
    }
}

/// The UTF-16 code units of one character.
pub open spec fn utf16_char(c: char) -> Seq<u16> {
    utf16_scalar(c as u32)
}

/// The UTF-16 encoding of a character sequence.
pub open spec fn encode_utf16(s: Seq<char>) -> Seq<u16>
    decreases s.len(),
{
    if s.len() == 0 {
        Seq::empty()
    } else {
        utf16_char(s[0]) + encode_utf16(s.drop_first())
    }
}

/// A well-formed wide key: nul-terminated, with no interior nul unit.
pub open spec fn wellformed_wide(w: Seq<u16>) -> bool {
    &&& w.len() >= 1
    &&& w.last() == 0u16
    &&& forall|i: int| 0 <= i < w.len() - 1 ==> w[i] != 0u16
}

/// The credential-store key derived from a registry identity: the namespace
/// prefix, the identity, a terminating nul, all in UTF-16.
pub open spec fn target_name_spec(identity: Seq<char>) -> Seq<u16> {
    encode_utf16("cargo-registry:"@ + identity).push(0u16)
}

/// Exact shape of the code units of one scalar, and their ranges.
pub proof fn lemma_utf16_scalar_parts(v: u32)
    requires
        is_scalar(v),
    ensures
        v < 0x10000 ==> utf16_scalar(v).len() == 1,
        v < 0x10000 ==> utf16_scalar(v)[0] == v,
        v < 0x10000 ==> !(0xD800 <= utf16_scalar(v)[0] <= 0xDFFF),
        v >= 0x10000 ==> utf16_scalar(v).len() == 2,
        v >= 0x10000 ==> utf16_scalar(v)[0] == 0xD800 + (v - 0x10000) / 0x400,
        v >= 0x10000 ==> utf16_scalar(v)[1] == 0xDC00 + (v - 0x10000) % 0x400,
        v >= 0x10000 ==> 0xD800 <= utf16_scalar(v)[0] < 0xDC00,
        v >= 0x10000 ==> 0xDC00 <= utf16_scalar(v)[1] < 0xE000,
        forall|i: int| 0 <= i < utf16_scalar(v).len() ==> (utf16_scalar(v)[i] == 0u16 <==> v == 0),
{
    if v < 0x10000 {
        assert(utf16_scalar(v)[0] == v as u16);
    } else {
        let w = v - 0x10000;
        lemma_div_is_ordered(0, w, 0x400);
        lemma_div_is_ordered(w, 0xFFFFF, 0x400);
        assert(0int / 0x400 == 0);
        assert(0xFFFFFint / 0x400 == 0x3FF);
        lemma_mod_bound(w, 0x400);
        assert(0 <= w / 0x400 <= 0x3FF);
        assert(utf16_scalar(v)[0] == (0xD800 + w / 0x400) as u16);
        assert(utf16_scalar(v)[1] == (0xDC00 + w % 0x400) as u16);
    }
}

/// UTF-16 encodes each scalar uniquely.
pub proof fn lemma_utf16_scalar_injective(a: u32, b: u32)
    requires
        is_scalar(a),
        is_scalar(b),
        utf16_scalar(a) == utf16_scalar(b),
    ensures
        a == b,
{
    lemma_utf16_scalar_parts(a);
    lemma_utf16_scalar_parts(b);
    if a < 0x10000 && b < 0x10000 {
        assert(utf16_scalar(a)[0] == utf16_scalar(b)[0]);
    } else if a >= 0x10000 && b >= 0x10000 {
        let wa = a - 0x10000;
        let wb = b - 0x10000;
        assert(utf16_scalar(a)[0] == utf16_scalar(b)[0]);
        assert(utf16_scalar(a)[1] == utf16_scalar(b)[1]);
        assert(wa / 0x400 == wb / 0x400);
        assert(wa % 0x400 == wb % 0x400);
        lemma_fundamental_div_mod(wa, 0x400);
        lemma_fundamental_div_mod(wb, 0x400);
    } else {
        assert(utf16_scalar(a).len() == utf16_scalar(b).len());
    }
}

/// UTF-16 is a prefix code: the first scalar of an encoded stream is
/// unambiguous, so equal streams begin with equal scalars.
pub proof fn lemma_utf16_prefix(a: u32, b: u32, x: Seq<u16>, y: Seq<u16>)
    requires
        is_scalar(a),
        is_scalar(b),
        utf16_scalar(a) + x == utf16_scalar(b) + y,
    ensures
        a == b,
        x == y,
{
    lemma_utf16_scalar_parts(a);
    lemma_utf16_scalar_parts(b);
    let sa = utf16_scalar(a);
    let sb = utf16_scalar(b);
    assert((sa + x)[0] == sa[0]);
    assert((sb + y)[0] == sb[0]);
    if a < 0x10000 && b >= 0x10000 {
        assert(sa[0] == sb[0]);
        assert(false);
    } else if a >= 0x10000 && b < 0x10000 {
        assert(sa[0] == sb[0]);
        assert(false);
    } else {
        if a >= 0x10000 {
            assert((sa + x)[1] == sa[1]);
            assert((sb + y)[1] == sb[1]);
        }
        assert(sa =~= sb);
        lemma_utf16_scalar_injective(a, b);
        assert(x =~= y) by {
            assert((sa + x).len() == (sb + y).len());
            assert forall|i: int| 0 <= i < x.len() implies x[i] == y[i] by {
                assert((sa + x)[sa.len() + i] == x[i]);
                assert((sb + y)[sb.len() + i] == y[i]);
            }
        }
    }
}

/// Bounds on the length of an encoded sequence.
pub proof fn lemma_encode_utf16_len(s: Seq<char>)
    ensures
        s.len() <= encode_utf16(s).len() <= 2 * s.len(),
    decreases s.len(),
{
    if s.len() > 0 {
        char_is_scalar(s[0]);
        lemma_utf16_scalar_parts(s[0] as u32);
        lemma_encode_utf16_len(s.drop_first());
    }
}

/// Encoding distributes over concatenation.
pub proof fn lemma_encode_utf16_concat(a: Seq<char>, b: Seq<char>)
    ensures
        encode_utf16(a + b) == encode_utf16(a) + encode_utf16(b),
    decreases a.len(),
{
    if a.len() == 0 {
        assert(a + b =~= b);
        assert(encode_utf16(a) + encode_utf16(b) =~= encode_utf16(b));
    } else {
        assert((a + b).len() > 0);
        assert((a + b)[0] == a[0]);
        assert((a + b).drop_first() =~= a.drop_first() + b);
        lemma_encode_utf16_concat(a.drop_first(), b);
        assert(encode_utf16(a + b) =~= encode_utf16(a) + encode_utf16(b));
    }
}

/// Appending one character appends its code units.
pub proof fn lemma_encode_utf16_push(s: Seq<char>, c: char)
    ensures
        encode_utf16(s.push(c)) == encode_utf16(s) + utf16_char(c),
{
    assert(s.push(c) =~= s + seq![c]);
    lemma_encode_utf16_concat(s, seq![c]);
    assert(seq![c].drop_first() =~= Seq::<char>::empty());
    assert(encode_utf16(Seq::<char>::empty()) =~= Seq::<u16>::empty());
    assert(encode_utf16(seq![c]) =~= utf16_char(seq![c][0]) + encode_utf16(seq![c].drop_first()));
    assert(encode_utf16(seq![c]) =~= utf16_char(c));
}

/// A sequence without the nul character encodes without the nul unit.
pub proof fn lemma_encode_utf16_no_nul(s: Seq<char>)
    requires
        !s.contains('\0'),
    ensures
        forall|i: int| 0 <= i < encode_utf16(s).len() ==> encode_utf16(s)[i] != 0u16,
    decreases s.len(),
{
    if s.len() > 0 {
        let c = s[0];
        char_is_scalar(c);
        lemma_utf16_scalar_parts(c as u32);
        assert(s[0] != '\0');
        assert(c as u32 != 0) by {
            if c as u32 == 0 {
                char_u32_cast(c, 0);
                assert('\0' as u32 == 0);
                char_u32_cast('\0', 0);
            }
        }
        assert(!s.drop_first().contains('\0')) by {
            if s.drop_first().contains('\0') {
                let j = choose|j: int| 0 <= j < s.drop_first().len() && s.drop_first()[j] == '\0';
                assert(s[j + 1] == '\0');
            }
        }
        lemma_encode_utf16_no_nul(s.drop_first());
        assert forall|i: int| 0 <= i < encode_utf16(s).len() implies encode_utf16(s)[i] != 0u16 by {
            let head = utf16_char(c);
            if i < head.len() {
                assert(encode_utf16(s)[i] == head[i]);
            } else {
                assert(encode_utf16(s)[i] == encode_utf16(s.drop_first())[i - head.len()]);
            }
        }
    }
}

/// UTF-16 encoding is injective on character sequences.
pub proof fn lemma_encode_utf16_injective(s: Seq<char>, t: Seq<char>)
    requires
        encode_utf16(s) == encode_utf16(t),
    ensures
        s == t,
    decreases s.len(),
{
    if s.len() == 0 || t.len() == 0 {
        lemma_encode_utf16_len(s);
        lemma_encode_utf16_len(t);
        assert(s =~= t);
    } else {
        char_is_scalar(s[0]);
        char_is_scalar(t[0]);
        lemma_utf16_prefix(
            s[0] as u32,
            t[0] as u32,
            encode_utf16(s.drop_first()),
            encode_utf16(t.drop_first()),
        );
        char_u32_cast(s[0], s[0] as u32);
        char_u32_cast(t[0], t[0] as u32);
        assert(s[0] == t[0]);
        lemma_encode_utf16_injective(s.drop_first(), t.drop_first());
        assert(s.len() == t.len());
        assert forall|i: int| 0 <= i < s.len() implies s[i] == t[i] by {
            if i > 0 {
                assert(s.drop_first()[i - 1] == s[i]);
                assert(t.drop_first()[i - 1] == t[i]);
            }
        }
        assert(s =~= t);
    }
}

/// Distinct identities yield distinct store keys.
pub proof fn lemma_target_name_injective(i1: Seq<char>, i2: Seq<char>)
    requires
        target_name_spec(i1) == target_name_spec(i2),
    ensures
        i1 == i2,
{
    let p = "cargo-registry:"@;
    let e1 = encode_utf16(p + i1);
    let e2 = encode_utf16(p + i2);
    assert(e1 =~= e2) by {
        assert(e1.push(0u16).len() == e2.push(0u16).len());
        assert forall|i: int| 0 <= i < e1.len() implies e1[i] == e2[i] by {
            assert(e1.push(0u16)[i] == e1[i]);
            assert(e2.push(0u16)[i] == e2[i]);
        }
    }
    lemma_encode_utf16_injective(p + i1, p + i2);
    assert(i1 =~= i2) by {
        assert((p + i1).len() == (p + i2).len());
        assert forall|j: int| 0 <= j < i1.len() implies i1[j] == i2[j] by {
            assert((p + i1)[p.len() + j] == i1[j]);
            assert((p + i2)[p.len() + j] == i2[j]);
        }
    }
}

/// Key isolation: distinct registry identities never alias in the store,
/// because their keys differ.
pub proof fn lemma_key_isolation(i1: Seq<char>, i2: Seq<char>)
    requires
        i1 != i2,
    ensures
        target_name_spec(i1) != target_name_spec(i2),
{
    if target_name_spec(i1) == target_name_spec(i2) {
        lemma_target_name_injective(i1, i2);
    }
}

/// Appends the UTF-16 code units of one character.
fn push_utf16_char(out: &mut Vec<u16>, c: char)
    ensures
        final(out)@ == old(out)@ + utf16_char(c),
{
    proof {
        char_is_scalar(c);
        lemma_utf16_scalar_parts(c as u32);
    }
    let v = c as u32;
    if v < 0x10000 {
        out.push(v as u16);
        proof {
            assert(out@ =~= old(out)@ + utf16_char(c));
        }
    } else {
        let w = v - 0x10000;
        proof {
            lemma_div_is_ordered(0, w as int, 0x400);
            lemma_div_is_ordered(w as int, 0xFFFFF, 0x400);
            assert(0int / 0x400 == 0);
            assert(0xFFFFFint / 0x400 == 0x3FF);
            lemma_mod_bound(w as int, 0x400);
        }
        let hi = 0xD800 + w / 0x400;
        let lo = 0xDC00 + w % 0x400;
        out.push(hi as u16);
        out.push(lo as u16);
        proof {
            assert(out@ =~= old(out)@ + utf16_char(c));
        }
    }
}

/// Appends the UTF-16 encoding of a whole string.
pub(crate) fn encode_utf16_onto(out: &mut Vec<u16>, s: &str)
    ensures
        final(out)@ == old(out)@ + encode_utf16(s@),
{
    let n = s.unicode_len();
    let mut i: usize = 0;
    while i < n
        invariant
            n == s@.len(),
            i <= n,
            out@ == old(out)@ + encode_utf16(s@.take(i as int)),
        decreases n - i,
    {
        let c = s.get_char(i);
        push_utf16_char(out, c);
        proof {
            assert(s@.take(i + 1 as int) =~= s@.take(i as int).push(s@[i as int]));
            lemma_encode_utf16_push(s@.take(i as int), s@[i as int]);
        }
        i = i + 1;
    }
    proof {
        assert(s@.take(n as int) =~= s@);
    }
}

/// Converts a string to a nul-terminated UTF-16 code-unit sequence, the key
/// and label encoding of the credential facility. A nul character in the
/// input would silently truncate the key on the facility side, so such
/// inputs are ruled out.
pub fn wstr(s: &str) -> (r: Vec<u16>)
    requires
        !s@.contains('\0'),
    ensures
        r@ == encode_utf16(s@).push(0u16),
        wellformed_wide(r@),
{
    let mut out: Vec<u16> = Vec::new();
    encode_utf16_onto(&mut out, s);
    out.push(0);
    proof {
        assert(out@ =~= encode_utf16(s@).push(0u16));
        lemma_encode_utf16_no_nul(s@);
    }
    out
}

/// The namespace prefix contains no nul character.
proof fn lemma_prefix_no_nul()
    ensures
        !"cargo-registry:"@.contains('\0'),
{
    reveal_strlit("cargo-registry:");
    let p = "cargo-registry:"@;
    assert(forall|i: int| 0 <= i < p.len() ==> p[i] != '\0');
    if p.contains('\0') {
        let j = choose|j: int| 0 <= j < p.len() && p[j] == '\0';
        assert(p[j] != '\0');
    }
}

/// The record label's prefix contains no nul character.
pub(crate) proof fn comment_label_no_nul()
    ensures
        !"Cargo registry token for "@.contains('\0'),
{
    reveal_strlit("Cargo registry token for ");
    let p = "Cargo registry token for "@;
    assert(forall|i: int| 0 <= i < p.len() ==> p[i] != '\0');
    if p.contains('\0') {
        let j = choose|j: int| 0 <= j < p.len() && p[j] == '\0';
        assert(p[j] != '\0');
    }
}

/// The default record label contains no nul character.
pub(crate) proof fn comment_plain_no_nul()
    ensures
        !"Cargo registry token"@.contains('\0'),
{
    reveal_strlit("Cargo registry token");
    let p = "Cargo registry token"@;
    assert(forall|i: int| 0 <= i < p.len() ==> p[i] != '\0');
    if p.contains('\0') {
        let j = choose|j: int| 0 <= j < p.len() && p[j] == '\0';
        assert(p[j] != '\0');
    }
}

/// The credential-store key for a registry identity: the namespace prefix
/// followed by the registry's index URL, as a nul-terminated UTF-16 string.
/// Deterministic in the identity, and injective over identities
/// ([`lemma_key_isolation`]), so credentials for different registries never
/// alias.
pub fn target_name(registry_name: &str) -> (r: Vec<u16>)
    requires
        !registry_name@.contains('\0'),
    ensures
        r@ == target_name_spec(registry_name@),
        wellformed_wide(r@),
{
    let mut out: Vec<u16> = Vec::new();
    encode_utf16_onto(&mut out, "cargo-registry:");
    encode_utf16_onto(&mut out, registry_name);
    out.push(0);
    proof {
        let p = "cargo-registry:"@;
        let all = p + registry_name@;
        lemma_encode_utf16_concat(p, registry_name@);
        assert(out@ =~= target_name_spec(registry_name@));
        lemma_prefix_no_nul();
        assert(!all.contains('\0')) by {
            if all.contains('\0') {
                let j = choose|j: int| 0 <= j < all.len() && all[j] == '\0';
                if j < p.len() {
                    assert(p[j] == '\0');
                } else {
                    assert(registry_name@[j - p.len()] == '\0');
                }
            }
        }
        lemma_encode_utf16_no_nul(all);
    }
    out
}

} // verus!
