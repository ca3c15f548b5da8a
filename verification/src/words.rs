//! Small byte-level matching rules consumed at the program's edges: the
//! vendor/product identifiers that single out the supported mouse among
//! enumerated USB devices, the boolean words accepted for the LED flags,
//! and the words naming a supported polling frequency. The application
//! hands in the raw bytes it read (attribute values, argument strings) and
//! gets the decision back.

use vstd::prelude::*;
use crate::settings::Freq;

verus! {

/// ASCII case folding of one byte; other bytes are untouched.
pub open spec fn ascii_lower(b: u8) -> u8 {
    if ('A' as u8) <= b <= ('Z' as u8) {
        (b + 32) as u8
    } else {
        b
    }
}

/// ASCII case folding of a byte sequence.
pub open spec fn lower_seq(s: Seq<u8>) -> Seq<u8> {
    s.map_values(|b: u8| ascii_lower(b))
}

/// Whether two byte slices hold the same bytes.
pub fn bytes_eq(a: &[u8], b: &[u8]) -> (r: bool)
    ensures
        r == (a@ == b@),
{
    if a.len() != b.len() {
        return false;
    }
    let mut i: usize = 0;
    while i < a.len()
        invariant
            a@.len() == b@.len(),
            i <= a@.len(),
            forall|j: int| 0 <= j < i ==> a@[j] == b@[j],
        decreases a@.len() - i,
    {
        if a[i] != b[i] {
            return false;
        }
        i = i + 1;
    }
    proof {
        assert(a@ =~= b@);
    }
    true
}

/// ASCII-lowercases a byte slice into a fresh vector.
pub fn lower_bytes(w: &[u8]) -> (out: Vec<u8>)
    ensures
        out@ == lower_seq(w@),
{
    let mut out: Vec<u8> = Vec::new();
    let mut i: usize = 0;
    while i < w.len()
        invariant
            i <= w@.len(),
            out@.len() == i,
            forall|j: int| 0 <= j < i ==> out@[j] == ascii_lower(w@[j]),
        decreases w@.len() - i,
    {
        let b = w[i];
        if ('A' as u8) <= b && b <= ('Z' as u8) {
            out.push(b + 32);
        } else {
            out.push(b);
        }
        i = i + 1;
    }
    proof {
        assert(out@ =~= lower_seq(w@));
    }
    out
}

/// The USB vendor identifier of the supported mouse, as the platform
/// exposes it in device metadata.
pub open spec fn target_vendor() -> Seq<u8> {
    seq![('1' as u8), ('5' as u8), ('3' as u8), ('2' as u8)]
}

/// The USB product identifier of the supported mouse.
pub open spec fn target_product() -> Seq<u8> {
    seq![('0' as u8), ('0' as u8), ('3' as u8), ('7' as u8)]
}

/// Whether a device's vendor and product identifiers name the supported
/// mouse: vendor 1532 and product 0037 exactly.
pub fn is_target_device(vendor: &[u8], product: &[u8]) -> (r: bool)
    ensures
        r == (vendor@ == target_vendor() && product@ == target_product()),
{
    let mut v: Vec<u8> = Vec::new();
    v.push(('1' as u8));
    v.push(('5' as u8));
    v.push(('3' as u8));
    v.push(('2' as u8));
    let mut p: Vec<u8> = Vec::new();
    p.push(('0' as u8));
    p.push(('0' as u8));
    p.push(('3' as u8));
    p.push(('7' as u8));
    proof {
        assert(v@ =~= target_vendor());
        assert(p@ =~= target_product());
    }
    let rv = bytes_eq(vendor, v.as_slice());
    let rp = bytes_eq(product, p.as_slice());
    rv && rp
}

/// The boolean words accepted for an LED flag, compared after ASCII case
/// folding: on/true/1/enabled are true, off/false/0/disabled are false,
/// anything else is not a boolean word.
pub open spec fn bool_word_value(s: Seq<u8>) -> Option<bool> {
    let l = lower_seq(s);
    if l == seq![('o' as u8), ('n' as u8)] || l == seq![('t' as u8), ('r' as u8), ('u' as u8), ('e' as u8)] || l == seq![('1' as u8)] || l == seq![
        ('e' as u8),
        ('n' as u8),
        ('a' as u8),
        ('b' as u8),
        ('l' as u8),
        ('e' as u8),
        ('d' as u8),
    ] {
        Some(true)
    } else if l == seq![('o' as u8), ('f' as u8), ('f' as u8)] || l == seq![('f' as u8), ('a' as u8), ('l' as u8), ('s' as u8), ('e' as u8)] || l == seq![
        ('0' as u8),
    ] || l == seq![('d' as u8), ('i' as u8), ('s' as u8), ('a' as u8), ('b' as u8), ('l' as u8), ('e' as u8), ('d' as u8)] {
        Some(false)
    } else {
        None
    }
}

/// Reads a boolean word, case-insensitively.
pub fn parse_bool_word(w: &[u8]) -> (r: Option<bool>)
    ensures
        r == bool_word_value(w@),
{
    let l = lower_bytes(w);
    let ls = l.as_slice();
    let mut t: Vec<u8> = Vec::new();
    t.push(('o' as u8));
    t.push(('n' as u8));
    proof {
        assert(t@ =~= seq![('o' as u8), ('n' as u8)]);
    }
    if bytes_eq(ls, t.as_slice()) {
        return Some(true);
    }
    t.clear();
    t.push(('t' as u8));
    t.push(('r' as u8));
    t.push(('u' as u8));
    t.push(('e' as u8));
    proof {
        assert(t@ =~= seq![('t' as u8), ('r' as u8), ('u' as u8), ('e' as u8)]);
    }
    if bytes_eq(ls, t.as_slice()) {
        return Some(true);
    }
    t.clear();
    t.push(('1' as u8));
    proof {
        assert(t@ =~= seq![('1' as u8)]);
    }
    if bytes_eq(ls, t.as_slice()) {
        return Some(true);
    }
    t.clear();
    t.push(('e' as u8));
    t.push(('n' as u8));
    t.push(('a' as u8));
    t.push(('b' as u8));
    t.push(('l' as u8));
    t.push(('e' as u8));
    t.push(('d' as u8));
    proof {
        assert(t@ =~= seq![('e' as u8), ('n' as u8), ('a' as u8), ('b' as u8), ('l' as u8), ('e' as u8), ('d' as u8)]);
    }
    if bytes_eq(ls, t.as_slice()) {
        return Some(true);
    }
    t.clear();
    t.push(('o' as u8));
    t.push(('f' as u8));
    t.push(('f' as u8));
    proof {
        assert(t@ =~= seq![('o' as u8), ('f' as u8), ('f' as u8)]);
    }
    if bytes_eq(ls, t.as_slice()) {
        return Some(false);
    }
    t.clear();
    t.push(('f' as u8));
    t.push(('a' as u8));
    t.push(('l' as u8));
    t.push(('s' as u8));
    t.push(('e' as u8));
    proof {
        assert(t@ =~= seq![('f' as u8), ('a' as u8), ('l' as u8), ('s' as u8), ('e' as u8)]);
    }
    if bytes_eq(ls, t.as_slice()) {
        return Some(false);
    }
    t.clear();
    t.push(('0' as u8));
    proof {
        assert(t@ =~= seq![('0' as u8)]);
    }
    if bytes_eq(ls, t.as_slice()) {
        return Some(false);
    }
    t.clear();
    t.push(('d' as u8));
    t.push(('i' as u8));
    t.push(('s' as u8));
    t.push(('a' as u8));
    t.push(('b' as u8));
    t.push(('l' as u8));
    t.push(('e' as u8));
    t.push(('d' as u8));
    proof {
        assert(t@ =~= seq![('d' as u8), ('i' as u8), ('s' as u8), ('a' as u8), ('b' as u8), ('l' as u8), ('e' as u8), ('d' as u8)]);
    }
    if bytes_eq(ls, t.as_slice()) {
        return Some(false);
    }
    None
}

/// The words naming a supported polling frequency, matched exactly.
pub open spec fn freq_word_value(s: Seq<u8>) -> Option<Freq> {
    if s == seq![('1' as u8), ('2' as u8), ('5' as u8)] {
        Some(Freq::F125)
    } else if s == seq![('5' as u8), ('0' as u8), ('0' as u8)] {
        Some(Freq::F500)
    } else if s == seq![('1' as u8), ('0' as u8), ('0' as u8), ('0' as u8)] {
        Some(Freq::F1000)
    } else {
        None
    }
}

/// Reads a polling-frequency word.
pub fn parse_freq_word(w: &[u8]) -> (r: Option<Freq>)
    ensures
        r == freq_word_value(w@),
{
    let mut t: Vec<u8> = Vec::new();
    t.push(('1' as u8));
    t.push(('2' as u8));
    t.push(('5' as u8));
    proof {
        assert(t@ =~= seq![('1' as u8), ('2' as u8), ('5' as u8)]);
    }
    if bytes_eq(w, t.as_slice()) {
        return Some(Freq::F125);
    }
    t.clear();
    t.push(('5' as u8));
    t.push(('0' as u8));
    t.push(('0' as u8));
    proof {
        assert(t@ =~= seq![('5' as u8), ('0' as u8), ('0' as u8)]);
    }
    if bytes_eq(w, t.as_slice()) {
        return Some(Freq::F500);
    }
    t.clear();
    t.push(('1' as u8));
    t.push(('0' as u8));
    t.push(('0' as u8));
    t.push(('0' as u8));
    proof {
        assert(t@ =~= seq![('1' as u8), ('0' as u8), ('0' as u8), ('0' as u8)]);
    }
    if bytes_eq(w, t.as_slice()) {
        return Some(Freq::F1000);
    }
    None
}

} // verus!
