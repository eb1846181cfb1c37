//! Canonical layer file names, derived purely from a layer's key range,
//! LSN range and kind, with a proof that distinct names never collide.

use vstd::prelude::*;
use crate::ids::{KeyRange, Lsn, LsnRange};
use crate::hex::{hex_seq, lemma_hex_seq_len, lemma_hex_seq_injective, pow16, push_hex};

verus! {

/// The name of an image layer file: a full snapshot of a key range at
/// one LSN.
#[derive(Clone, Copy, Debug, PartialEq, Eq, Hash, Structural)]
pub struct ImageFileName {
    pub key_range: KeyRange,
    pub lsn: Lsn,
}

/// The name of a delta layer file: incremental changes to a key range
/// across an LSN range.
#[derive(Clone, Copy, Debug, PartialEq, Eq, Hash, Structural)]
pub struct DeltaFileName {
    pub key_range: KeyRange,
    pub lsn_range: LsnRange,
}

/// A layer file name of either kind.
#[derive(Clone, Copy, Debug, PartialEq, Eq, Hash, Structural)]
pub enum LayerFileName {
    Image(ImageFileName),
    Delta(DeltaFileName),
}

/// The characters of an image layer's canonical name:
/// `{key start}-{key end}__{lsn}`, every number in fixed-width
/// hexadecimal.
pub open spec fn image_name_seq(f: ImageFileName) -> Seq<char> {
    hex_seq(f.key_range.start.0 as int, 16) + seq!['-'] + hex_seq(f.key_range.end.0 as int, 16)
        + seq!['_', '_'] + hex_seq(f.lsn.0 as int, 16)
}

/// The characters of a delta layer's canonical name:
/// `{key start}-{key end}__{lsn start}-{lsn end}`, every number in
/// fixed-width hexadecimal.
pub open spec fn delta_name_seq(f: DeltaFileName) -> Seq<char> {
    hex_seq(f.key_range.start.0 as int, 16) + seq!['-'] + hex_seq(f.key_range.end.0 as int, 16)
        + seq!['_', '_'] + hex_seq(f.lsn_range.start.0 as int, 16) + seq!['-'] + hex_seq(
        f.lsn_range.end.0 as int,
        16,
    )
}

/// The characters of a layer file name of either kind.
pub open spec fn layer_name_seq(f: LayerFileName) -> Seq<char> {
    match f {
        LayerFileName::Image(i) => image_name_seq(i),
        LayerFileName::Delta(d) => delta_name_seq(d),
    }
}

impl ImageFileName {
    /// Renders the canonical name.
    pub fn file_name(&self) -> (r: String)
        ensures
            r@ == image_name_seq(*self),
    {
        let mut s = String::new();
        push_hex(&mut s, self.key_range.start.0 as u128, 16);
        s.append("-");
        push_hex(&mut s, self.key_range.end.0 as u128, 16);
        s.append("__");
        push_hex(&mut s, self.lsn.0 as u128, 16);
        proof {
            reveal_strlit("-");
            reveal_strlit("__");
            assert(s@ =~= image_name_seq(*self));
        }
        s
    }
}

impl DeltaFileName {
    /// Renders the canonical name.
    pub fn file_name(&self) -> (r: String)
        ensures
            r@ == delta_name_seq(*self),
    {
        let mut s = String::new();
        push_hex(&mut s, self.key_range.start.0 as u128, 16);
        s.append("-");
        push_hex(&mut s, self.key_range.end.0 as u128, 16);
        s.append("__");
        push_hex(&mut s, self.lsn_range.start.0 as u128, 16);
        s.append("-");
        push_hex(&mut s, self.lsn_range.end.0 as u128, 16);
        proof {
            reveal_strlit("-");
            reveal_strlit("__");
            assert(s@ =~= delta_name_seq(*self));
        }
        s
    }
}

impl LayerFileName {
    /// Renders the canonical name of either kind of layer file.
    pub fn file_name(&self) -> (r: String)
        ensures
            r@ == layer_name_seq(*self),
    {
        match self {
            LayerFileName::Image(i) => i.file_name(),
            LayerFileName::Delta(d) => d.file_name(),
        }
    }
}

/// `pow16(16)` is exactly the count of 64-bit values, so every `u64`
/// fits in sixteen hexadecimal digits.
pub proof fn lemma_pow16_16()
    ensures
        pow16(16) == 0x1_0000_0000_0000_0000,
{
    assert(pow16(0) == 1);
    assert(pow16(1) == 16);
    assert(pow16(2) == 0x100);
    assert(pow16(3) == 0x1000);
    assert(pow16(4) == 0x1_0000);
    assert(pow16(5) == 0x10_0000);
    assert(pow16(6) == 0x100_0000);
    assert(pow16(7) == 0x1000_0000);
    assert(pow16(8) == 0x1_0000_0000);
    assert(pow16(9) == 0x10_0000_0000);
    assert(pow16(10) == 0x100_0000_0000);
    assert(pow16(11) == 0x1000_0000_0000);
    assert(pow16(12) == 0x1_0000_0000_0000);
    assert(pow16(13) == 0x10_0000_0000_0000);
    assert(pow16(14) == 0x100_0000_0000_0000);
    assert(pow16(15) == 0x1000_0000_0000_0000);
    assert(pow16(16) == 0x1_0000_0000_0000_0000);
}

/// An image layer's name is 51 characters long.
pub proof fn lemma_image_name_len(f: ImageFileName)
    ensures
        image_name_seq(f).len() == 51,
{
    lemma_hex_seq_len(f.key_range.start.0 as int, 16);
    lemma_hex_seq_len(f.key_range.end.0 as int, 16);
    lemma_hex_seq_len(f.lsn.0 as int, 16);
}

/// A delta layer's name is 68 characters long.
pub proof fn lemma_delta_name_len(f: DeltaFileName)
    ensures
        delta_name_seq(f).len() == 68,
{
    lemma_hex_seq_len(f.key_range.start.0 as int, 16);
    lemma_hex_seq_len(f.key_range.end.0 as int, 16);
    lemma_hex_seq_len(f.lsn_range.start.0 as int, 16);
    lemma_hex_seq_len(f.lsn_range.end.0 as int, 16);
}

/// Two image layer names that render equally name the same file.
pub proof fn lemma_image_name_injective(a: ImageFileName, b: ImageFileName)
    requires
        image_name_seq(a) == image_name_seq(b),
    ensures
        a == b,
{
    lemma_pow16_16();
    lemma_hex_seq_len(a.key_range.start.0 as int, 16);
    lemma_hex_seq_len(a.key_range.end.0 as int, 16);
    lemma_hex_seq_len(a.lsn.0 as int, 16);
    lemma_hex_seq_len(b.key_range.start.0 as int, 16);
    lemma_hex_seq_len(b.key_range.end.0 as int, 16);
    lemma_hex_seq_len(b.lsn.0 as int, 16);
    let sa = image_name_seq(a);
    let sb = image_name_seq(b);
    assert(sa.subrange(0, 16) =~= hex_seq(a.key_range.start.0 as int, 16));
    assert(sb.subrange(0, 16) =~= hex_seq(b.key_range.start.0 as int, 16));
    lemma_hex_seq_injective(a.key_range.start.0 as int, b.key_range.start.0 as int, 16);
    assert(sa.subrange(17, 33) =~= hex_seq(a.key_range.end.0 as int, 16));
    assert(sb.subrange(17, 33) =~= hex_seq(b.key_range.end.0 as int, 16));
    lemma_hex_seq_injective(a.key_range.end.0 as int, b.key_range.end.0 as int, 16);
    assert(sa.subrange(35, 51) =~= hex_seq(a.lsn.0 as int, 16));
    assert(sb.subrange(35, 51) =~= hex_seq(b.lsn.0 as int, 16));
    lemma_hex_seq_injective(a.lsn.0 as int, b.lsn.0 as int, 16);
}

/// Two delta layer names that render equally name the same file.
pub proof fn lemma_delta_name_injective(a: DeltaFileName, b: DeltaFileName)
    requires
        delta_name_seq(a) == delta_name_seq(b),
    ensures
        a == b,
{
    lemma_pow16_16();
    lemma_hex_seq_len(a.key_range.start.0 as int, 16);
    lemma_hex_seq_len(a.key_range.end.0 as int, 16);
    lemma_hex_seq_len(a.lsn_range.start.0 as int, 16);
    lemma_hex_seq_len(a.lsn_range.end.0 as int, 16);
    lemma_hex_seq_len(b.key_range.start.0 as int, 16);
    lemma_hex_seq_len(b.key_range.end.0 as int, 16);
    lemma_hex_seq_len(b.lsn_range.start.0 as int, 16);
    lemma_hex_seq_len(b.lsn_range.end.0 as int, 16);
    let sa = delta_name_seq(a);
    let sb = delta_name_seq(b);
    assert(sa.subrange(0, 16) =~= hex_seq(a.key_range.start.0 as int, 16));
    assert(sb.subrange(0, 16) =~= hex_seq(b.key_range.start.0 as int, 16));
    lemma_hex_seq_injective(a.key_range.start.0 as int, b.key_range.start.0 as int, 16);
    assert(sa.subrange(17, 33) =~= hex_seq(a.key_range.end.0 as int, 16));
    assert(sb.subrange(17, 33) =~= hex_seq(b.key_range.end.0 as int, 16));
    lemma_hex_seq_injective(a.key_range.end.0 as int, b.key_range.end.0 as int, 16);
    assert(sa.subrange(35, 51) =~= hex_seq(a.lsn_range.start.0 as int, 16));
    assert(sb.subrange(35, 51) =~= hex_seq(b.lsn_range.start.0 as int, 16));
    lemma_hex_seq_injective(a.lsn_range.start.0 as int, b.lsn_range.start.0 as int, 16);
    assert(sa.subrange(52, 68) =~= hex_seq(a.lsn_range.end.0 as int, 16));
    assert(sb.subrange(52, 68) =~= hex_seq(b.lsn_range.end.0 as int, 16));
    lemma_hex_seq_injective(a.lsn_range.end.0 as int, b.lsn_range.end.0 as int, 16);
}

/// Canonical names are stable and collision-free: the name is a pure
/// function of (key range, LSN range, kind), and two layer files of any
/// kinds whose names render equally are the same file.  An image and a
/// delta layer can never share a name, since their names differ in
/// length.
pub proof fn lemma_file_name_injective(a: LayerFileName, b: LayerFileName)
    requires
        layer_name_seq(a) == layer_name_seq(b),
    ensures
        a == b,
{
    match (a, b) {
        (LayerFileName::Image(x), LayerFileName::Image(y)) => {
            lemma_image_name_injective(x, y);
        },
        (LayerFileName::Delta(x), LayerFileName::Delta(y)) => {
            lemma_delta_name_injective(x, y);
        },
        (LayerFileName::Image(x), LayerFileName::Delta(y)) => {
            lemma_image_name_len(x);
            lemma_delta_name_len(y);
        },
        (LayerFileName::Delta(x), LayerFileName::Image(y)) => {
            lemma_delta_name_len(x);
            lemma_image_name_len(y);
        },
    }
}

} // verus!
