//! A 64-bit capability bitmask advertised by peers, with named bits and a
//! deterministic human-readable rendering.

use vstd::prelude::*;

verus! {

/// A 64-bit service capability bitmask. The mask is an opaque 64-bit
/// integer; the named bits below are a presentation and query layer only.
#[derive(Clone, Copy, Debug)]
pub struct ServiceFlag(pub u64);

/// This node can serve the full block chain.
pub const SF_NODE_NETWORK: u64 = 1;

/// This node can respond to the getutxo request.
pub const SF_NODE_GET_UTXO: u64 = 2;

/// This node supports bloom filtering.
pub const SF_NODE_BLOOM: u64 = 4;

/// This node supports segregated witness blocks and transactions.
pub const SF_NODE_WITNESS: u64 = 8;

/// This node supports xthin blocks.
pub const SF_NODE_XTHIN: u64 = 16;

/// This node supports a service defined by bit 5.
pub const SF_NODE_BIT5: u64 = 32;

/// This node supports committed filters.
pub const SF_NODE_CF: u64 = 64;

/// This node supports the SegWit2X hardfork.
pub const SF_NODE_2X: u64 = 128;

/// This node serves only the last blocks of the chain.
pub const SF_NODE_NETWORK_LIMITED: u64 = 1024;

/// The number of named service bits, iterated in declaration order by
/// [`ServiceFlag::render`].
pub const SF_FLAG_COUNT: usize = 9;

/// The bit pattern of the named flag at position `i` of the declared order.
pub open spec fn spec_sf_flag(i: int) -> u64 {
    if i == 0 {
        SF_NODE_NETWORK
    } else if i == 1 {
        SF_NODE_GET_UTXO
    } else if i == 2 {
        SF_NODE_BLOOM
    } else if i == 3 {
        SF_NODE_WITNESS
    } else if i == 4 {
        SF_NODE_XTHIN
    } else if i == 5 {
        SF_NODE_BIT5
    } else if i == 6 {
        SF_NODE_CF
    } else if i == 7 {
        SF_NODE_2X
    } else {
        SF_NODE_NETWORK_LIMITED
    }
}

/// The rendered name of the named flag at position `i` of the declared order.
pub open spec fn spec_sf_name(i: int) -> Seq<char> {
    if i == 0 {
        "SFNodeNetwork"@
    } else if i == 1 {
        "SFNodeGetUTXO"@
    } else if i == 2 {
        "SFNodeBloom"@
    } else if i == 3 {
        "SFNodeWitness"@
    } else if i == 4 {
        "SFNodeXthin"@
    } else if i == 5 {
        "SFNodeBit5"@
    } else if i == 6 {
        "SFNodeCF"@
    } else if i == 7 {
        "SFNode2X"@
    } else {
        "SFNodeNetworkLimited"@
    }
}

/// The mask still unaccounted for after the named flags at positions below
/// `i` of the declared order have consumed their bits.
pub open spec fn spec_residual(mask: u64, i: int) -> u64
    decreases i,
{
    if i <= 0 {
        mask
    } else {
        let prev = spec_residual(mask, i - 1);
        let flag = spec_sf_flag(i - 1);
        if flag & prev == flag {
            (prev - flag) as u64
        } else {
            prev
        }
    }
}

/// The names of the flags at positions below `i` whose bits the mask covers,
/// in declared order, pipe-delimited.
pub open spec fn spec_names(mask: u64, i: int) -> Seq<char>
    decreases i,
{
    if i <= 0 {
        Seq::empty()
    } else {
        let prev = spec_names(mask, i - 1);
        let rem = spec_residual(mask, i - 1);
        let flag = spec_sf_flag(i - 1);
        if flag & rem == flag {
            if prev.len() == 0 {
                spec_sf_name(i - 1)
            } else {
                prev + "|"@ + spec_sf_name(i - 1)
            }
        } else {
            prev
        }
    }
}

/// The lowercase character of one hexadecimal digit.
pub open spec fn hex_digit(d: u64) -> Seq<char> {
    if d == 0 {
        "0"@
    } else if d == 1 {
        "1"@
    } else if d == 2 {
        "2"@
    } else if d == 3 {
        "3"@
    } else if d == 4 {
        "4"@
    } else if d == 5 {
        "5"@
    } else if d == 6 {
        "6"@
    } else if d == 7 {
        "7"@
    } else if d == 8 {
        "8"@
    } else if d == 9 {
        "9"@
    } else if d == 10 {
        "a"@
    } else if d == 11 {
        "b"@
    } else if d == 12 {
        "c"@
    } else if d == 13 {
        "d"@
    } else if d == 14 {
        "e"@
    } else {
        "f"@
    }
}

/// The lowercase hexadecimal digits of `v`, most significant first, with no
/// leading zeros.
pub open spec fn hex_chars(v: u64) -> Seq<char>
    decreases v,
{
    if v < 16 {
        hex_digit(v)
    } else {
        hex_chars(v / 16) + hex_digit(v % 16)
    }
}

/// The deterministic rendering of a mask: the covered flag names in declared
/// order, pipe-delimited; then, if bits remain, a lowercase hexadecimal
/// literal for them, delimited from any names; a zero mask renders as "0x0".
pub open spec fn render_spec(mask: u64) -> Seq<char> {
    if mask == 0 {
        "0x0"@
    } else {
        let names = spec_names(mask, SF_FLAG_COUNT as int);
        let residual = spec_residual(mask, SF_FLAG_COUNT as int);
        if residual == 0 {
            names
        } else if names.len() == 0 {
            "0x"@ + hex_chars(residual)
        } else {
            names + "|"@ + "0x"@ + hex_chars(residual)
        }
    }
}

/// No named flag renders as the empty string.
proof fn lemma_sf_names_nonempty()
    ensures
        forall|i: int| 0 <= i < SF_FLAG_COUNT ==> (#[trigger] spec_sf_name(i)).len() != 0,
{
    reveal_strlit("SFNodeNetwork");
    reveal_strlit("SFNodeGetUTXO");
    reveal_strlit("SFNodeBloom");
    reveal_strlit("SFNodeWitness");
    reveal_strlit("SFNodeXthin");
    reveal_strlit("SFNodeBit5");
    reveal_strlit("SFNodeCF");
    reveal_strlit("SFNode2X");
    reveal_strlit("SFNodeNetworkLimited");
}

fn sf_flag_value(i: usize) -> (r: u64)
    requires
        i < SF_FLAG_COUNT,
    ensures
        r == spec_sf_flag(i as int),
{
    if i == 0 {
        SF_NODE_NETWORK
    } else if i == 1 {
        SF_NODE_GET_UTXO
    } else if i == 2 {
        SF_NODE_BLOOM
    } else if i == 3 {
        SF_NODE_WITNESS
    } else if i == 4 {
        SF_NODE_XTHIN
    } else if i == 5 {
        SF_NODE_BIT5
    } else if i == 6 {
        SF_NODE_CF
    } else if i == 7 {
        SF_NODE_2X
    } else {
        SF_NODE_NETWORK_LIMITED
    }
}

fn sf_flag_name(i: usize) -> (r: &'static str)
    requires
        i < SF_FLAG_COUNT,
    ensures
        r@ == spec_sf_name(i as int),
{
    if i == 0 {
        "SFNodeNetwork"
    } else if i == 1 {
        "SFNodeGetUTXO"
    } else if i == 2 {
        "SFNodeBloom"
    } else if i == 3 {
        "SFNodeWitness"
    } else if i == 4 {
        "SFNodeXthin"
    } else if i == 5 {
        "SFNodeBit5"
    } else if i == 6 {
        "SFNodeCF"
    } else if i == 7 {
        "SFNode2X"
    } else {
        "SFNodeNetworkLimited"
    }
}

fn hex_digit_str(d: u64) -> (r: &'static str)
    requires
        d < 16,
    ensures
        r@ == hex_digit(d),
{
    if d == 0 {
        "0"
    } else if d == 1 {
        "1"
    } else if d == 2 {
        "2"
    } else if d == 3 {
        "3"
    } else if d == 4 {
        "4"
    } else if d == 5 {
        "5"
    } else if d == 6 {
        "6"
    } else if d == 7 {
        "7"
    } else if d == 8 {
        "8"
    } else if d == 9 {
        "9"
    } else if d == 10 {
        "a"
    } else if d == 11 {
        "b"
    } else if d == 12 {
        "c"
    } else if d == 13 {
        "d"
    } else if d == 14 {
        "e"
    } else {
        "f"
    }
}

fn push_hex(s: &mut String, v: u64)
    requires
        v > 0,
    ensures
        final(s)@ == old(s)@ + hex_chars(v),
    decreases v,
{
    if v >= 16 {
        push_hex(s, v / 16);
    }
    s.append(hex_digit_str(v % 16));
    assert(s@ =~= old(s)@ + hex_chars(v));
}

impl ServiceFlag {
    /// True iff every bit of `flag` is set in the mask.
    pub fn has_service(&self, flag: ServiceFlag) -> (r: bool)
        ensures
            r == (self.0 & flag.0 == flag.0),
    {
        self.0 & flag.0 == flag.0
    }

    /// OR the bits of `flag` into the mask; idempotent.
    pub fn add_service(&mut self, flag: ServiceFlag)
        ensures
            final(self).0 == old(self).0 | flag.0,
    {
        self.0 = self.0 | flag.0;
    }

    /// The raw 64-bit mask, as written on the wire.
    pub fn to_u64(&self) -> (r: u64)
        ensures
            r == self.0,
    {
        self.0
    }

    /// Renders the mask deterministically, per [`render_spec`]: named flags
    /// in declared order consume their bits; residual bits follow as a
    /// lowercase hexadecimal literal; a zero mask renders as "0x0".
    /// Rendering is total over all 64-bit masks.
    pub fn render(&self) -> (r: String)
        ensures
            r@ == render_spec(self.0),
    {
        let mask = self.0;
        if mask == 0 {
            return String::from_str("0x0");
        }
        let mut v: u64 = mask;
        let mut s = String::new();
        let mut any: bool = false;
        let mut i: usize = 0;
        while i < SF_FLAG_COUNT
            invariant
                i <= SF_FLAG_COUNT,
                v == spec_residual(mask, i as int),
                s@ == spec_names(mask, i as int),
                any == (spec_names(mask, i as int).len() != 0),
            decreases SF_FLAG_COUNT - i,
        {
            let flag = sf_flag_value(i);
            if flag & v == flag {
                proof {
                    lemma_sf_names_nonempty();
                    assert(flag <= v) by (bit_vector)
                        requires
                            flag & v == flag,
                    ;
                }
                if any {
                    s.append("|");
                }
                s.append(sf_flag_name(i));
                v = v - flag;
                any = true;
                assert(s@ =~= spec_names(mask, i as int + 1));
            }
            i = i + 1;
        }
        if v == 0 {
            s
        } else {
            if any {
                s.append("|");
            }
            s.append("0x");
            push_hex(&mut s, v);
            assert(s@ =~= render_spec(mask));
            s
        }
    }
}

} // verus!
