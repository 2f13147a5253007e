use vstd::prelude::*;

verus! {

/// The coder methods of 7-Zip, identified by their method ids.
#[derive(Debug, Clone, Copy, PartialEq, Eq, Structural)]
pub enum Codecs {
    BCJ,
    BCJ2,
    PPC,
    IA64,
    ARM,
    ARMT,
    ARM64,
    RISCV,
    SPARC,
    BZip2,
    Copy,
    Delta,
    Deflate,
    Deflate64,
    LZMA,
    LZMA2,
    PPMD,
    Rar1,
    Rar2,
    Rar3,
    Rar5,
    Swap2,
    Swap4,
    Z7AES,
    AES256CBC,
}

/// Every codec, in declaration order.
pub open spec fn all_codecs() -> Seq<Codecs> {
    seq![Codecs::BCJ, Codecs::BCJ2, Codecs::PPC, Codecs::IA64, Codecs::ARM, Codecs::ARMT, Codecs::ARM64, Codecs::RISCV, Codecs::SPARC, Codecs::BZip2, Codecs::Copy, Codecs::Delta, Codecs::Deflate, Codecs::Deflate64, Codecs::LZMA, Codecs::LZMA2, Codecs::PPMD, Codecs::Rar1, Codecs::Rar2, Codecs::Rar3, Codecs::Rar5, Codecs::Swap2, Codecs::Swap4, Codecs::Z7AES, Codecs::AES256CBC]
}

impl Codecs {
    /// The method id.
    pub open spec fn spec_id(self) -> u64 {
        match self {
            Codecs::BCJ => 0x3030103,
            Codecs::BCJ2 => 0x303011B,
            Codecs::PPC => 0x3030205,
            Codecs::IA64 => 0x3030401,
            Codecs::ARM => 0x3030501,
            Codecs::ARMT => 0x3030701,
            Codecs::ARM64 => 0xA,
            Codecs::RISCV => 0xB,
            Codecs::SPARC => 0x3030805,
            Codecs::BZip2 => 0x40202,
            Codecs::Copy => 0,
            Codecs::Delta => 0x3,
            Codecs::Deflate => 0x40108,
            Codecs::Deflate64 => 0x40109,
            Codecs::LZMA => 0x30101,
            Codecs::LZMA2 => 0x21,
            Codecs::PPMD => 0x30401,
            Codecs::Rar1 => 0x40301,
            Codecs::Rar2 => 0x40302,
            Codecs::Rar3 => 0x40303,
            Codecs::Rar5 => 0x40305,
            Codecs::Swap2 => 0x20302,
            Codecs::Swap4 => 0x20304,
            Codecs::Z7AES => 0x6F10701,
            Codecs::AES256CBC => 0x6F00181,
        }
    }

    /// The method id.
    pub fn id(self) -> (r: u64)
        ensures
            r == self.spec_id(),
    {
        match self {
            Codecs::BCJ => 0x3030103,
            Codecs::BCJ2 => 0x303011B,
            Codecs::PPC => 0x3030205,
            Codecs::IA64 => 0x3030401,
            Codecs::ARM => 0x3030501,
            Codecs::ARMT => 0x3030701,
            Codecs::ARM64 => 0xA,
            Codecs::RISCV => 0xB,
            Codecs::SPARC => 0x3030805,
            Codecs::BZip2 => 0x40202,
            Codecs::Copy => 0,
            Codecs::Delta => 0x3,
            Codecs::Deflate => 0x40108,
            Codecs::Deflate64 => 0x40109,
            Codecs::LZMA => 0x30101,
            Codecs::LZMA2 => 0x21,
            Codecs::PPMD => 0x30401,
            Codecs::Rar1 => 0x40301,
            Codecs::Rar2 => 0x40302,
            Codecs::Rar3 => 0x40303,
            Codecs::Rar5 => 0x40305,
            Codecs::Swap2 => 0x20302,
            Codecs::Swap4 => 0x20304,
            Codecs::Z7AES => 0x6F10701,
            Codecs::AES256CBC => 0x6F00181,
        }
    }

    /// The codec with method id `v`, or `v` itself as the error when no
    /// codec has that id.
    pub fn try_from_primitive(v: u64) -> (r: Result<Codecs, u64>)
        ensures
            match r {
                Ok(c) => c.spec_id() == v,
                Err(e) => e == v && forall|c: Codecs| c.spec_id() != v,
            },
    {
        match v {
            0x3030103 => Ok(Codecs::BCJ),
            0x303011B => Ok(Codecs::BCJ2),
            0x3030205 => Ok(Codecs::PPC),
            0x3030401 => Ok(Codecs::IA64),
            0x3030501 => Ok(Codecs::ARM),
            0x3030701 => Ok(Codecs::ARMT),
            0xA => Ok(Codecs::ARM64),
            0xB => Ok(Codecs::RISCV),
            0x3030805 => Ok(Codecs::SPARC),
            0x40202 => Ok(Codecs::BZip2),
            0 => Ok(Codecs::Copy),
            0x3 => Ok(Codecs::Delta),
            0x40108 => Ok(Codecs::Deflate),
            0x40109 => Ok(Codecs::Deflate64),
            0x30101 => Ok(Codecs::LZMA),
            0x21 => Ok(Codecs::LZMA2),
            0x30401 => Ok(Codecs::PPMD),
            0x40301 => Ok(Codecs::Rar1),
            0x40302 => Ok(Codecs::Rar2),
            0x40303 => Ok(Codecs::Rar3),
            0x40305 => Ok(Codecs::Rar5),
            0x20302 => Ok(Codecs::Swap2),
            0x20304 => Ok(Codecs::Swap4),
            0x6F10701 => Ok(Codecs::Z7AES),
            0x6F00181 => Ok(Codecs::AES256CBC),
            _ => Err(v),
        }
    }

    /// Every codec, in declaration order.
    pub fn iter() -> (r: Vec<Codecs>)
        ensures
            r@ == all_codecs(),
    {
        let mut v: Vec<Codecs> = Vec::new();
        v.push(Codecs::BCJ);
        v.push(Codecs::BCJ2);
        v.push(Codecs::PPC);
        v.push(Codecs::IA64);
        v.push(Codecs::ARM);
        v.push(Codecs::ARMT);
        v.push(Codecs::ARM64);
        v.push(Codecs::RISCV);
        v.push(Codecs::SPARC);
        v.push(Codecs::BZip2);
        v.push(Codecs::Copy);
        v.push(Codecs::Delta);
        v.push(Codecs::Deflate);
        v.push(Codecs::Deflate64);
        v.push(Codecs::LZMA);
        v.push(Codecs::LZMA2);
        v.push(Codecs::PPMD);
        v.push(Codecs::Rar1);
        v.push(Codecs::Rar2);
        v.push(Codecs::Rar3);
        v.push(Codecs::Rar5);
        v.push(Codecs::Swap2);
        v.push(Codecs::Swap4);
        v.push(Codecs::Z7AES);
        v.push(Codecs::AES256CBC);
        assert(v@ =~= all_codecs());
        v
    }

    pub open spec fn spec_supports_encoder(self) -> bool {
        !(self is Rar1 || self is Rar2 || self is Rar3 || self is Rar5)
    }

    /// Whether 7-Zip ships an encoder for this codec (every codec has a
    /// decoder); only the RAR methods lack one.
    pub fn supports_encoder(self) -> (r: bool)
        ensures
            r == self.spec_supports_encoder(),
    {
        match self {
            Self::Rar1 | Self::Rar2 | Self::Rar3 | Self::Rar5 => false,
            _ => true,
        }
    }
}

/// Method ids are distinct: an id names at most one codec.
pub proof fn lemma_codec_ids_distinct(a: Codecs, b: Codecs)
    requires
        a.spec_id() == b.spec_id(),
    ensures
        a == b,
{
}

/// Every codec appears in `iter`'s list, and no codec appears twice.
pub proof fn lemma_all_codecs_listed(c: Codecs)
    ensures
        all_codecs().contains(c),
        forall|i: int, j: int|
            0 <= i < j < all_codecs().len() ==> all_codecs()[i] != all_codecs()[j],
{
    match c {
        Codecs::BCJ => assert(all_codecs()[0] == c),
        Codecs::BCJ2 => assert(all_codecs()[1] == c),
        Codecs::PPC => assert(all_codecs()[2] == c),
        Codecs::IA64 => assert(all_codecs()[3] == c),
        Codecs::ARM => assert(all_codecs()[4] == c),
        Codecs::ARMT => assert(all_codecs()[5] == c),
        Codecs::ARM64 => assert(all_codecs()[6] == c),
        Codecs::RISCV => assert(all_codecs()[7] == c),
        Codecs::SPARC => assert(all_codecs()[8] == c),
        Codecs::BZip2 => assert(all_codecs()[9] == c),
        Codecs::Copy => assert(all_codecs()[10] == c),
        Codecs::Delta => assert(all_codecs()[11] == c),
        Codecs::Deflate => assert(all_codecs()[12] == c),
        Codecs::Deflate64 => assert(all_codecs()[13] == c),
        Codecs::LZMA => assert(all_codecs()[14] == c),
        Codecs::LZMA2 => assert(all_codecs()[15] == c),
        Codecs::PPMD => assert(all_codecs()[16] == c),
        Codecs::Rar1 => assert(all_codecs()[17] == c),
        Codecs::Rar2 => assert(all_codecs()[18] == c),
        Codecs::Rar3 => assert(all_codecs()[19] == c),
        Codecs::Rar5 => assert(all_codecs()[20] == c),
        Codecs::Swap2 => assert(all_codecs()[21] == c),
        Codecs::Swap4 => assert(all_codecs()[22] == c),
        Codecs::Z7AES => assert(all_codecs()[23] == c),
        Codecs::AES256CBC => assert(all_codecs()[24] == c),
    }
}

/// The method ids are 7-Zip's fixed method numbers: Copy 0, Delta 3,
/// the branch filters 0x30301xx-0x30308xx and 0xA, 0xB, LZMA 0x30101,
/// LZMA2 0x21, PPMd 0x30401, Deflate 0x40108, Deflate64 0x40109, BZip2
/// 0x40202, the RAR methods 0x403xx, the byte swaps 0x2030x and the AES
/// ciphers 0x6F10701 and 0x6F00181.
pub proof fn lemma_codec_method_numbers()
    ensures
        Codecs::BCJ.spec_id() == 0x3030103,
        Codecs::BCJ2.spec_id() == 0x303011B,
        Codecs::PPC.spec_id() == 0x3030205,
        Codecs::IA64.spec_id() == 0x3030401,
        Codecs::ARM.spec_id() == 0x3030501,
        Codecs::ARMT.spec_id() == 0x3030701,
        Codecs::ARM64.spec_id() == 0xA,
        Codecs::RISCV.spec_id() == 0xB,
        Codecs::SPARC.spec_id() == 0x3030805,
        Codecs::BZip2.spec_id() == 0x40202,
        Codecs::Copy.spec_id() == 0,
        Codecs::Delta.spec_id() == 0x3,
        Codecs::Deflate.spec_id() == 0x40108,
        Codecs::Deflate64.spec_id() == 0x40109,
        Codecs::LZMA.spec_id() == 0x30101,
        Codecs::LZMA2.spec_id() == 0x21,
        Codecs::PPMD.spec_id() == 0x30401,
        Codecs::Rar1.spec_id() == 0x40301,
        Codecs::Rar2.spec_id() == 0x40302,
        Codecs::Rar3.spec_id() == 0x40303,
        Codecs::Rar5.spec_id() == 0x40305,
        Codecs::Swap2.spec_id() == 0x20302,
        Codecs::Swap4.spec_id() == 0x20304,
        Codecs::Z7AES.spec_id() == 0x6F10701,
        Codecs::AES256CBC.spec_id() == 0x6F00181,
{
}

} // verus!
