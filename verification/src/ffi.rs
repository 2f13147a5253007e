use vstd::prelude::*;
use vstd::string::StringExecFns;

verus! {

/// Identifier of an item property.
pub type PROPID = u32;

/// A UTF-16 code unit, the element of Windows wide strings.
pub type wchar = u16;

/// A COM interface or class identifier.
#[derive(Clone, Copy, Debug)]
pub struct GUID {
    pub data1: u32,
    pub data2: u16,
    pub data3: u16,
    pub data4: [u8; 8],
}

/// Whether `g` is the GUID `{data1-data2-data3-data4}`.
pub open spec fn guid_is(g: GUID, data1: u32, data2: u16, data3: u16, data4: Seq<u8>) -> bool {
    &&& g.data1 == data1
    &&& g.data2 == data2
    &&& g.data3 == data3
    &&& g.data4@ == data4
}

/// The class identifier `{23170F69-40C1-278A-1000-000110xx0000}` of the
/// archive handler with format id `xx`.
pub fn handler_clsid(id: u8) -> (r: GUID)
    ensures
        guid_is(r, 0x23170F69, 0x40C1, 0x278A, seq![0x10u8, 0x00, 0x00, 0x01, 0x10, id, 0x00, 0x00]),
{
    let r = GUID {
        data1: 0x23170F69,
        data2: 0x40C1,
        data3: 0x278A,
        data4: [0x10, 0x00, 0x00, 0x01, 0x10, id, 0x00, 0x00],
    };
    assert(r.data4@ =~= seq![0x10u8, 0x00, 0x00, 0x01, 0x10, id, 0x00, 0x00]);
    r
}

/// The interface groups of 7-Zip, whose interface identifiers have the
/// form `{23170F69-40C1-278A-0000-00yy00xx0000}` with group `yy`.
#[derive(Clone, Copy, Debug, PartialEq, Eq, Structural)]
pub enum Z7IGroups {
    IProgress,
    IFolderArchive,
    IStream,
    ICoder,
    IPassword,
    IArchive,
    IFolder,
    IFolderManager,
}

impl Z7IGroups {
    /// The group number `yy`.
    pub open spec fn spec_id(self) -> u8 {
        match self {
            Z7IGroups::IProgress => 0,
            Z7IGroups::IFolderArchive => 1,
            Z7IGroups::IStream => 3,
            Z7IGroups::ICoder => 4,
            Z7IGroups::IPassword => 5,
            Z7IGroups::IArchive => 6,
            Z7IGroups::IFolder => 8,
            Z7IGroups::IFolderManager => 9,
        }
    }

    /// The group number `yy`.
    pub fn id(self) -> (r: u8)
        ensures
            r == self.spec_id(),
    {
        match self {
            Z7IGroups::IProgress => 0,
            Z7IGroups::IFolderArchive => 1,
            Z7IGroups::IStream => 3,
            Z7IGroups::ICoder => 4,
            Z7IGroups::IPassword => 5,
            Z7IGroups::IArchive => 6,
            Z7IGroups::IFolder => 8,
            Z7IGroups::IFolderManager => 9,
        }
    }

    /// The identifier of interface `id_x` of this group.
    pub fn iface_iid(self, id_x: u8) -> (r: GUID)
        ensures
            guid_is(r, 0x23170F69, 0x40C1, 0x278A, seq![0x00u8, 0x00, 0x00, self.spec_id(), 0x00, id_x, 0x00, 0x00]),
    {
        let g = self.id();
        let r = GUID {
            data1: 0x23170F69,
            data2: 0x40C1,
            data3: 0x278A,
            data4: [0x00, 0x00, 0x00, g, 0x00, id_x, 0x00, 0x00],
        };
        assert(r.data4@ =~= seq![0x00u8, 0x00, 0x00, g, 0x00, id_x, 0x00, 0x00]);
        r
    }
}

/// The archive formats of 7-Zip, whose class identifiers have the form
/// `{23170F69-40C1-gggg-1000-000110xx0000}` with format id `xx`.
#[derive(Clone, Copy, Debug, PartialEq, Eq, Structural)]
pub enum Z7Formats {
    Zip,
    BZip2,
    Rar,
    Arj,
    Z,
    Lzh,
    Z7,
    Cab,
    Nsis,
    Lzma,
    Lzma86,
    Xz,
    Ppmd,
    Zstd,
    LVM,
    AVB,
    LP,
    Sparse,
    APFS,
    Vhdx,
    Base64,
    COFF,
    Ext,
    VMDK,
    VDI,
    Qcow,
    GPT,
    Rar5,
    IHex,
    Hxs,
    TE,
    UEFIc,
    UEFIs,
    SquashFS,
    CramFS,
    APM,
    Mslz,
    Flv,
    Swf,
    Swfc,
    Ntfs,
    Fat,
    Mbr,
    Vhd,
    Pe,
    Elf,
    MachO,
    Udf,
    Xar,
    Mub,
    Hfs,
    Dmg,
    Compound,
    Wim,
    Iso,
    Chm,
    Split,
    Rpm,
    Deb,
    Cpio,
    Tar,
    GZip,
}

impl Z7Formats {
    /// The format id `xx`.
    pub open spec fn spec_id(self) -> u8 {
        match self {
            Z7Formats::Zip => 0x01,
            Z7Formats::BZip2 => 0x02,
            Z7Formats::Rar => 0x03,
            Z7Formats::Arj => 0x04,
            Z7Formats::Z => 0x05,
            Z7Formats::Lzh => 0x06,
            Z7Formats::Z7 => 0x07,
            Z7Formats::Cab => 0x08,
            Z7Formats::Nsis => 0x09,
            Z7Formats::Lzma => 0x0A,
            Z7Formats::Lzma86 => 0x0B,
            Z7Formats::Xz => 0x0C,
            Z7Formats::Ppmd => 0x0D,
            Z7Formats::Zstd => 0x0E,
            Z7Formats::LVM => 0xBF,
            Z7Formats::AVB => 0xC0,
            Z7Formats::LP => 0xC1,
            Z7Formats::Sparse => 0xC2,
            Z7Formats::APFS => 0xC3,
            Z7Formats::Vhdx => 0xC4,
            Z7Formats::Base64 => 0xC5,
            Z7Formats::COFF => 0xC6,
            Z7Formats::Ext => 0xC7,
            Z7Formats::VMDK => 0xC8,
            Z7Formats::VDI => 0xC9,
            Z7Formats::Qcow => 0xCA,
            Z7Formats::GPT => 0xCB,
            Z7Formats::Rar5 => 0xCC,
            Z7Formats::IHex => 0xCD,
            Z7Formats::Hxs => 0xCE,
            Z7Formats::TE => 0xCF,
            Z7Formats::UEFIc => 0xD0,
            Z7Formats::UEFIs => 0xD1,
            Z7Formats::SquashFS => 0xD2,
            Z7Formats::CramFS => 0xD3,
            Z7Formats::APM => 0xD4,
            Z7Formats::Mslz => 0xD5,
            Z7Formats::Flv => 0xD6,
            Z7Formats::Swf => 0xD7,
            Z7Formats::Swfc => 0xD8,
            Z7Formats::Ntfs => 0xD9,
            Z7Formats::Fat => 0xDA,
            Z7Formats::Mbr => 0xDB,
            Z7Formats::Vhd => 0xDC,
            Z7Formats::Pe => 0xDD,
            Z7Formats::Elf => 0xDE,
            Z7Formats::MachO => 0xDF,
            Z7Formats::Udf => 0xE0,
            Z7Formats::Xar => 0xE1,
            Z7Formats::Mub => 0xE2,
            Z7Formats::Hfs => 0xE3,
            Z7Formats::Dmg => 0xE4,
            Z7Formats::Compound => 0xE5,
            Z7Formats::Wim => 0xE6,
            Z7Formats::Iso => 0xE7,
            Z7Formats::Chm => 0xE9,
            Z7Formats::Split => 0xEA,
            Z7Formats::Rpm => 0xEB,
            Z7Formats::Deb => 0xEC,
            Z7Formats::Cpio => 0xED,
            Z7Formats::Tar => 0xEE,
            Z7Formats::GZip => 0xEF,
        }
    }

    /// The format id `xx`.
    pub fn id(self) -> (r: u8)
        ensures
            r == self.spec_id(),
    {
        match self {
            Z7Formats::Zip => 0x01,
            Z7Formats::BZip2 => 0x02,
            Z7Formats::Rar => 0x03,
            Z7Formats::Arj => 0x04,
            Z7Formats::Z => 0x05,
            Z7Formats::Lzh => 0x06,
            Z7Formats::Z7 => 0x07,
            Z7Formats::Cab => 0x08,
            Z7Formats::Nsis => 0x09,
            Z7Formats::Lzma => 0x0A,
            Z7Formats::Lzma86 => 0x0B,
            Z7Formats::Xz => 0x0C,
            Z7Formats::Ppmd => 0x0D,
            Z7Formats::Zstd => 0x0E,
            Z7Formats::LVM => 0xBF,
            Z7Formats::AVB => 0xC0,
            Z7Formats::LP => 0xC1,
            Z7Formats::Sparse => 0xC2,
            Z7Formats::APFS => 0xC3,
            Z7Formats::Vhdx => 0xC4,
            Z7Formats::Base64 => 0xC5,
            Z7Formats::COFF => 0xC6,
            Z7Formats::Ext => 0xC7,
            Z7Formats::VMDK => 0xC8,
            Z7Formats::VDI => 0xC9,
            Z7Formats::Qcow => 0xCA,
            Z7Formats::GPT => 0xCB,
            Z7Formats::Rar5 => 0xCC,
            Z7Formats::IHex => 0xCD,
            Z7Formats::Hxs => 0xCE,
            Z7Formats::TE => 0xCF,
            Z7Formats::UEFIc => 0xD0,
            Z7Formats::UEFIs => 0xD1,
            Z7Formats::SquashFS => 0xD2,
            Z7Formats::CramFS => 0xD3,
            Z7Formats::APM => 0xD4,
            Z7Formats::Mslz => 0xD5,
            Z7Formats::Flv => 0xD6,
            Z7Formats::Swf => 0xD7,
            Z7Formats::Swfc => 0xD8,
            Z7Formats::Ntfs => 0xD9,
            Z7Formats::Fat => 0xDA,
            Z7Formats::Mbr => 0xDB,
            Z7Formats::Vhd => 0xDC,
            Z7Formats::Pe => 0xDD,
            Z7Formats::Elf => 0xDE,
            Z7Formats::MachO => 0xDF,
            Z7Formats::Udf => 0xE0,
            Z7Formats::Xar => 0xE1,
            Z7Formats::Mub => 0xE2,
            Z7Formats::Hfs => 0xE3,
            Z7Formats::Dmg => 0xE4,
            Z7Formats::Compound => 0xE5,
            Z7Formats::Wim => 0xE6,
            Z7Formats::Iso => 0xE7,
            Z7Formats::Chm => 0xE9,
            Z7Formats::Split => 0xEA,
            Z7Formats::Rpm => 0xEB,
            Z7Formats::Deb => 0xEC,
            Z7Formats::Cpio => 0xED,
            Z7Formats::Tar => 0xEE,
            Z7Formats::GZip => 0xEF,
        }
    }

    fn format_clsid(group: u16, id: u8) -> (r: GUID)
        ensures
            guid_is(r, 0x23170F69, 0x40C1, group, seq![0x10u8, 0x00, 0x00, 0x01, 0x10, id, 0x00, 0x00]),
    {
        let r = GUID {
            data1: 0x23170F69,
            data2: 0x40C1,
            data3: group,
            data4: [0x10, 0x00, 0x00, 0x01, 0x10, id, 0x00, 0x00],
        };
        assert(r.data4@ =~= seq![0x10u8, 0x00, 0x00, 0x01, 0x10, id, 0x00, 0x00]);
        r
    }

    /// Class identifier of the archive handler for this format.
    pub fn handler_clsid(self) -> (r: GUID)
        ensures
            guid_is(r, 0x23170F69, 0x40C1, 0x278A, seq![0x10u8, 0x00, 0x00, 0x01, 0x10, self.spec_id(), 0x00, 0x00]),
    {
        Self::format_clsid(0x278A, self.id())
    }

    /// Class identifier of the decoder for this format.
    pub fn decoder_clsid(self) -> (r: GUID)
        ensures
            guid_is(r, 0x23170F69, 0x40C1, 0x2790, seq![0x10u8, 0x00, 0x00, 0x01, 0x10, self.spec_id(), 0x00, 0x00]),
    {
        Self::format_clsid(0x2790, self.id())
    }

    /// Class identifier of the encoder for this format.
    pub fn encoder_clsid(self) -> (r: GUID)
        ensures
            guid_is(r, 0x23170F69, 0x40C1, 0x2791, seq![0x10u8, 0x00, 0x00, 0x01, 0x10, self.spec_id(), 0x00, 0x00]),
    {
        Self::format_clsid(0x2791, self.id())
    }

    /// Class identifier of the hasher for this format.
    pub fn hasher_clsid(self) -> (r: GUID)
        ensures
            guid_is(r, 0x23170F69, 0x40C1, 0x2792, seq![0x10u8, 0x00, 0x00, 0x01, 0x10, self.spec_id(), 0x00, 0x00]),
    {
        Self::format_clsid(0x2792, self.id())
    }
}

/// Different formats have different format ids, so their handler (and
/// coder and hasher) class identifiers differ.
pub proof fn lemma_format_ids_distinct(f1: Z7Formats, f2: Z7Formats)
    requires
        f1 != f2,
    ensures
        f1.spec_id() != f2.spec_id(),
{
}

/// Different interface groups have different group numbers, so the
/// identifiers of their interfaces differ.
pub proof fn lemma_group_ids_distinct(g1: Z7IGroups, g2: Z7IGroups)
    requires
        g1 != g2,
    ensures
        g1.spec_id() != g2.spec_id(),
{
}

/// The paths where package managers install the 7-Zip shared library on
/// Linux (Arch and Fedora `7zip`, Debian and Ubuntu `p7zip-full`), in the
/// order they are tried.
pub fn linux_library_candidates() -> (r: Vec<String>)
    ensures
        r@.len() == 3,
        r@[0]@ == "/usr/lib/7zip/7z.so"@,
        r@[1]@ == "/usr/libexec/7zip/7z.so"@,
        r@[2]@ == "/usr/lib/p7zip/7z.so"@,
{
    let mut v: Vec<String> = Vec::new();
    v.push(String::from_str("/usr/lib/7zip/7z.so"));
    v.push(String::from_str("/usr/libexec/7zip/7z.so"));
    v.push(String::from_str("/usr/lib/p7zip/7z.so"));
    v
}

/// The path where Homebrew's `sevenzip` installs the 7-Zip shared library
/// on macOS.
pub fn macos_library_candidates() -> (r: Vec<String>)
    ensures
        r@.len() == 1,
        r@[0]@ == "/usr/local/lib/7z.so"@,
{
    let mut v: Vec<String> = Vec::new();
    v.push(String::from_str("/usr/local/lib/7z.so"));
    v
}

/// The message given on Linux when no candidate exists.
pub fn linux_not_found_message() -> (r: String)
    ensures
        r@ == "could not find 7z.so, please install 7zip or p7zip via your package manager e.g.:\n- sudo apt install p7zip-full\n- sudo dnf install 7zip\n- sudo pacman -S 7zip"@,
{
    String::from_str("could not find 7z.so, please install 7zip or p7zip via your package manager e.g.:\n- sudo apt install p7zip-full\n- sudo dnf install 7zip\n- sudo pacman -S 7zip")
}

/// The message given on macOS when no candidate exists.
pub fn macos_not_found_message() -> (r: String)
    ensures
        r@ == "could not find 7z.so, please install 7zip:\n- brew install sevenzip"@,
{
    String::from_str("could not find 7z.so, please install 7zip:\n- brew install sevenzip")
}

/// The first candidate that is present (`present[i]` tells whether
/// candidate `i` exists), if any.
pub fn select_library(present: &Vec<bool>) -> (r: Option<usize>)
    ensures
        match r {
            Some(i) => i < present@.len() && present@[i as int] && forall|j: int|
                0 <= j < i ==> !#[trigger] present@[j],
            None => forall|j: int| 0 <= j < present@.len() ==> !#[trigger] present@[j],
        },
{
    let mut i: usize = 0;
    while i < present.len()
        invariant
            i <= present@.len(),
            forall|j: int| 0 <= j < i ==> !#[trigger] present@[j],
        decreases present@.len() - i,
    {
        if present[i] {
            return Some(i);
        }
        i = i + 1;
    }
    None
}

/// The format ids are 7-Zip's fixed format numbers (Zip 0x01, BZip2 0x02,
/// ..., 7z 0x07, ..., Tar 0xEE, GZip 0xEF), the byte `xx` of the class
/// identifiers `{23170F69-40C1-gggg-1000-000110xx0000}`.
pub proof fn lemma_format_numbers()
    ensures
        Z7Formats::Zip.spec_id() == 0x01,
        Z7Formats::BZip2.spec_id() == 0x02,
        Z7Formats::Rar.spec_id() == 0x03,
        Z7Formats::Arj.spec_id() == 0x04,
        Z7Formats::Z.spec_id() == 0x05,
        Z7Formats::Lzh.spec_id() == 0x06,
        Z7Formats::Z7.spec_id() == 0x07,
        Z7Formats::Cab.spec_id() == 0x08,
        Z7Formats::Nsis.spec_id() == 0x09,
        Z7Formats::Lzma.spec_id() == 0x0A,
        Z7Formats::Lzma86.spec_id() == 0x0B,
        Z7Formats::Xz.spec_id() == 0x0C,
        Z7Formats::Ppmd.spec_id() == 0x0D,
        Z7Formats::Zstd.spec_id() == 0x0E,
        Z7Formats::LVM.spec_id() == 0xBF,
        Z7Formats::AVB.spec_id() == 0xC0,
        Z7Formats::LP.spec_id() == 0xC1,
        Z7Formats::Sparse.spec_id() == 0xC2,
        Z7Formats::APFS.spec_id() == 0xC3,
        Z7Formats::Vhdx.spec_id() == 0xC4,
        Z7Formats::Base64.spec_id() == 0xC5,
        Z7Formats::COFF.spec_id() == 0xC6,
        Z7Formats::Ext.spec_id() == 0xC7,
        Z7Formats::VMDK.spec_id() == 0xC8,
        Z7Formats::VDI.spec_id() == 0xC9,
        Z7Formats::Qcow.spec_id() == 0xCA,
        Z7Formats::GPT.spec_id() == 0xCB,
        Z7Formats::Rar5.spec_id() == 0xCC,
        Z7Formats::IHex.spec_id() == 0xCD,
        Z7Formats::Hxs.spec_id() == 0xCE,
        Z7Formats::TE.spec_id() == 0xCF,
        Z7Formats::UEFIc.spec_id() == 0xD0,
        Z7Formats::UEFIs.spec_id() == 0xD1,
        Z7Formats::SquashFS.spec_id() == 0xD2,
        Z7Formats::CramFS.spec_id() == 0xD3,
        Z7Formats::APM.spec_id() == 0xD4,
        Z7Formats::Mslz.spec_id() == 0xD5,
        Z7Formats::Flv.spec_id() == 0xD6,
        Z7Formats::Swf.spec_id() == 0xD7,
        Z7Formats::Swfc.spec_id() == 0xD8,
        Z7Formats::Ntfs.spec_id() == 0xD9,
        Z7Formats::Fat.spec_id() == 0xDA,
        Z7Formats::Mbr.spec_id() == 0xDB,
        Z7Formats::Vhd.spec_id() == 0xDC,
        Z7Formats::Pe.spec_id() == 0xDD,
        Z7Formats::Elf.spec_id() == 0xDE,
        Z7Formats::MachO.spec_id() == 0xDF,
        Z7Formats::Udf.spec_id() == 0xE0,
        Z7Formats::Xar.spec_id() == 0xE1,
        Z7Formats::Mub.spec_id() == 0xE2,
        Z7Formats::Hfs.spec_id() == 0xE3,
        Z7Formats::Dmg.spec_id() == 0xE4,
        Z7Formats::Compound.spec_id() == 0xE5,
        Z7Formats::Wim.spec_id() == 0xE6,
        Z7Formats::Iso.spec_id() == 0xE7,
        Z7Formats::Chm.spec_id() == 0xE9,
        Z7Formats::Split.spec_id() == 0xEA,
        Z7Formats::Rpm.spec_id() == 0xEB,
        Z7Formats::Deb.spec_id() == 0xEC,
        Z7Formats::Cpio.spec_id() == 0xED,
        Z7Formats::Tar.spec_id() == 0xEE,
        Z7Formats::GZip.spec_id() == 0xEF,
{
}

/// The interface group numbers are 7-Zip's fixed values: IProgress 0,
/// IFolderArchive 1, IStream 3, ICoder 4, IPassword 5, IArchive 6, IFolder 8
/// and IFolderManager 9, the byte `yy` of the interface identifiers
/// `{23170F69-40C1-278A-0000-00yy00xx0000}`.
pub proof fn lemma_group_numbers()
    ensures
        Z7IGroups::IProgress.spec_id() == 0,
        Z7IGroups::IFolderArchive.spec_id() == 1,
        Z7IGroups::IStream.spec_id() == 3,
        Z7IGroups::ICoder.spec_id() == 4,
        Z7IGroups::IPassword.spec_id() == 5,
        Z7IGroups::IArchive.spec_id() == 6,
        Z7IGroups::IFolder.spec_id() == 8,
        Z7IGroups::IFolderManager.spec_id() == 9,
{
}

} // verus!
