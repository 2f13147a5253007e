use vstd::prelude::*;

use crate::win_ffi::HRESULT;

verus! {

/// Ids of the coder properties that can be set on an encoder or decoder.
#[derive(Clone, Copy, Debug, PartialEq, Eq, Structural)]
pub enum CoderPropID {
    kDefaultProp,
    kDictionarySize,
    kUsedMemorySize,
    kOrder,
    kBlockSize,
    kPosStateBits,
    kLitContextBits,
    kLitPosBits,
    kNumFastBytes,
    kMatchFinder,
    kMatchFinderCycles,
    kNumPasses,
    kAlgorithm,
    kNumThreads,
    kEndMarker,
    kLevel,
    kReduceSize,
    kExpectedDataSize,
    kBlockSize2,
    kCheckSize,
    kFilter,
    kMemUse,
    kAffinity,
    kBranchOffset,
    kHashBits,
    kNumThreadGroups,
    kThreadGroup,
    kAffinityInGroup,
}

impl CoderPropID {
    /// The numeric value 7-Zip uses.
    pub open spec fn spec_value(self) -> u32 {
        match self {
            CoderPropID::kDefaultProp => 0,
            CoderPropID::kDictionarySize => 1,
            CoderPropID::kUsedMemorySize => 2,
            CoderPropID::kOrder => 3,
            CoderPropID::kBlockSize => 4,
            CoderPropID::kPosStateBits => 5,
            CoderPropID::kLitContextBits => 6,
            CoderPropID::kLitPosBits => 7,
            CoderPropID::kNumFastBytes => 8,
            CoderPropID::kMatchFinder => 9,
            CoderPropID::kMatchFinderCycles => 10,
            CoderPropID::kNumPasses => 11,
            CoderPropID::kAlgorithm => 12,
            CoderPropID::kNumThreads => 13,
            CoderPropID::kEndMarker => 14,
            CoderPropID::kLevel => 15,
            CoderPropID::kReduceSize => 16,
            CoderPropID::kExpectedDataSize => 17,
            CoderPropID::kBlockSize2 => 18,
            CoderPropID::kCheckSize => 19,
            CoderPropID::kFilter => 20,
            CoderPropID::kMemUse => 21,
            CoderPropID::kAffinity => 22,
            CoderPropID::kBranchOffset => 23,
            CoderPropID::kHashBits => 24,
            CoderPropID::kNumThreadGroups => 25,
            CoderPropID::kThreadGroup => 26,
            CoderPropID::kAffinityInGroup => 27,
        }
    }

    /// The numeric value 7-Zip uses.
    pub fn value(self) -> (r: u32)
        ensures
            r == self.spec_value(),
    {
        match self {
            CoderPropID::kDefaultProp => 0,
            CoderPropID::kDictionarySize => 1,
            CoderPropID::kUsedMemorySize => 2,
            CoderPropID::kOrder => 3,
            CoderPropID::kBlockSize => 4,
            CoderPropID::kPosStateBits => 5,
            CoderPropID::kLitContextBits => 6,
            CoderPropID::kLitPosBits => 7,
            CoderPropID::kNumFastBytes => 8,
            CoderPropID::kMatchFinder => 9,
            CoderPropID::kMatchFinderCycles => 10,
            CoderPropID::kNumPasses => 11,
            CoderPropID::kAlgorithm => 12,
            CoderPropID::kNumThreads => 13,
            CoderPropID::kEndMarker => 14,
            CoderPropID::kLevel => 15,
            CoderPropID::kReduceSize => 16,
            CoderPropID::kExpectedDataSize => 17,
            CoderPropID::kBlockSize2 => 18,
            CoderPropID::kCheckSize => 19,
            CoderPropID::kFilter => 20,
            CoderPropID::kMemUse => 21,
            CoderPropID::kAffinity => 22,
            CoderPropID::kBranchOffset => 23,
            CoderPropID::kHashBits => 24,
            CoderPropID::kNumThreadGroups => 25,
            CoderPropID::kThreadGroup => 26,
            CoderPropID::kAffinityInGroup => 27,
        }
    }

    /// The value passed across the ABI for this id.
    pub fn get_abi(&self) -> (r: u32)
        ensures
            r == self.spec_value(),
    {
        self.value()
    }
}

/// Ids of the properties that describe a codec method.
#[derive(Clone, Copy, Debug, PartialEq, Eq, Structural)]
pub enum MethodPropID {
    kID,
    kName,
    kDecoder,
    kEncoder,
    kPackStreams,
    kUnpackStreams,
    kDescription,
    kDecoderIsAssigned,
    kEncoderIsAssigned,
    kDigestSize,
    kIsFilter,
}

impl MethodPropID {
    /// The numeric value 7-Zip uses.
    pub open spec fn spec_value(self) -> u32 {
        match self {
            MethodPropID::kID => 0,
            MethodPropID::kName => 1,
            MethodPropID::kDecoder => 2,
            MethodPropID::kEncoder => 3,
            MethodPropID::kPackStreams => 4,
            MethodPropID::kUnpackStreams => 5,
            MethodPropID::kDescription => 6,
            MethodPropID::kDecoderIsAssigned => 7,
            MethodPropID::kEncoderIsAssigned => 8,
            MethodPropID::kDigestSize => 9,
            MethodPropID::kIsFilter => 10,
        }
    }

    /// The numeric value 7-Zip uses.
    pub fn value(self) -> (r: u32)
        ensures
            r == self.spec_value(),
    {
        match self {
            MethodPropID::kID => 0,
            MethodPropID::kName => 1,
            MethodPropID::kDecoder => 2,
            MethodPropID::kEncoder => 3,
            MethodPropID::kPackStreams => 4,
            MethodPropID::kUnpackStreams => 5,
            MethodPropID::kDescription => 6,
            MethodPropID::kDecoderIsAssigned => 7,
            MethodPropID::kEncoderIsAssigned => 8,
            MethodPropID::kDigestSize => 9,
            MethodPropID::kIsFilter => 10,
        }
    }

    /// The value passed across the ABI for this id.
    pub fn get_abi(&self) -> (r: u32)
        ensures
            r == self.spec_value(),
    {
        self.value()
    }
}

/// Ids of the properties that describe the 7-Zip module.
#[derive(Clone, Copy, Debug, PartialEq, Eq, Structural)]
pub enum ModulePropID {
    kInterfaceType,
    kVersion,
}

impl ModulePropID {
    /// The numeric value 7-Zip uses.
    pub open spec fn spec_value(self) -> u32 {
        match self {
            ModulePropID::kInterfaceType => 0,
            ModulePropID::kVersion => 1,
        }
    }

    /// The numeric value 7-Zip uses.
    pub fn value(self) -> (r: u32)
        ensures
            r == self.spec_value(),
    {
        match self {
            ModulePropID::kInterfaceType => 0,
            ModulePropID::kVersion => 1,
        }
    }
}

/// Another name for [`CoderPropID`].
pub type NCoderPropID = CoderPropID;

/// Another name for [`MethodPropID`].
pub type NMethodPropID = MethodPropID;

/// Another name for [`ModulePropID`].
pub type NModulePropID = ModulePropID;

/// Sizes reported by a coder: bytes read and bytes written.
#[derive(Clone, Copy, Debug, PartialEq, Eq, Structural)]
pub struct RatioInfo {
    pub in_size: u64,
    pub out_size: u64,
}

impl Default for RatioInfo {
    fn default() -> (r: RatioInfo)
        ensures
            r.in_size == 0,
            r.out_size == 0,
    {
        RatioInfo { in_size: 0, out_size: 0 }
    }
}

/// The state behind a coder progress callback: the last sizes reported.
pub struct CompressProgressInfo {
    pub ratio_info: RatioInfo,
}

impl CompressProgressInfo {
    pub fn new() -> (r: CompressProgressInfo)
        ensures
            r.ratio_info == (RatioInfo { in_size: 0, out_size: 0 }),
    {
        CompressProgressInfo { ratio_info: RatioInfo::default() }
    }

    /// Records the sizes a coder reports; always succeeds.
    pub fn SetRatioInfo(&mut self, in_size: u64, out_size: u64) -> (r: HRESULT)
        ensures
            r == HRESULT(0),
            final(self).ratio_info == (RatioInfo { in_size: in_size, out_size: out_size }),
    {
        self.ratio_info = RatioInfo { in_size: in_size, out_size: out_size };
        HRESULT::S_OK()
    }
}

} // verus!
