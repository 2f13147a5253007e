use vstd::prelude::*;

use crate::win_ffi::HRESULT;

verus! {

/// The precision of the file times an archive format stores.
#[derive(Clone, Copy, Debug, PartialEq, Eq, Structural)]
pub enum NFileTimeType {
    KNotDefined,
    KWindows,
    KUnix,
    KDOS,
    K1ns,
}

impl NFileTimeType {
    /// The numeric value 7-Zip uses.
    pub open spec fn spec_value(self) -> u32 {
        match self {
            NFileTimeType::KNotDefined => 0xFFFF_FFFF,
            NFileTimeType::KWindows => 0,
            NFileTimeType::KUnix => 1,
            NFileTimeType::KDOS => 2,
            NFileTimeType::K1ns => 3,
        }
    }

    /// The numeric value 7-Zip uses.
    pub fn value(self) -> (r: u32)
        ensures
            r == self.spec_value(),
    {
        match self {
            NFileTimeType::KNotDefined => 0xFFFF_FFFF,
            NFileTimeType::KWindows => 0,
            NFileTimeType::KUnix => 1,
            NFileTimeType::KDOS => 2,
            NFileTimeType::K1ns => 3,
        }
    }
}

/// Bit positions and widths of the fields in an archive handler's time flags.
#[derive(Clone, Copy, Debug, PartialEq, Eq, Structural)]
pub enum NArcInfoTimeFlags {
    kTime_Prec_Mask_bit_index,
    kTime_Prec_Mask_num_bits,
    kTime_Prec_Default_bit_index,
    kTime_Prec_Default_num_bits,
}

impl NArcInfoTimeFlags {
    /// The numeric value 7-Zip uses.
    pub open spec fn spec_value(self) -> u32 {
        match self {
            NArcInfoTimeFlags::kTime_Prec_Mask_bit_index => 0,
            NArcInfoTimeFlags::kTime_Prec_Mask_num_bits => 26,
            NArcInfoTimeFlags::kTime_Prec_Default_bit_index => 27,
            NArcInfoTimeFlags::kTime_Prec_Default_num_bits => 5,
        }
    }

    /// The numeric value 7-Zip uses.
    pub fn value(self) -> (r: u32)
        ensures
            r == self.spec_value(),
    {
        match self {
            NArcInfoTimeFlags::kTime_Prec_Mask_bit_index => 0,
            NArcInfoTimeFlags::kTime_Prec_Mask_num_bits => 26,
            NArcInfoTimeFlags::kTime_Prec_Default_bit_index => 27,
            NArcInfoTimeFlags::kTime_Prec_Default_num_bits => 5,
        }
    }
}

/// Ids of the properties that describe an archive handler.
#[derive(Clone, Copy, Debug, PartialEq, Eq, Structural)]
pub enum NHandlerPropID {
    kName,
    kClassID,
    kExtension,
    kAddExtension,
    kUpdate,
    kKeepName,
    kSignature,
    kMultiSignature,
    kSignatureOffset,
    kAltStreams,
    kNtSecure,
    kFlags,
    kTimeFlags,
}

impl NHandlerPropID {
    /// The numeric value 7-Zip uses.
    pub open spec fn spec_value(self) -> u32 {
        match self {
            NHandlerPropID::kName => 0,
            NHandlerPropID::kClassID => 1,
            NHandlerPropID::kExtension => 2,
            NHandlerPropID::kAddExtension => 3,
            NHandlerPropID::kUpdate => 4,
            NHandlerPropID::kKeepName => 5,
            NHandlerPropID::kSignature => 6,
            NHandlerPropID::kMultiSignature => 7,
            NHandlerPropID::kSignatureOffset => 8,
            NHandlerPropID::kAltStreams => 9,
            NHandlerPropID::kNtSecure => 10,
            NHandlerPropID::kFlags => 11,
            NHandlerPropID::kTimeFlags => 12,
        }
    }

    /// The numeric value 7-Zip uses.
    pub fn value(self) -> (r: u32)
        ensures
            r == self.spec_value(),
    {
        match self {
            NHandlerPropID::kName => 0,
            NHandlerPropID::kClassID => 1,
            NHandlerPropID::kExtension => 2,
            NHandlerPropID::kAddExtension => 3,
            NHandlerPropID::kUpdate => 4,
            NHandlerPropID::kKeepName => 5,
            NHandlerPropID::kSignature => 6,
            NHandlerPropID::kMultiSignature => 7,
            NHandlerPropID::kSignatureOffset => 8,
            NHandlerPropID::kAltStreams => 9,
            NHandlerPropID::kNtSecure => 10,
            NHandlerPropID::kFlags => 11,
            NHandlerPropID::kTimeFlags => 12,
        }
    }
}

/// What an extraction callback is asked to do with an item.
#[derive(Clone, Copy, Debug, PartialEq, Eq, Structural)]
pub enum NAskMode {
    kExtract,
    kTest,
    kSkip,
    kReadExternal,
}

impl NAskMode {
    /// The numeric value 7-Zip uses.
    pub open spec fn spec_value(self) -> u32 {
        match self {
            NAskMode::kExtract => 0,
            NAskMode::kTest => 1,
            NAskMode::kSkip => 2,
            NAskMode::kReadExternal => 3,
        }
    }

    /// The numeric value 7-Zip uses.
    pub fn value(self) -> (r: u32)
        ensures
            r == self.spec_value(),
    {
        match self {
            NAskMode::kExtract => 0,
            NAskMode::kTest => 1,
            NAskMode::kSkip => 2,
            NAskMode::kReadExternal => 3,
        }
    }
}

/// The outcome of extracting one item.
#[derive(Clone, Copy, Debug, PartialEq, Eq, Structural)]
pub enum NOperationResult {
    kOK,
    kUnsupportedMethod,
    kDataError,
    kCRCError,
    kUnavailable,
    kUnexpectedEnd,
    kDataAfterEnd,
    kIsNotArc,
    kHeadersError,
    kWrongPassword,
}

impl NOperationResult {
    /// The numeric value 7-Zip uses.
    pub open spec fn spec_value(self) -> u32 {
        match self {
            NOperationResult::kOK => 0,
            NOperationResult::kUnsupportedMethod => 1,
            NOperationResult::kDataError => 2,
            NOperationResult::kCRCError => 3,
            NOperationResult::kUnavailable => 4,
            NOperationResult::kUnexpectedEnd => 5,
            NOperationResult::kDataAfterEnd => 6,
            NOperationResult::kIsNotArc => 7,
            NOperationResult::kHeadersError => 8,
            NOperationResult::kWrongPassword => 9,
        }
    }

    /// The numeric value 7-Zip uses.
    pub fn value(self) -> (r: u32)
        ensures
            r == self.spec_value(),
    {
        match self {
            NOperationResult::kOK => 0,
            NOperationResult::kUnsupportedMethod => 1,
            NOperationResult::kDataError => 2,
            NOperationResult::kCRCError => 3,
            NOperationResult::kUnavailable => 4,
            NOperationResult::kUnexpectedEnd => 5,
            NOperationResult::kDataAfterEnd => 6,
            NOperationResult::kIsNotArc => 7,
            NOperationResult::kHeadersError => 8,
            NOperationResult::kWrongPassword => 9,
        }
    }
}

/// What the index of a reported event refers to.
#[derive(Clone, Copy, Debug, PartialEq, Eq, Structural)]
pub enum NEventIndexType {
    kNoIndex,
    kInArcIndex,
    kBlockIndex,
    kOutArcIndex,
}

impl NEventIndexType {
    /// The numeric value 7-Zip uses.
    pub open spec fn spec_value(self) -> u32 {
        match self {
            NEventIndexType::kNoIndex => 0,
            NEventIndexType::kInArcIndex => 1,
            NEventIndexType::kBlockIndex => 2,
            NEventIndexType::kOutArcIndex => 3,
        }
    }

    /// The numeric value 7-Zip uses.
    pub fn value(self) -> (r: u32)
        ensures
            r == self.spec_value(),
    {
        match self {
            NEventIndexType::kNoIndex => 0,
            NEventIndexType::kInArcIndex => 1,
            NEventIndexType::kBlockIndex => 2,
            NEventIndexType::kOutArcIndex => 3,
        }
    }
}

/// The operation an update callback reports.
#[derive(Clone, Copy, Debug, PartialEq, Eq, Structural)]
pub enum NUpdateNotifyOp {
    kAdd,
    kUpdate,
    kAnalyze,
    kReplicate,
    kRepack,
    kSkip,
    kDelete,
    kHeader,
    kHashRead,
    kInFileChanged,
}

impl NUpdateNotifyOp {
    /// The numeric value 7-Zip uses.
    pub open spec fn spec_value(self) -> u32 {
        match self {
            NUpdateNotifyOp::kAdd => 0,
            NUpdateNotifyOp::kUpdate => 1,
            NUpdateNotifyOp::kAnalyze => 2,
            NUpdateNotifyOp::kReplicate => 3,
            NUpdateNotifyOp::kRepack => 4,
            NUpdateNotifyOp::kSkip => 5,
            NUpdateNotifyOp::kDelete => 6,
            NUpdateNotifyOp::kHeader => 7,
            NUpdateNotifyOp::kHashRead => 8,
            NUpdateNotifyOp::kInFileChanged => 9,
        }
    }

    /// The numeric value 7-Zip uses.
    pub fn value(self) -> (r: u32)
        ensures
            r == self.spec_value(),
    {
        match self {
            NUpdateNotifyOp::kAdd => 0,
            NUpdateNotifyOp::kUpdate => 1,
            NUpdateNotifyOp::kAnalyze => 2,
            NUpdateNotifyOp::kReplicate => 3,
            NUpdateNotifyOp::kRepack => 4,
            NUpdateNotifyOp::kSkip => 5,
            NUpdateNotifyOp::kDelete => 6,
            NUpdateNotifyOp::kHeader => 7,
            NUpdateNotifyOp::kHashRead => 8,
            NUpdateNotifyOp::kInFileChanged => 9,
        }
    }

    /// The value passed across the ABI for this id.
    pub fn get_abi(&self) -> (r: u32)
        ensures
            r == self.spec_value(),
    {
        self.value()
    }
}

/// Progress of opening an archive: files and bytes done and in total.
#[derive(Clone, Copy, Debug, PartialEq, Eq, Structural)]
pub struct OpenStatus {
    completed_bytes: u64,
    completed_files: u64,
    total_bytes: u64,
    total_files: u64,
}

impl OpenStatus {
    pub closed spec fn spec_completed_bytes(self) -> u64 {
        self.completed_bytes
    }

    pub closed spec fn spec_completed_files(self) -> u64 {
        self.completed_files
    }

    pub closed spec fn spec_total_bytes(self) -> u64 {
        self.total_bytes
    }

    pub closed spec fn spec_total_files(self) -> u64 {
        self.total_files
    }

    pub fn completed_bytes(&self) -> (r: u64)
        ensures
            r == self.spec_completed_bytes(),
    {
        self.completed_bytes
    }

    pub fn completed_files(&self) -> (r: u64)
        ensures
            r == self.spec_completed_files(),
    {
        self.completed_files
    }

    pub fn total_bytes(&self) -> (r: u64)
        ensures
            r == self.spec_total_bytes(),
    {
        self.total_bytes
    }

    pub fn total_files(&self) -> (r: u64)
        ensures
            r == self.spec_total_files(),
    {
        self.total_files
    }

    /// Records the totals that are reported (`None` stands for a count that
    /// was not passed) and keeps the others; always succeeds.
    pub fn SetTotal(&mut self, files: Option<u64>, bytes: Option<u64>) -> (r: HRESULT)
        ensures
            r == HRESULT(0),
            final(self).spec_total_files() == (match files {
                Some(f) => f,
                None => old(self).spec_total_files(),
            }),
            final(self).spec_total_bytes() == (match bytes {
                Some(b) => b,
                None => old(self).spec_total_bytes(),
            }),
            final(self).spec_completed_files() == old(self).spec_completed_files(),
            final(self).spec_completed_bytes() == old(self).spec_completed_bytes(),
    {
        if let Some(b) = bytes {
            self.total_bytes = b;
        }
        if let Some(f) = files {
            self.total_files = f;
        }
        HRESULT::S_OK()
    }

    /// Records the completion counts that are reported (`None` stands for a
    /// count that was not passed) and keeps the others; always succeeds.
    pub fn SetCompleted(&mut self, files: Option<u64>, bytes: Option<u64>) -> (r: HRESULT)
        ensures
            r == HRESULT(0),
            final(self).spec_completed_files() == (match files {
                Some(f) => f,
                None => old(self).spec_completed_files(),
            }),
            final(self).spec_completed_bytes() == (match bytes {
                Some(b) => b,
                None => old(self).spec_completed_bytes(),
            }),
            final(self).spec_total_files() == old(self).spec_total_files(),
            final(self).spec_total_bytes() == old(self).spec_total_bytes(),
    {
        if let Some(b) = bytes {
            self.completed_bytes = b;
        }
        if let Some(f) = files {
            self.completed_files = f;
        }
        HRESULT::S_OK()
    }
}

impl Default for OpenStatus {
    fn default() -> (r: OpenStatus)
        ensures
            r.spec_completed_bytes() == 0,
            r.spec_completed_files() == 0,
            r.spec_total_bytes() == 0,
            r.spec_total_files() == 0,
    {
        OpenStatus { completed_bytes: 0, completed_files: 0, total_bytes: 0, total_files: 0 }
    }
}

} // verus!
