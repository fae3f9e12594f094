//! Interface matching for the optical disc imaging interfaces: for each
//! interface, whether an identifier names it or an interface that it
//! derives from.

use crate::com::GUID;
use vstd::prelude::*;

verus! {

/// The identifiers of the imaging interfaces and of the interfaces that they
/// derive from, as the binding layer knows them.
#[allow(non_snake_case)]
#[derive(Debug, Clone, Copy)]
pub struct ImapiIds {
    pub IDispatch: GUID,
    pub ISequentialStream: GUID,
    pub IStream: GUID,
    pub DDiscFormat2DataEvents: GUID,
    pub DDiscFormat2EraseEvents: GUID,
    pub DDiscFormat2RawCDEvents: GUID,
    pub DDiscFormat2TrackAtOnceEvents: GUID,
    pub DDiscMaster2Events: GUID,
    pub DFileSystemImageEvents: GUID,
    pub DFileSystemImageImportEvents: GUID,
    pub DWriteEngine2Events: GUID,
    pub IBlockRange: GUID,
    pub IBlockRangeList: GUID,
    pub IBootOptions: GUID,
    pub IBurnVerification: GUID,
    pub IDiscFormat2: GUID,
    pub IDiscFormat2Data: GUID,
    pub IDiscFormat2DataEventArgs: GUID,
    pub IDiscFormat2Erase: GUID,
    pub IDiscFormat2RawCD: GUID,
    pub IDiscFormat2RawCDEventArgs: GUID,
    pub IDiscFormat2TrackAtOnce: GUID,
    pub IDiscFormat2TrackAtOnceEventArgs: GUID,
    pub IDiscMaster: GUID,
    pub IDiscMaster2: GUID,
    pub IDiscMasterProgressEvents: GUID,
    pub IDiscRecorder: GUID,
    pub IDiscRecorder2: GUID,
    pub IDiscRecorder2Ex: GUID,
    pub IEnumDiscMasterFormats: GUID,
    pub IEnumDiscRecorders: GUID,
    pub IEnumFsiItems: GUID,
    pub IEnumProgressItems: GUID,
    pub IFileSystemImage: GUID,
    pub IFileSystemImage2: GUID,
    pub IFileSystemImage3: GUID,
    pub IFileSystemImageResult: GUID,
    pub IFileSystemImageResult2: GUID,
    pub IFsiDirectoryItem: GUID,
    pub IFsiDirectoryItem2: GUID,
    pub IFsiFileItem: GUID,
    pub IFsiFileItem2: GUID,
    pub IFsiItem: GUID,
    pub IFsiNamedStreams: GUID,
    pub IIsoImageManager: GUID,
    pub IJolietDiscMaster: GUID,
    pub IMultisession: GUID,
    pub IMultisessionRandomWrite: GUID,
    pub IMultisessionSequential: GUID,
    pub IMultisessionSequential2: GUID,
    pub IProgressItem: GUID,
    pub IProgressItems: GUID,
    pub IRawCDImageCreator: GUID,
    pub IRawCDImageTrackInfo: GUID,
    pub IRedbookDiscMaster: GUID,
    pub IStreamConcatenate: GUID,
    pub IStreamInterleave: GUID,
    pub IStreamPseudoRandomBased: GUID,
    pub IWriteEngine2: GUID,
    pub IWriteEngine2EventArgs: GUID,
    pub IWriteSpeedDescriptor: GUID,
}

/// The method table of `DDiscFormat2DataEvents`.
#[allow(non_camel_case_types)]
pub struct DDiscFormat2DataEvents_Vtbl;

impl DDiscFormat2DataEvents_Vtbl {
    /// Whether `iid` names `DDiscFormat2DataEvents` or one of the interfaces that it derives
    /// from: `IDispatch`.
    pub fn matches(iid: &GUID, ids: &ImapiIds) -> (found: bool)
        ensures
            found == (iid.same(&ids.DDiscFormat2DataEvents)
                || iid.same(&ids.IDispatch)),
    {
        *iid == ids.DDiscFormat2DataEvents || *iid == ids.IDispatch
    }
}

/// The method table of `DDiscFormat2EraseEvents`.
#[allow(non_camel_case_types)]
pub struct DDiscFormat2EraseEvents_Vtbl;

impl DDiscFormat2EraseEvents_Vtbl {
    /// Whether `iid` names `DDiscFormat2EraseEvents` or one of the interfaces that it derives
    /// from: `IDispatch`.
    pub fn matches(iid: &GUID, ids: &ImapiIds) -> (found: bool)
        ensures
            found == (iid.same(&ids.DDiscFormat2EraseEvents)
                || iid.same(&ids.IDispatch)),
    {
        *iid == ids.DDiscFormat2EraseEvents || *iid == ids.IDispatch
    }
}

/// The method table of `DDiscFormat2RawCDEvents`.
#[allow(non_camel_case_types)]
pub struct DDiscFormat2RawCDEvents_Vtbl;

impl DDiscFormat2RawCDEvents_Vtbl {
    /// Whether `iid` names `DDiscFormat2RawCDEvents` or one of the interfaces that it derives
    /// from: `IDispatch`.
    pub fn matches(iid: &GUID, ids: &ImapiIds) -> (found: bool)
        ensures
            found == (iid.same(&ids.DDiscFormat2RawCDEvents)
                || iid.same(&ids.IDispatch)),
    {
        *iid == ids.DDiscFormat2RawCDEvents || *iid == ids.IDispatch
    }
}

/// The method table of `DDiscFormat2TrackAtOnceEvents`.
#[allow(non_camel_case_types)]
pub struct DDiscFormat2TrackAtOnceEvents_Vtbl;

impl DDiscFormat2TrackAtOnceEvents_Vtbl {
    /// Whether `iid` names `DDiscFormat2TrackAtOnceEvents` or one of the interfaces that it derives
    /// from: `IDispatch`.
    pub fn matches(iid: &GUID, ids: &ImapiIds) -> (found: bool)
        ensures
            found == (iid.same(&ids.DDiscFormat2TrackAtOnceEvents)
                || iid.same(&ids.IDispatch)),
    {
        *iid == ids.DDiscFormat2TrackAtOnceEvents || *iid == ids.IDispatch
    }
}

/// The method table of `DDiscMaster2Events`.
#[allow(non_camel_case_types)]
pub struct DDiscMaster2Events_Vtbl;

impl DDiscMaster2Events_Vtbl {
    /// Whether `iid` names `DDiscMaster2Events` or one of the interfaces that it derives
    /// from: `IDispatch`.
    pub fn matches(iid: &GUID, ids: &ImapiIds) -> (found: bool)
        ensures
            found == (iid.same(&ids.DDiscMaster2Events)
                || iid.same(&ids.IDispatch)),
    {
        *iid == ids.DDiscMaster2Events || *iid == ids.IDispatch
    }
}

/// The method table of `DFileSystemImageEvents`.
#[allow(non_camel_case_types)]
pub struct DFileSystemImageEvents_Vtbl;

impl DFileSystemImageEvents_Vtbl {
    /// Whether `iid` names `DFileSystemImageEvents` or one of the interfaces that it derives
    /// from: `IDispatch`.
    pub fn matches(iid: &GUID, ids: &ImapiIds) -> (found: bool)
        ensures
            found == (iid.same(&ids.DFileSystemImageEvents)
                || iid.same(&ids.IDispatch)),
    {
        *iid == ids.DFileSystemImageEvents || *iid == ids.IDispatch
    }
}

/// The method table of `DFileSystemImageImportEvents`.
#[allow(non_camel_case_types)]
pub struct DFileSystemImageImportEvents_Vtbl;

impl DFileSystemImageImportEvents_Vtbl {
    /// Whether `iid` names `DFileSystemImageImportEvents` or one of the interfaces that it derives
    /// from: `IDispatch`.
    pub fn matches(iid: &GUID, ids: &ImapiIds) -> (found: bool)
        ensures
            found == (iid.same(&ids.DFileSystemImageImportEvents)
                || iid.same(&ids.IDispatch)),
    {
        *iid == ids.DFileSystemImageImportEvents || *iid == ids.IDispatch
    }
}

/// The method table of `DWriteEngine2Events`.
#[allow(non_camel_case_types)]
pub struct DWriteEngine2Events_Vtbl;

impl DWriteEngine2Events_Vtbl {
    /// Whether `iid` names `DWriteEngine2Events` or one of the interfaces that it derives
    /// from: `IDispatch`.
    pub fn matches(iid: &GUID, ids: &ImapiIds) -> (found: bool)
        ensures
            found == (iid.same(&ids.DWriteEngine2Events)
                || iid.same(&ids.IDispatch)),
    {
        *iid == ids.DWriteEngine2Events || *iid == ids.IDispatch
    }
}

/// The method table of `IBlockRange`.
#[allow(non_camel_case_types)]
pub struct IBlockRange_Vtbl;

impl IBlockRange_Vtbl {
    /// Whether `iid` names `IBlockRange` or one of the interfaces that it derives
    /// from: `IDispatch`.
    pub fn matches(iid: &GUID, ids: &ImapiIds) -> (found: bool)
        ensures
            found == (iid.same(&ids.IBlockRange)
                || iid.same(&ids.IDispatch)),
    {
        *iid == ids.IBlockRange || *iid == ids.IDispatch
    }
}

/// The method table of `IBlockRangeList`.
#[allow(non_camel_case_types)]
pub struct IBlockRangeList_Vtbl;

impl IBlockRangeList_Vtbl {
    /// Whether `iid` names `IBlockRangeList` or one of the interfaces that it derives
    /// from: `IDispatch`.
    pub fn matches(iid: &GUID, ids: &ImapiIds) -> (found: bool)
        ensures
            found == (iid.same(&ids.IBlockRangeList)
                || iid.same(&ids.IDispatch)),
    {
        *iid == ids.IBlockRangeList || *iid == ids.IDispatch
    }
}

/// The method table of `IBootOptions`.
#[allow(non_camel_case_types)]
pub struct IBootOptions_Vtbl;

impl IBootOptions_Vtbl {
    /// Whether `iid` names `IBootOptions` or one of the interfaces that it derives
    /// from: `IDispatch`.
    pub fn matches(iid: &GUID, ids: &ImapiIds) -> (found: bool)
        ensures
            found == (iid.same(&ids.IBootOptions)
                || iid.same(&ids.IDispatch)),
    {
        *iid == ids.IBootOptions || *iid == ids.IDispatch
    }
}

/// The method table of `IBurnVerification`.
#[allow(non_camel_case_types)]
pub struct IBurnVerification_Vtbl;

impl IBurnVerification_Vtbl {
    /// Whether `iid` names `IBurnVerification`.
    pub fn matches(iid: &GUID, ids: &ImapiIds) -> (found: bool)
        ensures
            found == iid.same(&ids.IBurnVerification),
    {
        *iid == ids.IBurnVerification
    }
}

/// The method table of `IDiscFormat2`.
#[allow(non_camel_case_types)]
pub struct IDiscFormat2_Vtbl;

impl IDiscFormat2_Vtbl {
    /// Whether `iid` names `IDiscFormat2` or one of the interfaces that it derives
    /// from: `IDispatch`.
    pub fn matches(iid: &GUID, ids: &ImapiIds) -> (found: bool)
        ensures
            found == (iid.same(&ids.IDiscFormat2)
                || iid.same(&ids.IDispatch)),
    {
        *iid == ids.IDiscFormat2 || *iid == ids.IDispatch
    }
}

/// The method table of `IDiscFormat2Data`.
#[allow(non_camel_case_types)]
pub struct IDiscFormat2Data_Vtbl;

impl IDiscFormat2Data_Vtbl {
    /// Whether `iid` names `IDiscFormat2Data` or one of the interfaces that it derives
    /// from: `IDispatch`, `IDiscFormat2`.
    pub fn matches(iid: &GUID, ids: &ImapiIds) -> (found: bool)
        ensures
            found == (iid.same(&ids.IDiscFormat2Data)
                || iid.same(&ids.IDispatch)
                || iid.same(&ids.IDiscFormat2)),
    {
        *iid == ids.IDiscFormat2Data || *iid == ids.IDispatch || *iid == ids.IDiscFormat2
    }
}

/// The method table of `IDiscFormat2DataEventArgs`.
#[allow(non_camel_case_types)]
pub struct IDiscFormat2DataEventArgs_Vtbl;

impl IDiscFormat2DataEventArgs_Vtbl {
    /// Whether `iid` names `IDiscFormat2DataEventArgs` or one of the interfaces that it derives
    /// from: `IDispatch`, `IWriteEngine2EventArgs`.
    pub fn matches(iid: &GUID, ids: &ImapiIds) -> (found: bool)
        ensures
            found == (iid.same(&ids.IDiscFormat2DataEventArgs)
                || iid.same(&ids.IDispatch)
                || iid.same(&ids.IWriteEngine2EventArgs)),
    {
        *iid == ids.IDiscFormat2DataEventArgs || *iid == ids.IDispatch || *iid == ids.IWriteEngine2EventArgs
    }
}

/// The method table of `IDiscFormat2Erase`.
#[allow(non_camel_case_types)]
pub struct IDiscFormat2Erase_Vtbl;

impl IDiscFormat2Erase_Vtbl {
    /// Whether `iid` names `IDiscFormat2Erase` or one of the interfaces that it derives
    /// from: `IDispatch`, `IDiscFormat2`.
    pub fn matches(iid: &GUID, ids: &ImapiIds) -> (found: bool)
        ensures
            found == (iid.same(&ids.IDiscFormat2Erase)
                || iid.same(&ids.IDispatch)
                || iid.same(&ids.IDiscFormat2)),
    {
        *iid == ids.IDiscFormat2Erase || *iid == ids.IDispatch || *iid == ids.IDiscFormat2
    }
}

/// The method table of `IDiscFormat2RawCD`.
#[allow(non_camel_case_types)]
pub struct IDiscFormat2RawCD_Vtbl;

impl IDiscFormat2RawCD_Vtbl {
    /// Whether `iid` names `IDiscFormat2RawCD` or one of the interfaces that it derives
    /// from: `IDispatch`, `IDiscFormat2`.
    pub fn matches(iid: &GUID, ids: &ImapiIds) -> (found: bool)
        ensures
            found == (iid.same(&ids.IDiscFormat2RawCD)
                || iid.same(&ids.IDispatch)
                || iid.same(&ids.IDiscFormat2)),
    {
        *iid == ids.IDiscFormat2RawCD || *iid == ids.IDispatch || *iid == ids.IDiscFormat2
    }
}

/// The method table of `IDiscFormat2RawCDEventArgs`.
#[allow(non_camel_case_types)]
pub struct IDiscFormat2RawCDEventArgs_Vtbl;

impl IDiscFormat2RawCDEventArgs_Vtbl {
    /// Whether `iid` names `IDiscFormat2RawCDEventArgs` or one of the interfaces that it derives
    /// from: `IDispatch`, `IWriteEngine2EventArgs`.
    pub fn matches(iid: &GUID, ids: &ImapiIds) -> (found: bool)
        ensures
            found == (iid.same(&ids.IDiscFormat2RawCDEventArgs)
                || iid.same(&ids.IDispatch)
                || iid.same(&ids.IWriteEngine2EventArgs)),
    {
        *iid == ids.IDiscFormat2RawCDEventArgs || *iid == ids.IDispatch || *iid == ids.IWriteEngine2EventArgs
    }
}

/// The method table of `IDiscFormat2TrackAtOnce`.
#[allow(non_camel_case_types)]
pub struct IDiscFormat2TrackAtOnce_Vtbl;

impl IDiscFormat2TrackAtOnce_Vtbl {
    /// Whether `iid` names `IDiscFormat2TrackAtOnce` or one of the interfaces that it derives
    /// from: `IDispatch`, `IDiscFormat2`.
    pub fn matches(iid: &GUID, ids: &ImapiIds) -> (found: bool)
        ensures
            found == (iid.same(&ids.IDiscFormat2TrackAtOnce)
                || iid.same(&ids.IDispatch)
                || iid.same(&ids.IDiscFormat2)),
    {
        *iid == ids.IDiscFormat2TrackAtOnce || *iid == ids.IDispatch || *iid == ids.IDiscFormat2
    }
}

/// The method table of `IDiscFormat2TrackAtOnceEventArgs`.
#[allow(non_camel_case_types)]
pub struct IDiscFormat2TrackAtOnceEventArgs_Vtbl;

impl IDiscFormat2TrackAtOnceEventArgs_Vtbl {
    /// Whether `iid` names `IDiscFormat2TrackAtOnceEventArgs` or one of the interfaces that it derives
    /// from: `IDispatch`, `IWriteEngine2EventArgs`.
    pub fn matches(iid: &GUID, ids: &ImapiIds) -> (found: bool)
        ensures
            found == (iid.same(&ids.IDiscFormat2TrackAtOnceEventArgs)
                || iid.same(&ids.IDispatch)
                || iid.same(&ids.IWriteEngine2EventArgs)),
    {
        *iid == ids.IDiscFormat2TrackAtOnceEventArgs || *iid == ids.IDispatch || *iid == ids.IWriteEngine2EventArgs
    }
}

/// The method table of `IDiscMaster`.
#[allow(non_camel_case_types)]
pub struct IDiscMaster_Vtbl;

impl IDiscMaster_Vtbl {
    /// Whether `iid` names `IDiscMaster`.
    pub fn matches(iid: &GUID, ids: &ImapiIds) -> (found: bool)
        ensures
            found == iid.same(&ids.IDiscMaster),
    {
        *iid == ids.IDiscMaster
    }
}

/// The method table of `IDiscMaster2`.
#[allow(non_camel_case_types)]
pub struct IDiscMaster2_Vtbl;

impl IDiscMaster2_Vtbl {
    /// Whether `iid` names `IDiscMaster2` or one of the interfaces that it derives
    /// from: `IDispatch`.
    pub fn matches(iid: &GUID, ids: &ImapiIds) -> (found: bool)
        ensures
            found == (iid.same(&ids.IDiscMaster2)
                || iid.same(&ids.IDispatch)),
    {
        *iid == ids.IDiscMaster2 || *iid == ids.IDispatch
    }
}

/// The method table of `IDiscMasterProgressEvents`.
#[allow(non_camel_case_types)]
pub struct IDiscMasterProgressEvents_Vtbl;

impl IDiscMasterProgressEvents_Vtbl {
    /// Whether `iid` names `IDiscMasterProgressEvents`.
    pub fn matches(iid: &GUID, ids: &ImapiIds) -> (found: bool)
        ensures
            found == iid.same(&ids.IDiscMasterProgressEvents),
    {
        *iid == ids.IDiscMasterProgressEvents
    }
}

/// The method table of `IDiscRecorder`.
#[allow(non_camel_case_types)]
pub struct IDiscRecorder_Vtbl;

impl IDiscRecorder_Vtbl {
    /// Whether `iid` names `IDiscRecorder`.
    pub fn matches(iid: &GUID, ids: &ImapiIds) -> (found: bool)
        ensures
            found == iid.same(&ids.IDiscRecorder),
    {
        *iid == ids.IDiscRecorder
    }
}

/// The method table of `IDiscRecorder2`.
#[allow(non_camel_case_types)]
pub struct IDiscRecorder2_Vtbl;

impl IDiscRecorder2_Vtbl {
    /// Whether `iid` names `IDiscRecorder2` or one of the interfaces that it derives
    /// from: `IDispatch`.
    pub fn matches(iid: &GUID, ids: &ImapiIds) -> (found: bool)
        ensures
            found == (iid.same(&ids.IDiscRecorder2)
                || iid.same(&ids.IDispatch)),
    {
        *iid == ids.IDiscRecorder2 || *iid == ids.IDispatch
    }
}

/// The method table of `IDiscRecorder2Ex`.
#[allow(non_camel_case_types)]
pub struct IDiscRecorder2Ex_Vtbl;

impl IDiscRecorder2Ex_Vtbl {
    /// Whether `iid` names `IDiscRecorder2Ex`.
    pub fn matches(iid: &GUID, ids: &ImapiIds) -> (found: bool)
        ensures
            found == iid.same(&ids.IDiscRecorder2Ex),
    {
        *iid == ids.IDiscRecorder2Ex
    }
}

/// The method table of `IEnumDiscMasterFormats`.
#[allow(non_camel_case_types)]
pub struct IEnumDiscMasterFormats_Vtbl;

impl IEnumDiscMasterFormats_Vtbl {
    /// Whether `iid` names `IEnumDiscMasterFormats`.
    pub fn matches(iid: &GUID, ids: &ImapiIds) -> (found: bool)
        ensures
            found == iid.same(&ids.IEnumDiscMasterFormats),
    {
        *iid == ids.IEnumDiscMasterFormats
    }
}

/// The method table of `IEnumDiscRecorders`.
#[allow(non_camel_case_types)]
pub struct IEnumDiscRecorders_Vtbl;

impl IEnumDiscRecorders_Vtbl {
    /// Whether `iid` names `IEnumDiscRecorders`.
    pub fn matches(iid: &GUID, ids: &ImapiIds) -> (found: bool)
        ensures
            found == iid.same(&ids.IEnumDiscRecorders),
    {
        *iid == ids.IEnumDiscRecorders
    }
}

/// The method table of `IEnumFsiItems`.
#[allow(non_camel_case_types)]
pub struct IEnumFsiItems_Vtbl;

impl IEnumFsiItems_Vtbl {
    /// Whether `iid` names `IEnumFsiItems`.
    pub fn matches(iid: &GUID, ids: &ImapiIds) -> (found: bool)
        ensures
            found == iid.same(&ids.IEnumFsiItems),
    {
        *iid == ids.IEnumFsiItems
    }
}

/// The method table of `IEnumProgressItems`.
#[allow(non_camel_case_types)]
pub struct IEnumProgressItems_Vtbl;

impl IEnumProgressItems_Vtbl {
    /// Whether `iid` names `IEnumProgressItems`.
    pub fn matches(iid: &GUID, ids: &ImapiIds) -> (found: bool)
        ensures
            found == iid.same(&ids.IEnumProgressItems),
    {
        *iid == ids.IEnumProgressItems
    }
}

/// The method table of `IFileSystemImage`.
#[allow(non_camel_case_types)]
pub struct IFileSystemImage_Vtbl;

impl IFileSystemImage_Vtbl {
    /// Whether `iid` names `IFileSystemImage` or one of the interfaces that it derives
    /// from: `IDispatch`.
    pub fn matches(iid: &GUID, ids: &ImapiIds) -> (found: bool)
        ensures
            found == (iid.same(&ids.IFileSystemImage)
                || iid.same(&ids.IDispatch)),
    {
        *iid == ids.IFileSystemImage || *iid == ids.IDispatch
    }
}

/// The method table of `IFileSystemImage2`.
#[allow(non_camel_case_types)]
pub struct IFileSystemImage2_Vtbl;

impl IFileSystemImage2_Vtbl {
    /// Whether `iid` names `IFileSystemImage2` or one of the interfaces that it derives
    /// from: `IDispatch`, `IFileSystemImage`.
    pub fn matches(iid: &GUID, ids: &ImapiIds) -> (found: bool)
        ensures
            found == (iid.same(&ids.IFileSystemImage2)
                || iid.same(&ids.IDispatch)
                || iid.same(&ids.IFileSystemImage)),
    {
        *iid == ids.IFileSystemImage2 || *iid == ids.IDispatch || *iid == ids.IFileSystemImage
    }
}

/// The method table of `IFileSystemImage3`.
#[allow(non_camel_case_types)]
pub struct IFileSystemImage3_Vtbl;

impl IFileSystemImage3_Vtbl {
    /// Whether `iid` names `IFileSystemImage3` or one of the interfaces that it derives
    /// from: `IDispatch`, `IFileSystemImage`, `IFileSystemImage2`.
    pub fn matches(iid: &GUID, ids: &ImapiIds) -> (found: bool)
        ensures
            found == (iid.same(&ids.IFileSystemImage3)
                || iid.same(&ids.IDispatch)
                || iid.same(&ids.IFileSystemImage)
                || iid.same(&ids.IFileSystemImage2)),
    {
        *iid == ids.IFileSystemImage3 || *iid == ids.IDispatch || *iid == ids.IFileSystemImage || *iid == ids.IFileSystemImage2
    }
}

/// The method table of `IFileSystemImageResult`.
#[allow(non_camel_case_types)]
pub struct IFileSystemImageResult_Vtbl;

impl IFileSystemImageResult_Vtbl {
    /// Whether `iid` names `IFileSystemImageResult` or one of the interfaces that it derives
    /// from: `IDispatch`.
    pub fn matches(iid: &GUID, ids: &ImapiIds) -> (found: bool)
        ensures
            found == (iid.same(&ids.IFileSystemImageResult)
                || iid.same(&ids.IDispatch)),
    {
        *iid == ids.IFileSystemImageResult || *iid == ids.IDispatch
    }
}

/// The method table of `IFileSystemImageResult2`.
#[allow(non_camel_case_types)]
pub struct IFileSystemImageResult2_Vtbl;

impl IFileSystemImageResult2_Vtbl {
    /// Whether `iid` names `IFileSystemImageResult2` or one of the interfaces that it derives
    /// from: `IDispatch`, `IFileSystemImageResult`.
    pub fn matches(iid: &GUID, ids: &ImapiIds) -> (found: bool)
        ensures
            found == (iid.same(&ids.IFileSystemImageResult2)
                || iid.same(&ids.IDispatch)
                || iid.same(&ids.IFileSystemImageResult)),
    {
        *iid == ids.IFileSystemImageResult2 || *iid == ids.IDispatch || *iid == ids.IFileSystemImageResult
    }
}

/// The method table of `IFsiDirectoryItem`.
#[allow(non_camel_case_types)]
pub struct IFsiDirectoryItem_Vtbl;

impl IFsiDirectoryItem_Vtbl {
    /// Whether `iid` names `IFsiDirectoryItem` or one of the interfaces that it derives
    /// from: `IDispatch`, `IFsiItem`.
    pub fn matches(iid: &GUID, ids: &ImapiIds) -> (found: bool)
        ensures
            found == (iid.same(&ids.IFsiDirectoryItem)
                || iid.same(&ids.IDispatch)
                || iid.same(&ids.IFsiItem)),
    {
        *iid == ids.IFsiDirectoryItem || *iid == ids.IDispatch || *iid == ids.IFsiItem
    }
}

/// The method table of `IFsiDirectoryItem2`.
#[allow(non_camel_case_types)]
pub struct IFsiDirectoryItem2_Vtbl;

impl IFsiDirectoryItem2_Vtbl {
    /// Whether `iid` names `IFsiDirectoryItem2` or one of the interfaces that it derives
    /// from: `IDispatch`, `IFsiItem`, `IFsiDirectoryItem`.
    pub fn matches(iid: &GUID, ids: &ImapiIds) -> (found: bool)
        ensures
            found == (iid.same(&ids.IFsiDirectoryItem2)
                || iid.same(&ids.IDispatch)
                || iid.same(&ids.IFsiItem)
                || iid.same(&ids.IFsiDirectoryItem)),
    {
        *iid == ids.IFsiDirectoryItem2 || *iid == ids.IDispatch || *iid == ids.IFsiItem || *iid == ids.IFsiDirectoryItem
    }
}

/// The method table of `IFsiFileItem`.
#[allow(non_camel_case_types)]
pub struct IFsiFileItem_Vtbl;

impl IFsiFileItem_Vtbl {
    /// Whether `iid` names `IFsiFileItem` or one of the interfaces that it derives
    /// from: `IDispatch`, `IFsiItem`.
    pub fn matches(iid: &GUID, ids: &ImapiIds) -> (found: bool)
        ensures
            found == (iid.same(&ids.IFsiFileItem)
                || iid.same(&ids.IDispatch)
                || iid.same(&ids.IFsiItem)),
    {
        *iid == ids.IFsiFileItem || *iid == ids.IDispatch || *iid == ids.IFsiItem
    }
}

/// The method table of `IFsiFileItem2`.
#[allow(non_camel_case_types)]
pub struct IFsiFileItem2_Vtbl;

impl IFsiFileItem2_Vtbl {
    /// Whether `iid` names `IFsiFileItem2` or one of the interfaces that it derives
    /// from: `IDispatch`, `IFsiItem`, `IFsiFileItem`.
    pub fn matches(iid: &GUID, ids: &ImapiIds) -> (found: bool)
        ensures
            found == (iid.same(&ids.IFsiFileItem2)
                || iid.same(&ids.IDispatch)
                || iid.same(&ids.IFsiItem)
                || iid.same(&ids.IFsiFileItem)),
    {
        *iid == ids.IFsiFileItem2 || *iid == ids.IDispatch || *iid == ids.IFsiItem || *iid == ids.IFsiFileItem
    }
}

/// The method table of `IFsiItem`.
#[allow(non_camel_case_types)]
pub struct IFsiItem_Vtbl;

impl IFsiItem_Vtbl {
    /// Whether `iid` names `IFsiItem` or one of the interfaces that it derives
    /// from: `IDispatch`.
    pub fn matches(iid: &GUID, ids: &ImapiIds) -> (found: bool)
        ensures
            found == (iid.same(&ids.IFsiItem)
                || iid.same(&ids.IDispatch)),
    {
        *iid == ids.IFsiItem || *iid == ids.IDispatch
    }
}

/// The method table of `IFsiNamedStreams`.
#[allow(non_camel_case_types)]
pub struct IFsiNamedStreams_Vtbl;

impl IFsiNamedStreams_Vtbl {
    /// Whether `iid` names `IFsiNamedStreams` or one of the interfaces that it derives
    /// from: `IDispatch`.
    pub fn matches(iid: &GUID, ids: &ImapiIds) -> (found: bool)
        ensures
            found == (iid.same(&ids.IFsiNamedStreams)
                || iid.same(&ids.IDispatch)),
    {
        *iid == ids.IFsiNamedStreams || *iid == ids.IDispatch
    }
}

/// The method table of `IIsoImageManager`.
#[allow(non_camel_case_types)]
pub struct IIsoImageManager_Vtbl;

impl IIsoImageManager_Vtbl {
    /// Whether `iid` names `IIsoImageManager` or one of the interfaces that it derives
    /// from: `IDispatch`.
    pub fn matches(iid: &GUID, ids: &ImapiIds) -> (found: bool)
        ensures
            found == (iid.same(&ids.IIsoImageManager)
                || iid.same(&ids.IDispatch)),
    {
        *iid == ids.IIsoImageManager || *iid == ids.IDispatch
    }
}

/// The method table of `IJolietDiscMaster`.
#[allow(non_camel_case_types)]
pub struct IJolietDiscMaster_Vtbl;

impl IJolietDiscMaster_Vtbl {
    /// Whether `iid` names `IJolietDiscMaster`.
    pub fn matches(iid: &GUID, ids: &ImapiIds) -> (found: bool)
        ensures
            found == iid.same(&ids.IJolietDiscMaster),
    {
        *iid == ids.IJolietDiscMaster
    }
}

/// The method table of `IMultisession`.
#[allow(non_camel_case_types)]
pub struct IMultisession_Vtbl;

impl IMultisession_Vtbl {
    /// Whether `iid` names `IMultisession` or one of the interfaces that it derives
    /// from: `IDispatch`.
    pub fn matches(iid: &GUID, ids: &ImapiIds) -> (found: bool)
        ensures
            found == (iid.same(&ids.IMultisession)
                || iid.same(&ids.IDispatch)),
    {
        *iid == ids.IMultisession || *iid == ids.IDispatch
    }
}

/// The method table of `IMultisessionRandomWrite`.
#[allow(non_camel_case_types)]
pub struct IMultisessionRandomWrite_Vtbl;

impl IMultisessionRandomWrite_Vtbl {
    /// Whether `iid` names `IMultisessionRandomWrite` or one of the interfaces that it derives
    /// from: `IDispatch`, `IMultisession`.
    pub fn matches(iid: &GUID, ids: &ImapiIds) -> (found: bool)
        ensures
            found == (iid.same(&ids.IMultisessionRandomWrite)
                || iid.same(&ids.IDispatch)
                || iid.same(&ids.IMultisession)),
    {
        *iid == ids.IMultisessionRandomWrite || *iid == ids.IDispatch || *iid == ids.IMultisession
    }
}

/// The method table of `IMultisessionSequential`.
#[allow(non_camel_case_types)]
pub struct IMultisessionSequential_Vtbl;

impl IMultisessionSequential_Vtbl {
    /// Whether `iid` names `IMultisessionSequential` or one of the interfaces that it derives
    /// from: `IDispatch`, `IMultisession`.
    pub fn matches(iid: &GUID, ids: &ImapiIds) -> (found: bool)
        ensures
            found == (iid.same(&ids.IMultisessionSequential)
                || iid.same(&ids.IDispatch)
                || iid.same(&ids.IMultisession)),
    {
        *iid == ids.IMultisessionSequential || *iid == ids.IDispatch || *iid == ids.IMultisession
    }
}

/// The method table of `IMultisessionSequential2`.
#[allow(non_camel_case_types)]
pub struct IMultisessionSequential2_Vtbl;

impl IMultisessionSequential2_Vtbl {
    /// Whether `iid` names `IMultisessionSequential2` or one of the interfaces that it derives
    /// from: `IDispatch`, `IMultisession`, `IMultisessionSequential`.
    pub fn matches(iid: &GUID, ids: &ImapiIds) -> (found: bool)
        ensures
            found == (iid.same(&ids.IMultisessionSequential2)
                || iid.same(&ids.IDispatch)
                || iid.same(&ids.IMultisession)
                || iid.same(&ids.IMultisessionSequential)),
    {
        *iid == ids.IMultisessionSequential2 || *iid == ids.IDispatch || *iid == ids.IMultisession || *iid == ids.IMultisessionSequential
    }
}

/// The method table of `IProgressItem`.
#[allow(non_camel_case_types)]
pub struct IProgressItem_Vtbl;

impl IProgressItem_Vtbl {
    /// Whether `iid` names `IProgressItem` or one of the interfaces that it derives
    /// from: `IDispatch`.
    pub fn matches(iid: &GUID, ids: &ImapiIds) -> (found: bool)
        ensures
            found == (iid.same(&ids.IProgressItem)
                || iid.same(&ids.IDispatch)),
    {
        *iid == ids.IProgressItem || *iid == ids.IDispatch
    }
}

/// The method table of `IProgressItems`.
#[allow(non_camel_case_types)]
pub struct IProgressItems_Vtbl;

impl IProgressItems_Vtbl {
    /// Whether `iid` names `IProgressItems` or one of the interfaces that it derives
    /// from: `IDispatch`.
    pub fn matches(iid: &GUID, ids: &ImapiIds) -> (found: bool)
        ensures
            found == (iid.same(&ids.IProgressItems)
                || iid.same(&ids.IDispatch)),
    {
        *iid == ids.IProgressItems || *iid == ids.IDispatch
    }
}

/// The method table of `IRawCDImageCreator`.
#[allow(non_camel_case_types)]
pub struct IRawCDImageCreator_Vtbl;

impl IRawCDImageCreator_Vtbl {
    /// Whether `iid` names `IRawCDImageCreator` or one of the interfaces that it derives
    /// from: `IDispatch`.
    pub fn matches(iid: &GUID, ids: &ImapiIds) -> (found: bool)
        ensures
            found == (iid.same(&ids.IRawCDImageCreator)
                || iid.same(&ids.IDispatch)),
    {
        *iid == ids.IRawCDImageCreator || *iid == ids.IDispatch
    }
}

/// The method table of `IRawCDImageTrackInfo`.
#[allow(non_camel_case_types)]
pub struct IRawCDImageTrackInfo_Vtbl;

impl IRawCDImageTrackInfo_Vtbl {
    /// Whether `iid` names `IRawCDImageTrackInfo` or one of the interfaces that it derives
    /// from: `IDispatch`.
    pub fn matches(iid: &GUID, ids: &ImapiIds) -> (found: bool)
        ensures
            found == (iid.same(&ids.IRawCDImageTrackInfo)
                || iid.same(&ids.IDispatch)),
    {
        *iid == ids.IRawCDImageTrackInfo || *iid == ids.IDispatch
    }
}

/// The method table of `IRedbookDiscMaster`.
#[allow(non_camel_case_types)]
pub struct IRedbookDiscMaster_Vtbl;

impl IRedbookDiscMaster_Vtbl {
    /// Whether `iid` names `IRedbookDiscMaster`.
    pub fn matches(iid: &GUID, ids: &ImapiIds) -> (found: bool)
        ensures
            found == iid.same(&ids.IRedbookDiscMaster),
    {
        *iid == ids.IRedbookDiscMaster
    }
}

/// The method table of `IStreamConcatenate`.
#[allow(non_camel_case_types)]
pub struct IStreamConcatenate_Vtbl;

impl IStreamConcatenate_Vtbl {
    /// Whether `iid` names `IStreamConcatenate` or one of the interfaces that it derives
    /// from: `ISequentialStream`, `IStream`.
    pub fn matches(iid: &GUID, ids: &ImapiIds) -> (found: bool)
        ensures
            found == (iid.same(&ids.IStreamConcatenate)
                || iid.same(&ids.ISequentialStream)
                || iid.same(&ids.IStream)),
    {
        *iid == ids.IStreamConcatenate || *iid == ids.ISequentialStream || *iid == ids.IStream
    }
}

/// The method table of `IStreamInterleave`.
#[allow(non_camel_case_types)]
pub struct IStreamInterleave_Vtbl;

impl IStreamInterleave_Vtbl {
    /// Whether `iid` names `IStreamInterleave` or one of the interfaces that it derives
    /// from: `ISequentialStream`, `IStream`.
    pub fn matches(iid: &GUID, ids: &ImapiIds) -> (found: bool)
        ensures
            found == (iid.same(&ids.IStreamInterleave)
                || iid.same(&ids.ISequentialStream)
                || iid.same(&ids.IStream)),
    {
        *iid == ids.IStreamInterleave || *iid == ids.ISequentialStream || *iid == ids.IStream
    }
}

/// The method table of `IStreamPseudoRandomBased`.
#[allow(non_camel_case_types)]
pub struct IStreamPseudoRandomBased_Vtbl;

impl IStreamPseudoRandomBased_Vtbl {
    /// Whether `iid` names `IStreamPseudoRandomBased` or one of the interfaces that it derives
    /// from: `ISequentialStream`, `IStream`.
    pub fn matches(iid: &GUID, ids: &ImapiIds) -> (found: bool)
        ensures
            found == (iid.same(&ids.IStreamPseudoRandomBased)
                || iid.same(&ids.ISequentialStream)
                || iid.same(&ids.IStream)),
    {
        *iid == ids.IStreamPseudoRandomBased || *iid == ids.ISequentialStream || *iid == ids.IStream
    }
}

/// The method table of `IWriteEngine2`.
#[allow(non_camel_case_types)]
pub struct IWriteEngine2_Vtbl;

impl IWriteEngine2_Vtbl {
    /// Whether `iid` names `IWriteEngine2` or one of the interfaces that it derives
    /// from: `IDispatch`.
    pub fn matches(iid: &GUID, ids: &ImapiIds) -> (found: bool)
        ensures
            found == (iid.same(&ids.IWriteEngine2)
                || iid.same(&ids.IDispatch)),
    {
        *iid == ids.IWriteEngine2 || *iid == ids.IDispatch
    }
}

/// The method table of `IWriteEngine2EventArgs`.
#[allow(non_camel_case_types)]
pub struct IWriteEngine2EventArgs_Vtbl;

impl IWriteEngine2EventArgs_Vtbl {
    /// Whether `iid` names `IWriteEngine2EventArgs` or one of the interfaces that it derives
    /// from: `IDispatch`.
    pub fn matches(iid: &GUID, ids: &ImapiIds) -> (found: bool)
        ensures
            found == (iid.same(&ids.IWriteEngine2EventArgs)
                || iid.same(&ids.IDispatch)),
    {
        *iid == ids.IWriteEngine2EventArgs || *iid == ids.IDispatch
    }
}

/// The method table of `IWriteSpeedDescriptor`.
#[allow(non_camel_case_types)]
pub struct IWriteSpeedDescriptor_Vtbl;

impl IWriteSpeedDescriptor_Vtbl {
    /// Whether `iid` names `IWriteSpeedDescriptor` or one of the interfaces that it derives
    /// from: `IDispatch`.
    pub fn matches(iid: &GUID, ids: &ImapiIds) -> (found: bool)
        ensures
            found == (iid.same(&ids.IWriteSpeedDescriptor)
                || iid.same(&ids.IDispatch)),
    {
        *iid == ids.IWriteSpeedDescriptor || *iid == ids.IDispatch
    }
}

} // verus!
