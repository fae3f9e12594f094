use content_integrity::com::GUID;
use content_integrity::imapi::{
    IBurnVerification_Vtbl, IDiscFormat2Data_Vtbl, IDiscFormat2_Vtbl, IFileSystemImage3_Vtbl,
    IStreamInterleave_Vtbl, ImapiIds,
};
use content_integrity::lights_effects::{EffectIds, ILampArrayEffect_Vtbl};

fn id(n: u32) -> GUID {
    GUID::from_values(n, 0x7f64, 0x5b0f, [0x8f, 0x00, 0x5d, 0x77, 0xaf, 0xbe, 0x26, 0x1e])
}

fn ids() -> ImapiIds {
    ImapiIds {
        IDispatch: id(1),
        ISequentialStream: id(2),
        IStream: id(3),
        DDiscFormat2DataEvents: id(4),
        DDiscFormat2EraseEvents: id(5),
        DDiscFormat2RawCDEvents: id(6),
        DDiscFormat2TrackAtOnceEvents: id(7),
        DDiscMaster2Events: id(8),
        DFileSystemImageEvents: id(9),
        DFileSystemImageImportEvents: id(10),
        DWriteEngine2Events: id(11),
        IBlockRange: id(12),
        IBlockRangeList: id(13),
        IBootOptions: id(14),
        IBurnVerification: id(15),
        IDiscFormat2: id(16),
        IDiscFormat2Data: id(17),
        IDiscFormat2DataEventArgs: id(18),
        IDiscFormat2Erase: id(19),
        IDiscFormat2RawCD: id(20),
        IDiscFormat2RawCDEventArgs: id(21),
        IDiscFormat2TrackAtOnce: id(22),
        IDiscFormat2TrackAtOnceEventArgs: id(23),
        IDiscMaster: id(24),
        IDiscMaster2: id(25),
        IDiscMasterProgressEvents: id(26),
        IDiscRecorder: id(27),
        IDiscRecorder2: id(28),
        IDiscRecorder2Ex: id(29),
        IEnumDiscMasterFormats: id(30),
        IEnumDiscRecorders: id(31),
        IEnumFsiItems: id(32),
        IEnumProgressItems: id(33),
        IFileSystemImage: id(34),
        IFileSystemImage2: id(35),
        IFileSystemImage3: id(36),
        IFileSystemImageResult: id(37),
        IFileSystemImageResult2: id(38),
        IFsiDirectoryItem: id(39),
        IFsiDirectoryItem2: id(40),
        IFsiFileItem: id(41),
        IFsiFileItem2: id(42),
        IFsiItem: id(43),
        IFsiNamedStreams: id(44),
        IIsoImageManager: id(45),
        IJolietDiscMaster: id(46),
        IMultisession: id(47),
        IMultisessionRandomWrite: id(48),
        IMultisessionSequential: id(49),
        IMultisessionSequential2: id(50),
        IProgressItem: id(51),
        IProgressItems: id(52),
        IRawCDImageCreator: id(53),
        IRawCDImageTrackInfo: id(54),
        IRedbookDiscMaster: id(55),
        IStreamConcatenate: id(56),
        IStreamInterleave: id(57),
        IStreamPseudoRandomBased: id(58),
        IWriteEngine2: id(59),
        IWriteEngine2EventArgs: id(60),
        IWriteSpeedDescriptor: id(61),
    }
}

#[test]
fn identifiers_are_equal_part_by_part() {
    assert_eq!(id(1), id(1));
    assert_ne!(id(1), id(2));
    let a = GUID::from_values(1, 2, 3, [4; 8]);
    assert_eq!(a, GUID { data1: 1, data2: 2, data3: 3, data4: [4; 8] });
    assert_ne!(a, GUID::from_values(1, 9, 3, [4; 8]));
    assert_ne!(a, GUID::from_values(1, 2, 9, [4; 8]));
    assert_ne!(a, GUID::from_values(1, 2, 3, [4, 4, 4, 4, 4, 4, 4, 5]));
    assert_ne!(a, GUID::from_values(1, 2, 3, [5, 4, 4, 4, 4, 4, 4, 4]));
}

#[test]
fn an_interface_matches_itself_and_what_it_derives_from() {
    let ids = ids();
    assert!(IDiscFormat2Data_Vtbl::matches(&ids.IDiscFormat2Data, &ids));
    assert!(IDiscFormat2Data_Vtbl::matches(&ids.IDiscFormat2, &ids));
    assert!(IDiscFormat2Data_Vtbl::matches(&ids.IDispatch, &ids));
    assert!(!IDiscFormat2Data_Vtbl::matches(&ids.IDiscFormat2Erase, &ids));
    assert!(!IDiscFormat2Data_Vtbl::matches(&ids.IStream, &ids));

    assert!(IDiscFormat2_Vtbl::matches(&ids.IDiscFormat2, &ids));
    assert!(IDiscFormat2_Vtbl::matches(&ids.IDispatch, &ids));
    assert!(!IDiscFormat2_Vtbl::matches(&ids.IDiscFormat2Data, &ids));

    assert!(IFileSystemImage3_Vtbl::matches(&ids.IFileSystemImage3, &ids));
    assert!(IFileSystemImage3_Vtbl::matches(&ids.IFileSystemImage2, &ids));
    assert!(IFileSystemImage3_Vtbl::matches(&ids.IFileSystemImage, &ids));
    assert!(IFileSystemImage3_Vtbl::matches(&ids.IDispatch, &ids));
    assert!(!IFileSystemImage3_Vtbl::matches(&ids.IFileSystemImageResult, &ids));

    assert!(IStreamInterleave_Vtbl::matches(&ids.IStreamInterleave, &ids));
    assert!(IStreamInterleave_Vtbl::matches(&ids.IStream, &ids));
    assert!(IStreamInterleave_Vtbl::matches(&ids.ISequentialStream, &ids));
    assert!(!IStreamInterleave_Vtbl::matches(&ids.IDispatch, &ids));

    assert!(IBurnVerification_Vtbl::matches(&ids.IBurnVerification, &ids));
    assert!(!IBurnVerification_Vtbl::matches(&ids.IDispatch, &ids));
    assert!(!IBurnVerification_Vtbl::matches(&id(999), &ids));
}

#[test]
fn a_lamp_effect_matches_only_itself() {
    let ids = EffectIds { ILampArrayEffect: id(100) };
    assert!(ILampArrayEffect_Vtbl::matches(&id(100), &ids));
    assert!(!ILampArrayEffect_Vtbl::matches(&id(101), &ids));
}
