//! The closed error taxonomy of the vendor interface.
//!
//! Every vendor error is a small negative code from a closed set. Decoding is
//! total: a code outside the set becomes `SimpleLinkError::ValueError`, which
//! names the enumeration and carries the code.
use vstd::prelude::*;

verus! {

/// The enumerations whose codes this library decodes, named in decode errors.
#[derive(Clone, Copy, Debug, PartialEq, Eq, Structural)]
pub enum EnumKind {
    WlanError,
    OsiError,
    FileSystemError,
    SocketError,
    WlanMode,
    SocketFamily,
    StatusBit,
    Policy,
    NetConfigSet,
    NetConfigGet,
    WlanConfig,
    WlanRxFilterOp,
    SecurityType,
    WlanEvent,
    NetAppEvent,
    SlDeviceDriverError,
    SlSocketEventNum,
    WlanDisconnectReason,
}

impl EnumKind {
    /// The enumeration's name, for diagnostics.
    pub open spec fn spec_name(self) -> &'static str {
        match self {
            EnumKind::WlanError => "WlanError",
            EnumKind::OsiError => "OsiError",
            EnumKind::FileSystemError => "FileSystemError",
            EnumKind::SocketError => "SocketError",
            EnumKind::WlanMode => "WlanMode",
            EnumKind::SocketFamily => "SocketFamily",
            EnumKind::StatusBit => "StatusBit",
            EnumKind::Policy => "Policy",
            EnumKind::NetConfigSet => "NetConfigSet",
            EnumKind::NetConfigGet => "NetConfigGet",
            EnumKind::WlanConfig => "WlanConfig",
            EnumKind::WlanRxFilterOp => "WlanRxFilterOp",
            EnumKind::SecurityType => "SecurityType",
            EnumKind::WlanEvent => "WlanEvent",
            EnumKind::NetAppEvent => "NetAppEvent",
            EnumKind::SlDeviceDriverError => "SlDeviceDriverError",
            EnumKind::SlSocketEventNum => "SlSocketEventNum",
            EnumKind::WlanDisconnectReason => "WlanDisconnectReason",
        }
    }

    /// The enumeration's name, for diagnostics.
    pub fn name(self) -> (r: &'static str)
        ensures
            r == self.spec_name(),
    {
        match self {
            EnumKind::WlanError => "WlanError",
            EnumKind::OsiError => "OsiError",
            EnumKind::FileSystemError => "FileSystemError",
            EnumKind::SocketError => "SocketError",
            EnumKind::WlanMode => "WlanMode",
            EnumKind::SocketFamily => "SocketFamily",
            EnumKind::StatusBit => "StatusBit",
            EnumKind::Policy => "Policy",
            EnumKind::NetConfigSet => "NetConfigSet",
            EnumKind::NetConfigGet => "NetConfigGet",
            EnumKind::WlanConfig => "WlanConfig",
            EnumKind::WlanRxFilterOp => "WlanRxFilterOp",
            EnumKind::SecurityType => "SecurityType",
            EnumKind::WlanEvent => "WlanEvent",
            EnumKind::NetAppEvent => "NetAppEvent",
            EnumKind::SlDeviceDriverError => "SlDeviceDriverError",
            EnumKind::SlSocketEventNum => "SlSocketEventNum",
            EnumKind::WlanDisconnectReason => "WlanDisconnectReason",
        }
    }
}

/// What can go wrong in a call to the network processor.
#[derive(Clone, Copy, Debug, PartialEq, Eq, Structural)]
pub enum SimpleLinkError {
    Wlan(WlanError),
    Osi(OsiError),
    FileSystem(FileSystemError),
    Socket(SocketError),
    /// A code that the named enumeration does not define.
    ValueError(EnumKind, i32),
}

/// Errors of the vendor's WLAN layer.
#[allow(non_camel_case_types)]
#[derive(Clone, Copy, Debug, PartialEq, Eq, Structural)]
pub enum WlanError {
    ROLE_STA_ERR,
    ROLE_AP_ERR,
    KEY_ERROR,
    INVALID_ROLE,
    INVALID_SECURITY_TYPE,
    PASSPHRASE_TOO_LONG,
    WPS_NO_PIN_OR_WRONG_PIN_LEN,
    EAP_WRONG_METHOD,
    PASSWORD_ERROR,
    EAP_ANONYMOUS_LEN_ERROR,
    SSID_LEN_ERROR,
    USER_ID_LEN_ERROR,
    ILLEGAL_WEP_KEY_INDEX,
    INVALID_DWELL_TIME_VALUES,
    INVALID_POLICY_TYPE,
    PM_POLICY_INVALID_OPTION,
    PM_POLICY_INVALID_PARAMS,
    WIFI_ALREADY_DISCONNECTED,
    WIFI_NOT_CONNECTED,
}

impl WlanError {
    /// The vendor's numeric code for this value.
    pub open spec fn spec_code(self) -> int {
        match self {
            WlanError::ROLE_STA_ERR => -1,
            WlanError::ROLE_AP_ERR => -2,
            WlanError::KEY_ERROR => -3,
            WlanError::INVALID_ROLE => -71,
            WlanError::INVALID_SECURITY_TYPE => -84,
            WlanError::PASSPHRASE_TOO_LONG => -85,
            WlanError::WPS_NO_PIN_OR_WRONG_PIN_LEN => -87,
            WlanError::EAP_WRONG_METHOD => -88,
            WlanError::PASSWORD_ERROR => -89,
            WlanError::EAP_ANONYMOUS_LEN_ERROR => -90,
            WlanError::SSID_LEN_ERROR => -91,
            WlanError::USER_ID_LEN_ERROR => -92,
            WlanError::ILLEGAL_WEP_KEY_INDEX => -95,
            WlanError::INVALID_DWELL_TIME_VALUES => -96,
            WlanError::INVALID_POLICY_TYPE => -97,
            WlanError::PM_POLICY_INVALID_OPTION => -98,
            WlanError::PM_POLICY_INVALID_PARAMS => -99,
            WlanError::WIFI_ALREADY_DISCONNECTED => -129,
            WlanError::WIFI_NOT_CONNECTED => -59,
        }
    }

    /// The vendor's numeric code for this value.
    pub fn code(self) -> (r: i32)
        ensures
            r == self.spec_code(),
    {
        match self {
            WlanError::ROLE_STA_ERR => -1,
            WlanError::ROLE_AP_ERR => -2,
            WlanError::KEY_ERROR => -3,
            WlanError::INVALID_ROLE => -71,
            WlanError::INVALID_SECURITY_TYPE => -84,
            WlanError::PASSPHRASE_TOO_LONG => -85,
            WlanError::WPS_NO_PIN_OR_WRONG_PIN_LEN => -87,
            WlanError::EAP_WRONG_METHOD => -88,
            WlanError::PASSWORD_ERROR => -89,
            WlanError::EAP_ANONYMOUS_LEN_ERROR => -90,
            WlanError::SSID_LEN_ERROR => -91,
            WlanError::USER_ID_LEN_ERROR => -92,
            WlanError::ILLEGAL_WEP_KEY_INDEX => -95,
            WlanError::INVALID_DWELL_TIME_VALUES => -96,
            WlanError::INVALID_POLICY_TYPE => -97,
            WlanError::PM_POLICY_INVALID_OPTION => -98,
            WlanError::PM_POLICY_INVALID_PARAMS => -99,
            WlanError::WIFI_ALREADY_DISCONNECTED => -129,
            WlanError::WIFI_NOT_CONNECTED => -59,
        }
    }

    /// What decoding `v` gives: the value whose code is `v`, or a
    /// `ValueError` that carries `v` when there is none.
    pub open spec fn decoded(v: i32) -> Result<WlanError, SimpleLinkError> {
        if exists|e: WlanError| e.spec_code() == v {
            Ok(choose|e: WlanError| e.spec_code() == v)
        } else {
            Err(SimpleLinkError::ValueError(EnumKind::WlanError, v))
        }
    }

    spec fn by_code(v: int) -> Option<WlanError> {
        if v == -1 {
            Some(WlanError::ROLE_STA_ERR)
        } else if v == -2 {
            Some(WlanError::ROLE_AP_ERR)
        } else if v == -3 {
            Some(WlanError::KEY_ERROR)
        } else if v == -71 {
            Some(WlanError::INVALID_ROLE)
        } else if v == -84 {
            Some(WlanError::INVALID_SECURITY_TYPE)
        } else if v == -85 {
            Some(WlanError::PASSPHRASE_TOO_LONG)
        } else if v == -87 {
            Some(WlanError::WPS_NO_PIN_OR_WRONG_PIN_LEN)
        } else if v == -88 {
            Some(WlanError::EAP_WRONG_METHOD)
        } else if v == -89 {
            Some(WlanError::PASSWORD_ERROR)
        } else if v == -90 {
            Some(WlanError::EAP_ANONYMOUS_LEN_ERROR)
        } else if v == -91 {
            Some(WlanError::SSID_LEN_ERROR)
        } else if v == -92 {
            Some(WlanError::USER_ID_LEN_ERROR)
        } else if v == -95 {
            Some(WlanError::ILLEGAL_WEP_KEY_INDEX)
        } else if v == -96 {
            Some(WlanError::INVALID_DWELL_TIME_VALUES)
        } else if v == -97 {
            Some(WlanError::INVALID_POLICY_TYPE)
        } else if v == -98 {
            Some(WlanError::PM_POLICY_INVALID_OPTION)
        } else if v == -99 {
            Some(WlanError::PM_POLICY_INVALID_PARAMS)
        } else if v == -129 {
            Some(WlanError::WIFI_ALREADY_DISCONNECTED)
        } else if v == -59 {
            Some(WlanError::WIFI_NOT_CONNECTED)
        } else {
            None
        }
    }

    /// Decodes a vendor code. Every code outside the set is an error that
    /// carries the code, never a guess at a nearby variant.
    pub fn try_from_code(v: i32) -> (r: Result<WlanError, SimpleLinkError>)
        ensures
            r == WlanError::decoded(v),
    {
        let r = match v {
            -1 => Ok(WlanError::ROLE_STA_ERR),
            -2 => Ok(WlanError::ROLE_AP_ERR),
            -3 => Ok(WlanError::KEY_ERROR),
            -71 => Ok(WlanError::INVALID_ROLE),
            -84 => Ok(WlanError::INVALID_SECURITY_TYPE),
            -85 => Ok(WlanError::PASSPHRASE_TOO_LONG),
            -87 => Ok(WlanError::WPS_NO_PIN_OR_WRONG_PIN_LEN),
            -88 => Ok(WlanError::EAP_WRONG_METHOD),
            -89 => Ok(WlanError::PASSWORD_ERROR),
            -90 => Ok(WlanError::EAP_ANONYMOUS_LEN_ERROR),
            -91 => Ok(WlanError::SSID_LEN_ERROR),
            -92 => Ok(WlanError::USER_ID_LEN_ERROR),
            -95 => Ok(WlanError::ILLEGAL_WEP_KEY_INDEX),
            -96 => Ok(WlanError::INVALID_DWELL_TIME_VALUES),
            -97 => Ok(WlanError::INVALID_POLICY_TYPE),
            -98 => Ok(WlanError::PM_POLICY_INVALID_OPTION),
            -99 => Ok(WlanError::PM_POLICY_INVALID_PARAMS),
            -129 => Ok(WlanError::WIFI_ALREADY_DISCONNECTED),
            -59 => Ok(WlanError::WIFI_NOT_CONNECTED),
            _ => Err(SimpleLinkError::ValueError(EnumKind::WlanError, v)),
        };
        proof {
            if let Ok(e) = r {
                WlanError::lemma_decode_code(e);
            }
        }
        r
    }

    /// Every variant decodes back from its own code.
    pub proof fn lemma_decode_code(e: WlanError)
        ensures
            WlanError::decoded(e.spec_code() as i32) == Ok::<WlanError, SimpleLinkError>(e),
    {
        assert(WlanError::by_code(e.spec_code()) == Some(e));
        assert forall|e2: WlanError| e2.spec_code() == e.spec_code() implies e2 == e by {
            assert(WlanError::by_code(e2.spec_code()) == Some(e2));
        }
    }

    /// A code that no variant has decodes to a `ValueError` carrying it.
    pub proof fn lemma_decode_unknown(v: i32)
        requires
            forall|e: WlanError| e.spec_code() != v,
        ensures
            WlanError::decoded(v) == Err::<WlanError, SimpleLinkError>(SimpleLinkError::ValueError(EnumKind::WlanError, v)),
    {
    }
}

/// Errors of the vendor's operating-system interface.
#[allow(non_camel_case_types)]
#[derive(Clone, Copy, Debug, PartialEq, Eq, Structural)]
pub enum OsiError {
    OSI_FAILURE,
    OSI_OPERATION_FAILED,
    OSI_ABORTED,
    OSI_INVALID_PARAMS,
    OSI_MEMORY_ALLOCATION_FAILURE,
    OSI_TIMEOUT,
    OSI_EVENTS_IN_USE,
    OSI_EVENT_OPEARTION_FAILURE,
}

impl OsiError {
    /// The vendor's numeric code for this value.
    pub open spec fn spec_code(self) -> int {
        match self {
            OsiError::OSI_FAILURE => -1,
            OsiError::OSI_OPERATION_FAILED => -2,
            OsiError::OSI_ABORTED => -3,
            OsiError::OSI_INVALID_PARAMS => -4,
            OsiError::OSI_MEMORY_ALLOCATION_FAILURE => -5,
            OsiError::OSI_TIMEOUT => -6,
            OsiError::OSI_EVENTS_IN_USE => -7,
            OsiError::OSI_EVENT_OPEARTION_FAILURE => -8,
        }
    }

    /// The vendor's numeric code for this value.
    pub fn code(self) -> (r: i32)
        ensures
            r == self.spec_code(),
    {
        match self {
            OsiError::OSI_FAILURE => -1,
            OsiError::OSI_OPERATION_FAILED => -2,
            OsiError::OSI_ABORTED => -3,
            OsiError::OSI_INVALID_PARAMS => -4,
            OsiError::OSI_MEMORY_ALLOCATION_FAILURE => -5,
            OsiError::OSI_TIMEOUT => -6,
            OsiError::OSI_EVENTS_IN_USE => -7,
            OsiError::OSI_EVENT_OPEARTION_FAILURE => -8,
        }
    }

    /// What decoding `v` gives: the value whose code is `v`, or a
    /// `ValueError` that carries `v` when there is none.
    pub open spec fn decoded(v: i32) -> Result<OsiError, SimpleLinkError> {
        if exists|e: OsiError| e.spec_code() == v {
            Ok(choose|e: OsiError| e.spec_code() == v)
        } else {
            Err(SimpleLinkError::ValueError(EnumKind::OsiError, v))
        }
    }

    spec fn by_code(v: int) -> Option<OsiError> {
        if v == -1 {
            Some(OsiError::OSI_FAILURE)
        } else if v == -2 {
            Some(OsiError::OSI_OPERATION_FAILED)
        } else if v == -3 {
            Some(OsiError::OSI_ABORTED)
        } else if v == -4 {
            Some(OsiError::OSI_INVALID_PARAMS)
        } else if v == -5 {
            Some(OsiError::OSI_MEMORY_ALLOCATION_FAILURE)
        } else if v == -6 {
            Some(OsiError::OSI_TIMEOUT)
        } else if v == -7 {
            Some(OsiError::OSI_EVENTS_IN_USE)
        } else if v == -8 {
            Some(OsiError::OSI_EVENT_OPEARTION_FAILURE)
        } else {
            None
        }
    }

    /// Decodes a vendor code. Every code outside the set is an error that
    /// carries the code, never a guess at a nearby variant.
    pub fn try_from_code(v: i32) -> (r: Result<OsiError, SimpleLinkError>)
        ensures
            r == OsiError::decoded(v),
    {
        let r = match v {
            -1 => Ok(OsiError::OSI_FAILURE),
            -2 => Ok(OsiError::OSI_OPERATION_FAILED),
            -3 => Ok(OsiError::OSI_ABORTED),
            -4 => Ok(OsiError::OSI_INVALID_PARAMS),
            -5 => Ok(OsiError::OSI_MEMORY_ALLOCATION_FAILURE),
            -6 => Ok(OsiError::OSI_TIMEOUT),
            -7 => Ok(OsiError::OSI_EVENTS_IN_USE),
            -8 => Ok(OsiError::OSI_EVENT_OPEARTION_FAILURE),
            _ => Err(SimpleLinkError::ValueError(EnumKind::OsiError, v)),
        };
        proof {
            if let Ok(e) = r {
                OsiError::lemma_decode_code(e);
            }
        }
        r
    }

    /// Every variant decodes back from its own code.
    pub proof fn lemma_decode_code(e: OsiError)
        ensures
            OsiError::decoded(e.spec_code() as i32) == Ok::<OsiError, SimpleLinkError>(e),
    {
        assert(OsiError::by_code(e.spec_code()) == Some(e));
        assert forall|e2: OsiError| e2.spec_code() == e.spec_code() implies e2 == e by {
            assert(OsiError::by_code(e2.spec_code()) == Some(e2));
        }
    }

    /// A code that no variant has decodes to a `ValueError` carrying it.
    pub proof fn lemma_decode_unknown(v: i32)
        requires
            forall|e: OsiError| e.spec_code() != v,
        ensures
            OsiError::decoded(v) == Err::<OsiError, SimpleLinkError>(SimpleLinkError::ValueError(EnumKind::OsiError, v)),
    {
    }
}

/// Errors of the vendor's file system.
#[allow(non_camel_case_types)]
#[derive(Clone, Copy, Debug, PartialEq, Eq, Structural)]
pub enum FileSystemError {
    NOT_SUPPORTED,
    FAILED_TO_READ,
    INVALID_MAGIC_NUM,
    DEVICE_NOT_LOADED,
    FAILED_TO_CREATE_LOCK_OBJ,
    UNKNOWN,
    FS_ALREADY_LOADED,
    FAILED_TO_CREATE_FILE,
    INVALID_ARGS,
    EMPTY_ERROR,
    FILE_NOT_EXISTS,
    INVALID_FILE_ID,
    READ_DATA_LENGTH,
    ALLOC,
    OFFSET_OUT_OF_RANGE,
    FAILED_TO_WRITE,
    INVALID_HANDLE,
    FAILED_LOAD_FILE,
    CONTINUE_WRITE_MUST_BE_MOD_4,
    FAILED_INIT_STORAGE,
    FAILED_READ_NVFILE,
    BAD_FILE_MODE,
    FILE_ACCESS_IS_DIFFERENT,
    NO_ENTRIES_AVAILABLE,
    PROGRAM,
    FILE_ALREADY_EXISTS,
    INVALID_ACCESS_TYPE,
    FILE_EXISTS_ON_DIFFERENT_DEVICE_ID,
    FILE_MAX_SIZE_BIGGER_THAN_EXISTING_FILE,
    NO_AVAILABLE_BLOCKS,
    FAILED_TO_READ_INTEGRITY_HEADER_1,
    FAILED_TO_READ_INTEGRITY_HEADER_2,
    FAILED_TO_ALLOCATE_MEM,
    NO_AVAILABLE_NV_INDEX,
    FAILED_WRITE_NVMEM_HEADER,
    DEVICE_IS_NOT_FORMATTED,
    WARNING_FILE_NAME_NOT_KEPT,
    SIZE_OF_FILE_EXT_EXCEEDED,
    FILE_IMAGE_IS_CORRUPTED,
    INVALID_BUFFER_FOR_WRITE,
    INVALID_BUFFER_FOR_READ,
    FILE_MAX_SIZE_EXCEEDED,
    MAX_FS_FILES_IS_SMALLER,
    MAX_FS_FILES_IS_LARGER,
    FILE_HAS_RESERVED_NV_INDEX,
    OVERLAP_DETECTION_THRESHHOLD,
    DATA_IS_NOT_ALIGNED,
    DATA_ADDRESS_SHOUD_BE_IN_DATA_RAM,
    NO_DEVICE_IS_LOADED,
    TOKEN_IS_NOT_VALID,
    FILE_UNVALID_FILE_SIZE,
    SECURITY_ALLERT,
    FILE_SYSTEM_IS_LOCKED,
    WRONG_FILE_NAME,
    FAILED_READ_NVMEM_HEADER,
    INCORRECT_OFFSET_ALIGNMENT,
    SECURE_FILE_MUST_BE_COMMIT,
    SECURITY_BUF_ALREADY_ALLOC,
    FILE_NAME_EXIST,
    CERT_CHAIN_ERROR,
    NOT_16_ALIGNED,
    WRONG_SIGNATURE_OR_CERTIFIC_NAME_LENGTH,
    WRONG_SIGNATURE,
    FILE_HAS_NOT_BEEN_CLOSE_CORRECTLY,
    ERASING_FLASH,
    FILE_IS_NOT_SECURE_AND_SIGN,
    EMPTY_SFLASH,
}

impl FileSystemError {
    /// The codes run without gaps from -67 to -1.
    pub proof fn lemma_codes_cover(v: i32)
        ensures
            (exists|e: FileSystemError| e.spec_code() == v) <==> (-67 <= v <= -1),
    {
        if -67 <= v <= -1 {
            let e = FileSystemError::by_code(v as int)->Some_0;
            assert(FileSystemError::by_code(v as int) is Some);
            FileSystemError::lemma_by_code_inverse(v as int);
            assert(e.spec_code() == v);
        }
    }

    proof fn lemma_by_code_inverse(v: int)
        requires
            FileSystemError::by_code(v) is Some,
        ensures
            FileSystemError::by_code(v)->Some_0.spec_code() == v,
    {
    }

    /// The vendor's numeric code for this value.
    pub open spec fn spec_code(self) -> int {
        match self {
            FileSystemError::NOT_SUPPORTED => -1,
            FileSystemError::FAILED_TO_READ => -2,
            FileSystemError::INVALID_MAGIC_NUM => -3,
            FileSystemError::DEVICE_NOT_LOADED => -4,
            FileSystemError::FAILED_TO_CREATE_LOCK_OBJ => -5,
            FileSystemError::UNKNOWN => -6,
            FileSystemError::FS_ALREADY_LOADED => -7,
            FileSystemError::FAILED_TO_CREATE_FILE => -8,
            FileSystemError::INVALID_ARGS => -9,
            FileSystemError::EMPTY_ERROR => -10,
            FileSystemError::FILE_NOT_EXISTS => -11,
            FileSystemError::INVALID_FILE_ID => -12,
            FileSystemError::READ_DATA_LENGTH => -13,
            FileSystemError::ALLOC => -14,
            FileSystemError::OFFSET_OUT_OF_RANGE => -15,
            FileSystemError::FAILED_TO_WRITE => -16,
            FileSystemError::INVALID_HANDLE => -17,
            FileSystemError::FAILED_LOAD_FILE => -18,
            FileSystemError::CONTINUE_WRITE_MUST_BE_MOD_4 => -19,
            FileSystemError::FAILED_INIT_STORAGE => -20,
            FileSystemError::FAILED_READ_NVFILE => -21,
            FileSystemError::BAD_FILE_MODE => -22,
            FileSystemError::FILE_ACCESS_IS_DIFFERENT => -23,
            FileSystemError::NO_ENTRIES_AVAILABLE => -24,
            FileSystemError::PROGRAM => -25,
            FileSystemError::FILE_ALREADY_EXISTS => -26,
            FileSystemError::INVALID_ACCESS_TYPE => -27,
            FileSystemError::FILE_EXISTS_ON_DIFFERENT_DEVICE_ID => -28,
            FileSystemError::FILE_MAX_SIZE_BIGGER_THAN_EXISTING_FILE => -29,
            FileSystemError::NO_AVAILABLE_BLOCKS => -30,
            FileSystemError::FAILED_TO_READ_INTEGRITY_HEADER_1 => -31,
            FileSystemError::FAILED_TO_READ_INTEGRITY_HEADER_2 => -32,
            FileSystemError::FAILED_TO_ALLOCATE_MEM => -33,
            FileSystemError::NO_AVAILABLE_NV_INDEX => -34,
            FileSystemError::FAILED_WRITE_NVMEM_HEADER => -35,
            FileSystemError::DEVICE_IS_NOT_FORMATTED => -36,
            FileSystemError::WARNING_FILE_NAME_NOT_KEPT => -37,
            FileSystemError::SIZE_OF_FILE_EXT_EXCEEDED => -38,
            FileSystemError::FILE_IMAGE_IS_CORRUPTED => -39,
            FileSystemError::INVALID_BUFFER_FOR_WRITE => -40,
            FileSystemError::INVALID_BUFFER_FOR_READ => -41,
            FileSystemError::FILE_MAX_SIZE_EXCEEDED => -42,
            FileSystemError::MAX_FS_FILES_IS_SMALLER => -43,
            FileSystemError::MAX_FS_FILES_IS_LARGER => -44,
            FileSystemError::FILE_HAS_RESERVED_NV_INDEX => -45,
            FileSystemError::OVERLAP_DETECTION_THRESHHOLD => -46,
            FileSystemError::DATA_IS_NOT_ALIGNED => -47,
            FileSystemError::DATA_ADDRESS_SHOUD_BE_IN_DATA_RAM => -48,
            FileSystemError::NO_DEVICE_IS_LOADED => -49,
            FileSystemError::TOKEN_IS_NOT_VALID => -50,
            FileSystemError::FILE_UNVALID_FILE_SIZE => -51,
            FileSystemError::SECURITY_ALLERT => -52,
            FileSystemError::FILE_SYSTEM_IS_LOCKED => -53,
            FileSystemError::WRONG_FILE_NAME => -54,
            FileSystemError::FAILED_READ_NVMEM_HEADER => -55,
            FileSystemError::INCORRECT_OFFSET_ALIGNMENT => -56,
            FileSystemError::SECURE_FILE_MUST_BE_COMMIT => -57,
            FileSystemError::SECURITY_BUF_ALREADY_ALLOC => -58,
            FileSystemError::FILE_NAME_EXIST => -59,
            FileSystemError::CERT_CHAIN_ERROR => -60,
            FileSystemError::NOT_16_ALIGNED => -61,
            FileSystemError::WRONG_SIGNATURE_OR_CERTIFIC_NAME_LENGTH => -62,
            FileSystemError::WRONG_SIGNATURE => -63,
            FileSystemError::FILE_HAS_NOT_BEEN_CLOSE_CORRECTLY => -64,
            FileSystemError::ERASING_FLASH => -65,
            FileSystemError::FILE_IS_NOT_SECURE_AND_SIGN => -66,
            FileSystemError::EMPTY_SFLASH => -67,
        }
    }

    /// The vendor's numeric code for this value.
    pub fn code(self) -> (r: i32)
        ensures
            r == self.spec_code(),
    {
        match self {
            FileSystemError::NOT_SUPPORTED => -1,
            FileSystemError::FAILED_TO_READ => -2,
            FileSystemError::INVALID_MAGIC_NUM => -3,
            FileSystemError::DEVICE_NOT_LOADED => -4,
            FileSystemError::FAILED_TO_CREATE_LOCK_OBJ => -5,
            FileSystemError::UNKNOWN => -6,
            FileSystemError::FS_ALREADY_LOADED => -7,
            FileSystemError::FAILED_TO_CREATE_FILE => -8,
            FileSystemError::INVALID_ARGS => -9,
            FileSystemError::EMPTY_ERROR => -10,
            FileSystemError::FILE_NOT_EXISTS => -11,
            FileSystemError::INVALID_FILE_ID => -12,
            FileSystemError::READ_DATA_LENGTH => -13,
            FileSystemError::ALLOC => -14,
            FileSystemError::OFFSET_OUT_OF_RANGE => -15,
            FileSystemError::FAILED_TO_WRITE => -16,
            FileSystemError::INVALID_HANDLE => -17,
            FileSystemError::FAILED_LOAD_FILE => -18,
            FileSystemError::CONTINUE_WRITE_MUST_BE_MOD_4 => -19,
            FileSystemError::FAILED_INIT_STORAGE => -20,
            FileSystemError::FAILED_READ_NVFILE => -21,
            FileSystemError::BAD_FILE_MODE => -22,
            FileSystemError::FILE_ACCESS_IS_DIFFERENT => -23,
            FileSystemError::NO_ENTRIES_AVAILABLE => -24,
            FileSystemError::PROGRAM => -25,
            FileSystemError::FILE_ALREADY_EXISTS => -26,
            FileSystemError::INVALID_ACCESS_TYPE => -27,
            FileSystemError::FILE_EXISTS_ON_DIFFERENT_DEVICE_ID => -28,
            FileSystemError::FILE_MAX_SIZE_BIGGER_THAN_EXISTING_FILE => -29,
            FileSystemError::NO_AVAILABLE_BLOCKS => -30,
            FileSystemError::FAILED_TO_READ_INTEGRITY_HEADER_1 => -31,
            FileSystemError::FAILED_TO_READ_INTEGRITY_HEADER_2 => -32,
            FileSystemError::FAILED_TO_ALLOCATE_MEM => -33,
            FileSystemError::NO_AVAILABLE_NV_INDEX => -34,
            FileSystemError::FAILED_WRITE_NVMEM_HEADER => -35,
            FileSystemError::DEVICE_IS_NOT_FORMATTED => -36,
            FileSystemError::WARNING_FILE_NAME_NOT_KEPT => -37,
            FileSystemError::SIZE_OF_FILE_EXT_EXCEEDED => -38,
            FileSystemError::FILE_IMAGE_IS_CORRUPTED => -39,
            FileSystemError::INVALID_BUFFER_FOR_WRITE => -40,
            FileSystemError::INVALID_BUFFER_FOR_READ => -41,
            FileSystemError::FILE_MAX_SIZE_EXCEEDED => -42,
            FileSystemError::MAX_FS_FILES_IS_SMALLER => -43,
            FileSystemError::MAX_FS_FILES_IS_LARGER => -44,
            FileSystemError::FILE_HAS_RESERVED_NV_INDEX => -45,
            FileSystemError::OVERLAP_DETECTION_THRESHHOLD => -46,
            FileSystemError::DATA_IS_NOT_ALIGNED => -47,
            FileSystemError::DATA_ADDRESS_SHOUD_BE_IN_DATA_RAM => -48,
            FileSystemError::NO_DEVICE_IS_LOADED => -49,
            FileSystemError::TOKEN_IS_NOT_VALID => -50,
            FileSystemError::FILE_UNVALID_FILE_SIZE => -51,
            FileSystemError::SECURITY_ALLERT => -52,
            FileSystemError::FILE_SYSTEM_IS_LOCKED => -53,
            FileSystemError::WRONG_FILE_NAME => -54,
            FileSystemError::FAILED_READ_NVMEM_HEADER => -55,
            FileSystemError::INCORRECT_OFFSET_ALIGNMENT => -56,
            FileSystemError::SECURE_FILE_MUST_BE_COMMIT => -57,
            FileSystemError::SECURITY_BUF_ALREADY_ALLOC => -58,
            FileSystemError::FILE_NAME_EXIST => -59,
            FileSystemError::CERT_CHAIN_ERROR => -60,
            FileSystemError::NOT_16_ALIGNED => -61,
            FileSystemError::WRONG_SIGNATURE_OR_CERTIFIC_NAME_LENGTH => -62,
            FileSystemError::WRONG_SIGNATURE => -63,
            FileSystemError::FILE_HAS_NOT_BEEN_CLOSE_CORRECTLY => -64,
            FileSystemError::ERASING_FLASH => -65,
            FileSystemError::FILE_IS_NOT_SECURE_AND_SIGN => -66,
            FileSystemError::EMPTY_SFLASH => -67,
        }
    }

    /// What decoding `v` gives: the value whose code is `v`, or a
    /// `ValueError` that carries `v` when there is none.
    pub open spec fn decoded(v: i32) -> Result<FileSystemError, SimpleLinkError> {
        if exists|e: FileSystemError| e.spec_code() == v {
            Ok(choose|e: FileSystemError| e.spec_code() == v)
        } else {
            Err(SimpleLinkError::ValueError(EnumKind::FileSystemError, v))
        }
    }

    spec fn by_code(v: int) -> Option<FileSystemError> {
        if v == -1 {
            Some(FileSystemError::NOT_SUPPORTED)
        } else if v == -2 {
            Some(FileSystemError::FAILED_TO_READ)
        } else if v == -3 {
            Some(FileSystemError::INVALID_MAGIC_NUM)
        } else if v == -4 {
            Some(FileSystemError::DEVICE_NOT_LOADED)
        } else if v == -5 {
            Some(FileSystemError::FAILED_TO_CREATE_LOCK_OBJ)
        } else if v == -6 {
            Some(FileSystemError::UNKNOWN)
        } else if v == -7 {
            Some(FileSystemError::FS_ALREADY_LOADED)
        } else if v == -8 {
            Some(FileSystemError::FAILED_TO_CREATE_FILE)
        } else if v == -9 {
            Some(FileSystemError::INVALID_ARGS)
        } else if v == -10 {
            Some(FileSystemError::EMPTY_ERROR)
        } else if v == -11 {
            Some(FileSystemError::FILE_NOT_EXISTS)
        } else if v == -12 {
            Some(FileSystemError::INVALID_FILE_ID)
        } else if v == -13 {
            Some(FileSystemError::READ_DATA_LENGTH)
        } else if v == -14 {
            Some(FileSystemError::ALLOC)
        } else if v == -15 {
            Some(FileSystemError::OFFSET_OUT_OF_RANGE)
        } else if v == -16 {
            Some(FileSystemError::FAILED_TO_WRITE)
        } else if v == -17 {
            Some(FileSystemError::INVALID_HANDLE)
        } else if v == -18 {
            Some(FileSystemError::FAILED_LOAD_FILE)
        } else if v == -19 {
            Some(FileSystemError::CONTINUE_WRITE_MUST_BE_MOD_4)
        } else if v == -20 {
            Some(FileSystemError::FAILED_INIT_STORAGE)
        } else if v == -21 {
            Some(FileSystemError::FAILED_READ_NVFILE)
        } else if v == -22 {
            Some(FileSystemError::BAD_FILE_MODE)
        } else if v == -23 {
            Some(FileSystemError::FILE_ACCESS_IS_DIFFERENT)
        } else if v == -24 {
            Some(FileSystemError::NO_ENTRIES_AVAILABLE)
        } else if v == -25 {
            Some(FileSystemError::PROGRAM)
        } else if v == -26 {
            Some(FileSystemError::FILE_ALREADY_EXISTS)
        } else if v == -27 {
            Some(FileSystemError::INVALID_ACCESS_TYPE)
        } else if v == -28 {
            Some(FileSystemError::FILE_EXISTS_ON_DIFFERENT_DEVICE_ID)
        } else if v == -29 {
            Some(FileSystemError::FILE_MAX_SIZE_BIGGER_THAN_EXISTING_FILE)
        } else if v == -30 {
            Some(FileSystemError::NO_AVAILABLE_BLOCKS)
        } else if v == -31 {
            Some(FileSystemError::FAILED_TO_READ_INTEGRITY_HEADER_1)
        } else if v == -32 {
            Some(FileSystemError::FAILED_TO_READ_INTEGRITY_HEADER_2)
        } else if v == -33 {
            Some(FileSystemError::FAILED_TO_ALLOCATE_MEM)
        } else if v == -34 {
            Some(FileSystemError::NO_AVAILABLE_NV_INDEX)
        } else if v == -35 {
            Some(FileSystemError::FAILED_WRITE_NVMEM_HEADER)
        } else if v == -36 {
            Some(FileSystemError::DEVICE_IS_NOT_FORMATTED)
        } else if v == -37 {
            Some(FileSystemError::WARNING_FILE_NAME_NOT_KEPT)
        } else if v == -38 {
            Some(FileSystemError::SIZE_OF_FILE_EXT_EXCEEDED)
        } else if v == -39 {
            Some(FileSystemError::FILE_IMAGE_IS_CORRUPTED)
        } else if v == -40 {
            Some(FileSystemError::INVALID_BUFFER_FOR_WRITE)
        } else if v == -41 {
            Some(FileSystemError::INVALID_BUFFER_FOR_READ)
        } else if v == -42 {
            Some(FileSystemError::FILE_MAX_SIZE_EXCEEDED)
        } else if v == -43 {
            Some(FileSystemError::MAX_FS_FILES_IS_SMALLER)
        } else if v == -44 {
            Some(FileSystemError::MAX_FS_FILES_IS_LARGER)
        } else if v == -45 {
            Some(FileSystemError::FILE_HAS_RESERVED_NV_INDEX)
        } else if v == -46 {
            Some(FileSystemError::OVERLAP_DETECTION_THRESHHOLD)
        } else if v == -47 {
            Some(FileSystemError::DATA_IS_NOT_ALIGNED)
        } else if v == -48 {
            Some(FileSystemError::DATA_ADDRESS_SHOUD_BE_IN_DATA_RAM)
        } else if v == -49 {
            Some(FileSystemError::NO_DEVICE_IS_LOADED)
        } else if v == -50 {
            Some(FileSystemError::TOKEN_IS_NOT_VALID)
        } else if v == -51 {
            Some(FileSystemError::FILE_UNVALID_FILE_SIZE)
        } else if v == -52 {
            Some(FileSystemError::SECURITY_ALLERT)
        } else if v == -53 {
            Some(FileSystemError::FILE_SYSTEM_IS_LOCKED)
        } else if v == -54 {
            Some(FileSystemError::WRONG_FILE_NAME)
        } else if v == -55 {
            Some(FileSystemError::FAILED_READ_NVMEM_HEADER)
        } else if v == -56 {
            Some(FileSystemError::INCORRECT_OFFSET_ALIGNMENT)
        } else if v == -57 {
            Some(FileSystemError::SECURE_FILE_MUST_BE_COMMIT)
        } else if v == -58 {
            Some(FileSystemError::SECURITY_BUF_ALREADY_ALLOC)
        } else if v == -59 {
            Some(FileSystemError::FILE_NAME_EXIST)
        } else if v == -60 {
            Some(FileSystemError::CERT_CHAIN_ERROR)
        } else if v == -61 {
            Some(FileSystemError::NOT_16_ALIGNED)
        } else if v == -62 {
            Some(FileSystemError::WRONG_SIGNATURE_OR_CERTIFIC_NAME_LENGTH)
        } else if v == -63 {
            Some(FileSystemError::WRONG_SIGNATURE)
        } else if v == -64 {
            Some(FileSystemError::FILE_HAS_NOT_BEEN_CLOSE_CORRECTLY)
        } else if v == -65 {
            Some(FileSystemError::ERASING_FLASH)
        } else if v == -66 {
            Some(FileSystemError::FILE_IS_NOT_SECURE_AND_SIGN)
        } else if v == -67 {
            Some(FileSystemError::EMPTY_SFLASH)
        } else {
            None
        }
    }

    /// Decodes a vendor code. Every code outside the set is an error that
    /// carries the code, never a guess at a nearby variant.
    pub fn try_from_code(v: i32) -> (r: Result<FileSystemError, SimpleLinkError>)
        ensures
            r == FileSystemError::decoded(v),
    {
        let r = match v {
            -1 => Ok(FileSystemError::NOT_SUPPORTED),
            -2 => Ok(FileSystemError::FAILED_TO_READ),
            -3 => Ok(FileSystemError::INVALID_MAGIC_NUM),
            -4 => Ok(FileSystemError::DEVICE_NOT_LOADED),
            -5 => Ok(FileSystemError::FAILED_TO_CREATE_LOCK_OBJ),
            -6 => Ok(FileSystemError::UNKNOWN),
            -7 => Ok(FileSystemError::FS_ALREADY_LOADED),
            -8 => Ok(FileSystemError::FAILED_TO_CREATE_FILE),
            -9 => Ok(FileSystemError::INVALID_ARGS),
            -10 => Ok(FileSystemError::EMPTY_ERROR),
            -11 => Ok(FileSystemError::FILE_NOT_EXISTS),
            -12 => Ok(FileSystemError::INVALID_FILE_ID),
            -13 => Ok(FileSystemError::READ_DATA_LENGTH),
            -14 => Ok(FileSystemError::ALLOC),
            -15 => Ok(FileSystemError::OFFSET_OUT_OF_RANGE),
            -16 => Ok(FileSystemError::FAILED_TO_WRITE),
            -17 => Ok(FileSystemError::INVALID_HANDLE),
            -18 => Ok(FileSystemError::FAILED_LOAD_FILE),
            -19 => Ok(FileSystemError::CONTINUE_WRITE_MUST_BE_MOD_4),
            -20 => Ok(FileSystemError::FAILED_INIT_STORAGE),
            -21 => Ok(FileSystemError::FAILED_READ_NVFILE),
            -22 => Ok(FileSystemError::BAD_FILE_MODE),
            -23 => Ok(FileSystemError::FILE_ACCESS_IS_DIFFERENT),
            -24 => Ok(FileSystemError::NO_ENTRIES_AVAILABLE),
            -25 => Ok(FileSystemError::PROGRAM),
            -26 => Ok(FileSystemError::FILE_ALREADY_EXISTS),
            -27 => Ok(FileSystemError::INVALID_ACCESS_TYPE),
            -28 => Ok(FileSystemError::FILE_EXISTS_ON_DIFFERENT_DEVICE_ID),
            -29 => Ok(FileSystemError::FILE_MAX_SIZE_BIGGER_THAN_EXISTING_FILE),
            -30 => Ok(FileSystemError::NO_AVAILABLE_BLOCKS),
            -31 => Ok(FileSystemError::FAILED_TO_READ_INTEGRITY_HEADER_1),
            -32 => Ok(FileSystemError::FAILED_TO_READ_INTEGRITY_HEADER_2),
            -33 => Ok(FileSystemError::FAILED_TO_ALLOCATE_MEM),
            -34 => Ok(FileSystemError::NO_AVAILABLE_NV_INDEX),
            -35 => Ok(FileSystemError::FAILED_WRITE_NVMEM_HEADER),
            -36 => Ok(FileSystemError::DEVICE_IS_NOT_FORMATTED),
            -37 => Ok(FileSystemError::WARNING_FILE_NAME_NOT_KEPT),
            -38 => Ok(FileSystemError::SIZE_OF_FILE_EXT_EXCEEDED),
            -39 => Ok(FileSystemError::FILE_IMAGE_IS_CORRUPTED),
            -40 => Ok(FileSystemError::INVALID_BUFFER_FOR_WRITE),
            -41 => Ok(FileSystemError::INVALID_BUFFER_FOR_READ),
            -42 => Ok(FileSystemError::FILE_MAX_SIZE_EXCEEDED),
            -43 => Ok(FileSystemError::MAX_FS_FILES_IS_SMALLER),
            -44 => Ok(FileSystemError::MAX_FS_FILES_IS_LARGER),
            -45 => Ok(FileSystemError::FILE_HAS_RESERVED_NV_INDEX),
            -46 => Ok(FileSystemError::OVERLAP_DETECTION_THRESHHOLD),
            -47 => Ok(FileSystemError::DATA_IS_NOT_ALIGNED),
            -48 => Ok(FileSystemError::DATA_ADDRESS_SHOUD_BE_IN_DATA_RAM),
            -49 => Ok(FileSystemError::NO_DEVICE_IS_LOADED),
            -50 => Ok(FileSystemError::TOKEN_IS_NOT_VALID),
            -51 => Ok(FileSystemError::FILE_UNVALID_FILE_SIZE),
            -52 => Ok(FileSystemError::SECURITY_ALLERT),
            -53 => Ok(FileSystemError::FILE_SYSTEM_IS_LOCKED),
            -54 => Ok(FileSystemError::WRONG_FILE_NAME),
            -55 => Ok(FileSystemError::FAILED_READ_NVMEM_HEADER),
            -56 => Ok(FileSystemError::INCORRECT_OFFSET_ALIGNMENT),
            -57 => Ok(FileSystemError::SECURE_FILE_MUST_BE_COMMIT),
            -58 => Ok(FileSystemError::SECURITY_BUF_ALREADY_ALLOC),
            -59 => Ok(FileSystemError::FILE_NAME_EXIST),
            -60 => Ok(FileSystemError::CERT_CHAIN_ERROR),
            -61 => Ok(FileSystemError::NOT_16_ALIGNED),
            -62 => Ok(FileSystemError::WRONG_SIGNATURE_OR_CERTIFIC_NAME_LENGTH),
            -63 => Ok(FileSystemError::WRONG_SIGNATURE),
            -64 => Ok(FileSystemError::FILE_HAS_NOT_BEEN_CLOSE_CORRECTLY),
            -65 => Ok(FileSystemError::ERASING_FLASH),
            -66 => Ok(FileSystemError::FILE_IS_NOT_SECURE_AND_SIGN),
            -67 => Ok(FileSystemError::EMPTY_SFLASH),
            _ => Err(SimpleLinkError::ValueError(EnumKind::FileSystemError, v)),
        };
        proof {
            if let Ok(e) = r {
                FileSystemError::lemma_decode_code(e);
            }
        }
        r
    }

    /// Every variant decodes back from its own code.
    pub proof fn lemma_decode_code(e: FileSystemError)
        ensures
            FileSystemError::decoded(e.spec_code() as i32) == Ok::<FileSystemError, SimpleLinkError>(e),
    {
        assert(FileSystemError::by_code(e.spec_code()) == Some(e));
        assert forall|e2: FileSystemError| e2.spec_code() == e.spec_code() implies e2 == e by {
            assert(FileSystemError::by_code(e2.spec_code()) == Some(e2));
        }
    }

    /// A code that no variant has decodes to a `ValueError` carrying it.
    pub proof fn lemma_decode_unknown(v: i32)
        requires
            forall|e: FileSystemError| e.spec_code() != v,
        ensures
            FileSystemError::decoded(v) == Err::<FileSystemError, SimpleLinkError>(SimpleLinkError::ValueError(EnumKind::FileSystemError, v)),
    {
    }
}

/// Status codes of the vendor's socket layer; `SOC_OK` is success.
#[allow(non_camel_case_types)]
#[derive(Clone, Copy, Debug, PartialEq, Eq, Structural)]
pub enum SocketError {
    SOC_ERROR,
    SOC_OK,
    INEXE,
    EBADF,
    ENSOCK,
    EAGAIN,
    ENOMEM,
    EACCES,
    EFAULT,
    ECLOSE,
    EALREADY_ENABLED,
    EINVAL,
    EAUTO_CONNECT_OR_CONNECTING,
    CONNECTION_PENDING,
    EUNSUPPORTED_ROLE,
    EDESTADDRREQ,
    EPROTOTYPE,
    ENOPROTOOPT,
    EPROTONOSUPPORT,
    ESOCKTNOSUPPORT,
    EOPNOTSUPP,
    EAFNOSUPPORT,
    EADDRINUSE,
    EADDRNOTAVAIL,
    ENETUNREACH,
    ENOBUFS,
    EISCONN,
    ENOTCONN,
    ETIMEDOUT,
    ECONNREFUSED,
    EALREADY,
    ESEC_RSA_WRONG_TYPE_E,
    ESEC_RSA_BUFFER_E,
    ESEC_BUFFER_E,
    ESEC_ALGO_ID_E,
    ESEC_PUBLIC_KEY_E,
    ESEC_DATE_E,
    ESEC_SUBJECT_E,
    ESEC_ISSUER_E,
    ESEC_CA_TRUE_E,
    ESEC_EXTENSIONS_E,
    ESEC_ASN_PARSE_E,
    ESEC_ASN_VERSION_E,
    ESEC_ASN_GETINT_E,
    ESEC_ASN_RSA_KEY_E,
    ESEC_ASN_OBJECT_ID_E,
    ESEC_ASN_TAG_NULL_E,
    ESEC_ASN_EXPECT_0_E,
    ESEC_ASN_BITSTR_E,
    ESEC_ASN_UNKNOWN_OID_E,
    ESEC_ASN_DATE_SZ_E,
    ESEC_ASN_BEFORE_DATE_E,
    ESEC_ASN_AFTER_DATE_E,
    ESEC_ASN_SIG_OID_E,
    ESEC_ASN_TIME_E,
    ESEC_ASN_INPUT_E,
    ESEC_ASN_SIG_CONFIRM_E,
    ESEC_ASN_SIG_HASH_E,
    ESEC_ASN_SIG_KEY_E,
    ESEC_ASN_DH_KEY_E,
    ESEC_ASN_NTRU_KEY_E,
    ESEC_ECC_BAD_ARG_E,
    ESEC_ASN_ECC_KEY_E,
    ESEC_ECC_CURVE_OID_E,
    ESEC_BAD_FUNC_ARG,
    ESEC_NOT_COMPILED_IN,
    ESEC_UNICODE_SIZE_E,
    ESEC_NO_PASSWORD,
    ESEC_ALT_NAME_E,
    ESEC_AES_GCM_AUTH_E,
    ESEC_AES_CCM_AUTH_E,
    SOCKET_ERROR_E,
    ESEC_MEMORY_ERROR,
    ESEC_VERIFY_FINISHED_ERROR,
    ESEC_VERIFY_MAC_ERROR,
    ESEC_UNKNOWN_HANDSHAKE_TYPE,
    ESEC_SOCKET_NODATA,
    ESEC_INCOMPLETE_DATA,
    ESEC_UNKNOWN_RECORD_TYPE,
    ESEC_FATAL_ERROR,
    ESEC_ENCRYPT_ERROR,
    ESEC_NO_PEER_KEY,
    ESEC_NO_PRIVATE_KEY,
    ESEC_RSA_PRIVATE_ERROR,
    ESEC_NO_DH_PARAMS,
    ESEC_BUILD_MSG_ERROR,
    ESEC_BAD_HELLO,
    ESEC_DOMAIN_NAME_MISMATCH,
    ESEC_WANT_READ,
    ESEC_NOT_READY_ERROR,
    ESEC_PMS_VERSION_ERROR,
    ESEC_VERSION_ERROR,
    ESEC_WANT_WRITE,
    ESEC_BUFFER_ERROR,
    ESEC_VERIFY_CERT_ERROR,
    ESEC_VERIFY_SIGN_ERROR,
    ESEC_LENGTH_ERROR,
    ESEC_PEER_KEY_ERROR,
    ESEC_ZERO_RETURN,
    ESEC_SIDE_ERROR,
    ESEC_NO_PEER_CERT,
    ESEC_ECC_CURVETYPE_ERROR,
    ESEC_ECC_CURVE_ERROR,
    ESEC_ECC_PEERKEY_ERROR,
    ESEC_ECC_MAKEKEY_ERROR,
    ESEC_ECC_EXPORT_ERROR,
    ESEC_ECC_SHARED_ERROR,
    ESEC_NOT_CA_ERROR,
    ESEC_BAD_PATH_ERROR,
    ESEC_BAD_CERT_MANAGER_ERROR,
    ESEC_MAX_CHAIN_ERROR,
    ESEC_SUITES_ERROR,
    ESEC_SSL_NO_PEM_HEADER,
    ESEC_OUT_OF_ORDER_E,
    ESEC_SANITY_CIPHER_E,
    ESEC_GEN_COOKIE_E,
    ESEC_NO_PEER_VERIFY,
    ESEC_UNKNOWN_SNI_HOST_NAME_E,
    ESEC_UNSUPPORTED_SUITE,
    ESEC_MATCH_SUITE_ERROR,
    ESEC_CLOSE_NOTIFY,
    ESEC_UNEXPECTED_MESSAGE,
    ESEC_BAD_RECORD_MAC,
    ESEC_DECRYPTION_FAILED,
    ESEC_RECORD_OVERFLOW,
    ESEC_DECOMPRESSION_FAILURE,
    ESEC_HANDSHAKE_FAILURE,
    ESEC_NO_CERTIFICATE,
    ESEC_BAD_CERTIFICATE,
    ESEC_UNSUPPORTED_CERTIFICATE,
    ESEC_CERTIFICATE_REVOKED,
    ESEC_CERTIFICATE_EXPIRED,
    ESEC_CERTIFICATE_UNKNOWN,
    ESEC_ILLEGAL_PARAMETER,
    ESEC_UNKNOWN_CA,
    ESEC_ACCESS_DENIED,
    ESEC_DECODE_ERROR,
    ESEC_DECRYPT_ERROR,
    ESEC_EXPORT_RESTRICTION,
    ESEC_PROTOCOL_VERSION,
    ESEC_INSUFFICIENT_SECURITY,
    ESEC_INTERNAL_ERROR,
    ESEC_USER_CANCELLED,
    ESEC_NO_RENEGOTIATION,
    ESEC_UNSUPPORTED_EXTENSION,
    ESEC_CERTIFICATE_UNOBTAINABLE,
    ESEC_UNRECOGNIZED_NAME,
    ESEC_BAD_CERTIFICATE_STATUS_RESPONSE,
    ESEC_BAD_CERTIFICATE_HASH_VALUE,
    ESECGENERAL,
    ESECDECRYPT,
    ESECCLOSED,
    ESECSNOVERIFY,
    ESECNOCAFILE,
    ESECMEMORY,
    ESECBADCAFILE,
    ESECBADCERTFILE,
    ESECBADPRIVATEFILE,
    ESECBADDHFILE,
    ESECT00MANYSSLOPENED,
    ESECDATEERROR,
    ESECHANDSHAKETIMEDOUT,
}

impl SocketError {
    /// The vendor's numeric code for this value.
    pub open spec fn spec_code(self) -> int {
        match self {
            SocketError::SOC_ERROR => -1,
            SocketError::SOC_OK => 0,
            SocketError::INEXE => -8,
            SocketError::EBADF => -9,
            SocketError::ENSOCK => -10,
            SocketError::EAGAIN => -11,
            SocketError::ENOMEM => -12,
            SocketError::EACCES => -13,
            SocketError::EFAULT => -14,
            SocketError::ECLOSE => -15,
            SocketError::EALREADY_ENABLED => -21,
            SocketError::EINVAL => -22,
            SocketError::EAUTO_CONNECT_OR_CONNECTING => -69,
            SocketError::CONNECTION_PENDING => -72,
            SocketError::EUNSUPPORTED_ROLE => -86,
            SocketError::EDESTADDRREQ => -89,
            SocketError::EPROTOTYPE => -91,
            SocketError::ENOPROTOOPT => -92,
            SocketError::EPROTONOSUPPORT => -93,
            SocketError::ESOCKTNOSUPPORT => -94,
            SocketError::EOPNOTSUPP => -95,
            SocketError::EAFNOSUPPORT => -97,
            SocketError::EADDRINUSE => -98,
            SocketError::EADDRNOTAVAIL => -99,
            SocketError::ENETUNREACH => -101,
            SocketError::ENOBUFS => -105,
            SocketError::EISCONN => -106,
            SocketError::ENOTCONN => -107,
            SocketError::ETIMEDOUT => -110,
            SocketError::ECONNREFUSED => -111,
            SocketError::EALREADY => -114,
            SocketError::ESEC_RSA_WRONG_TYPE_E => -130,
            SocketError::ESEC_RSA_BUFFER_E => -131,
            SocketError::ESEC_BUFFER_E => -132,
            SocketError::ESEC_ALGO_ID_E => -133,
            SocketError::ESEC_PUBLIC_KEY_E => -134,
            SocketError::ESEC_DATE_E => -135,
            SocketError::ESEC_SUBJECT_E => -136,
            SocketError::ESEC_ISSUER_E => -137,
            SocketError::ESEC_CA_TRUE_E => -138,
            SocketError::ESEC_EXTENSIONS_E => -139,
            SocketError::ESEC_ASN_PARSE_E => -140,
            SocketError::ESEC_ASN_VERSION_E => -141,
            SocketError::ESEC_ASN_GETINT_E => -142,
            SocketError::ESEC_ASN_RSA_KEY_E => -143,
            SocketError::ESEC_ASN_OBJECT_ID_E => -144,
            SocketError::ESEC_ASN_TAG_NULL_E => -145,
            SocketError::ESEC_ASN_EXPECT_0_E => -146,
            SocketError::ESEC_ASN_BITSTR_E => -147,
            SocketError::ESEC_ASN_UNKNOWN_OID_E => -148,
            SocketError::ESEC_ASN_DATE_SZ_E => -149,
            SocketError::ESEC_ASN_BEFORE_DATE_E => -150,
            SocketError::ESEC_ASN_AFTER_DATE_E => -151,
            SocketError::ESEC_ASN_SIG_OID_E => -152,
            SocketError::ESEC_ASN_TIME_E => -153,
            SocketError::ESEC_ASN_INPUT_E => -154,
            SocketError::ESEC_ASN_SIG_CONFIRM_E => -155,
            SocketError::ESEC_ASN_SIG_HASH_E => -156,
            SocketError::ESEC_ASN_SIG_KEY_E => -157,
            SocketError::ESEC_ASN_DH_KEY_E => -158,
            SocketError::ESEC_ASN_NTRU_KEY_E => -159,
            SocketError::ESEC_ECC_BAD_ARG_E => -170,
            SocketError::ESEC_ASN_ECC_KEY_E => -171,
            SocketError::ESEC_ECC_CURVE_OID_E => -172,
            SocketError::ESEC_BAD_FUNC_ARG => -173,
            SocketError::ESEC_NOT_COMPILED_IN => -174,
            SocketError::ESEC_UNICODE_SIZE_E => -175,
            SocketError::ESEC_NO_PASSWORD => -176,
            SocketError::ESEC_ALT_NAME_E => -177,
            SocketError::ESEC_AES_GCM_AUTH_E => -180,
            SocketError::ESEC_AES_CCM_AUTH_E => -181,
            SocketError::SOCKET_ERROR_E => -208,
            SocketError::ESEC_MEMORY_ERROR => -203,
            SocketError::ESEC_VERIFY_FINISHED_ERROR => -204,
            SocketError::ESEC_VERIFY_MAC_ERROR => -205,
            SocketError::ESEC_UNKNOWN_HANDSHAKE_TYPE => -207,
            SocketError::ESEC_SOCKET_NODATA => -209,
            SocketError::ESEC_INCOMPLETE_DATA => -210,
            SocketError::ESEC_UNKNOWN_RECORD_TYPE => -211,
            SocketError::ESEC_FATAL_ERROR => -213,
            SocketError::ESEC_ENCRYPT_ERROR => -214,
            SocketError::ESEC_NO_PEER_KEY => -216,
            SocketError::ESEC_NO_PRIVATE_KEY => -217,
            SocketError::ESEC_RSA_PRIVATE_ERROR => -218,
            SocketError::ESEC_NO_DH_PARAMS => -219,
            SocketError::ESEC_BUILD_MSG_ERROR => -220,
            SocketError::ESEC_BAD_HELLO => -221,
            SocketError::ESEC_DOMAIN_NAME_MISMATCH => -222,
            SocketError::ESEC_WANT_READ => -223,
            SocketError::ESEC_NOT_READY_ERROR => -224,
            SocketError::ESEC_PMS_VERSION_ERROR => -225,
            SocketError::ESEC_VERSION_ERROR => -226,
            SocketError::ESEC_WANT_WRITE => -227,
            SocketError::ESEC_BUFFER_ERROR => -228,
            SocketError::ESEC_VERIFY_CERT_ERROR => -229,
            SocketError::ESEC_VERIFY_SIGN_ERROR => -230,
            SocketError::ESEC_LENGTH_ERROR => -241,
            SocketError::ESEC_PEER_KEY_ERROR => -242,
            SocketError::ESEC_ZERO_RETURN => -243,
            SocketError::ESEC_SIDE_ERROR => -244,
            SocketError::ESEC_NO_PEER_CERT => -245,
            SocketError::ESEC_ECC_CURVETYPE_ERROR => -250,
            SocketError::ESEC_ECC_CURVE_ERROR => -251,
            SocketError::ESEC_ECC_PEERKEY_ERROR => -252,
            SocketError::ESEC_ECC_MAKEKEY_ERROR => -253,
            SocketError::ESEC_ECC_EXPORT_ERROR => -254,
            SocketError::ESEC_ECC_SHARED_ERROR => -255,
            SocketError::ESEC_NOT_CA_ERROR => -257,
            SocketError::ESEC_BAD_PATH_ERROR => -258,
            SocketError::ESEC_BAD_CERT_MANAGER_ERROR => -259,
            SocketError::ESEC_MAX_CHAIN_ERROR => -268,
            SocketError::ESEC_SUITES_ERROR => -271,
            SocketError::ESEC_SSL_NO_PEM_HEADER => -272,
            SocketError::ESEC_OUT_OF_ORDER_E => -273,
            SocketError::ESEC_SANITY_CIPHER_E => -275,
            SocketError::ESEC_GEN_COOKIE_E => -277,
            SocketError::ESEC_NO_PEER_VERIFY => -278,
            SocketError::ESEC_UNKNOWN_SNI_HOST_NAME_E => -281,
            SocketError::ESEC_UNSUPPORTED_SUITE => -290,
            SocketError::ESEC_MATCH_SUITE_ERROR => -291,
            SocketError::ESEC_CLOSE_NOTIFY => -300,
            SocketError::ESEC_UNEXPECTED_MESSAGE => -310,
            SocketError::ESEC_BAD_RECORD_MAC => -320,
            SocketError::ESEC_DECRYPTION_FAILED => -321,
            SocketError::ESEC_RECORD_OVERFLOW => -322,
            SocketError::ESEC_DECOMPRESSION_FAILURE => -330,
            SocketError::ESEC_HANDSHAKE_FAILURE => -340,
            SocketError::ESEC_NO_CERTIFICATE => -341,
            SocketError::ESEC_BAD_CERTIFICATE => -342,
            SocketError::ESEC_UNSUPPORTED_CERTIFICATE => -343,
            SocketError::ESEC_CERTIFICATE_REVOKED => -344,
            SocketError::ESEC_CERTIFICATE_EXPIRED => -345,
            SocketError::ESEC_CERTIFICATE_UNKNOWN => -346,
            SocketError::ESEC_ILLEGAL_PARAMETER => -347,
            SocketError::ESEC_UNKNOWN_CA => -348,
            SocketError::ESEC_ACCESS_DENIED => -349,
            SocketError::ESEC_DECODE_ERROR => -350,
            SocketError::ESEC_DECRYPT_ERROR => -351,
            SocketError::ESEC_EXPORT_RESTRICTION => -360,
            SocketError::ESEC_PROTOCOL_VERSION => -370,
            SocketError::ESEC_INSUFFICIENT_SECURITY => -371,
            SocketError::ESEC_INTERNAL_ERROR => -380,
            SocketError::ESEC_USER_CANCELLED => -390,
            SocketError::ESEC_NO_RENEGOTIATION => -400,
            SocketError::ESEC_UNSUPPORTED_EXTENSION => -410,
            SocketError::ESEC_CERTIFICATE_UNOBTAINABLE => -411,
            SocketError::ESEC_UNRECOGNIZED_NAME => -412,
            SocketError::ESEC_BAD_CERTIFICATE_STATUS_RESPONSE => -413,
            SocketError::ESEC_BAD_CERTIFICATE_HASH_VALUE => -414,
            SocketError::ESECGENERAL => -450,
            SocketError::ESECDECRYPT => -451,
            SocketError::ESECCLOSED => -452,
            SocketError::ESECSNOVERIFY => -453,
            SocketError::ESECNOCAFILE => -454,
            SocketError::ESECMEMORY => -455,
            SocketError::ESECBADCAFILE => -456,
            SocketError::ESECBADCERTFILE => -457,
            SocketError::ESECBADPRIVATEFILE => -458,
            SocketError::ESECBADDHFILE => -459,
            SocketError::ESECT00MANYSSLOPENED => -460,
            SocketError::ESECDATEERROR => -461,
            SocketError::ESECHANDSHAKETIMEDOUT => -462,
        }
    }

    /// The vendor's numeric code for this value.
    pub fn code(self) -> (r: i32)
        ensures
            r == self.spec_code(),
    {
        match self {
            SocketError::SOC_ERROR => -1,
            SocketError::SOC_OK => 0,
            SocketError::INEXE => -8,
            SocketError::EBADF => -9,
            SocketError::ENSOCK => -10,
            SocketError::EAGAIN => -11,
            SocketError::ENOMEM => -12,
            SocketError::EACCES => -13,
            SocketError::EFAULT => -14,
            SocketError::ECLOSE => -15,
            SocketError::EALREADY_ENABLED => -21,
            SocketError::EINVAL => -22,
            SocketError::EAUTO_CONNECT_OR_CONNECTING => -69,
            SocketError::CONNECTION_PENDING => -72,
            SocketError::EUNSUPPORTED_ROLE => -86,
            SocketError::EDESTADDRREQ => -89,
            SocketError::EPROTOTYPE => -91,
            SocketError::ENOPROTOOPT => -92,
            SocketError::EPROTONOSUPPORT => -93,
            SocketError::ESOCKTNOSUPPORT => -94,
            SocketError::EOPNOTSUPP => -95,
            SocketError::EAFNOSUPPORT => -97,
            SocketError::EADDRINUSE => -98,
            SocketError::EADDRNOTAVAIL => -99,
            SocketError::ENETUNREACH => -101,
            SocketError::ENOBUFS => -105,
            SocketError::EISCONN => -106,
            SocketError::ENOTCONN => -107,
            SocketError::ETIMEDOUT => -110,
            SocketError::ECONNREFUSED => -111,
            SocketError::EALREADY => -114,
            SocketError::ESEC_RSA_WRONG_TYPE_E => -130,
            SocketError::ESEC_RSA_BUFFER_E => -131,
            SocketError::ESEC_BUFFER_E => -132,
            SocketError::ESEC_ALGO_ID_E => -133,
            SocketError::ESEC_PUBLIC_KEY_E => -134,
            SocketError::ESEC_DATE_E => -135,
            SocketError::ESEC_SUBJECT_E => -136,
            SocketError::ESEC_ISSUER_E => -137,
            SocketError::ESEC_CA_TRUE_E => -138,
            SocketError::ESEC_EXTENSIONS_E => -139,
            SocketError::ESEC_ASN_PARSE_E => -140,
            SocketError::ESEC_ASN_VERSION_E => -141,
            SocketError::ESEC_ASN_GETINT_E => -142,
            SocketError::ESEC_ASN_RSA_KEY_E => -143,
            SocketError::ESEC_ASN_OBJECT_ID_E => -144,
            SocketError::ESEC_ASN_TAG_NULL_E => -145,
            SocketError::ESEC_ASN_EXPECT_0_E => -146,
            SocketError::ESEC_ASN_BITSTR_E => -147,
            SocketError::ESEC_ASN_UNKNOWN_OID_E => -148,
            SocketError::ESEC_ASN_DATE_SZ_E => -149,
            SocketError::ESEC_ASN_BEFORE_DATE_E => -150,
            SocketError::ESEC_ASN_AFTER_DATE_E => -151,
            SocketError::ESEC_ASN_SIG_OID_E => -152,
            SocketError::ESEC_ASN_TIME_E => -153,
            SocketError::ESEC_ASN_INPUT_E => -154,
            SocketError::ESEC_ASN_SIG_CONFIRM_E => -155,
            SocketError::ESEC_ASN_SIG_HASH_E => -156,
            SocketError::ESEC_ASN_SIG_KEY_E => -157,
            SocketError::ESEC_ASN_DH_KEY_E => -158,
            SocketError::ESEC_ASN_NTRU_KEY_E => -159,
            SocketError::ESEC_ECC_BAD_ARG_E => -170,
            SocketError::ESEC_ASN_ECC_KEY_E => -171,
            SocketError::ESEC_ECC_CURVE_OID_E => -172,
            SocketError::ESEC_BAD_FUNC_ARG => -173,
            SocketError::ESEC_NOT_COMPILED_IN => -174,
            SocketError::ESEC_UNICODE_SIZE_E => -175,
            SocketError::ESEC_NO_PASSWORD => -176,
            SocketError::ESEC_ALT_NAME_E => -177,
            SocketError::ESEC_AES_GCM_AUTH_E => -180,
            SocketError::ESEC_AES_CCM_AUTH_E => -181,
            SocketError::SOCKET_ERROR_E => -208,
            SocketError::ESEC_MEMORY_ERROR => -203,
            SocketError::ESEC_VERIFY_FINISHED_ERROR => -204,
            SocketError::ESEC_VERIFY_MAC_ERROR => -205,
            SocketError::ESEC_UNKNOWN_HANDSHAKE_TYPE => -207,
            SocketError::ESEC_SOCKET_NODATA => -209,
            SocketError::ESEC_INCOMPLETE_DATA => -210,
            SocketError::ESEC_UNKNOWN_RECORD_TYPE => -211,
            SocketError::ESEC_FATAL_ERROR => -213,
            SocketError::ESEC_ENCRYPT_ERROR => -214,
            SocketError::ESEC_NO_PEER_KEY => -216,
            SocketError::ESEC_NO_PRIVATE_KEY => -217,
            SocketError::ESEC_RSA_PRIVATE_ERROR => -218,
            SocketError::ESEC_NO_DH_PARAMS => -219,
            SocketError::ESEC_BUILD_MSG_ERROR => -220,
            SocketError::ESEC_BAD_HELLO => -221,
            SocketError::ESEC_DOMAIN_NAME_MISMATCH => -222,
            SocketError::ESEC_WANT_READ => -223,
            SocketError::ESEC_NOT_READY_ERROR => -224,
            SocketError::ESEC_PMS_VERSION_ERROR => -225,
            SocketError::ESEC_VERSION_ERROR => -226,
            SocketError::ESEC_WANT_WRITE => -227,
            SocketError::ESEC_BUFFER_ERROR => -228,
            SocketError::ESEC_VERIFY_CERT_ERROR => -229,
            SocketError::ESEC_VERIFY_SIGN_ERROR => -230,
            SocketError::ESEC_LENGTH_ERROR => -241,
            SocketError::ESEC_PEER_KEY_ERROR => -242,
            SocketError::ESEC_ZERO_RETURN => -243,
            SocketError::ESEC_SIDE_ERROR => -244,
            SocketError::ESEC_NO_PEER_CERT => -245,
            SocketError::ESEC_ECC_CURVETYPE_ERROR => -250,
            SocketError::ESEC_ECC_CURVE_ERROR => -251,
            SocketError::ESEC_ECC_PEERKEY_ERROR => -252,
            SocketError::ESEC_ECC_MAKEKEY_ERROR => -253,
            SocketError::ESEC_ECC_EXPORT_ERROR => -254,
            SocketError::ESEC_ECC_SHARED_ERROR => -255,
            SocketError::ESEC_NOT_CA_ERROR => -257,
            SocketError::ESEC_BAD_PATH_ERROR => -258,
            SocketError::ESEC_BAD_CERT_MANAGER_ERROR => -259,
            SocketError::ESEC_MAX_CHAIN_ERROR => -268,
            SocketError::ESEC_SUITES_ERROR => -271,
            SocketError::ESEC_SSL_NO_PEM_HEADER => -272,
            SocketError::ESEC_OUT_OF_ORDER_E => -273,
            SocketError::ESEC_SANITY_CIPHER_E => -275,
            SocketError::ESEC_GEN_COOKIE_E => -277,
            SocketError::ESEC_NO_PEER_VERIFY => -278,
            SocketError::ESEC_UNKNOWN_SNI_HOST_NAME_E => -281,
            SocketError::ESEC_UNSUPPORTED_SUITE => -290,
            SocketError::ESEC_MATCH_SUITE_ERROR => -291,
            SocketError::ESEC_CLOSE_NOTIFY => -300,
            SocketError::ESEC_UNEXPECTED_MESSAGE => -310,
            SocketError::ESEC_BAD_RECORD_MAC => -320,
            SocketError::ESEC_DECRYPTION_FAILED => -321,
            SocketError::ESEC_RECORD_OVERFLOW => -322,
            SocketError::ESEC_DECOMPRESSION_FAILURE => -330,
            SocketError::ESEC_HANDSHAKE_FAILURE => -340,
            SocketError::ESEC_NO_CERTIFICATE => -341,
            SocketError::ESEC_BAD_CERTIFICATE => -342,
            SocketError::ESEC_UNSUPPORTED_CERTIFICATE => -343,
            SocketError::ESEC_CERTIFICATE_REVOKED => -344,
            SocketError::ESEC_CERTIFICATE_EXPIRED => -345,
            SocketError::ESEC_CERTIFICATE_UNKNOWN => -346,
            SocketError::ESEC_ILLEGAL_PARAMETER => -347,
            SocketError::ESEC_UNKNOWN_CA => -348,
            SocketError::ESEC_ACCESS_DENIED => -349,
            SocketError::ESEC_DECODE_ERROR => -350,
            SocketError::ESEC_DECRYPT_ERROR => -351,
            SocketError::ESEC_EXPORT_RESTRICTION => -360,
            SocketError::ESEC_PROTOCOL_VERSION => -370,
            SocketError::ESEC_INSUFFICIENT_SECURITY => -371,
            SocketError::ESEC_INTERNAL_ERROR => -380,
            SocketError::ESEC_USER_CANCELLED => -390,
            SocketError::ESEC_NO_RENEGOTIATION => -400,
            SocketError::ESEC_UNSUPPORTED_EXTENSION => -410,
            SocketError::ESEC_CERTIFICATE_UNOBTAINABLE => -411,
            SocketError::ESEC_UNRECOGNIZED_NAME => -412,
            SocketError::ESEC_BAD_CERTIFICATE_STATUS_RESPONSE => -413,
            SocketError::ESEC_BAD_CERTIFICATE_HASH_VALUE => -414,
            SocketError::ESECGENERAL => -450,
            SocketError::ESECDECRYPT => -451,
            SocketError::ESECCLOSED => -452,
            SocketError::ESECSNOVERIFY => -453,
            SocketError::ESECNOCAFILE => -454,
            SocketError::ESECMEMORY => -455,
            SocketError::ESECBADCAFILE => -456,
            SocketError::ESECBADCERTFILE => -457,
            SocketError::ESECBADPRIVATEFILE => -458,
            SocketError::ESECBADDHFILE => -459,
            SocketError::ESECT00MANYSSLOPENED => -460,
            SocketError::ESECDATEERROR => -461,
            SocketError::ESECHANDSHAKETIMEDOUT => -462,
        }
    }

    /// What decoding `v` gives: the value whose code is `v`, or a
    /// `ValueError` that carries `v` when there is none.
    pub open spec fn decoded(v: i32) -> Result<SocketError, SimpleLinkError> {
        if exists|e: SocketError| e.spec_code() == v {
            Ok(choose|e: SocketError| e.spec_code() == v)
        } else {
            Err(SimpleLinkError::ValueError(EnumKind::SocketError, v))
        }
    }

    spec fn by_code(v: int) -> Option<SocketError> {
        if v == -1 {
            Some(SocketError::SOC_ERROR)
        } else if v == 0 {
            Some(SocketError::SOC_OK)
        } else if v == -8 {
            Some(SocketError::INEXE)
        } else if v == -9 {
            Some(SocketError::EBADF)
        } else if v == -10 {
            Some(SocketError::ENSOCK)
        } else if v == -11 {
            Some(SocketError::EAGAIN)
        } else if v == -12 {
            Some(SocketError::ENOMEM)
        } else if v == -13 {
            Some(SocketError::EACCES)
        } else if v == -14 {
            Some(SocketError::EFAULT)
        } else if v == -15 {
            Some(SocketError::ECLOSE)
        } else if v == -21 {
            Some(SocketError::EALREADY_ENABLED)
        } else if v == -22 {
            Some(SocketError::EINVAL)
        } else if v == -69 {
            Some(SocketError::EAUTO_CONNECT_OR_CONNECTING)
        } else if v == -72 {
            Some(SocketError::CONNECTION_PENDING)
        } else if v == -86 {
            Some(SocketError::EUNSUPPORTED_ROLE)
        } else if v == -89 {
            Some(SocketError::EDESTADDRREQ)
        } else if v == -91 {
            Some(SocketError::EPROTOTYPE)
        } else if v == -92 {
            Some(SocketError::ENOPROTOOPT)
        } else if v == -93 {
            Some(SocketError::EPROTONOSUPPORT)
        } else if v == -94 {
            Some(SocketError::ESOCKTNOSUPPORT)
        } else if v == -95 {
            Some(SocketError::EOPNOTSUPP)
        } else if v == -97 {
            Some(SocketError::EAFNOSUPPORT)
        } else if v == -98 {
            Some(SocketError::EADDRINUSE)
        } else if v == -99 {
            Some(SocketError::EADDRNOTAVAIL)
        } else if v == -101 {
            Some(SocketError::ENETUNREACH)
        } else if v == -105 {
            Some(SocketError::ENOBUFS)
        } else if v == -106 {
            Some(SocketError::EISCONN)
        } else if v == -107 {
            Some(SocketError::ENOTCONN)
        } else if v == -110 {
            Some(SocketError::ETIMEDOUT)
        } else if v == -111 {
            Some(SocketError::ECONNREFUSED)
        } else if v == -114 {
            Some(SocketError::EALREADY)
        } else if v == -130 {
            Some(SocketError::ESEC_RSA_WRONG_TYPE_E)
        } else if v == -131 {
            Some(SocketError::ESEC_RSA_BUFFER_E)
        } else if v == -132 {
            Some(SocketError::ESEC_BUFFER_E)
        } else if v == -133 {
            Some(SocketError::ESEC_ALGO_ID_E)
        } else if v == -134 {
            Some(SocketError::ESEC_PUBLIC_KEY_E)
        } else if v == -135 {
            Some(SocketError::ESEC_DATE_E)
        } else if v == -136 {
            Some(SocketError::ESEC_SUBJECT_E)
        } else if v == -137 {
            Some(SocketError::ESEC_ISSUER_E)
        } else if v == -138 {
            Some(SocketError::ESEC_CA_TRUE_E)
        } else if v == -139 {
            Some(SocketError::ESEC_EXTENSIONS_E)
        } else if v == -140 {
            Some(SocketError::ESEC_ASN_PARSE_E)
        } else if v == -141 {
            Some(SocketError::ESEC_ASN_VERSION_E)
        } else if v == -142 {
            Some(SocketError::ESEC_ASN_GETINT_E)
        } else if v == -143 {
            Some(SocketError::ESEC_ASN_RSA_KEY_E)
        } else if v == -144 {
            Some(SocketError::ESEC_ASN_OBJECT_ID_E)
        } else if v == -145 {
            Some(SocketError::ESEC_ASN_TAG_NULL_E)
        } else if v == -146 {
            Some(SocketError::ESEC_ASN_EXPECT_0_E)
        } else if v == -147 {
            Some(SocketError::ESEC_ASN_BITSTR_E)
        } else if v == -148 {
            Some(SocketError::ESEC_ASN_UNKNOWN_OID_E)
        } else if v == -149 {
            Some(SocketError::ESEC_ASN_DATE_SZ_E)
        } else if v == -150 {
            Some(SocketError::ESEC_ASN_BEFORE_DATE_E)
        } else if v == -151 {
            Some(SocketError::ESEC_ASN_AFTER_DATE_E)
        } else if v == -152 {
            Some(SocketError::ESEC_ASN_SIG_OID_E)
        } else if v == -153 {
            Some(SocketError::ESEC_ASN_TIME_E)
        } else if v == -154 {
            Some(SocketError::ESEC_ASN_INPUT_E)
        } else if v == -155 {
            Some(SocketError::ESEC_ASN_SIG_CONFIRM_E)
        } else if v == -156 {
            Some(SocketError::ESEC_ASN_SIG_HASH_E)
        } else if v == -157 {
            Some(SocketError::ESEC_ASN_SIG_KEY_E)
        } else if v == -158 {
            Some(SocketError::ESEC_ASN_DH_KEY_E)
        } else if v == -159 {
            Some(SocketError::ESEC_ASN_NTRU_KEY_E)
        } else if v == -170 {
            Some(SocketError::ESEC_ECC_BAD_ARG_E)
        } else if v == -171 {
            Some(SocketError::ESEC_ASN_ECC_KEY_E)
        } else if v == -172 {
            Some(SocketError::ESEC_ECC_CURVE_OID_E)
        } else if v == -173 {
            Some(SocketError::ESEC_BAD_FUNC_ARG)
        } else if v == -174 {
            Some(SocketError::ESEC_NOT_COMPILED_IN)
        } else if v == -175 {
            Some(SocketError::ESEC_UNICODE_SIZE_E)
        } else if v == -176 {
            Some(SocketError::ESEC_NO_PASSWORD)
        } else if v == -177 {
            Some(SocketError::ESEC_ALT_NAME_E)
        } else if v == -180 {
            Some(SocketError::ESEC_AES_GCM_AUTH_E)
        } else if v == -181 {
            Some(SocketError::ESEC_AES_CCM_AUTH_E)
        } else if v == -208 {
            Some(SocketError::SOCKET_ERROR_E)
        } else if v == -203 {
            Some(SocketError::ESEC_MEMORY_ERROR)
        } else if v == -204 {
            Some(SocketError::ESEC_VERIFY_FINISHED_ERROR)
        } else if v == -205 {
            Some(SocketError::ESEC_VERIFY_MAC_ERROR)
        } else if v == -207 {
            Some(SocketError::ESEC_UNKNOWN_HANDSHAKE_TYPE)
        } else if v == -209 {
            Some(SocketError::ESEC_SOCKET_NODATA)
        } else if v == -210 {
            Some(SocketError::ESEC_INCOMPLETE_DATA)
        } else if v == -211 {
            Some(SocketError::ESEC_UNKNOWN_RECORD_TYPE)
        } else if v == -213 {
            Some(SocketError::ESEC_FATAL_ERROR)
        } else if v == -214 {
            Some(SocketError::ESEC_ENCRYPT_ERROR)
        } else if v == -216 {
            Some(SocketError::ESEC_NO_PEER_KEY)
        } else if v == -217 {
            Some(SocketError::ESEC_NO_PRIVATE_KEY)
        } else if v == -218 {
            Some(SocketError::ESEC_RSA_PRIVATE_ERROR)
        } else if v == -219 {
            Some(SocketError::ESEC_NO_DH_PARAMS)
        } else if v == -220 {
            Some(SocketError::ESEC_BUILD_MSG_ERROR)
        } else if v == -221 {
            Some(SocketError::ESEC_BAD_HELLO)
        } else if v == -222 {
            Some(SocketError::ESEC_DOMAIN_NAME_MISMATCH)
        } else if v == -223 {
            Some(SocketError::ESEC_WANT_READ)
        } else if v == -224 {
            Some(SocketError::ESEC_NOT_READY_ERROR)
        } else if v == -225 {
            Some(SocketError::ESEC_PMS_VERSION_ERROR)
        } else if v == -226 {
            Some(SocketError::ESEC_VERSION_ERROR)
        } else if v == -227 {
            Some(SocketError::ESEC_WANT_WRITE)
        } else if v == -228 {
            Some(SocketError::ESEC_BUFFER_ERROR)
        } else if v == -229 {
            Some(SocketError::ESEC_VERIFY_CERT_ERROR)
        } else if v == -230 {
            Some(SocketError::ESEC_VERIFY_SIGN_ERROR)
        } else if v == -241 {
            Some(SocketError::ESEC_LENGTH_ERROR)
        } else if v == -242 {
            Some(SocketError::ESEC_PEER_KEY_ERROR)
        } else if v == -243 {
            Some(SocketError::ESEC_ZERO_RETURN)
        } else if v == -244 {
            Some(SocketError::ESEC_SIDE_ERROR)
        } else if v == -245 {
            Some(SocketError::ESEC_NO_PEER_CERT)
        } else if v == -250 {
            Some(SocketError::ESEC_ECC_CURVETYPE_ERROR)
        } else if v == -251 {
            Some(SocketError::ESEC_ECC_CURVE_ERROR)
        } else if v == -252 {
            Some(SocketError::ESEC_ECC_PEERKEY_ERROR)
        } else if v == -253 {
            Some(SocketError::ESEC_ECC_MAKEKEY_ERROR)
        } else if v == -254 {
            Some(SocketError::ESEC_ECC_EXPORT_ERROR)
        } else if v == -255 {
            Some(SocketError::ESEC_ECC_SHARED_ERROR)
        } else if v == -257 {
            Some(SocketError::ESEC_NOT_CA_ERROR)
        } else if v == -258 {
            Some(SocketError::ESEC_BAD_PATH_ERROR)
        } else if v == -259 {
            Some(SocketError::ESEC_BAD_CERT_MANAGER_ERROR)
        } else if v == -268 {
            Some(SocketError::ESEC_MAX_CHAIN_ERROR)
        } else if v == -271 {
            Some(SocketError::ESEC_SUITES_ERROR)
        } else if v == -272 {
            Some(SocketError::ESEC_SSL_NO_PEM_HEADER)
        } else if v == -273 {
            Some(SocketError::ESEC_OUT_OF_ORDER_E)
        } else if v == -275 {
            Some(SocketError::ESEC_SANITY_CIPHER_E)
        } else if v == -277 {
            Some(SocketError::ESEC_GEN_COOKIE_E)
        } else if v == -278 {
            Some(SocketError::ESEC_NO_PEER_VERIFY)
        } else if v == -281 {
            Some(SocketError::ESEC_UNKNOWN_SNI_HOST_NAME_E)
        } else if v == -290 {
            Some(SocketError::ESEC_UNSUPPORTED_SUITE)
        } else if v == -291 {
            Some(SocketError::ESEC_MATCH_SUITE_ERROR)
        } else if v == -300 {
            Some(SocketError::ESEC_CLOSE_NOTIFY)
        } else if v == -310 {
            Some(SocketError::ESEC_UNEXPECTED_MESSAGE)
        } else if v == -320 {
            Some(SocketError::ESEC_BAD_RECORD_MAC)
        } else if v == -321 {
            Some(SocketError::ESEC_DECRYPTION_FAILED)
        } else if v == -322 {
            Some(SocketError::ESEC_RECORD_OVERFLOW)
        } else if v == -330 {
            Some(SocketError::ESEC_DECOMPRESSION_FAILURE)
        } else if v == -340 {
            Some(SocketError::ESEC_HANDSHAKE_FAILURE)
        } else if v == -341 {
            Some(SocketError::ESEC_NO_CERTIFICATE)
        } else if v == -342 {
            Some(SocketError::ESEC_BAD_CERTIFICATE)
        } else if v == -343 {
            Some(SocketError::ESEC_UNSUPPORTED_CERTIFICATE)
        } else if v == -344 {
            Some(SocketError::ESEC_CERTIFICATE_REVOKED)
        } else if v == -345 {
            Some(SocketError::ESEC_CERTIFICATE_EXPIRED)
        } else if v == -346 {
            Some(SocketError::ESEC_CERTIFICATE_UNKNOWN)
        } else if v == -347 {
            Some(SocketError::ESEC_ILLEGAL_PARAMETER)
        } else if v == -348 {
            Some(SocketError::ESEC_UNKNOWN_CA)
        } else if v == -349 {
            Some(SocketError::ESEC_ACCESS_DENIED)
        } else if v == -350 {
            Some(SocketError::ESEC_DECODE_ERROR)
        } else if v == -351 {
            Some(SocketError::ESEC_DECRYPT_ERROR)
        } else if v == -360 {
            Some(SocketError::ESEC_EXPORT_RESTRICTION)
        } else if v == -370 {
            Some(SocketError::ESEC_PROTOCOL_VERSION)
        } else if v == -371 {
            Some(SocketError::ESEC_INSUFFICIENT_SECURITY)
        } else if v == -380 {
            Some(SocketError::ESEC_INTERNAL_ERROR)
        } else if v == -390 {
            Some(SocketError::ESEC_USER_CANCELLED)
        } else if v == -400 {
            Some(SocketError::ESEC_NO_RENEGOTIATION)
        } else if v == -410 {
            Some(SocketError::ESEC_UNSUPPORTED_EXTENSION)
        } else if v == -411 {
            Some(SocketError::ESEC_CERTIFICATE_UNOBTAINABLE)
        } else if v == -412 {
            Some(SocketError::ESEC_UNRECOGNIZED_NAME)
        } else if v == -413 {
            Some(SocketError::ESEC_BAD_CERTIFICATE_STATUS_RESPONSE)
        } else if v == -414 {
            Some(SocketError::ESEC_BAD_CERTIFICATE_HASH_VALUE)
        } else if v == -450 {
            Some(SocketError::ESECGENERAL)
        } else if v == -451 {
            Some(SocketError::ESECDECRYPT)
        } else if v == -452 {
            Some(SocketError::ESECCLOSED)
        } else if v == -453 {
            Some(SocketError::ESECSNOVERIFY)
        } else if v == -454 {
            Some(SocketError::ESECNOCAFILE)
        } else if v == -455 {
            Some(SocketError::ESECMEMORY)
        } else if v == -456 {
            Some(SocketError::ESECBADCAFILE)
        } else if v == -457 {
            Some(SocketError::ESECBADCERTFILE)
        } else if v == -458 {
            Some(SocketError::ESECBADPRIVATEFILE)
        } else if v == -459 {
            Some(SocketError::ESECBADDHFILE)
        } else if v == -460 {
            Some(SocketError::ESECT00MANYSSLOPENED)
        } else if v == -461 {
            Some(SocketError::ESECDATEERROR)
        } else if v == -462 {
            Some(SocketError::ESECHANDSHAKETIMEDOUT)
        } else {
            None
        }
    }

    /// Decodes a vendor code. Every code outside the set is an error that
    /// carries the code, never a guess at a nearby variant.
    pub fn try_from_code(v: i32) -> (r: Result<SocketError, SimpleLinkError>)
        ensures
            r == SocketError::decoded(v),
    {
        let r = match v {
            -1 => Ok(SocketError::SOC_ERROR),
            0 => Ok(SocketError::SOC_OK),
            -8 => Ok(SocketError::INEXE),
            -9 => Ok(SocketError::EBADF),
            -10 => Ok(SocketError::ENSOCK),
            -11 => Ok(SocketError::EAGAIN),
            -12 => Ok(SocketError::ENOMEM),
            -13 => Ok(SocketError::EACCES),
            -14 => Ok(SocketError::EFAULT),
            -15 => Ok(SocketError::ECLOSE),
            -21 => Ok(SocketError::EALREADY_ENABLED),
            -22 => Ok(SocketError::EINVAL),
            -69 => Ok(SocketError::EAUTO_CONNECT_OR_CONNECTING),
            -72 => Ok(SocketError::CONNECTION_PENDING),
            -86 => Ok(SocketError::EUNSUPPORTED_ROLE),
            -89 => Ok(SocketError::EDESTADDRREQ),
            -91 => Ok(SocketError::EPROTOTYPE),
            -92 => Ok(SocketError::ENOPROTOOPT),
            -93 => Ok(SocketError::EPROTONOSUPPORT),
            -94 => Ok(SocketError::ESOCKTNOSUPPORT),
            -95 => Ok(SocketError::EOPNOTSUPP),
            -97 => Ok(SocketError::EAFNOSUPPORT),
            -98 => Ok(SocketError::EADDRINUSE),
            -99 => Ok(SocketError::EADDRNOTAVAIL),
            -101 => Ok(SocketError::ENETUNREACH),
            -105 => Ok(SocketError::ENOBUFS),
            -106 => Ok(SocketError::EISCONN),
            -107 => Ok(SocketError::ENOTCONN),
            -110 => Ok(SocketError::ETIMEDOUT),
            -111 => Ok(SocketError::ECONNREFUSED),
            -114 => Ok(SocketError::EALREADY),
            -130 => Ok(SocketError::ESEC_RSA_WRONG_TYPE_E),
            -131 => Ok(SocketError::ESEC_RSA_BUFFER_E),
            -132 => Ok(SocketError::ESEC_BUFFER_E),
            -133 => Ok(SocketError::ESEC_ALGO_ID_E),
            -134 => Ok(SocketError::ESEC_PUBLIC_KEY_E),
            -135 => Ok(SocketError::ESEC_DATE_E),
            -136 => Ok(SocketError::ESEC_SUBJECT_E),
            -137 => Ok(SocketError::ESEC_ISSUER_E),
            -138 => Ok(SocketError::ESEC_CA_TRUE_E),
            -139 => Ok(SocketError::ESEC_EXTENSIONS_E),
            -140 => Ok(SocketError::ESEC_ASN_PARSE_E),
            -141 => Ok(SocketError::ESEC_ASN_VERSION_E),
            -142 => Ok(SocketError::ESEC_ASN_GETINT_E),
            -143 => Ok(SocketError::ESEC_ASN_RSA_KEY_E),
            -144 => Ok(SocketError::ESEC_ASN_OBJECT_ID_E),
            -145 => Ok(SocketError::ESEC_ASN_TAG_NULL_E),
            -146 => Ok(SocketError::ESEC_ASN_EXPECT_0_E),
            -147 => Ok(SocketError::ESEC_ASN_BITSTR_E),
            -148 => Ok(SocketError::ESEC_ASN_UNKNOWN_OID_E),
            -149 => Ok(SocketError::ESEC_ASN_DATE_SZ_E),
            -150 => Ok(SocketError::ESEC_ASN_BEFORE_DATE_E),
            -151 => Ok(SocketError::ESEC_ASN_AFTER_DATE_E),
            -152 => Ok(SocketError::ESEC_ASN_SIG_OID_E),
            -153 => Ok(SocketError::ESEC_ASN_TIME_E),
            -154 => Ok(SocketError::ESEC_ASN_INPUT_E),
            -155 => Ok(SocketError::ESEC_ASN_SIG_CONFIRM_E),
            -156 => Ok(SocketError::ESEC_ASN_SIG_HASH_E),
            -157 => Ok(SocketError::ESEC_ASN_SIG_KEY_E),
            -158 => Ok(SocketError::ESEC_ASN_DH_KEY_E),
            -159 => Ok(SocketError::ESEC_ASN_NTRU_KEY_E),
            -170 => Ok(SocketError::ESEC_ECC_BAD_ARG_E),
            -171 => Ok(SocketError::ESEC_ASN_ECC_KEY_E),
            -172 => Ok(SocketError::ESEC_ECC_CURVE_OID_E),
            -173 => Ok(SocketError::ESEC_BAD_FUNC_ARG),
            -174 => Ok(SocketError::ESEC_NOT_COMPILED_IN),
            -175 => Ok(SocketError::ESEC_UNICODE_SIZE_E),
            -176 => Ok(SocketError::ESEC_NO_PASSWORD),
            -177 => Ok(SocketError::ESEC_ALT_NAME_E),
            -180 => Ok(SocketError::ESEC_AES_GCM_AUTH_E),
            -181 => Ok(SocketError::ESEC_AES_CCM_AUTH_E),
            -208 => Ok(SocketError::SOCKET_ERROR_E),
            -203 => Ok(SocketError::ESEC_MEMORY_ERROR),
            -204 => Ok(SocketError::ESEC_VERIFY_FINISHED_ERROR),
            -205 => Ok(SocketError::ESEC_VERIFY_MAC_ERROR),
            -207 => Ok(SocketError::ESEC_UNKNOWN_HANDSHAKE_TYPE),
            -209 => Ok(SocketError::ESEC_SOCKET_NODATA),
            -210 => Ok(SocketError::ESEC_INCOMPLETE_DATA),
            -211 => Ok(SocketError::ESEC_UNKNOWN_RECORD_TYPE),
            -213 => Ok(SocketError::ESEC_FATAL_ERROR),
            -214 => Ok(SocketError::ESEC_ENCRYPT_ERROR),
            -216 => Ok(SocketError::ESEC_NO_PEER_KEY),
            -217 => Ok(SocketError::ESEC_NO_PRIVATE_KEY),
            -218 => Ok(SocketError::ESEC_RSA_PRIVATE_ERROR),
            -219 => Ok(SocketError::ESEC_NO_DH_PARAMS),
            -220 => Ok(SocketError::ESEC_BUILD_MSG_ERROR),
            -221 => Ok(SocketError::ESEC_BAD_HELLO),
            -222 => Ok(SocketError::ESEC_DOMAIN_NAME_MISMATCH),
            -223 => Ok(SocketError::ESEC_WANT_READ),
            -224 => Ok(SocketError::ESEC_NOT_READY_ERROR),
            -225 => Ok(SocketError::ESEC_PMS_VERSION_ERROR),
            -226 => Ok(SocketError::ESEC_VERSION_ERROR),
            -227 => Ok(SocketError::ESEC_WANT_WRITE),
            -228 => Ok(SocketError::ESEC_BUFFER_ERROR),
            -229 => Ok(SocketError::ESEC_VERIFY_CERT_ERROR),
            -230 => Ok(SocketError::ESEC_VERIFY_SIGN_ERROR),
            -241 => Ok(SocketError::ESEC_LENGTH_ERROR),
            -242 => Ok(SocketError::ESEC_PEER_KEY_ERROR),
            -243 => Ok(SocketError::ESEC_ZERO_RETURN),
            -244 => Ok(SocketError::ESEC_SIDE_ERROR),
            -245 => Ok(SocketError::ESEC_NO_PEER_CERT),
            -250 => Ok(SocketError::ESEC_ECC_CURVETYPE_ERROR),
            -251 => Ok(SocketError::ESEC_ECC_CURVE_ERROR),
            -252 => Ok(SocketError::ESEC_ECC_PEERKEY_ERROR),
            -253 => Ok(SocketError::ESEC_ECC_MAKEKEY_ERROR),
            -254 => Ok(SocketError::ESEC_ECC_EXPORT_ERROR),
            -255 => Ok(SocketError::ESEC_ECC_SHARED_ERROR),
            -257 => Ok(SocketError::ESEC_NOT_CA_ERROR),
            -258 => Ok(SocketError::ESEC_BAD_PATH_ERROR),
            -259 => Ok(SocketError::ESEC_BAD_CERT_MANAGER_ERROR),
            -268 => Ok(SocketError::ESEC_MAX_CHAIN_ERROR),
            -271 => Ok(SocketError::ESEC_SUITES_ERROR),
            -272 => Ok(SocketError::ESEC_SSL_NO_PEM_HEADER),
            -273 => Ok(SocketError::ESEC_OUT_OF_ORDER_E),
            -275 => Ok(SocketError::ESEC_SANITY_CIPHER_E),
            -277 => Ok(SocketError::ESEC_GEN_COOKIE_E),
            -278 => Ok(SocketError::ESEC_NO_PEER_VERIFY),
            -281 => Ok(SocketError::ESEC_UNKNOWN_SNI_HOST_NAME_E),
            -290 => Ok(SocketError::ESEC_UNSUPPORTED_SUITE),
            -291 => Ok(SocketError::ESEC_MATCH_SUITE_ERROR),
            -300 => Ok(SocketError::ESEC_CLOSE_NOTIFY),
            -310 => Ok(SocketError::ESEC_UNEXPECTED_MESSAGE),
            -320 => Ok(SocketError::ESEC_BAD_RECORD_MAC),
            -321 => Ok(SocketError::ESEC_DECRYPTION_FAILED),
            -322 => Ok(SocketError::ESEC_RECORD_OVERFLOW),
            -330 => Ok(SocketError::ESEC_DECOMPRESSION_FAILURE),
            -340 => Ok(SocketError::ESEC_HANDSHAKE_FAILURE),
            -341 => Ok(SocketError::ESEC_NO_CERTIFICATE),
            -342 => Ok(SocketError::ESEC_BAD_CERTIFICATE),
            -343 => Ok(SocketError::ESEC_UNSUPPORTED_CERTIFICATE),
            -344 => Ok(SocketError::ESEC_CERTIFICATE_REVOKED),
            -345 => Ok(SocketError::ESEC_CERTIFICATE_EXPIRED),
            -346 => Ok(SocketError::ESEC_CERTIFICATE_UNKNOWN),
            -347 => Ok(SocketError::ESEC_ILLEGAL_PARAMETER),
            -348 => Ok(SocketError::ESEC_UNKNOWN_CA),
            -349 => Ok(SocketError::ESEC_ACCESS_DENIED),
            -350 => Ok(SocketError::ESEC_DECODE_ERROR),
            -351 => Ok(SocketError::ESEC_DECRYPT_ERROR),
            -360 => Ok(SocketError::ESEC_EXPORT_RESTRICTION),
            -370 => Ok(SocketError::ESEC_PROTOCOL_VERSION),
            -371 => Ok(SocketError::ESEC_INSUFFICIENT_SECURITY),
            -380 => Ok(SocketError::ESEC_INTERNAL_ERROR),
            -390 => Ok(SocketError::ESEC_USER_CANCELLED),
            -400 => Ok(SocketError::ESEC_NO_RENEGOTIATION),
            -410 => Ok(SocketError::ESEC_UNSUPPORTED_EXTENSION),
            -411 => Ok(SocketError::ESEC_CERTIFICATE_UNOBTAINABLE),
            -412 => Ok(SocketError::ESEC_UNRECOGNIZED_NAME),
            -413 => Ok(SocketError::ESEC_BAD_CERTIFICATE_STATUS_RESPONSE),
            -414 => Ok(SocketError::ESEC_BAD_CERTIFICATE_HASH_VALUE),
            -450 => Ok(SocketError::ESECGENERAL),
            -451 => Ok(SocketError::ESECDECRYPT),
            -452 => Ok(SocketError::ESECCLOSED),
            -453 => Ok(SocketError::ESECSNOVERIFY),
            -454 => Ok(SocketError::ESECNOCAFILE),
            -455 => Ok(SocketError::ESECMEMORY),
            -456 => Ok(SocketError::ESECBADCAFILE),
            -457 => Ok(SocketError::ESECBADCERTFILE),
            -458 => Ok(SocketError::ESECBADPRIVATEFILE),
            -459 => Ok(SocketError::ESECBADDHFILE),
            -460 => Ok(SocketError::ESECT00MANYSSLOPENED),
            -461 => Ok(SocketError::ESECDATEERROR),
            -462 => Ok(SocketError::ESECHANDSHAKETIMEDOUT),
            _ => Err(SimpleLinkError::ValueError(EnumKind::SocketError, v)),
        };
        proof {
            if let Ok(e) = r {
                SocketError::lemma_decode_code(e);
            }
        }
        r
    }

    /// Every variant decodes back from its own code.
    pub proof fn lemma_decode_code(e: SocketError)
        ensures
            SocketError::decoded(e.spec_code() as i32) == Ok::<SocketError, SimpleLinkError>(e),
    {
        assert(SocketError::by_code(e.spec_code()) == Some(e));
        assert forall|e2: SocketError| e2.spec_code() == e.spec_code() implies e2 == e by {
            assert(SocketError::by_code(e2.spec_code()) == Some(e2));
        }
    }

    /// A code that no variant has decodes to a `ValueError` carrying it.
    pub proof fn lemma_decode_unknown(v: i32)
        requires
            forall|e: SocketError| e.spec_code() != v,
        ensures
            SocketError::decoded(v) == Err::<SocketError, SimpleLinkError>(SimpleLinkError::ValueError(EnumKind::SocketError, v)),
    {
    }
}


} // verus!
