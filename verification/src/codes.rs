//! Application- and transport-layer return codes: closed
//! enumerations of wire constants produced by handlers and by the
//! transport, not by the decoder itself.

use vstd::prelude::*;

verus! {

/// Application-layer return codes.
#[derive(Debug, Clone, Copy, PartialEq, Eq, Hash, Structural)]
pub enum AppCode {
    Ilg,
    Okay,
    Continue,
    Error,
    Type,
    Interlock,
    NoInterlock,
    Input,
    DupRequest,
    SvcVer,
    MultErrs,
    NotFound,
    NotImplemented,
    Memory,
    NotReady,
    State,
    Perm,
    Xperm,
    Auth,
    Session,
    NoSpace,
    FilePath,
    FileName,
    File,
    FileIo,
    FileMode,
    FileDamaged,
    FileAccess,
    FileNf,
    FileRename,
    FileMove,
    FileCopy,
    DB,
    DupKey,
    DbrcUnknown,
    InvalidUser,
    InvalidName,
    InvalidRelationship,
    InvalidPrimaryKey,
    PinMismatch,
    SiteCreationFailed,
    InvalidItem,
    NotSellableItem,
    InvalidPlacement,
    InsufficientFund,
    InvalidInventorySearch,
    InvalidFeatureCode,
    InventoryItemNotExist,
    NotLogIn,
    DuplicateNickname,
    PlayerCreationFailed,
    PlayerDeletionFailed,
    InvalidAuthentication,
    BlankCredentials,
    InvalidSiteInfo,
    InvalidInventoryOrdinal,
    CodeStatusUpdateFailed,
    SecretCodeVerificationFailed,
    InvalidObjectEstoreSku,
    CreatePlayerAccountFailed,
    InvalidPin,
    InvalidAsset,
    BackpackIsFull,
    NoActiveVillager,
    ItemNotInContainerOrBackpack,
    ItemsInSameContainerOrBackpack,
    InventoryTypeIsNull,
    InventoryTypesNotSame,
    SwappedItemsAreSame,
    ItemNotOwnedBySessionPlayer,
    InvalidSiteContent,
    StarterTownIdNotConfigured,
    PresentableSlotsUsedUp,
    InvalidGameId,
    InvalidToken,
    TooManyPoints,
    NoCheckpoint,
    InavlidAction,
    NameCannotBeEmpty,
    NotAcceptPresentableItem,
    PlayerHasNoHomeVillage,
    OnlyOneSearchCriterionAllowed,
    OneSearchCriterionMustBeProvided,
    InvalidItemRelationName,
    UnpaidAccount,
    AlreadyQueued,
    InvalidCooldown,
    InvalidAuth,
    InsufficientPermission,
    AlreadyHaveATourist,
    InvalidItemOrBuildingPlacement,
    NotEnoughSpace,
    CraftingFail,
    ChildAlreadyPlaced,
    SlotAlreadyUsed,
    SlotNotOnParent,
    IncompatibleSlot,
    ParentNotCraftable,
    InvalidOutfitNo,
    InsufficientFunds,
    InappropriateLanguage,
    InvalidVillageName,
    PendingVillageExists,
    CreateVillageFailed,
    PlayerDoesNotOwnInventory,
    NotEmoteInventory,
    InvalidEmote,
    InvalidPlayerEmoteId,
    InvalidCode,
    ScsBlocked,
    InternalError,
    TestErrorCode,
}

/// The numeric code table of the application-layer return codes.
pub open spec fn spec_app_code(v: AppCode) -> i64 {
    match v {
        AppCode::Ilg => -1i64,
        AppCode::Okay => 0,
        AppCode::Continue => 1,
        AppCode::Error => 10,
        AppCode::Type => 11,
        AppCode::Interlock => 12,
        AppCode::NoInterlock => 13,
        AppCode::Input => 14,
        AppCode::DupRequest => 15,
        AppCode::SvcVer => 16,
        AppCode::MultErrs => 17,
        AppCode::NotFound => 18,
        AppCode::NotImplemented => 19,
        AppCode::Memory => 20,
        AppCode::NotReady => 21,
        AppCode::State => 22,
        AppCode::Perm => 40,
        AppCode::Xperm => 41,
        AppCode::Auth => 42,
        AppCode::Session => 43,
        AppCode::NoSpace => 50,
        AppCode::FilePath => 51,
        AppCode::FileName => 52,
        AppCode::File => 53,
        AppCode::FileIo => 54,
        AppCode::FileMode => 55,
        AppCode::FileDamaged => 56,
        AppCode::FileAccess => 57,
        AppCode::FileNf => 58,
        AppCode::FileRename => 59,
        AppCode::FileMove => 60,
        AppCode::FileCopy => 61,
        AppCode::DB => 70,
        AppCode::DupKey => 71,
        AppCode::DbrcUnknown => 72,
        AppCode::InvalidUser => 100,
        AppCode::InvalidName => 101,
        AppCode::InvalidRelationship => 102,
        AppCode::InvalidPrimaryKey => 103,
        AppCode::PinMismatch => 104,
        AppCode::SiteCreationFailed => 105,
        AppCode::InvalidItem => 106,
        AppCode::NotSellableItem => 107,
        AppCode::InvalidPlacement => 109,
        AppCode::InsufficientFund => 110,
        AppCode::InvalidInventorySearch => 111,
        AppCode::InvalidFeatureCode => 112,
        AppCode::InventoryItemNotExist => 113,
        AppCode::NotLogIn => 114,
        AppCode::DuplicateNickname => 115,
        AppCode::PlayerCreationFailed => 116,
        AppCode::PlayerDeletionFailed => 117,
        AppCode::InvalidAuthentication => 118,
        AppCode::BlankCredentials => 119,
        AppCode::InvalidSiteInfo => 120,
        AppCode::InvalidInventoryOrdinal => 121,
        AppCode::CodeStatusUpdateFailed => 122,
        AppCode::SecretCodeVerificationFailed => 123,
        AppCode::InvalidObjectEstoreSku => 124,
        AppCode::CreatePlayerAccountFailed => 125,
        AppCode::InvalidPin => 126,
        AppCode::InvalidAsset => 127,
        AppCode::BackpackIsFull => 128,
        AppCode::NoActiveVillager => 129,
        AppCode::ItemNotInContainerOrBackpack => 130,
        AppCode::ItemsInSameContainerOrBackpack => 131,
        AppCode::InventoryTypeIsNull => 132,
        AppCode::InventoryTypesNotSame => 133,
        AppCode::SwappedItemsAreSame => 134,
        AppCode::ItemNotOwnedBySessionPlayer => 135,
        AppCode::InvalidSiteContent => 136,
        AppCode::StarterTownIdNotConfigured => 137,
        AppCode::PresentableSlotsUsedUp => 138,
        AppCode::InvalidGameId => 139,
        AppCode::InvalidToken => 140,
        AppCode::TooManyPoints => 141,
        AppCode::NoCheckpoint => 142,
        AppCode::InavlidAction => 143,
        AppCode::NameCannotBeEmpty => 160,
        AppCode::NotAcceptPresentableItem => 161,
        AppCode::PlayerHasNoHomeVillage => 162,
        AppCode::OnlyOneSearchCriterionAllowed => 163,
        AppCode::OneSearchCriterionMustBeProvided => 164,
        AppCode::InvalidItemRelationName => 165,
        AppCode::UnpaidAccount => 166,
        AppCode::AlreadyQueued => 167,
        AppCode::InvalidCooldown => 168,
        AppCode::InvalidAuth => 169,
        AppCode::InsufficientPermission => 170,
        AppCode::AlreadyHaveATourist => 171,
        AppCode::InvalidItemOrBuildingPlacement => 172,
        AppCode::NotEnoughSpace => 173,
        AppCode::CraftingFail => 174,
        AppCode::ChildAlreadyPlaced => 175,
        AppCode::SlotAlreadyUsed => 176,
        AppCode::SlotNotOnParent => 177,
        AppCode::IncompatibleSlot => 178,
        AppCode::ParentNotCraftable => 179,
        AppCode::InvalidOutfitNo => 180,
        AppCode::InsufficientFunds => 181,
        AppCode::InappropriateLanguage => 182,
        AppCode::InvalidVillageName => 183,
        AppCode::PendingVillageExists => 184,
        AppCode::CreateVillageFailed => 185,
        AppCode::PlayerDoesNotOwnInventory => 200,
        AppCode::NotEmoteInventory => 201,
        AppCode::InvalidEmote => 202,
        AppCode::InvalidPlayerEmoteId => 203,
        AppCode::InvalidCode => 210,
        AppCode::ScsBlocked => 225,
        AppCode::InternalError => 500,
        AppCode::TestErrorCode => 9999,
    }
}

impl AppCode {
    /// The numeric wire code of this value.
    pub fn code(&self) -> (c: i64)
        ensures
            c == spec_app_code(*self),
    {
        match self {
            AppCode::Ilg => -1,
            AppCode::Okay => 0,
            AppCode::Continue => 1,
            AppCode::Error => 10,
            AppCode::Type => 11,
            AppCode::Interlock => 12,
            AppCode::NoInterlock => 13,
            AppCode::Input => 14,
            AppCode::DupRequest => 15,
            AppCode::SvcVer => 16,
            AppCode::MultErrs => 17,
            AppCode::NotFound => 18,
            AppCode::NotImplemented => 19,
            AppCode::Memory => 20,
            AppCode::NotReady => 21,
            AppCode::State => 22,
            AppCode::Perm => 40,
            AppCode::Xperm => 41,
            AppCode::Auth => 42,
            AppCode::Session => 43,
            AppCode::NoSpace => 50,
            AppCode::FilePath => 51,
            AppCode::FileName => 52,
            AppCode::File => 53,
            AppCode::FileIo => 54,
            AppCode::FileMode => 55,
            AppCode::FileDamaged => 56,
            AppCode::FileAccess => 57,
            AppCode::FileNf => 58,
            AppCode::FileRename => 59,
            AppCode::FileMove => 60,
            AppCode::FileCopy => 61,
            AppCode::DB => 70,
            AppCode::DupKey => 71,
            AppCode::DbrcUnknown => 72,
            AppCode::InvalidUser => 100,
            AppCode::InvalidName => 101,
            AppCode::InvalidRelationship => 102,
            AppCode::InvalidPrimaryKey => 103,
            AppCode::PinMismatch => 104,
            AppCode::SiteCreationFailed => 105,
            AppCode::InvalidItem => 106,
            AppCode::NotSellableItem => 107,
            AppCode::InvalidPlacement => 109,
            AppCode::InsufficientFund => 110,
            AppCode::InvalidInventorySearch => 111,
            AppCode::InvalidFeatureCode => 112,
            AppCode::InventoryItemNotExist => 113,
            AppCode::NotLogIn => 114,
            AppCode::DuplicateNickname => 115,
            AppCode::PlayerCreationFailed => 116,
            AppCode::PlayerDeletionFailed => 117,
            AppCode::InvalidAuthentication => 118,
            AppCode::BlankCredentials => 119,
            AppCode::InvalidSiteInfo => 120,
            AppCode::InvalidInventoryOrdinal => 121,
            AppCode::CodeStatusUpdateFailed => 122,
            AppCode::SecretCodeVerificationFailed => 123,
            AppCode::InvalidObjectEstoreSku => 124,
            AppCode::CreatePlayerAccountFailed => 125,
            AppCode::InvalidPin => 126,
            AppCode::InvalidAsset => 127,
            AppCode::BackpackIsFull => 128,
            AppCode::NoActiveVillager => 129,
            AppCode::ItemNotInContainerOrBackpack => 130,
            AppCode::ItemsInSameContainerOrBackpack => 131,
            AppCode::InventoryTypeIsNull => 132,
            AppCode::InventoryTypesNotSame => 133,
            AppCode::SwappedItemsAreSame => 134,
            AppCode::ItemNotOwnedBySessionPlayer => 135,
            AppCode::InvalidSiteContent => 136,
            AppCode::StarterTownIdNotConfigured => 137,
            AppCode::PresentableSlotsUsedUp => 138,
            AppCode::InvalidGameId => 139,
            AppCode::InvalidToken => 140,
            AppCode::TooManyPoints => 141,
            AppCode::NoCheckpoint => 142,
            AppCode::InavlidAction => 143,
            AppCode::NameCannotBeEmpty => 160,
            AppCode::NotAcceptPresentableItem => 161,
            AppCode::PlayerHasNoHomeVillage => 162,
            AppCode::OnlyOneSearchCriterionAllowed => 163,
            AppCode::OneSearchCriterionMustBeProvided => 164,
            AppCode::InvalidItemRelationName => 165,
            AppCode::UnpaidAccount => 166,
            AppCode::AlreadyQueued => 167,
            AppCode::InvalidCooldown => 168,
            AppCode::InvalidAuth => 169,
            AppCode::InsufficientPermission => 170,
            AppCode::AlreadyHaveATourist => 171,
            AppCode::InvalidItemOrBuildingPlacement => 172,
            AppCode::NotEnoughSpace => 173,
            AppCode::CraftingFail => 174,
            AppCode::ChildAlreadyPlaced => 175,
            AppCode::SlotAlreadyUsed => 176,
            AppCode::SlotNotOnParent => 177,
            AppCode::IncompatibleSlot => 178,
            AppCode::ParentNotCraftable => 179,
            AppCode::InvalidOutfitNo => 180,
            AppCode::InsufficientFunds => 181,
            AppCode::InappropriateLanguage => 182,
            AppCode::InvalidVillageName => 183,
            AppCode::PendingVillageExists => 184,
            AppCode::CreateVillageFailed => 185,
            AppCode::PlayerDoesNotOwnInventory => 200,
            AppCode::NotEmoteInventory => 201,
            AppCode::InvalidEmote => 202,
            AppCode::InvalidPlayerEmoteId => 203,
            AppCode::InvalidCode => 210,
            AppCode::ScsBlocked => 225,
            AppCode::InternalError => 500,
            AppCode::TestErrorCode => 9999,
        }
    }
}

/// Transport-layer return codes.
#[derive(Debug, Clone, Copy, PartialEq, Eq, Hash, Structural)]
pub enum ResultCode {
    Incomplete,
    OK,
    App,
    AppDb,
    Error,
    Queue,
    DB,
    DbQueue,
    DbNoRetry,
    NoMem,
    Comm,
    ConnFailed,
    Disconnect,
    Shutdown,
    IO,
    Timeout,
    Busy,
    CommInit,
    Cancel,
    WouldBlock,
    ProtocolVer,
    Serialize,
    PendingIo,
    Async,
    Conn,
    ChnlClosed,
    ConnExhst,
    NoDest,
    Chrono,
    NotReady,
}

/// The numeric code table of the transport-layer return codes.
pub open spec fn spec_result_code(v: ResultCode) -> i64 {
    match v {
        ResultCode::Incomplete => -1i64,
        ResultCode::OK => 0,
        ResultCode::App => 5,
        ResultCode::AppDb => 6,
        ResultCode::Error => 10,
        ResultCode::Queue => 11,
        ResultCode::DB => 20,
        ResultCode::DbQueue => 21,
        ResultCode::DbNoRetry => 22,
        ResultCode::NoMem => 30,
        ResultCode::Comm => 40,
        ResultCode::ConnFailed => 41,
        ResultCode::Disconnect => 42,
        ResultCode::Shutdown => 43,
        ResultCode::IO => 44,
        ResultCode::Timeout => 45,
        ResultCode::Busy => 46,
        ResultCode::CommInit => 47,
        ResultCode::Cancel => 48,
        ResultCode::WouldBlock => 49,
        ResultCode::ProtocolVer => 50,
        ResultCode::Serialize => 51,
        ResultCode::PendingIo => 52,
        ResultCode::Async => 53,
        ResultCode::Conn => 54,
        ResultCode::ChnlClosed => 55,
        ResultCode::ConnExhst => 56,
        ResultCode::NoDest => 57,
        ResultCode::Chrono => 58,
        ResultCode::NotReady => 59,
    }
}

/// The inverse code table of the transport-layer return codes.
pub open spec fn spec_result_code_from(c: i64) -> Option<ResultCode> {
    if c == -1 {
        Some(ResultCode::Incomplete)
    } else if c == 0 {
        Some(ResultCode::OK)
    } else if c == 5 {
        Some(ResultCode::App)
    } else if c == 6 {
        Some(ResultCode::AppDb)
    } else if c == 10 {
        Some(ResultCode::Error)
    } else if c == 11 {
        Some(ResultCode::Queue)
    } else if c == 20 {
        Some(ResultCode::DB)
    } else if c == 21 {
        Some(ResultCode::DbQueue)
    } else if c == 22 {
        Some(ResultCode::DbNoRetry)
    } else if c == 30 {
        Some(ResultCode::NoMem)
    } else if c == 40 {
        Some(ResultCode::Comm)
    } else if c == 41 {
        Some(ResultCode::ConnFailed)
    } else if c == 42 {
        Some(ResultCode::Disconnect)
    } else if c == 43 {
        Some(ResultCode::Shutdown)
    } else if c == 44 {
        Some(ResultCode::IO)
    } else if c == 45 {
        Some(ResultCode::Timeout)
    } else if c == 46 {
        Some(ResultCode::Busy)
    } else if c == 47 {
        Some(ResultCode::CommInit)
    } else if c == 48 {
        Some(ResultCode::Cancel)
    } else if c == 49 {
        Some(ResultCode::WouldBlock)
    } else if c == 50 {
        Some(ResultCode::ProtocolVer)
    } else if c == 51 {
        Some(ResultCode::Serialize)
    } else if c == 52 {
        Some(ResultCode::PendingIo)
    } else if c == 53 {
        Some(ResultCode::Async)
    } else if c == 54 {
        Some(ResultCode::Conn)
    } else if c == 55 {
        Some(ResultCode::ChnlClosed)
    } else if c == 56 {
        Some(ResultCode::ConnExhst)
    } else if c == 57 {
        Some(ResultCode::NoDest)
    } else if c == 58 {
        Some(ResultCode::Chrono)
    } else if c == 59 {
        Some(ResultCode::NotReady)
    } else {
        None
    }
}

impl ResultCode {
    /// The numeric wire code of this value.
    pub fn code(&self) -> (c: i64)
        ensures
            c == spec_result_code(*self),
    {
        match self {
            ResultCode::Incomplete => -1,
            ResultCode::OK => 0,
            ResultCode::App => 5,
            ResultCode::AppDb => 6,
            ResultCode::Error => 10,
            ResultCode::Queue => 11,
            ResultCode::DB => 20,
            ResultCode::DbQueue => 21,
            ResultCode::DbNoRetry => 22,
            ResultCode::NoMem => 30,
            ResultCode::Comm => 40,
            ResultCode::ConnFailed => 41,
            ResultCode::Disconnect => 42,
            ResultCode::Shutdown => 43,
            ResultCode::IO => 44,
            ResultCode::Timeout => 45,
            ResultCode::Busy => 46,
            ResultCode::CommInit => 47,
            ResultCode::Cancel => 48,
            ResultCode::WouldBlock => 49,
            ResultCode::ProtocolVer => 50,
            ResultCode::Serialize => 51,
            ResultCode::PendingIo => 52,
            ResultCode::Async => 53,
            ResultCode::Conn => 54,
            ResultCode::ChnlClosed => 55,
            ResultCode::ConnExhst => 56,
            ResultCode::NoDest => 57,
            ResultCode::Chrono => 58,
            ResultCode::NotReady => 59,
        }
    }

    /// Look a numeric code up in the transport-layer table.
    pub fn from_code(c: i64) -> (r: Option<ResultCode>)
        ensures
            r == spec_result_code_from(c),
    {
        match c {
            -1 => Some(ResultCode::Incomplete),
            0 => Some(ResultCode::OK),
            5 => Some(ResultCode::App),
            6 => Some(ResultCode::AppDb),
            10 => Some(ResultCode::Error),
            11 => Some(ResultCode::Queue),
            20 => Some(ResultCode::DB),
            21 => Some(ResultCode::DbQueue),
            22 => Some(ResultCode::DbNoRetry),
            30 => Some(ResultCode::NoMem),
            40 => Some(ResultCode::Comm),
            41 => Some(ResultCode::ConnFailed),
            42 => Some(ResultCode::Disconnect),
            43 => Some(ResultCode::Shutdown),
            44 => Some(ResultCode::IO),
            45 => Some(ResultCode::Timeout),
            46 => Some(ResultCode::Busy),
            47 => Some(ResultCode::CommInit),
            48 => Some(ResultCode::Cancel),
            49 => Some(ResultCode::WouldBlock),
            50 => Some(ResultCode::ProtocolVer),
            51 => Some(ResultCode::Serialize),
            52 => Some(ResultCode::PendingIo),
            53 => Some(ResultCode::Async),
            54 => Some(ResultCode::Conn),
            55 => Some(ResultCode::ChnlClosed),
            56 => Some(ResultCode::ConnExhst),
            57 => Some(ResultCode::NoDest),
            58 => Some(ResultCode::Chrono),
            59 => Some(ResultCode::NotReady),
            _ => None,
        }
    }
}

} // verus!