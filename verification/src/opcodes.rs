//! The message-type taxonomy: service classes, the opcode
//! enumerations of each class, and the numeric code tables that bind
//! them to the wire.  The tables are the wire ABI of the protocol.

use vstd::prelude::*;

verus! {

/// Operations of the Client service class.
#[derive(Debug, Clone, Copy, PartialEq, Eq, Hash, Structural)]
pub enum ClientMessage {
    AddObject,
    MoveObject,
    RemoveObject,
    ChangeObject,
    ServerChangeObject,
    MovePlayer,
    RemovePlayer,
    Chat,
    StartEvent,
    StopEvent,
    Emote,
    ChangeWeight,
    Pause,
    Resume,
    Notification,
    ChangeServer,
    SendNotify,
    IntList,
    AddPlayer,
    UpdateNpcs,
    StopNpc,
    Minimap,
    PosRecap,
    Action,
    Evict,
    OnlineStatus,
    ChangeObjectState,
}

/// Operations of the UserServer service class.
#[derive(Debug, Clone, Copy, PartialEq, Eq, Hash, Structural)]
pub enum UserMessage {
    GetAvatars,
    ClaimGift,
    RegisterPlayer,
    GetPlayerMazes,
    StartMazeEdit,
    GetPlayerMaze,
    GetCommunityMaze,
    EndMazeEdit,
    DeleteMaze,
    GetDynamicSurprise,
    GetZoneMazes,
    GetCommunityMazes,
    GetQuestMazes,
    PublishMaze,
    Login,
    GetPlayerNpcs,
    CheckUsername,
    RegisterFcssCode,
    Logout,
    GetInventoryObjects,
    GetBuildObjects,
    GetCollectionObjects,
    UpdateAvatarName,
    SearchVillages,
    MoveVillage,
    Relogin,
    InitLocation,
    GetLangLocale,
    EnterBuilding,
    BuyItem,
    GetShoppingItems,
    ListShoppingCategories,
    GetFriendList,
    RemoveFriend,
    ManageFriendRequest,
    GetBlockedPlayers,
    ManageBlockPlayer,
    AddFriend,
    UnpublishMaze,
    GetRandomWorldName,
    GetOnlineStatus,
    ManageTestPlayer,
    UpdateQuestItem,
    PlaceMazeItem,
    RemoveMazeItem,
    GetPlayerMazeThumbnails,
    GetPlayerMazeThumbnail,
    UpdatePlayerMazeThumbnail,
    GetCommunityMazeThumbnails,
    AcceptQuest,
    CompleteQuest,
    AddQuestItem,
    EndGame,
    GetPlayerDynamicSurprises,
    ClaimDynamicSurprise,
    GetNotifications,
    GetNotificationByPlayerNotificationId,
    GetNotificationByPlayerId,
    UpdateNotification,
    GetPlayerMazeRating,
    GetPlayerMazeRatings,
    GetSystemMazeRating,
    RatePlayerMaze,
    GetNotificationOptions,
    UpdateNotificationOption,
    ClearNotifications,
    GetHomeMaze,
    UpdateHomeMaze,
    GetNotificationCategories,
    GetNotificationOptionByCategory,
    AcknowledgeNotification,
    GetNotificationOptionByPlayerNotificationOptionId,
    GetNotificationCategory,
    ClearNotificationsByPlayerId,
    SetNotificationOptions,
    GetCmsCollectionItems,
    AddCollectionItem,
    DropCollectionItem,
    ResetCollection,
    ApproveMazePublishing,
    UpdateFriendComment,
    GetActiveFriendList,
    GetFriendRequests,
    GetFriendByFriendPlayerId,
    FindFriendByPlayerFriendId,
    GetQuestTypes,
    DeleteFriendByPlayerFriendId,
    SendPrivateChatGroupInvite,
    SendMessage,
    GetCmsItemcategoryIds,
    GetCmsItemcategoryById,
    GetPlayerMazePlay,
    ConsumeInventoryItem,
    MoveInventoryItem,
    SwapInventoryItems,
    RedeemFeatureCode,
    GetMazeItems,
    GetYardItems,
    PlaceYardItem,
    RemoveYardItem,
    GetSystemMazePlay,
    GetAvatarItems,
    GetOutfitItems,
    StartPrivateChatGroup,
    AcceptPrivateChatGroupInvite,
    LeavePrivateGroup,
    GetChatChannelTypes,
    StartMazePlay,
    EndMazePlay,
    DressAvatar,
    GetOutfits,
    StartQuest,
    Heartbeat,
    GetFriendAccountsByBirthday,
    GetPrivateChatGroupMembers,
    RejoinPrivateChatGroup,
    AddPlayerInfraction,
    GetPlayerChatHistory,
    GetQuestItems,
    StartGame,
    GetMazeSets,
    DeclinePrivateChatGroupInvite,
    GetMazeSet,
    FindPrivateChatGroupMember,
    FindPrivateChatGroupId,
    CompleteDailyActivity,
    GetQuestById,
    GetWeeklyAwardStatus,
    GetPlayerWeeklyAwardHistory,
    GetWeeklyAwardStatusByPlayerWeeklyAwardId,
    GetSlots,
    GetGames,
    GetQuests,
    GetDailyAwardStatus,
    UpdatePlayerActiveAvatar,
    GetSiteFrame,
    GetCmsItemcategories,
    NextCaptcha,
    CheckCaptcha,
    GetPlayerGifts,
    UpdateHomeTheme,
    GetHomeThemes,
    GetPlayerHomeThemes,
    RejectQuest,
    GetPlayerReceivedGifts,
    ManageGiftRequest,
    GetAnnouncements,
    GetAnnouncement,
    GetAchievementById,
    GetAchievements,
    GetAdoptionObjectsByAvatar,
    GetObjectIdsByAdoptionNumber,
    FindGiftByPlayerGiftId,
    GetZones,
    ListStoreCategories,
    ListStoreInventory,
    ListStores,
    PurchaseItems,
    CompleteTutorial,
    UpdateLanglocale,
    UpdatePlayerName,
    GetPlayerAchievements,
    GetShards,
    GetCraftableItems,
    GetCraftableItemById,
    PauseNpc,
    ResumeNpc,
    GetPlayerQuests,
    NpcInteraction,
    CraftItemByCraftableItemId,
    GetNpcRelationships,
    CraftItemByItems,
    GetNpcs,
    DressAvatarItems,
    LockHome,
    UndressAvatar,
    GetMazePiecesByPlayerMazeId,
    GetStoreThemes,
    GetAssetsByOids,
    GetCurrencies,
    AddOutfitItems,
    AddOutfit,
    RemoveOutfitItems,
    RemoveOutfit,
    ReplaceOutfitItems,
    SetCurrentOutfit,
    GetFriendAvatars,
    GetPlayerQuestsByQuestIds,
    GetPlayerGamesByZone,
    GetHomeInvitations,
    ManageHomeInvitations,
    FindPlayerByNickname,
    GetPlayerAvatarsByBirthday,
    SendQuestInvite,
    GetHostedQuests,
    GetInvitedQuests,
    GetPlayersInQuest,
    RemoveQuestInvite,
    AcceptQuestInvite,
    DeclineQuestInvite,
    GetPlayerReceivedQuestInvite,
    GetPlayerQuestInvite,
    CleanupPlayerMazes,
    GetPlayerStats,
    ListStoreInventoryItems,
    GetOtherPlayerDetails,
    GetTestPlayers,
    GetStatsType,
    TestInventoryUpdates,
    TestInventoryRemovals,
    SetPlayerGiftStatus,
    GetRequiredExperience,
    GetQuestByParentId,
    UpdateOnlineStatus,
    ChangeStoreItemStock,
    LogoutSession,
    AbandonQuest,
    GetAwardSets,
    UpdateArm,
    UpdateRuledObject,
    UpdateRule,
    AddAward,
    UpdateAward,
    UpdateStateObject,
    GetStateObjects,
    GetAwardById,
    GetRuleById,
    GetRuledObjectByHierarchy,
    AddStateObject,
    AddRule,
    AddArm,
    GetArmByAward,
    GetArmByRule,
    GetArmByStateObject,
    GetAwardByArm,
    GetRuleByArm,
    GetStateObjectByArm,
    ObjectInfoRows,
    AssignRuledSetToRuledObject,
    AddRuledObject,
    GetRuleSets,
    SaveObjectAttributes,
    GetObjectTypes,
    GetCmsNotifications,
    JoinQuest,
    GetAllOperators,
    GetOnlineStatuses,
    CstoolGetFullAccountInformation,
    RemoveFriendCstool,
    UpdateYard,
    UpdateChatAvailability,
    GetFriendListCstool,
    CreateOrUpdateCurrencyCstool,
    GetAllRules,
    GetAllRuledObject,
    GetAllAwards,
    DeleteRule,
    DeleteRuledObject,
    DeleteAward,
    GetFullRuleById,
    GetRuledObjectById,
    GetCurrencyCstool,
    GetEnergyLevelCstool,
    GetUserLevelCstool,
    GetUserXpCstool,
    GetUserNpcRelationshipLevel,
    CreateOrUpdateEnergyLevelCstool,
    CreateOrUpdateUserLevelCstool,
    CreateOrUpdateUserXpCstool,
    CreateOrUpdateUserNpcRelationshipLevel,
    GetFullRuledObjectById,
    GetFullAwardById,
    DeleteAsam,
    DeleteRsrm,
    GetFormulaByType,
    AddBugReport,
    FindPlayerAccountCstool,
    FindNpcsCstool,
    FindAvatarBySkuCstool,
    RegisterAvatarCstool,
    GetAllCategories,
    UnregisterTestPlayers,
    GetAllAttributes,
    UpdateStoreItemNotify,
    GetAllAttributesByCategory,
    AddObjectAttributes,
    UpdateObjectAttributes,
    GetArmById,
    DeleteRuleFromRsrm,
    DeleteAwardFromAsam,
    GetAllArm,
    AddRulesToRsrm,
    AddAwardsToAsam,
    GetNpcWithMostRelationship,
    StateObjectArm,
    GetStoreItems,
    ManageCrispAction,
    GetCrispActions,
    SearchItems,
    AddItemsToPlayer,
    AddToPlayerStat,
    ResendRegConfKey,
    AcknowledgeConfKey,
    GetCmsMissions,
    GetRuleInfo,
    GetPlayerQuestsCstool,
    StartTaskCstool,
    GetOtherPlayerNpcRelationships,
    GetBuyBackStoreItems,
    UpdateChatAvailabilityForPlayerCstool,
    GetChatAvailabilityCstool,
    GetStoreItemsForItems,
    PurchaseQuest,
    GetCmsEvents,
    AddEvent,
    RequestEvent,
    GetPendingEvents,
    AcceptEvent,
    RejectEvent,
    SavePlayerSettings,
    LoadPlayerSettings,
    GetRuledObjectByObjectId,
    SuggestFriends,
    SearchUsers,
    CstoolUnlockPlayerAccount,
    GetTiers,
    GetDebugQuests,
    GetNpcsWithQuestOffer,
    CreatePlayerMission,
    GetPlayerMissionDetail,
    GetPlayerMissions,
    DeleteItemFromPlayer,
    DebugCreateQuest,
    RegisterAvatarForRegistration,
    UpdateAvatarNameForRegistration,
    EnterStore,
    ExitStore,
    GetAllQuests,
    GetItemsByCategory,
    GetItemCategoriesCstool,
    GetAllZones,
    GetAllNpcs,
    GetAllStoreItems,
    UpdatePlayerEmail,
    AddUserStoreItem,
    AllocatePlayerVillage,
    SearchUserStoreItems,
    UpdateCrispAvailabilityCsTool,
    GetAllVillages,
    UpdateUserStoreItem,
    RemoveUserStoreItem,
    GetCrispAvailabilityCsTool,
    GetPlayerCrispData,
    UpdateChatBlockedByParentCsTool,
    UpdateChatBlockedByParent,
    GetPlayerWorldnameByGasid,
    GetScsInvalidCodeStatus,
    GetCrispActionsForNonloggedInsession,
    GetPlayerContainerByPlayer,
    GetPlayerContainerType,
    GetWebContent,
    ListItemByPlayer,
    ListItemByContainer,
    GetWebContentByPtag,
    GetEula,
    GetPlayerAccountByGasid,
    GetPlayerIdByGasid,
    ListVillagePlots,
    SendVillageInvite,
    AcceptVillageInvite,
    RejectVillageInvite,
    ReportAbuse,
    GetAbuseReports,
    GetAbuseReportsByPlayer,
    UpdateAbuseReport,
    PurchaseUserStoreItems,
    DecorateUserStore,
    RedeemUserStoreSales,
    GetRuleInstanceInfo,
    AcceptEula,
    AddPlayerLike,
    RemovePlayerLike,
    ListTopLikes,
    UndecorateUserStore,
    UserStoreInfo,
    AddAwardToAwardQueue,
    RegistrationRecord,
    GetObjectFromSku,
    GetInfractionTypes,
    GetAllCmsMissions,
    CheckEmailAvailability,
    AddBookmark,
    RemoveBookmark,
    ListBookmarks,
    ListLimits,
    ListVillageUsers,
    GetDailyAwards,
    ListPlayerLikes,
    VillageInfo,
    DecoratedUserStoreItems,
    ListBookmarkObjectTypes,
    LinkFacebookAccount,
    UnlinkFacebookAccount,
    ListFriendFacebookIds,
    ListPlayerAccountsByFacebookIds,
    GetAllUserStoreItems,
    AddQuestItemNotify,
    SetPlayerFindable,
    GetPlayerChatReceivedHistory,
    GetAllStoreThemes,
    SellItem,
    GetAllBuildings,
    GetAllItemcategories,
    PlantPlayerItem,
    GetFeaturedItems,
    GetNpcRelationshipLevels,
    SaveGameState,
    ListSavedGames,
    LoadGame,
    SendGame,
    AcceptGame,
    RejectGame,
    CmsGetGameState,
    GetAllFeaturedItems,
    ManageNpcFriendRequest,
    PlaceVillageItem,
    GetCmsVillageRoles,
    SendEmailMessage,
    ListInboxMessages,
    GetInboxMessage,
    MarkInboxMessage,
    GetRuleCount,
    ListSentMessages,
    GetVillageRoles,
    AssignVillageRole,
    GetCmsVillageTemplatesLocked,
    ConfirmFindable,
    CreatePrivateVillage,
    GetRuleInfoList,
    GetRuleInstanceInfoList,
    GetOtherPlayerDetailsList,
    AttachItems,
    DetachItems,
    AddAvatarCstool,
    KickOut,
    HarvestPlayerItem,
    GetNpcGifts,
    RemoveVillageItem,
    ListVillageItems,
    GetCmsVillageTemplatesUnlocked,
    ListFindablePlayers,
    GetAllCraftableItems,
    ListCmsMessages,
    GetCmsMessage,
    GetFriendshipRequestCounts,
    GetNpcInteractions,
    GetCraftableTypes,
    VillageInviteStatusNotify,
    FindNpcsByName,
    ChangePassword,
    ForgotPassword,
    SetPassword,
    AcceptEventNotify,
    ListQuestSpawnIds,
    GetRuleInstanceInfoForUi,
    GetRuleInfoListForUi,
    SendTestMessage,
    SaveAvatarImage,
    GetAvatarImages,
    GetObjectsLockInfo,
    GetRuleTemplateIdForUi,
    CraftItemsByCraftableItemIds,
    GetAllGames,
    UpdateGenderAndLocation,
    GetGeographicalLocations,
    GetCannedMessageCategories,
    PreFilterNameCheckAvailability,
    CraftBracelet,
    GetNpcItems,
    ItemInteraction,
    CreateQuestGame,
    EnterMaze,
    RemoveAndDetachMazeItem,
    AttachAndPlaceItem,
    StartCraftingBracelet,
    GetQuestFromParent,
    CreateQuest,
    GetPlayerAttachmentItemsBySenderId,
    SetFriendOrder,
    GetRuleInstanceData,
    GetMembershipSubscriptionById,
    ClaimMembershipSubscription,
    GetUserSubscriptionInfo,
    ProcessCrispMessage,
    ListSendingPlayerAttachmentItems,
    OidToDbid,
    DbidToOid,
    FilterBadWord,
    DockItem,
    GetMessagesCount,
    GetViews,
    DiscoverOnlineUser,
    GetUnlockInfoPeer,
    DeleteZingFromPlayer,
    SendNotificationCsTool,
    FriendStatusNotify,
    GetRuleCountList,
    SellPlayerItems,
    SendMessageCsTool,
    GiftStatusNotify,
    LevelStatusNotify,
    PlayerNotificationNotify,
    GetSystemNotifications,
    GetSystemMessages,
    AttachSingleItem,
    ManageCrispNotify,
    AddPlayerAwardNotify,
    GetStatefulInstance,
    MarkAnnouncementRead,
    ReorderFriendsOrdinal,
    GetEstoreTransInfoForCstool,
    GetEstorePointsForCstool,
    GetPlayerExternalSiteMap,
    SetPlayerExternalSiteMap,
    UpdateTokenPlayerExternalSiteMap,
    GetAuthenticationPlayerExternalSiteMap,
    SendEmailAttachment,
    SetBraceletsArmOrder,
    SendNotificationTemplate,
    CheckOnlineStatusTemplate,
    GetOtherPlayerDetailsTemplate,
    CrossUserServerPlayerTemplate,
    CrossUserServerPlayerTemplateNotify,
    GetPlayerInfoOnOtherShardTemplate,
    MultiDarTemplate,
    MultiDarComplexTemplate,
    GetRandomNames,
    SelectPlayerName,
    ValidateName,
    QuestEventInProgress,
    GetQuestAllFromParent,
    GetPlayerVotedList,
    CreatePlayerVoted,
    VoteOnPlayerVoted,
    GetPlayerVoted,
    GetComposedItem,
    SaveComposedItem,
    CompletePlayerVoted,
    WithdrawInstanceForVoted,
    GetLeaderBoardInfoForPlayerVoted,
    GetFriendsPlayerVoteds,
    ManageSynchronizedObjects,
    PurchaseUnlock,
    ValidateAndRedeemMobileProductPurchase,
    GetPlayerVotedData,
    UpdateAccountReferral,
    RemovePlayerExternalSiteMapping,
    GetInvitedPlayerQuest,
    AcceptQuestTransaction,
    FinalizeQuestTransaction,
    GetClientVersionInfo,
    PurchaseWalletItem,
    GetPlayerOnlineStatus,
    GetItemById,
    GetPublicAssetsByOids,
    GetPublicItemsByOids,
    GetPublicItemCategories,
    GetParentBuildingId,
    CreateRecipe,
    GetNpcsByChildHierarchies,
    RecycleRecipe,
    EnhanceRecipe,
}

/// Auxiliary message-frame category codes; declared by the protocol but not referenced by the decoder.
#[derive(Debug, Clone, Copy, PartialEq, Eq, Hash, Structural)]
pub enum UserMessage2 {
    MfCrisp,
    MfSynchronousApi,
    MfAgent,
}

/// Operations of the SyncServer service class.
#[derive(Debug, Clone, Copy, PartialEq, Eq, Hash, Structural)]
pub enum SyncMessage {
    AddObject,
    MoveObject,
    RemoveObject,
    ChangeObject,
    VillageHandoffQuery,
    ServerChangeObject,
    MovePlayer,
    RemovePlayer,
    Chat,
    StartEvent,
    StopEvent,
    Emote,
    BindUserNotify,
    PauseNpc,
    ResumeNpc,
    UpdateNpcScript,
    Notification,
    ClientTest,
    AddItem,
    Evict,
    EnterLoc,
    ExitLoc,
    Echo,
    GetVillage,
    Refresh,
    Bind,
    BindQuery,
    BindVillageNotify,
    VillageHandoff,
    FindServer,
    UpdateFilter,
    SendNotify,
    Login,
    UpdateUserInfo,
    UpdateUserFriends,
    UpdateUserGroups,
    ManageUserFriends,
    ManageUserGroups,
    ListServers,
    ListVillages,
    ListUsers,
    MoveVillage,
    StartNpcs,
    StopNpcs,
    UserSessionHandoff,
    EmoteSvc,
    Action,
    Logout,
    CloseZone,
    TerminateUserSession,
    GetPlayerCount,
    UpdateLocation,
    HeartbeatNotify,
    Relogin,
}

/// The top-level wire categories that namespace opcodes.
#[derive(Debug, Clone, Copy, PartialEq, Eq, Hash, Structural)]
pub enum ServiceClass {
    UserServer,
    SyncServer,
    Location,
    Client,
}

/// A fully classified message type: a service class together with one
/// of its operations.
#[derive(Debug, Clone, Copy, PartialEq, Eq, Hash, Structural)]
pub enum MessageType {
    User(UserMessage),
    Client(ClientMessage),
    Sync(SyncMessage),
}

/// The numeric opcode table of the Client class.
pub open spec fn spec_client_message_from(c: i64) -> Option<ClientMessage> {
    if c == 1 {
        Some(ClientMessage::AddObject)
    } else if c == 2 {
        Some(ClientMessage::MoveObject)
    } else if c == 3 {
        Some(ClientMessage::RemoveObject)
    } else if c == 4 {
        Some(ClientMessage::ChangeObject)
    } else if c == 5 {
        Some(ClientMessage::ServerChangeObject)
    } else if c == 6 {
        Some(ClientMessage::MovePlayer)
    } else if c == 7 {
        Some(ClientMessage::RemovePlayer)
    } else if c == 8 {
        Some(ClientMessage::Chat)
    } else if c == 9 {
        Some(ClientMessage::StartEvent)
    } else if c == 10 {
        Some(ClientMessage::StopEvent)
    } else if c == 11 {
        Some(ClientMessage::Emote)
    } else if c == 12 {
        Some(ClientMessage::ChangeWeight)
    } else if c == 13 {
        Some(ClientMessage::Pause)
    } else if c == 14 {
        Some(ClientMessage::Resume)
    } else if c == 16 {
        Some(ClientMessage::Notification)
    } else if c == 17 {
        Some(ClientMessage::ChangeServer)
    } else if c == 18 {
        Some(ClientMessage::SendNotify)
    } else if c == 19 {
        Some(ClientMessage::IntList)
    } else if c == 20 {
        Some(ClientMessage::AddPlayer)
    } else if c == 21 {
        Some(ClientMessage::UpdateNpcs)
    } else if c == 22 {
        Some(ClientMessage::StopNpc)
    } else if c == 23 {
        Some(ClientMessage::Minimap)
    } else if c == 24 {
        Some(ClientMessage::PosRecap)
    } else if c == 25 {
        Some(ClientMessage::Action)
    } else if c == 26 {
        Some(ClientMessage::Evict)
    } else if c == 27 {
        Some(ClientMessage::OnlineStatus)
    } else if c == 28 {
        Some(ClientMessage::ChangeObjectState)
    } else {
        None
    }
}

/// Look an opcode up in the Client table.
pub fn client_message_from_code(c: i64) -> (r: Option<ClientMessage>)
    ensures
        r == spec_client_message_from(c),
{
    match c {
        1 => Some(ClientMessage::AddObject),
        2 => Some(ClientMessage::MoveObject),
        3 => Some(ClientMessage::RemoveObject),
        4 => Some(ClientMessage::ChangeObject),
        5 => Some(ClientMessage::ServerChangeObject),
        6 => Some(ClientMessage::MovePlayer),
        7 => Some(ClientMessage::RemovePlayer),
        8 => Some(ClientMessage::Chat),
        9 => Some(ClientMessage::StartEvent),
        10 => Some(ClientMessage::StopEvent),
        11 => Some(ClientMessage::Emote),
        12 => Some(ClientMessage::ChangeWeight),
        13 => Some(ClientMessage::Pause),
        14 => Some(ClientMessage::Resume),
        16 => Some(ClientMessage::Notification),
        17 => Some(ClientMessage::ChangeServer),
        18 => Some(ClientMessage::SendNotify),
        19 => Some(ClientMessage::IntList),
        20 => Some(ClientMessage::AddPlayer),
        21 => Some(ClientMessage::UpdateNpcs),
        22 => Some(ClientMessage::StopNpc),
        23 => Some(ClientMessage::Minimap),
        24 => Some(ClientMessage::PosRecap),
        25 => Some(ClientMessage::Action),
        26 => Some(ClientMessage::Evict),
        27 => Some(ClientMessage::OnlineStatus),
        28 => Some(ClientMessage::ChangeObjectState),
        _ => None,
    }
}

pub open spec fn spec_user_message_from_t0(c: i64) -> Option<UserMessage> {
    if c == 1 {
        Some(UserMessage::GetAvatars)
    } else if c == 2 {
        Some(UserMessage::ClaimGift)
    } else if c == 3 {
        Some(UserMessage::RegisterPlayer)
    } else if c == 4 {
        Some(UserMessage::GetPlayerMazes)
    } else if c == 5 {
        Some(UserMessage::StartMazeEdit)
    } else if c == 6 {
        Some(UserMessage::GetPlayerMaze)
    } else if c == 7 {
        Some(UserMessage::GetCommunityMaze)
    } else if c == 8 {
        Some(UserMessage::EndMazeEdit)
    } else if c == 9 {
        Some(UserMessage::DeleteMaze)
    } else if c == 10 {
        Some(UserMessage::GetDynamicSurprise)
    } else if c == 11 {
        Some(UserMessage::GetZoneMazes)
    } else if c == 12 {
        Some(UserMessage::GetCommunityMazes)
    } else if c == 13 {
        Some(UserMessage::GetQuestMazes)
    } else if c == 14 {
        Some(UserMessage::PublishMaze)
    } else if c == 15 {
        Some(UserMessage::Login)
    } else if c == 16 {
        Some(UserMessage::GetPlayerNpcs)
    } else if c == 17 {
        Some(UserMessage::CheckUsername)
    } else if c == 18 {
        Some(UserMessage::RegisterFcssCode)
    } else if c == 19 {
        Some(UserMessage::Logout)
    } else if c == 20 {
        Some(UserMessage::GetInventoryObjects)
    } else if c == 21 {
        Some(UserMessage::GetBuildObjects)
    } else if c == 22 {
        Some(UserMessage::GetCollectionObjects)
    } else if c == 23 {
        Some(UserMessage::UpdateAvatarName)
    } else if c == 24 {
        Some(UserMessage::SearchVillages)
    } else if c == 25 {
        Some(UserMessage::MoveVillage)
    } else if c == 26 {
        Some(UserMessage::Relogin)
    } else if c == 27 {
        Some(UserMessage::InitLocation)
    } else if c == 28 {
        Some(UserMessage::GetLangLocale)
    } else if c == 29 {
        Some(UserMessage::EnterBuilding)
    } else if c == 30 {
        Some(UserMessage::BuyItem)
    } else if c == 31 {
        Some(UserMessage::GetShoppingItems)
    } else if c == 32 {
        Some(UserMessage::ListShoppingCategories)
    } else if c == 33 {
        Some(UserMessage::GetFriendList)
    } else if c == 34 {
        Some(UserMessage::RemoveFriend)
    } else if c == 35 {
        Some(UserMessage::ManageFriendRequest)
    } else if c == 36 {
        Some(UserMessage::GetBlockedPlayers)
    } else if c == 37 {
        Some(UserMessage::ManageBlockPlayer)
    } else if c == 38 {
        Some(UserMessage::AddFriend)
    } else if c == 39 {
        Some(UserMessage::UnpublishMaze)
    } else if c == 40 {
        Some(UserMessage::GetRandomWorldName)
    } else if c == 41 {
        Some(UserMessage::GetOnlineStatus)
    } else if c == 42 {
        Some(UserMessage::ManageTestPlayer)
    } else if c == 43 {
        Some(UserMessage::UpdateQuestItem)
    } else if c == 44 {
        Some(UserMessage::PlaceMazeItem)
    } else if c == 45 {
        Some(UserMessage::RemoveMazeItem)
    } else if c == 46 {
        Some(UserMessage::GetPlayerMazeThumbnails)
    } else if c == 47 {
        Some(UserMessage::GetPlayerMazeThumbnail)
    } else if c == 48 {
        Some(UserMessage::UpdatePlayerMazeThumbnail)
    } else if c == 49 {
        Some(UserMessage::GetCommunityMazeThumbnails)
    } else if c == 50 {
        Some(UserMessage::AcceptQuest)
    } else if c == 51 {
        Some(UserMessage::CompleteQuest)
    } else if c == 52 {
        Some(UserMessage::AddQuestItem)
    } else if c == 53 {
        Some(UserMessage::EndGame)
    } else if c == 54 {
        Some(UserMessage::GetPlayerDynamicSurprises)
    } else if c == 55 {
        Some(UserMessage::ClaimDynamicSurprise)
    } else if c == 56 {
        Some(UserMessage::GetNotifications)
    } else if c == 57 {
        Some(UserMessage::GetNotificationByPlayerNotificationId)
    } else if c == 58 {
        Some(UserMessage::GetNotificationByPlayerId)
    } else if c == 59 {
        Some(UserMessage::UpdateNotification)
    } else if c == 60 {
        Some(UserMessage::GetPlayerMazeRating)
    } else if c == 61 {
        Some(UserMessage::GetPlayerMazeRatings)
    } else if c == 62 {
        Some(UserMessage::GetSystemMazeRating)
    } else if c == 63 {
        Some(UserMessage::RatePlayerMaze)
    } else if c == 64 {
        Some(UserMessage::GetNotificationOptions)
    } else if c == 65 {
        Some(UserMessage::UpdateNotificationOption)
    } else if c == 66 {
        Some(UserMessage::ClearNotifications)
    } else if c == 67 {
        Some(UserMessage::GetHomeMaze)
    } else if c == 68 {
        Some(UserMessage::UpdateHomeMaze)
    } else if c == 69 {
        Some(UserMessage::GetNotificationCategories)
    } else if c == 70 {
        Some(UserMessage::GetNotificationOptionByCategory)
    } else if c == 71 {
        Some(UserMessage::AcknowledgeNotification)
    } else if c == 72 {
        Some(UserMessage::GetNotificationOptionByPlayerNotificationOptionId)
    } else if c == 73 {
        Some(UserMessage::GetNotificationCategory)
    } else if c == 74 {
        Some(UserMessage::ClearNotificationsByPlayerId)
    } else if c == 75 {
        Some(UserMessage::SetNotificationOptions)
    } else if c == 76 {
        Some(UserMessage::GetCmsCollectionItems)
    } else if c == 77 {
        Some(UserMessage::AddCollectionItem)
    } else if c == 78 {
        Some(UserMessage::DropCollectionItem)
    } else if c == 79 {
        Some(UserMessage::ResetCollection)
    } else if c == 80 {
        Some(UserMessage::ApproveMazePublishing)
    } else if c == 81 {
        Some(UserMessage::UpdateFriendComment)
    } else if c == 82 {
        Some(UserMessage::GetActiveFriendList)
    } else if c == 83 {
        Some(UserMessage::GetFriendRequests)
    } else if c == 84 {
        Some(UserMessage::GetFriendByFriendPlayerId)
    } else if c == 85 {
        Some(UserMessage::FindFriendByPlayerFriendId)
    } else if c == 86 {
        Some(UserMessage::GetQuestTypes)
    } else if c == 87 {
        Some(UserMessage::DeleteFriendByPlayerFriendId)
    } else if c == 88 {
        Some(UserMessage::SendPrivateChatGroupInvite)
    } else if c == 89 {
        Some(UserMessage::SendMessage)
    } else if c == 90 {
        Some(UserMessage::GetCmsItemcategoryIds)
    } else if c == 91 {
        Some(UserMessage::GetCmsItemcategoryById)
    } else if c == 92 {
        Some(UserMessage::GetPlayerMazePlay)
    } else if c == 93 {
        Some(UserMessage::ConsumeInventoryItem)
    } else if c == 94 {
        Some(UserMessage::MoveInventoryItem)
    } else if c == 95 {
        Some(UserMessage::SwapInventoryItems)
    } else if c == 96 {
        Some(UserMessage::RedeemFeatureCode)
    } else if c == 97 {
        Some(UserMessage::GetMazeItems)
    } else if c == 98 {
        Some(UserMessage::GetYardItems)
    } else if c == 99 {
        Some(UserMessage::PlaceYardItem)
    } else if c == 100 {
        Some(UserMessage::RemoveYardItem)
    } else {
        None
    }
}

pub open spec fn spec_user_message_from_t1(c: i64) -> Option<UserMessage> {
    if c == 101 {
        Some(UserMessage::GetSystemMazePlay)
    } else if c == 102 {
        Some(UserMessage::GetAvatarItems)
    } else if c == 103 {
        Some(UserMessage::GetOutfitItems)
    } else if c == 104 {
        Some(UserMessage::StartPrivateChatGroup)
    } else if c == 105 {
        Some(UserMessage::AcceptPrivateChatGroupInvite)
    } else if c == 106 {
        Some(UserMessage::LeavePrivateGroup)
    } else if c == 107 {
        Some(UserMessage::GetChatChannelTypes)
    } else if c == 108 {
        Some(UserMessage::StartMazePlay)
    } else if c == 109 {
        Some(UserMessage::EndMazePlay)
    } else if c == 110 {
        Some(UserMessage::DressAvatar)
    } else if c == 111 {
        Some(UserMessage::GetOutfits)
    } else if c == 112 {
        Some(UserMessage::StartQuest)
    } else if c == 113 {
        Some(UserMessage::Heartbeat)
    } else if c == 114 {
        Some(UserMessage::GetFriendAccountsByBirthday)
    } else if c == 115 {
        Some(UserMessage::GetPrivateChatGroupMembers)
    } else if c == 116 {
        Some(UserMessage::RejoinPrivateChatGroup)
    } else if c == 117 {
        Some(UserMessage::AddPlayerInfraction)
    } else if c == 118 {
        Some(UserMessage::GetPlayerChatHistory)
    } else if c == 119 {
        Some(UserMessage::GetQuestItems)
    } else if c == 120 {
        Some(UserMessage::StartGame)
    } else if c == 121 {
        Some(UserMessage::GetMazeSets)
    } else if c == 122 {
        Some(UserMessage::DeclinePrivateChatGroupInvite)
    } else if c == 123 {
        Some(UserMessage::GetMazeSet)
    } else if c == 124 {
        Some(UserMessage::FindPrivateChatGroupMember)
    } else if c == 125 {
        Some(UserMessage::FindPrivateChatGroupId)
    } else if c == 126 {
        Some(UserMessage::CompleteDailyActivity)
    } else if c == 127 {
        Some(UserMessage::GetQuestById)
    } else if c == 128 {
        Some(UserMessage::GetWeeklyAwardStatus)
    } else if c == 129 {
        Some(UserMessage::GetPlayerWeeklyAwardHistory)
    } else if c == 130 {
        Some(UserMessage::GetWeeklyAwardStatusByPlayerWeeklyAwardId)
    } else if c == 131 {
        Some(UserMessage::GetSlots)
    } else if c == 132 {
        Some(UserMessage::GetGames)
    } else if c == 133 {
        Some(UserMessage::GetQuests)
    } else if c == 134 {
        Some(UserMessage::GetDailyAwardStatus)
    } else if c == 135 {
        Some(UserMessage::UpdatePlayerActiveAvatar)
    } else if c == 136 {
        Some(UserMessage::GetSiteFrame)
    } else if c == 137 {
        Some(UserMessage::GetCmsItemcategories)
    } else if c == 138 {
        Some(UserMessage::NextCaptcha)
    } else if c == 139 {
        Some(UserMessage::CheckCaptcha)
    } else if c == 140 {
        Some(UserMessage::GetPlayerGifts)
    } else if c == 141 {
        Some(UserMessage::UpdateHomeTheme)
    } else if c == 142 {
        Some(UserMessage::GetHomeThemes)
    } else if c == 143 {
        Some(UserMessage::GetPlayerHomeThemes)
    } else if c == 144 {
        Some(UserMessage::RejectQuest)
    } else if c == 145 {
        Some(UserMessage::GetPlayerReceivedGifts)
    } else if c == 146 {
        Some(UserMessage::ManageGiftRequest)
    } else if c == 147 {
        Some(UserMessage::GetAnnouncements)
    } else if c == 148 {
        Some(UserMessage::GetAnnouncement)
    } else if c == 149 {
        Some(UserMessage::GetAchievementById)
    } else if c == 150 {
        Some(UserMessage::GetAchievements)
    } else if c == 151 {
        Some(UserMessage::GetAdoptionObjectsByAvatar)
    } else if c == 152 {
        Some(UserMessage::GetObjectIdsByAdoptionNumber)
    } else if c == 153 {
        Some(UserMessage::FindGiftByPlayerGiftId)
    } else if c == 154 {
        Some(UserMessage::GetZones)
    } else if c == 155 {
        Some(UserMessage::ListStoreCategories)
    } else if c == 156 {
        Some(UserMessage::ListStoreInventory)
    } else if c == 157 {
        Some(UserMessage::ListStores)
    } else if c == 158 {
        Some(UserMessage::PurchaseItems)
    } else if c == 159 {
        Some(UserMessage::CompleteTutorial)
    } else if c == 160 {
        Some(UserMessage::UpdateLanglocale)
    } else if c == 161 {
        Some(UserMessage::UpdatePlayerName)
    } else if c == 162 {
        Some(UserMessage::GetPlayerAchievements)
    } else if c == 163 {
        Some(UserMessage::GetShards)
    } else if c == 164 {
        Some(UserMessage::GetCraftableItems)
    } else if c == 165 {
        Some(UserMessage::GetCraftableItemById)
    } else if c == 166 {
        Some(UserMessage::PauseNpc)
    } else if c == 167 {
        Some(UserMessage::ResumeNpc)
    } else if c == 168 {
        Some(UserMessage::GetPlayerQuests)
    } else if c == 169 {
        Some(UserMessage::NpcInteraction)
    } else if c == 170 {
        Some(UserMessage::CraftItemByCraftableItemId)
    } else if c == 171 {
        Some(UserMessage::GetNpcRelationships)
    } else if c == 172 {
        Some(UserMessage::CraftItemByItems)
    } else if c == 173 {
        Some(UserMessage::GetNpcs)
    } else if c == 174 {
        Some(UserMessage::DressAvatarItems)
    } else if c == 175 {
        Some(UserMessage::LockHome)
    } else if c == 176 {
        Some(UserMessage::UndressAvatar)
    } else if c == 177 {
        Some(UserMessage::GetMazePiecesByPlayerMazeId)
    } else if c == 178 {
        Some(UserMessage::GetStoreThemes)
    } else if c == 179 {
        Some(UserMessage::GetAssetsByOids)
    } else if c == 180 {
        Some(UserMessage::GetCurrencies)
    } else if c == 181 {
        Some(UserMessage::AddOutfitItems)
    } else if c == 182 {
        Some(UserMessage::AddOutfit)
    } else if c == 183 {
        Some(UserMessage::RemoveOutfitItems)
    } else if c == 184 {
        Some(UserMessage::RemoveOutfit)
    } else if c == 185 {
        Some(UserMessage::ReplaceOutfitItems)
    } else if c == 186 {
        Some(UserMessage::SetCurrentOutfit)
    } else if c == 187 {
        Some(UserMessage::GetFriendAvatars)
    } else if c == 188 {
        Some(UserMessage::GetPlayerQuestsByQuestIds)
    } else if c == 189 {
        Some(UserMessage::GetPlayerGamesByZone)
    } else if c == 190 {
        Some(UserMessage::GetHomeInvitations)
    } else if c == 191 {
        Some(UserMessage::ManageHomeInvitations)
    } else if c == 192 {
        Some(UserMessage::FindPlayerByNickname)
    } else if c == 193 {
        Some(UserMessage::GetPlayerAvatarsByBirthday)
    } else if c == 194 {
        Some(UserMessage::SendQuestInvite)
    } else if c == 195 {
        Some(UserMessage::GetHostedQuests)
    } else if c == 196 {
        Some(UserMessage::GetInvitedQuests)
    } else if c == 197 {
        Some(UserMessage::GetPlayersInQuest)
    } else if c == 198 {
        Some(UserMessage::RemoveQuestInvite)
    } else if c == 199 {
        Some(UserMessage::AcceptQuestInvite)
    } else if c == 200 {
        Some(UserMessage::DeclineQuestInvite)
    } else {
        None
    }
}

pub open spec fn spec_user_message_from_t2(c: i64) -> Option<UserMessage> {
    if c == 201 {
        Some(UserMessage::GetPlayerReceivedQuestInvite)
    } else if c == 202 {
        Some(UserMessage::GetPlayerQuestInvite)
    } else if c == 204 {
        Some(UserMessage::CleanupPlayerMazes)
    } else if c == 205 {
        Some(UserMessage::GetPlayerStats)
    } else if c == 206 {
        Some(UserMessage::ListStoreInventoryItems)
    } else if c == 207 {
        Some(UserMessage::GetOtherPlayerDetails)
    } else if c == 208 {
        Some(UserMessage::GetTestPlayers)
    } else if c == 209 {
        Some(UserMessage::GetStatsType)
    } else if c == 210 {
        Some(UserMessage::TestInventoryUpdates)
    } else if c == 211 {
        Some(UserMessage::TestInventoryRemovals)
    } else if c == 212 {
        Some(UserMessage::SetPlayerGiftStatus)
    } else if c == 213 {
        Some(UserMessage::GetRequiredExperience)
    } else if c == 214 {
        Some(UserMessage::GetQuestByParentId)
    } else if c == 215 {
        Some(UserMessage::UpdateOnlineStatus)
    } else if c == 216 {
        Some(UserMessage::ChangeStoreItemStock)
    } else if c == 217 {
        Some(UserMessage::LogoutSession)
    } else if c == 218 {
        Some(UserMessage::AbandonQuest)
    } else if c == 219 {
        Some(UserMessage::GetAwardSets)
    } else if c == 220 {
        Some(UserMessage::UpdateArm)
    } else if c == 221 {
        Some(UserMessage::UpdateRuledObject)
    } else if c == 222 {
        Some(UserMessage::UpdateRule)
    } else if c == 223 {
        Some(UserMessage::AddAward)
    } else if c == 224 {
        Some(UserMessage::UpdateAward)
    } else if c == 225 {
        Some(UserMessage::UpdateStateObject)
    } else if c == 226 {
        Some(UserMessage::GetStateObjects)
    } else if c == 227 {
        Some(UserMessage::GetAwardById)
    } else if c == 228 {
        Some(UserMessage::GetRuleById)
    } else if c == 229 {
        Some(UserMessage::GetRuledObjectByHierarchy)
    } else if c == 230 {
        Some(UserMessage::AddStateObject)
    } else if c == 231 {
        Some(UserMessage::AddRule)
    } else if c == 232 {
        Some(UserMessage::AddArm)
    } else if c == 233 {
        Some(UserMessage::GetArmByAward)
    } else if c == 234 {
        Some(UserMessage::GetArmByRule)
    } else if c == 235 {
        Some(UserMessage::GetArmByStateObject)
    } else if c == 236 {
        Some(UserMessage::GetAwardByArm)
    } else if c == 237 {
        Some(UserMessage::GetRuleByArm)
    } else if c == 238 {
        Some(UserMessage::GetStateObjectByArm)
    } else if c == 239 {
        Some(UserMessage::ObjectInfoRows)
    } else if c == 240 {
        Some(UserMessage::AssignRuledSetToRuledObject)
    } else if c == 241 {
        Some(UserMessage::AddRuledObject)
    } else if c == 242 {
        Some(UserMessage::GetRuleSets)
    } else if c == 243 {
        Some(UserMessage::SaveObjectAttributes)
    } else if c == 244 {
        Some(UserMessage::GetObjectTypes)
    } else if c == 245 {
        Some(UserMessage::GetCmsNotifications)
    } else if c == 246 {
        Some(UserMessage::JoinQuest)
    } else if c == 247 {
        Some(UserMessage::GetAllOperators)
    } else if c == 248 {
        Some(UserMessage::GetOnlineStatuses)
    } else if c == 249 {
        Some(UserMessage::CstoolGetFullAccountInformation)
    } else if c == 250 {
        Some(UserMessage::RemoveFriendCstool)
    } else if c == 251 {
        Some(UserMessage::UpdateYard)
    } else if c == 252 {
        Some(UserMessage::UpdateChatAvailability)
    } else if c == 253 {
        Some(UserMessage::GetFriendListCstool)
    } else if c == 254 {
        Some(UserMessage::CreateOrUpdateCurrencyCstool)
    } else if c == 255 {
        Some(UserMessage::GetAllRules)
    } else if c == 256 {
        Some(UserMessage::GetAllRuledObject)
    } else if c == 257 {
        Some(UserMessage::GetAllAwards)
    } else if c == 258 {
        Some(UserMessage::DeleteRule)
    } else if c == 259 {
        Some(UserMessage::DeleteRuledObject)
    } else if c == 260 {
        Some(UserMessage::DeleteAward)
    } else if c == 261 {
        Some(UserMessage::GetFullRuleById)
    } else if c == 262 {
        Some(UserMessage::GetRuledObjectById)
    } else if c == 263 {
        Some(UserMessage::GetCurrencyCstool)
    } else if c == 264 {
        Some(UserMessage::GetEnergyLevelCstool)
    } else if c == 265 {
        Some(UserMessage::GetUserLevelCstool)
    } else if c == 266 {
        Some(UserMessage::GetUserXpCstool)
    } else if c == 267 {
        Some(UserMessage::GetUserNpcRelationshipLevel)
    } else if c == 268 {
        Some(UserMessage::CreateOrUpdateEnergyLevelCstool)
    } else if c == 269 {
        Some(UserMessage::CreateOrUpdateUserLevelCstool)
    } else if c == 270 {
        Some(UserMessage::CreateOrUpdateUserXpCstool)
    } else if c == 271 {
        Some(UserMessage::CreateOrUpdateUserNpcRelationshipLevel)
    } else if c == 272 {
        Some(UserMessage::GetFullRuledObjectById)
    } else if c == 273 {
        Some(UserMessage::GetFullAwardById)
    } else if c == 274 {
        Some(UserMessage::DeleteAsam)
    } else if c == 275 {
        Some(UserMessage::DeleteRsrm)
    } else if c == 276 {
        Some(UserMessage::GetFormulaByType)
    } else if c == 277 {
        Some(UserMessage::AddBugReport)
    } else if c == 278 {
        Some(UserMessage::FindPlayerAccountCstool)
    } else if c == 279 {
        Some(UserMessage::FindNpcsCstool)
    } else if c == 280 {
        Some(UserMessage::FindAvatarBySkuCstool)
    } else if c == 281 {
        Some(UserMessage::RegisterAvatarCstool)
    } else if c == 282 {
        Some(UserMessage::GetAllCategories)
    } else if c == 283 {
        Some(UserMessage::UnregisterTestPlayers)
    } else if c == 284 {
        Some(UserMessage::GetAllAttributes)
    } else if c == 285 {
        Some(UserMessage::UpdateStoreItemNotify)
    } else if c == 286 {
        Some(UserMessage::GetAllAttributesByCategory)
    } else if c == 287 {
        Some(UserMessage::AddObjectAttributes)
    } else if c == 288 {
        Some(UserMessage::UpdateObjectAttributes)
    } else if c == 289 {
        Some(UserMessage::GetArmById)
    } else if c == 290 {
        Some(UserMessage::DeleteRuleFromRsrm)
    } else if c == 291 {
        Some(UserMessage::DeleteAwardFromAsam)
    } else if c == 292 {
        Some(UserMessage::GetAllArm)
    } else if c == 293 {
        Some(UserMessage::AddRulesToRsrm)
    } else if c == 294 {
        Some(UserMessage::AddAwardsToAsam)
    } else if c == 295 {
        Some(UserMessage::GetNpcWithMostRelationship)
    } else if c == 296 {
        Some(UserMessage::StateObjectArm)
    } else if c == 297 {
        Some(UserMessage::GetStoreItems)
    } else if c == 298 {
        Some(UserMessage::ManageCrispAction)
    } else if c == 299 {
        Some(UserMessage::GetCrispActions)
    } else if c == 300 {
        Some(UserMessage::SearchItems)
    } else if c == 301 {
        Some(UserMessage::AddItemsToPlayer)
    } else {
        None
    }
}

pub open spec fn spec_user_message_from_t3(c: i64) -> Option<UserMessage> {
    if c == 302 {
        Some(UserMessage::AddToPlayerStat)
    } else if c == 303 {
        Some(UserMessage::ResendRegConfKey)
    } else if c == 304 {
        Some(UserMessage::AcknowledgeConfKey)
    } else if c == 305 {
        Some(UserMessage::GetCmsMissions)
    } else if c == 306 {
        Some(UserMessage::GetRuleInfo)
    } else if c == 307 {
        Some(UserMessage::GetPlayerQuestsCstool)
    } else if c == 308 {
        Some(UserMessage::StartTaskCstool)
    } else if c == 309 {
        Some(UserMessage::GetOtherPlayerNpcRelationships)
    } else if c == 310 {
        Some(UserMessage::GetBuyBackStoreItems)
    } else if c == 311 {
        Some(UserMessage::UpdateChatAvailabilityForPlayerCstool)
    } else if c == 312 {
        Some(UserMessage::GetChatAvailabilityCstool)
    } else if c == 313 {
        Some(UserMessage::GetStoreItemsForItems)
    } else if c == 314 {
        Some(UserMessage::PurchaseQuest)
    } else if c == 315 {
        Some(UserMessage::GetCmsEvents)
    } else if c == 316 {
        Some(UserMessage::AddEvent)
    } else if c == 317 {
        Some(UserMessage::RequestEvent)
    } else if c == 318 {
        Some(UserMessage::GetPendingEvents)
    } else if c == 319 {
        Some(UserMessage::AcceptEvent)
    } else if c == 320 {
        Some(UserMessage::RejectEvent)
    } else if c == 321 {
        Some(UserMessage::SavePlayerSettings)
    } else if c == 322 {
        Some(UserMessage::LoadPlayerSettings)
    } else if c == 323 {
        Some(UserMessage::GetRuledObjectByObjectId)
    } else if c == 324 {
        Some(UserMessage::SuggestFriends)
    } else if c == 325 {
        Some(UserMessage::SearchUsers)
    } else if c == 326 {
        Some(UserMessage::CstoolUnlockPlayerAccount)
    } else if c == 327 {
        Some(UserMessage::GetTiers)
    } else if c == 328 {
        Some(UserMessage::GetDebugQuests)
    } else if c == 329 {
        Some(UserMessage::GetNpcsWithQuestOffer)
    } else if c == 330 {
        Some(UserMessage::CreatePlayerMission)
    } else if c == 331 {
        Some(UserMessage::GetPlayerMissionDetail)
    } else if c == 332 {
        Some(UserMessage::GetPlayerMissions)
    } else if c == 333 {
        Some(UserMessage::DeleteItemFromPlayer)
    } else if c == 334 {
        Some(UserMessage::DebugCreateQuest)
    } else if c == 335 {
        Some(UserMessage::RegisterAvatarForRegistration)
    } else if c == 336 {
        Some(UserMessage::UpdateAvatarNameForRegistration)
    } else if c == 337 {
        Some(UserMessage::EnterStore)
    } else if c == 338 {
        Some(UserMessage::ExitStore)
    } else if c == 339 {
        Some(UserMessage::GetAllQuests)
    } else if c == 340 {
        Some(UserMessage::GetItemsByCategory)
    } else if c == 341 {
        Some(UserMessage::GetItemCategoriesCstool)
    } else if c == 342 {
        Some(UserMessage::GetAllZones)
    } else if c == 343 {
        Some(UserMessage::GetAllNpcs)
    } else if c == 344 {
        Some(UserMessage::GetAllStoreItems)
    } else if c == 345 {
        Some(UserMessage::UpdatePlayerEmail)
    } else if c == 346 {
        Some(UserMessage::AddUserStoreItem)
    } else if c == 347 {
        Some(UserMessage::AllocatePlayerVillage)
    } else if c == 348 {
        Some(UserMessage::SearchUserStoreItems)
    } else if c == 349 {
        Some(UserMessage::UpdateCrispAvailabilityCsTool)
    } else if c == 350 {
        Some(UserMessage::GetAllVillages)
    } else if c == 351 {
        Some(UserMessage::UpdateUserStoreItem)
    } else if c == 352 {
        Some(UserMessage::RemoveUserStoreItem)
    } else if c == 353 {
        Some(UserMessage::GetCrispAvailabilityCsTool)
    } else if c == 354 {
        Some(UserMessage::GetPlayerCrispData)
    } else if c == 355 {
        Some(UserMessage::UpdateChatBlockedByParentCsTool)
    } else if c == 356 {
        Some(UserMessage::UpdateChatBlockedByParent)
    } else if c == 357 {
        Some(UserMessage::GetPlayerWorldnameByGasid)
    } else if c == 358 {
        Some(UserMessage::GetScsInvalidCodeStatus)
    } else if c == 359 {
        Some(UserMessage::GetCrispActionsForNonloggedInsession)
    } else if c == 360 {
        Some(UserMessage::GetPlayerContainerByPlayer)
    } else if c == 361 {
        Some(UserMessage::GetPlayerContainerType)
    } else if c == 362 {
        Some(UserMessage::GetWebContent)
    } else if c == 363 {
        Some(UserMessage::ListItemByPlayer)
    } else if c == 364 {
        Some(UserMessage::ListItemByContainer)
    } else if c == 365 {
        Some(UserMessage::GetWebContentByPtag)
    } else if c == 366 {
        Some(UserMessage::GetEula)
    } else if c == 367 {
        Some(UserMessage::GetPlayerAccountByGasid)
    } else if c == 368 {
        Some(UserMessage::GetPlayerIdByGasid)
    } else if c == 369 {
        Some(UserMessage::ListVillagePlots)
    } else if c == 370 {
        Some(UserMessage::SendVillageInvite)
    } else if c == 371 {
        Some(UserMessage::AcceptVillageInvite)
    } else if c == 372 {
        Some(UserMessage::RejectVillageInvite)
    } else if c == 373 {
        Some(UserMessage::ReportAbuse)
    } else if c == 374 {
        Some(UserMessage::GetAbuseReports)
    } else if c == 375 {
        Some(UserMessage::GetAbuseReportsByPlayer)
    } else if c == 376 {
        Some(UserMessage::UpdateAbuseReport)
    } else if c == 377 {
        Some(UserMessage::PurchaseUserStoreItems)
    } else if c == 378 {
        Some(UserMessage::DecorateUserStore)
    } else if c == 379 {
        Some(UserMessage::RedeemUserStoreSales)
    } else if c == 380 {
        Some(UserMessage::GetRuleInstanceInfo)
    } else if c == 381 {
        Some(UserMessage::AcceptEula)
    } else if c == 382 {
        Some(UserMessage::AddPlayerLike)
    } else if c == 383 {
        Some(UserMessage::RemovePlayerLike)
    } else if c == 384 {
        Some(UserMessage::ListTopLikes)
    } else if c == 385 {
        Some(UserMessage::UndecorateUserStore)
    } else if c == 386 {
        Some(UserMessage::UserStoreInfo)
    } else if c == 387 {
        Some(UserMessage::AddAwardToAwardQueue)
    } else if c == 388 {
        Some(UserMessage::RegistrationRecord)
    } else if c == 389 {
        Some(UserMessage::GetObjectFromSku)
    } else if c == 390 {
        Some(UserMessage::GetInfractionTypes)
    } else if c == 391 {
        Some(UserMessage::GetAllCmsMissions)
    } else if c == 392 {
        Some(UserMessage::CheckEmailAvailability)
    } else if c == 393 {
        Some(UserMessage::AddBookmark)
    } else if c == 394 {
        Some(UserMessage::RemoveBookmark)
    } else if c == 395 {
        Some(UserMessage::ListBookmarks)
    } else if c == 396 {
        Some(UserMessage::ListLimits)
    } else if c == 397 {
        Some(UserMessage::ListVillageUsers)
    } else if c == 398 {
        Some(UserMessage::GetDailyAwards)
    } else if c == 399 {
        Some(UserMessage::ListPlayerLikes)
    } else if c == 400 {
        Some(UserMessage::VillageInfo)
    } else if c == 401 {
        Some(UserMessage::DecoratedUserStoreItems)
    } else {
        None
    }
}

pub open spec fn spec_user_message_from_t4(c: i64) -> Option<UserMessage> {
    if c == 402 {
        Some(UserMessage::ListBookmarkObjectTypes)
    } else if c == 403 {
        Some(UserMessage::LinkFacebookAccount)
    } else if c == 404 {
        Some(UserMessage::UnlinkFacebookAccount)
    } else if c == 405 {
        Some(UserMessage::ListFriendFacebookIds)
    } else if c == 406 {
        Some(UserMessage::ListPlayerAccountsByFacebookIds)
    } else if c == 407 {
        Some(UserMessage::GetAllUserStoreItems)
    } else if c == 408 {
        Some(UserMessage::AddQuestItemNotify)
    } else if c == 409 {
        Some(UserMessage::SetPlayerFindable)
    } else if c == 410 {
        Some(UserMessage::GetPlayerChatReceivedHistory)
    } else if c == 411 {
        Some(UserMessage::GetAllStoreThemes)
    } else if c == 412 {
        Some(UserMessage::SellItem)
    } else if c == 413 {
        Some(UserMessage::GetAllBuildings)
    } else if c == 414 {
        Some(UserMessage::GetAllItemcategories)
    } else if c == 415 {
        Some(UserMessage::PlantPlayerItem)
    } else if c == 416 {
        Some(UserMessage::GetFeaturedItems)
    } else if c == 417 {
        Some(UserMessage::GetNpcRelationshipLevels)
    } else if c == 418 {
        Some(UserMessage::SaveGameState)
    } else if c == 419 {
        Some(UserMessage::ListSavedGames)
    } else if c == 420 {
        Some(UserMessage::LoadGame)
    } else if c == 421 {
        Some(UserMessage::SendGame)
    } else if c == 422 {
        Some(UserMessage::AcceptGame)
    } else if c == 423 {
        Some(UserMessage::RejectGame)
    } else if c == 427 {
        Some(UserMessage::CmsGetGameState)
    } else if c == 428 {
        Some(UserMessage::GetAllFeaturedItems)
    } else if c == 429 {
        Some(UserMessage::ManageNpcFriendRequest)
    } else if c == 430 {
        Some(UserMessage::PlaceVillageItem)
    } else if c == 431 {
        Some(UserMessage::GetCmsVillageRoles)
    } else if c == 432 {
        Some(UserMessage::SendEmailMessage)
    } else if c == 433 {
        Some(UserMessage::ListInboxMessages)
    } else if c == 434 {
        Some(UserMessage::GetInboxMessage)
    } else if c == 435 {
        Some(UserMessage::MarkInboxMessage)
    } else if c == 436 {
        Some(UserMessage::GetRuleCount)
    } else if c == 437 {
        Some(UserMessage::ListSentMessages)
    } else if c == 438 {
        Some(UserMessage::GetVillageRoles)
    } else if c == 439 {
        Some(UserMessage::AssignVillageRole)
    } else if c == 440 {
        Some(UserMessage::GetCmsVillageTemplatesLocked)
    } else if c == 441 {
        Some(UserMessage::ConfirmFindable)
    } else if c == 442 {
        Some(UserMessage::CreatePrivateVillage)
    } else if c == 443 {
        Some(UserMessage::GetRuleInfoList)
    } else if c == 444 {
        Some(UserMessage::GetRuleInstanceInfoList)
    } else if c == 445 {
        Some(UserMessage::GetOtherPlayerDetailsList)
    } else if c == 446 {
        Some(UserMessage::AttachItems)
    } else if c == 447 {
        Some(UserMessage::DetachItems)
    } else if c == 448 {
        Some(UserMessage::AddAvatarCstool)
    } else if c == 449 {
        Some(UserMessage::KickOut)
    } else if c == 450 {
        Some(UserMessage::HarvestPlayerItem)
    } else if c == 451 {
        Some(UserMessage::GetNpcGifts)
    } else if c == 452 {
        Some(UserMessage::RemoveVillageItem)
    } else if c == 453 {
        Some(UserMessage::ListVillageItems)
    } else if c == 454 {
        Some(UserMessage::GetCmsVillageTemplatesUnlocked)
    } else if c == 455 {
        Some(UserMessage::ListFindablePlayers)
    } else if c == 456 {
        Some(UserMessage::GetAllCraftableItems)
    } else if c == 457 {
        Some(UserMessage::ListCmsMessages)
    } else if c == 458 {
        Some(UserMessage::GetCmsMessage)
    } else if c == 459 {
        Some(UserMessage::GetFriendshipRequestCounts)
    } else if c == 460 {
        Some(UserMessage::GetNpcInteractions)
    } else if c == 461 {
        Some(UserMessage::GetCraftableTypes)
    } else if c == 462 {
        Some(UserMessage::VillageInviteStatusNotify)
    } else if c == 463 {
        Some(UserMessage::FindNpcsByName)
    } else if c == 464 {
        Some(UserMessage::ChangePassword)
    } else if c == 465 {
        Some(UserMessage::ForgotPassword)
    } else if c == 466 {
        Some(UserMessage::SetPassword)
    } else if c == 467 {
        Some(UserMessage::AcceptEventNotify)
    } else if c == 468 {
        Some(UserMessage::ListQuestSpawnIds)
    } else if c == 469 {
        Some(UserMessage::GetRuleInstanceInfoForUi)
    } else if c == 470 {
        Some(UserMessage::GetRuleInfoListForUi)
    } else if c == 471 {
        Some(UserMessage::SendTestMessage)
    } else if c == 472 {
        Some(UserMessage::SaveAvatarImage)
    } else if c == 473 {
        Some(UserMessage::GetAvatarImages)
    } else if c == 474 {
        Some(UserMessage::GetObjectsLockInfo)
    } else if c == 475 {
        Some(UserMessage::GetRuleTemplateIdForUi)
    } else if c == 476 {
        Some(UserMessage::CraftItemsByCraftableItemIds)
    } else if c == 477 {
        Some(UserMessage::GetAllGames)
    } else if c == 478 {
        Some(UserMessage::UpdateGenderAndLocation)
    } else if c == 479 {
        Some(UserMessage::GetGeographicalLocations)
    } else if c == 480 {
        Some(UserMessage::GetCannedMessageCategories)
    } else if c == 481 {
        Some(UserMessage::PreFilterNameCheckAvailability)
    } else if c == 482 {
        Some(UserMessage::CraftBracelet)
    } else if c == 483 {
        Some(UserMessage::GetNpcItems)
    } else if c == 484 {
        Some(UserMessage::ItemInteraction)
    } else if c == 485 {
        Some(UserMessage::CreateQuestGame)
    } else if c == 486 {
        Some(UserMessage::EnterMaze)
    } else if c == 487 {
        Some(UserMessage::RemoveAndDetachMazeItem)
    } else if c == 488 {
        Some(UserMessage::AttachAndPlaceItem)
    } else if c == 489 {
        Some(UserMessage::StartCraftingBracelet)
    } else if c == 490 {
        Some(UserMessage::GetQuestFromParent)
    } else if c == 491 {
        Some(UserMessage::CreateQuest)
    } else if c == 492 {
        Some(UserMessage::GetPlayerAttachmentItemsBySenderId)
    } else if c == 493 {
        Some(UserMessage::SetFriendOrder)
    } else if c == 494 {
        Some(UserMessage::GetRuleInstanceData)
    } else if c == 495 {
        Some(UserMessage::GetMembershipSubscriptionById)
    } else if c == 496 {
        Some(UserMessage::ClaimMembershipSubscription)
    } else if c == 497 {
        Some(UserMessage::GetUserSubscriptionInfo)
    } else if c == 498 {
        Some(UserMessage::ProcessCrispMessage)
    } else if c == 499 {
        Some(UserMessage::ListSendingPlayerAttachmentItems)
    } else if c == 500 {
        Some(UserMessage::OidToDbid)
    } else if c == 501 {
        Some(UserMessage::DbidToOid)
    } else if c == 502 {
        Some(UserMessage::FilterBadWord)
    } else if c == 503 {
        Some(UserMessage::DockItem)
    } else if c == 504 {
        Some(UserMessage::GetMessagesCount)
    } else {
        None
    }
}

pub open spec fn spec_user_message_from_t5(c: i64) -> Option<UserMessage> {
    if c == 505 {
        Some(UserMessage::GetViews)
    } else if c == 506 {
        Some(UserMessage::DiscoverOnlineUser)
    } else if c == 507 {
        Some(UserMessage::GetUnlockInfoPeer)
    } else if c == 508 {
        Some(UserMessage::DeleteZingFromPlayer)
    } else if c == 509 {
        Some(UserMessage::SendNotificationCsTool)
    } else if c == 510 {
        Some(UserMessage::FriendStatusNotify)
    } else if c == 511 {
        Some(UserMessage::GetRuleCountList)
    } else if c == 512 {
        Some(UserMessage::SellPlayerItems)
    } else if c == 513 {
        Some(UserMessage::SendMessageCsTool)
    } else if c == 514 {
        Some(UserMessage::GiftStatusNotify)
    } else if c == 515 {
        Some(UserMessage::LevelStatusNotify)
    } else if c == 516 {
        Some(UserMessage::PlayerNotificationNotify)
    } else if c == 517 {
        Some(UserMessage::GetSystemNotifications)
    } else if c == 518 {
        Some(UserMessage::GetSystemMessages)
    } else if c == 519 {
        Some(UserMessage::AttachSingleItem)
    } else if c == 520 {
        Some(UserMessage::ManageCrispNotify)
    } else if c == 521 {
        Some(UserMessage::AddPlayerAwardNotify)
    } else if c == 522 {
        Some(UserMessage::GetStatefulInstance)
    } else if c == 523 {
        Some(UserMessage::MarkAnnouncementRead)
    } else if c == 524 {
        Some(UserMessage::ReorderFriendsOrdinal)
    } else if c == 525 {
        Some(UserMessage::GetEstoreTransInfoForCstool)
    } else if c == 526 {
        Some(UserMessage::GetEstorePointsForCstool)
    } else if c == 527 {
        Some(UserMessage::GetPlayerExternalSiteMap)
    } else if c == 528 {
        Some(UserMessage::SetPlayerExternalSiteMap)
    } else if c == 529 {
        Some(UserMessage::UpdateTokenPlayerExternalSiteMap)
    } else if c == 530 {
        Some(UserMessage::GetAuthenticationPlayerExternalSiteMap)
    } else if c == 531 {
        Some(UserMessage::SendEmailAttachment)
    } else if c == 532 {
        Some(UserMessage::SetBraceletsArmOrder)
    } else if c == 533 {
        Some(UserMessage::SendNotificationTemplate)
    } else if c == 534 {
        Some(UserMessage::CheckOnlineStatusTemplate)
    } else if c == 535 {
        Some(UserMessage::GetOtherPlayerDetailsTemplate)
    } else if c == 536 {
        Some(UserMessage::CrossUserServerPlayerTemplate)
    } else if c == 537 {
        Some(UserMessage::CrossUserServerPlayerTemplateNotify)
    } else if c == 538 {
        Some(UserMessage::GetPlayerInfoOnOtherShardTemplate)
    } else if c == 539 {
        Some(UserMessage::MultiDarTemplate)
    } else if c == 540 {
        Some(UserMessage::MultiDarComplexTemplate)
    } else if c == 541 {
        Some(UserMessage::GetRandomNames)
    } else if c == 542 {
        Some(UserMessage::SelectPlayerName)
    } else if c == 543 {
        Some(UserMessage::ValidateName)
    } else if c == 544 {
        Some(UserMessage::QuestEventInProgress)
    } else if c == 546 {
        Some(UserMessage::GetQuestAllFromParent)
    } else if c == 547 {
        Some(UserMessage::GetPlayerVotedList)
    } else if c == 548 {
        Some(UserMessage::CreatePlayerVoted)
    } else if c == 549 {
        Some(UserMessage::VoteOnPlayerVoted)
    } else if c == 550 {
        Some(UserMessage::GetPlayerVoted)
    } else if c == 551 {
        Some(UserMessage::GetComposedItem)
    } else if c == 552 {
        Some(UserMessage::SaveComposedItem)
    } else if c == 553 {
        Some(UserMessage::CompletePlayerVoted)
    } else if c == 554 {
        Some(UserMessage::WithdrawInstanceForVoted)
    } else if c == 555 {
        Some(UserMessage::GetLeaderBoardInfoForPlayerVoted)
    } else if c == 556 {
        Some(UserMessage::GetFriendsPlayerVoteds)
    } else if c == 557 {
        Some(UserMessage::ManageSynchronizedObjects)
    } else if c == 558 {
        Some(UserMessage::PurchaseUnlock)
    } else if c == 559 {
        Some(UserMessage::ValidateAndRedeemMobileProductPurchase)
    } else if c == 560 {
        Some(UserMessage::GetPlayerVotedData)
    } else if c == 561 {
        Some(UserMessage::UpdateAccountReferral)
    } else if c == 562 {
        Some(UserMessage::RemovePlayerExternalSiteMapping)
    } else if c == 563 {
        Some(UserMessage::GetInvitedPlayerQuest)
    } else if c == 564 {
        Some(UserMessage::AcceptQuestTransaction)
    } else if c == 565 {
        Some(UserMessage::FinalizeQuestTransaction)
    } else if c == 566 {
        Some(UserMessage::GetClientVersionInfo)
    } else if c == 567 {
        Some(UserMessage::PurchaseWalletItem)
    } else if c == 568 {
        Some(UserMessage::GetPlayerOnlineStatus)
    } else if c == 569 {
        Some(UserMessage::GetItemById)
    } else if c == 570 {
        Some(UserMessage::GetPublicAssetsByOids)
    } else if c == 571 {
        Some(UserMessage::GetPublicItemsByOids)
    } else if c == 572 {
        Some(UserMessage::GetPublicItemCategories)
    } else if c == 573 {
        Some(UserMessage::GetParentBuildingId)
    } else if c == 574 {
        Some(UserMessage::CreateRecipe)
    } else if c == 575 {
        Some(UserMessage::GetNpcsByChildHierarchies)
    } else if c == 576 {
        Some(UserMessage::RecycleRecipe)
    } else if c == 577 {
        Some(UserMessage::EnhanceRecipe)
    } else {
        None
    }
}

/// The numeric opcode table of the UserServer class.
pub open spec fn spec_user_message_from(c: i64) -> Option<UserMessage> {
    if c <= 100 {
        spec_user_message_from_t0(c)
    } else if c <= 200 {
        spec_user_message_from_t1(c)
    } else if c <= 301 {
        spec_user_message_from_t2(c)
    } else if c <= 401 {
        spec_user_message_from_t3(c)
    } else if c <= 504 {
        spec_user_message_from_t4(c)
    } else if c <= 577 {
        spec_user_message_from_t5(c)
    } else {
        None
    }
}

fn user_message_from_code_t0(c: i64) -> (r: Option<UserMessage>)
    ensures
        r == spec_user_message_from_t0(c),
{
    match c {
        1 => Some(UserMessage::GetAvatars),
        2 => Some(UserMessage::ClaimGift),
        3 => Some(UserMessage::RegisterPlayer),
        4 => Some(UserMessage::GetPlayerMazes),
        5 => Some(UserMessage::StartMazeEdit),
        6 => Some(UserMessage::GetPlayerMaze),
        7 => Some(UserMessage::GetCommunityMaze),
        8 => Some(UserMessage::EndMazeEdit),
        9 => Some(UserMessage::DeleteMaze),
        10 => Some(UserMessage::GetDynamicSurprise),
        11 => Some(UserMessage::GetZoneMazes),
        12 => Some(UserMessage::GetCommunityMazes),
        13 => Some(UserMessage::GetQuestMazes),
        14 => Some(UserMessage::PublishMaze),
        15 => Some(UserMessage::Login),
        16 => Some(UserMessage::GetPlayerNpcs),
        17 => Some(UserMessage::CheckUsername),
        18 => Some(UserMessage::RegisterFcssCode),
        19 => Some(UserMessage::Logout),
        20 => Some(UserMessage::GetInventoryObjects),
        21 => Some(UserMessage::GetBuildObjects),
        22 => Some(UserMessage::GetCollectionObjects),
        23 => Some(UserMessage::UpdateAvatarName),
        24 => Some(UserMessage::SearchVillages),
        25 => Some(UserMessage::MoveVillage),
        26 => Some(UserMessage::Relogin),
        27 => Some(UserMessage::InitLocation),
        28 => Some(UserMessage::GetLangLocale),
        29 => Some(UserMessage::EnterBuilding),
        30 => Some(UserMessage::BuyItem),
        31 => Some(UserMessage::GetShoppingItems),
        32 => Some(UserMessage::ListShoppingCategories),
        33 => Some(UserMessage::GetFriendList),
        34 => Some(UserMessage::RemoveFriend),
        35 => Some(UserMessage::ManageFriendRequest),
        36 => Some(UserMessage::GetBlockedPlayers),
        37 => Some(UserMessage::ManageBlockPlayer),
        38 => Some(UserMessage::AddFriend),
        39 => Some(UserMessage::UnpublishMaze),
        40 => Some(UserMessage::GetRandomWorldName),
        41 => Some(UserMessage::GetOnlineStatus),
        42 => Some(UserMessage::ManageTestPlayer),
        43 => Some(UserMessage::UpdateQuestItem),
        44 => Some(UserMessage::PlaceMazeItem),
        45 => Some(UserMessage::RemoveMazeItem),
        46 => Some(UserMessage::GetPlayerMazeThumbnails),
        47 => Some(UserMessage::GetPlayerMazeThumbnail),
        48 => Some(UserMessage::UpdatePlayerMazeThumbnail),
        49 => Some(UserMessage::GetCommunityMazeThumbnails),
        50 => Some(UserMessage::AcceptQuest),
        51 => Some(UserMessage::CompleteQuest),
        52 => Some(UserMessage::AddQuestItem),
        53 => Some(UserMessage::EndGame),
        54 => Some(UserMessage::GetPlayerDynamicSurprises),
        55 => Some(UserMessage::ClaimDynamicSurprise),
        56 => Some(UserMessage::GetNotifications),
        57 => Some(UserMessage::GetNotificationByPlayerNotificationId),
        58 => Some(UserMessage::GetNotificationByPlayerId),
        59 => Some(UserMessage::UpdateNotification),
        60 => Some(UserMessage::GetPlayerMazeRating),
        61 => Some(UserMessage::GetPlayerMazeRatings),
        62 => Some(UserMessage::GetSystemMazeRating),
        63 => Some(UserMessage::RatePlayerMaze),
        64 => Some(UserMessage::GetNotificationOptions),
        65 => Some(UserMessage::UpdateNotificationOption),
        66 => Some(UserMessage::ClearNotifications),
        67 => Some(UserMessage::GetHomeMaze),
        68 => Some(UserMessage::UpdateHomeMaze),
        69 => Some(UserMessage::GetNotificationCategories),
        70 => Some(UserMessage::GetNotificationOptionByCategory),
        71 => Some(UserMessage::AcknowledgeNotification),
        72 => Some(UserMessage::GetNotificationOptionByPlayerNotificationOptionId),
        73 => Some(UserMessage::GetNotificationCategory),
        74 => Some(UserMessage::ClearNotificationsByPlayerId),
        75 => Some(UserMessage::SetNotificationOptions),
        76 => Some(UserMessage::GetCmsCollectionItems),
        77 => Some(UserMessage::AddCollectionItem),
        78 => Some(UserMessage::DropCollectionItem),
        79 => Some(UserMessage::ResetCollection),
        80 => Some(UserMessage::ApproveMazePublishing),
        81 => Some(UserMessage::UpdateFriendComment),
        82 => Some(UserMessage::GetActiveFriendList),
        83 => Some(UserMessage::GetFriendRequests),
        84 => Some(UserMessage::GetFriendByFriendPlayerId),
        85 => Some(UserMessage::FindFriendByPlayerFriendId),
        86 => Some(UserMessage::GetQuestTypes),
        87 => Some(UserMessage::DeleteFriendByPlayerFriendId),
        88 => Some(UserMessage::SendPrivateChatGroupInvite),
        89 => Some(UserMessage::SendMessage),
        90 => Some(UserMessage::GetCmsItemcategoryIds),
        91 => Some(UserMessage::GetCmsItemcategoryById),
        92 => Some(UserMessage::GetPlayerMazePlay),
        93 => Some(UserMessage::ConsumeInventoryItem),
        94 => Some(UserMessage::MoveInventoryItem),
        95 => Some(UserMessage::SwapInventoryItems),
        96 => Some(UserMessage::RedeemFeatureCode),
        97 => Some(UserMessage::GetMazeItems),
        98 => Some(UserMessage::GetYardItems),
        99 => Some(UserMessage::PlaceYardItem),
        100 => Some(UserMessage::RemoveYardItem),
        _ => None,
    }
}

fn user_message_from_code_t1(c: i64) -> (r: Option<UserMessage>)
    ensures
        r == spec_user_message_from_t1(c),
{
    match c {
        101 => Some(UserMessage::GetSystemMazePlay),
        102 => Some(UserMessage::GetAvatarItems),
        103 => Some(UserMessage::GetOutfitItems),
        104 => Some(UserMessage::StartPrivateChatGroup),
        105 => Some(UserMessage::AcceptPrivateChatGroupInvite),
        106 => Some(UserMessage::LeavePrivateGroup),
        107 => Some(UserMessage::GetChatChannelTypes),
        108 => Some(UserMessage::StartMazePlay),
        109 => Some(UserMessage::EndMazePlay),
        110 => Some(UserMessage::DressAvatar),
        111 => Some(UserMessage::GetOutfits),
        112 => Some(UserMessage::StartQuest),
        113 => Some(UserMessage::Heartbeat),
        114 => Some(UserMessage::GetFriendAccountsByBirthday),
        115 => Some(UserMessage::GetPrivateChatGroupMembers),
        116 => Some(UserMessage::RejoinPrivateChatGroup),
        117 => Some(UserMessage::AddPlayerInfraction),
        118 => Some(UserMessage::GetPlayerChatHistory),
        119 => Some(UserMessage::GetQuestItems),
        120 => Some(UserMessage::StartGame),
        121 => Some(UserMessage::GetMazeSets),
        122 => Some(UserMessage::DeclinePrivateChatGroupInvite),
        123 => Some(UserMessage::GetMazeSet),
        124 => Some(UserMessage::FindPrivateChatGroupMember),
        125 => Some(UserMessage::FindPrivateChatGroupId),
        126 => Some(UserMessage::CompleteDailyActivity),
        127 => Some(UserMessage::GetQuestById),
        128 => Some(UserMessage::GetWeeklyAwardStatus),
        129 => Some(UserMessage::GetPlayerWeeklyAwardHistory),
        130 => Some(UserMessage::GetWeeklyAwardStatusByPlayerWeeklyAwardId),
        131 => Some(UserMessage::GetSlots),
        132 => Some(UserMessage::GetGames),
        133 => Some(UserMessage::GetQuests),
        134 => Some(UserMessage::GetDailyAwardStatus),
        135 => Some(UserMessage::UpdatePlayerActiveAvatar),
        136 => Some(UserMessage::GetSiteFrame),
        137 => Some(UserMessage::GetCmsItemcategories),
        138 => Some(UserMessage::NextCaptcha),
        139 => Some(UserMessage::CheckCaptcha),
        140 => Some(UserMessage::GetPlayerGifts),
        141 => Some(UserMessage::UpdateHomeTheme),
        142 => Some(UserMessage::GetHomeThemes),
        143 => Some(UserMessage::GetPlayerHomeThemes),
        144 => Some(UserMessage::RejectQuest),
        145 => Some(UserMessage::GetPlayerReceivedGifts),
        146 => Some(UserMessage::ManageGiftRequest),
        147 => Some(UserMessage::GetAnnouncements),
        148 => Some(UserMessage::GetAnnouncement),
        149 => Some(UserMessage::GetAchievementById),
        150 => Some(UserMessage::GetAchievements),
        151 => Some(UserMessage::GetAdoptionObjectsByAvatar),
        152 => Some(UserMessage::GetObjectIdsByAdoptionNumber),
        153 => Some(UserMessage::FindGiftByPlayerGiftId),
        154 => Some(UserMessage::GetZones),
        155 => Some(UserMessage::ListStoreCategories),
        156 => Some(UserMessage::ListStoreInventory),
        157 => Some(UserMessage::ListStores),
        158 => Some(UserMessage::PurchaseItems),
        159 => Some(UserMessage::CompleteTutorial),
        160 => Some(UserMessage::UpdateLanglocale),
        161 => Some(UserMessage::UpdatePlayerName),
        162 => Some(UserMessage::GetPlayerAchievements),
        163 => Some(UserMessage::GetShards),
        164 => Some(UserMessage::GetCraftableItems),
        165 => Some(UserMessage::GetCraftableItemById),
        166 => Some(UserMessage::PauseNpc),
        167 => Some(UserMessage::ResumeNpc),
        168 => Some(UserMessage::GetPlayerQuests),
        169 => Some(UserMessage::NpcInteraction),
        170 => Some(UserMessage::CraftItemByCraftableItemId),
        171 => Some(UserMessage::GetNpcRelationships),
        172 => Some(UserMessage::CraftItemByItems),
        173 => Some(UserMessage::GetNpcs),
        174 => Some(UserMessage::DressAvatarItems),
        175 => Some(UserMessage::LockHome),
        176 => Some(UserMessage::UndressAvatar),
        177 => Some(UserMessage::GetMazePiecesByPlayerMazeId),
        178 => Some(UserMessage::GetStoreThemes),
        179 => Some(UserMessage::GetAssetsByOids),
        180 => Some(UserMessage::GetCurrencies),
        181 => Some(UserMessage::AddOutfitItems),
        182 => Some(UserMessage::AddOutfit),
        183 => Some(UserMessage::RemoveOutfitItems),
        184 => Some(UserMessage::RemoveOutfit),
        185 => Some(UserMessage::ReplaceOutfitItems),
        186 => Some(UserMessage::SetCurrentOutfit),
        187 => Some(UserMessage::GetFriendAvatars),
        188 => Some(UserMessage::GetPlayerQuestsByQuestIds),
        189 => Some(UserMessage::GetPlayerGamesByZone),
        190 => Some(UserMessage::GetHomeInvitations),
        191 => Some(UserMessage::ManageHomeInvitations),
        192 => Some(UserMessage::FindPlayerByNickname),
        193 => Some(UserMessage::GetPlayerAvatarsByBirthday),
        194 => Some(UserMessage::SendQuestInvite),
        195 => Some(UserMessage::GetHostedQuests),
        196 => Some(UserMessage::GetInvitedQuests),
        197 => Some(UserMessage::GetPlayersInQuest),
        198 => Some(UserMessage::RemoveQuestInvite),
        199 => Some(UserMessage::AcceptQuestInvite),
        200 => Some(UserMessage::DeclineQuestInvite),
        _ => None,
    }
}

fn user_message_from_code_t2(c: i64) -> (r: Option<UserMessage>)
    ensures
        r == spec_user_message_from_t2(c),
{
    match c {
        201 => Some(UserMessage::GetPlayerReceivedQuestInvite),
        202 => Some(UserMessage::GetPlayerQuestInvite),
        204 => Some(UserMessage::CleanupPlayerMazes),
        205 => Some(UserMessage::GetPlayerStats),
        206 => Some(UserMessage::ListStoreInventoryItems),
        207 => Some(UserMessage::GetOtherPlayerDetails),
        208 => Some(UserMessage::GetTestPlayers),
        209 => Some(UserMessage::GetStatsType),
        210 => Some(UserMessage::TestInventoryUpdates),
        211 => Some(UserMessage::TestInventoryRemovals),
        212 => Some(UserMessage::SetPlayerGiftStatus),
        213 => Some(UserMessage::GetRequiredExperience),
        214 => Some(UserMessage::GetQuestByParentId),
        215 => Some(UserMessage::UpdateOnlineStatus),
        216 => Some(UserMessage::ChangeStoreItemStock),
        217 => Some(UserMessage::LogoutSession),
        218 => Some(UserMessage::AbandonQuest),
        219 => Some(UserMessage::GetAwardSets),
        220 => Some(UserMessage::UpdateArm),
        221 => Some(UserMessage::UpdateRuledObject),
        222 => Some(UserMessage::UpdateRule),
        223 => Some(UserMessage::AddAward),
        224 => Some(UserMessage::UpdateAward),
        225 => Some(UserMessage::UpdateStateObject),
        226 => Some(UserMessage::GetStateObjects),
        227 => Some(UserMessage::GetAwardById),
        228 => Some(UserMessage::GetRuleById),
        229 => Some(UserMessage::GetRuledObjectByHierarchy),
        230 => Some(UserMessage::AddStateObject),
        231 => Some(UserMessage::AddRule),
        232 => Some(UserMessage::AddArm),
        233 => Some(UserMessage::GetArmByAward),
        234 => Some(UserMessage::GetArmByRule),
        235 => Some(UserMessage::GetArmByStateObject),
        236 => Some(UserMessage::GetAwardByArm),
        237 => Some(UserMessage::GetRuleByArm),
        238 => Some(UserMessage::GetStateObjectByArm),
        239 => Some(UserMessage::ObjectInfoRows),
        240 => Some(UserMessage::AssignRuledSetToRuledObject),
        241 => Some(UserMessage::AddRuledObject),
        242 => Some(UserMessage::GetRuleSets),
        243 => Some(UserMessage::SaveObjectAttributes),
        244 => Some(UserMessage::GetObjectTypes),
        245 => Some(UserMessage::GetCmsNotifications),
        246 => Some(UserMessage::JoinQuest),
        247 => Some(UserMessage::GetAllOperators),
        248 => Some(UserMessage::GetOnlineStatuses),
        249 => Some(UserMessage::CstoolGetFullAccountInformation),
        250 => Some(UserMessage::RemoveFriendCstool),
        251 => Some(UserMessage::UpdateYard),
        252 => Some(UserMessage::UpdateChatAvailability),
        253 => Some(UserMessage::GetFriendListCstool),
        254 => Some(UserMessage::CreateOrUpdateCurrencyCstool),
        255 => Some(UserMessage::GetAllRules),
        256 => Some(UserMessage::GetAllRuledObject),
        257 => Some(UserMessage::GetAllAwards),
        258 => Some(UserMessage::DeleteRule),
        259 => Some(UserMessage::DeleteRuledObject),
        260 => Some(UserMessage::DeleteAward),
        261 => Some(UserMessage::GetFullRuleById),
        262 => Some(UserMessage::GetRuledObjectById),
        263 => Some(UserMessage::GetCurrencyCstool),
        264 => Some(UserMessage::GetEnergyLevelCstool),
        265 => Some(UserMessage::GetUserLevelCstool),
        266 => Some(UserMessage::GetUserXpCstool),
        267 => Some(UserMessage::GetUserNpcRelationshipLevel),
        268 => Some(UserMessage::CreateOrUpdateEnergyLevelCstool),
        269 => Some(UserMessage::CreateOrUpdateUserLevelCstool),
        270 => Some(UserMessage::CreateOrUpdateUserXpCstool),
        271 => Some(UserMessage::CreateOrUpdateUserNpcRelationshipLevel),
        272 => Some(UserMessage::GetFullRuledObjectById),
        273 => Some(UserMessage::GetFullAwardById),
        274 => Some(UserMessage::DeleteAsam),
        275 => Some(UserMessage::DeleteRsrm),
        276 => Some(UserMessage::GetFormulaByType),
        277 => Some(UserMessage::AddBugReport),
        278 => Some(UserMessage::FindPlayerAccountCstool),
        279 => Some(UserMessage::FindNpcsCstool),
        280 => Some(UserMessage::FindAvatarBySkuCstool),
        281 => Some(UserMessage::RegisterAvatarCstool),
        282 => Some(UserMessage::GetAllCategories),
        283 => Some(UserMessage::UnregisterTestPlayers),
        284 => Some(UserMessage::GetAllAttributes),
        285 => Some(UserMessage::UpdateStoreItemNotify),
        286 => Some(UserMessage::GetAllAttributesByCategory),
        287 => Some(UserMessage::AddObjectAttributes),
        288 => Some(UserMessage::UpdateObjectAttributes),
        289 => Some(UserMessage::GetArmById),
        290 => Some(UserMessage::DeleteRuleFromRsrm),
        291 => Some(UserMessage::DeleteAwardFromAsam),
        292 => Some(UserMessage::GetAllArm),
        293 => Some(UserMessage::AddRulesToRsrm),
        294 => Some(UserMessage::AddAwardsToAsam),
        295 => Some(UserMessage::GetNpcWithMostRelationship),
        296 => Some(UserMessage::StateObjectArm),
        297 => Some(UserMessage::GetStoreItems),
        298 => Some(UserMessage::ManageCrispAction),
        299 => Some(UserMessage::GetCrispActions),
        300 => Some(UserMessage::SearchItems),
        301 => Some(UserMessage::AddItemsToPlayer),
        _ => None,
    }
}

fn user_message_from_code_t3(c: i64) -> (r: Option<UserMessage>)
    ensures
        r == spec_user_message_from_t3(c),
{
    match c {
        302 => Some(UserMessage::AddToPlayerStat),
        303 => Some(UserMessage::ResendRegConfKey),
        304 => Some(UserMessage::AcknowledgeConfKey),
        305 => Some(UserMessage::GetCmsMissions),
        306 => Some(UserMessage::GetRuleInfo),
        307 => Some(UserMessage::GetPlayerQuestsCstool),
        308 => Some(UserMessage::StartTaskCstool),
        309 => Some(UserMessage::GetOtherPlayerNpcRelationships),
        310 => Some(UserMessage::GetBuyBackStoreItems),
        311 => Some(UserMessage::UpdateChatAvailabilityForPlayerCstool),
        312 => Some(UserMessage::GetChatAvailabilityCstool),
        313 => Some(UserMessage::GetStoreItemsForItems),
        314 => Some(UserMessage::PurchaseQuest),
        315 => Some(UserMessage::GetCmsEvents),
        316 => Some(UserMessage::AddEvent),
        317 => Some(UserMessage::RequestEvent),
        318 => Some(UserMessage::GetPendingEvents),
        319 => Some(UserMessage::AcceptEvent),
        320 => Some(UserMessage::RejectEvent),
        321 => Some(UserMessage::SavePlayerSettings),
        322 => Some(UserMessage::LoadPlayerSettings),
        323 => Some(UserMessage::GetRuledObjectByObjectId),
        324 => Some(UserMessage::SuggestFriends),
        325 => Some(UserMessage::SearchUsers),
        326 => Some(UserMessage::CstoolUnlockPlayerAccount),
        327 => Some(UserMessage::GetTiers),
        328 => Some(UserMessage::GetDebugQuests),
        329 => Some(UserMessage::GetNpcsWithQuestOffer),
        330 => Some(UserMessage::CreatePlayerMission),
        331 => Some(UserMessage::GetPlayerMissionDetail),
        332 => Some(UserMessage::GetPlayerMissions),
        333 => Some(UserMessage::DeleteItemFromPlayer),
        334 => Some(UserMessage::DebugCreateQuest),
        335 => Some(UserMessage::RegisterAvatarForRegistration),
        336 => Some(UserMessage::UpdateAvatarNameForRegistration),
        337 => Some(UserMessage::EnterStore),
        338 => Some(UserMessage::ExitStore),
        339 => Some(UserMessage::GetAllQuests),
        340 => Some(UserMessage::GetItemsByCategory),
        341 => Some(UserMessage::GetItemCategoriesCstool),
        342 => Some(UserMessage::GetAllZones),
        343 => Some(UserMessage::GetAllNpcs),
        344 => Some(UserMessage::GetAllStoreItems),
        345 => Some(UserMessage::UpdatePlayerEmail),
        346 => Some(UserMessage::AddUserStoreItem),
        347 => Some(UserMessage::AllocatePlayerVillage),
        348 => Some(UserMessage::SearchUserStoreItems),
        349 => Some(UserMessage::UpdateCrispAvailabilityCsTool),
        350 => Some(UserMessage::GetAllVillages),
        351 => Some(UserMessage::UpdateUserStoreItem),
        352 => Some(UserMessage::RemoveUserStoreItem),
        353 => Some(UserMessage::GetCrispAvailabilityCsTool),
        354 => Some(UserMessage::GetPlayerCrispData),
        355 => Some(UserMessage::UpdateChatBlockedByParentCsTool),
        356 => Some(UserMessage::UpdateChatBlockedByParent),
        357 => Some(UserMessage::GetPlayerWorldnameByGasid),
        358 => Some(UserMessage::GetScsInvalidCodeStatus),
        359 => Some(UserMessage::GetCrispActionsForNonloggedInsession),
        360 => Some(UserMessage::GetPlayerContainerByPlayer),
        361 => Some(UserMessage::GetPlayerContainerType),
        362 => Some(UserMessage::GetWebContent),
        363 => Some(UserMessage::ListItemByPlayer),
        364 => Some(UserMessage::ListItemByContainer),
        365 => Some(UserMessage::GetWebContentByPtag),
        366 => Some(UserMessage::GetEula),
        367 => Some(UserMessage::GetPlayerAccountByGasid),
        368 => Some(UserMessage::GetPlayerIdByGasid),
        369 => Some(UserMessage::ListVillagePlots),
        370 => Some(UserMessage::SendVillageInvite),
        371 => Some(UserMessage::AcceptVillageInvite),
        372 => Some(UserMessage::RejectVillageInvite),
        373 => Some(UserMessage::ReportAbuse),
        374 => Some(UserMessage::GetAbuseReports),
        375 => Some(UserMessage::GetAbuseReportsByPlayer),
        376 => Some(UserMessage::UpdateAbuseReport),
        377 => Some(UserMessage::PurchaseUserStoreItems),
        378 => Some(UserMessage::DecorateUserStore),
        379 => Some(UserMessage::RedeemUserStoreSales),
        380 => Some(UserMessage::GetRuleInstanceInfo),
        381 => Some(UserMessage::AcceptEula),
        382 => Some(UserMessage::AddPlayerLike),
        383 => Some(UserMessage::RemovePlayerLike),
        384 => Some(UserMessage::ListTopLikes),
        385 => Some(UserMessage::UndecorateUserStore),
        386 => Some(UserMessage::UserStoreInfo),
        387 => Some(UserMessage::AddAwardToAwardQueue),
        388 => Some(UserMessage::RegistrationRecord),
        389 => Some(UserMessage::GetObjectFromSku),
        390 => Some(UserMessage::GetInfractionTypes),
        391 => Some(UserMessage::GetAllCmsMissions),
        392 => Some(UserMessage::CheckEmailAvailability),
        393 => Some(UserMessage::AddBookmark),
        394 => Some(UserMessage::RemoveBookmark),
        395 => Some(UserMessage::ListBookmarks),
        396 => Some(UserMessage::ListLimits),
        397 => Some(UserMessage::ListVillageUsers),
        398 => Some(UserMessage::GetDailyAwards),
        399 => Some(UserMessage::ListPlayerLikes),
        400 => Some(UserMessage::VillageInfo),
        401 => Some(UserMessage::DecoratedUserStoreItems),
        _ => None,
    }
}

fn user_message_from_code_t4(c: i64) -> (r: Option<UserMessage>)
    ensures
        r == spec_user_message_from_t4(c),
{
    match c {
        402 => Some(UserMessage::ListBookmarkObjectTypes),
        403 => Some(UserMessage::LinkFacebookAccount),
        404 => Some(UserMessage::UnlinkFacebookAccount),
        405 => Some(UserMessage::ListFriendFacebookIds),
        406 => Some(UserMessage::ListPlayerAccountsByFacebookIds),
        407 => Some(UserMessage::GetAllUserStoreItems),
        408 => Some(UserMessage::AddQuestItemNotify),
        409 => Some(UserMessage::SetPlayerFindable),
        410 => Some(UserMessage::GetPlayerChatReceivedHistory),
        411 => Some(UserMessage::GetAllStoreThemes),
        412 => Some(UserMessage::SellItem),
        413 => Some(UserMessage::GetAllBuildings),
        414 => Some(UserMessage::GetAllItemcategories),
        415 => Some(UserMessage::PlantPlayerItem),
        416 => Some(UserMessage::GetFeaturedItems),
        417 => Some(UserMessage::GetNpcRelationshipLevels),
        418 => Some(UserMessage::SaveGameState),
        419 => Some(UserMessage::ListSavedGames),
        420 => Some(UserMessage::LoadGame),
        421 => Some(UserMessage::SendGame),
        422 => Some(UserMessage::AcceptGame),
        423 => Some(UserMessage::RejectGame),
        427 => Some(UserMessage::CmsGetGameState),
        428 => Some(UserMessage::GetAllFeaturedItems),
        429 => Some(UserMessage::ManageNpcFriendRequest),
        430 => Some(UserMessage::PlaceVillageItem),
        431 => Some(UserMessage::GetCmsVillageRoles),
        432 => Some(UserMessage::SendEmailMessage),
        433 => Some(UserMessage::ListInboxMessages),
        434 => Some(UserMessage::GetInboxMessage),
        435 => Some(UserMessage::MarkInboxMessage),
        436 => Some(UserMessage::GetRuleCount),
        437 => Some(UserMessage::ListSentMessages),
        438 => Some(UserMessage::GetVillageRoles),
        439 => Some(UserMessage::AssignVillageRole),
        440 => Some(UserMessage::GetCmsVillageTemplatesLocked),
        441 => Some(UserMessage::ConfirmFindable),
        442 => Some(UserMessage::CreatePrivateVillage),
        443 => Some(UserMessage::GetRuleInfoList),
        444 => Some(UserMessage::GetRuleInstanceInfoList),
        445 => Some(UserMessage::GetOtherPlayerDetailsList),
        446 => Some(UserMessage::AttachItems),
        447 => Some(UserMessage::DetachItems),
        448 => Some(UserMessage::AddAvatarCstool),
        449 => Some(UserMessage::KickOut),
        450 => Some(UserMessage::HarvestPlayerItem),
        451 => Some(UserMessage::GetNpcGifts),
        452 => Some(UserMessage::RemoveVillageItem),
        453 => Some(UserMessage::ListVillageItems),
        454 => Some(UserMessage::GetCmsVillageTemplatesUnlocked),
        455 => Some(UserMessage::ListFindablePlayers),
        456 => Some(UserMessage::GetAllCraftableItems),
        457 => Some(UserMessage::ListCmsMessages),
        458 => Some(UserMessage::GetCmsMessage),
        459 => Some(UserMessage::GetFriendshipRequestCounts),
        460 => Some(UserMessage::GetNpcInteractions),
        461 => Some(UserMessage::GetCraftableTypes),
        462 => Some(UserMessage::VillageInviteStatusNotify),
        463 => Some(UserMessage::FindNpcsByName),
        464 => Some(UserMessage::ChangePassword),
        465 => Some(UserMessage::ForgotPassword),
        466 => Some(UserMessage::SetPassword),
        467 => Some(UserMessage::AcceptEventNotify),
        468 => Some(UserMessage::ListQuestSpawnIds),
        469 => Some(UserMessage::GetRuleInstanceInfoForUi),
        470 => Some(UserMessage::GetRuleInfoListForUi),
        471 => Some(UserMessage::SendTestMessage),
        472 => Some(UserMessage::SaveAvatarImage),
        473 => Some(UserMessage::GetAvatarImages),
        474 => Some(UserMessage::GetObjectsLockInfo),
        475 => Some(UserMessage::GetRuleTemplateIdForUi),
        476 => Some(UserMessage::CraftItemsByCraftableItemIds),
        477 => Some(UserMessage::GetAllGames),
        478 => Some(UserMessage::UpdateGenderAndLocation),
        479 => Some(UserMessage::GetGeographicalLocations),
        480 => Some(UserMessage::GetCannedMessageCategories),
        481 => Some(UserMessage::PreFilterNameCheckAvailability),
        482 => Some(UserMessage::CraftBracelet),
        483 => Some(UserMessage::GetNpcItems),
        484 => Some(UserMessage::ItemInteraction),
        485 => Some(UserMessage::CreateQuestGame),
        486 => Some(UserMessage::EnterMaze),
        487 => Some(UserMessage::RemoveAndDetachMazeItem),
        488 => Some(UserMessage::AttachAndPlaceItem),
        489 => Some(UserMessage::StartCraftingBracelet),
        490 => Some(UserMessage::GetQuestFromParent),
        491 => Some(UserMessage::CreateQuest),
        492 => Some(UserMessage::GetPlayerAttachmentItemsBySenderId),
        493 => Some(UserMessage::SetFriendOrder),
        494 => Some(UserMessage::GetRuleInstanceData),
        495 => Some(UserMessage::GetMembershipSubscriptionById),
        496 => Some(UserMessage::ClaimMembershipSubscription),
        497 => Some(UserMessage::GetUserSubscriptionInfo),
        498 => Some(UserMessage::ProcessCrispMessage),
        499 => Some(UserMessage::ListSendingPlayerAttachmentItems),
        500 => Some(UserMessage::OidToDbid),
        501 => Some(UserMessage::DbidToOid),
        502 => Some(UserMessage::FilterBadWord),
        503 => Some(UserMessage::DockItem),
        504 => Some(UserMessage::GetMessagesCount),
        _ => None,
    }
}

fn user_message_from_code_t5(c: i64) -> (r: Option<UserMessage>)
    ensures
        r == spec_user_message_from_t5(c),
{
    match c {
        505 => Some(UserMessage::GetViews),
        506 => Some(UserMessage::DiscoverOnlineUser),
        507 => Some(UserMessage::GetUnlockInfoPeer),
        508 => Some(UserMessage::DeleteZingFromPlayer),
        509 => Some(UserMessage::SendNotificationCsTool),
        510 => Some(UserMessage::FriendStatusNotify),
        511 => Some(UserMessage::GetRuleCountList),
        512 => Some(UserMessage::SellPlayerItems),
        513 => Some(UserMessage::SendMessageCsTool),
        514 => Some(UserMessage::GiftStatusNotify),
        515 => Some(UserMessage::LevelStatusNotify),
        516 => Some(UserMessage::PlayerNotificationNotify),
        517 => Some(UserMessage::GetSystemNotifications),
        518 => Some(UserMessage::GetSystemMessages),
        519 => Some(UserMessage::AttachSingleItem),
        520 => Some(UserMessage::ManageCrispNotify),
        521 => Some(UserMessage::AddPlayerAwardNotify),
        522 => Some(UserMessage::GetStatefulInstance),
        523 => Some(UserMessage::MarkAnnouncementRead),
        524 => Some(UserMessage::ReorderFriendsOrdinal),
        525 => Some(UserMessage::GetEstoreTransInfoForCstool),
        526 => Some(UserMessage::GetEstorePointsForCstool),
        527 => Some(UserMessage::GetPlayerExternalSiteMap),
        528 => Some(UserMessage::SetPlayerExternalSiteMap),
        529 => Some(UserMessage::UpdateTokenPlayerExternalSiteMap),
        530 => Some(UserMessage::GetAuthenticationPlayerExternalSiteMap),
        531 => Some(UserMessage::SendEmailAttachment),
        532 => Some(UserMessage::SetBraceletsArmOrder),
        533 => Some(UserMessage::SendNotificationTemplate),
        534 => Some(UserMessage::CheckOnlineStatusTemplate),
        535 => Some(UserMessage::GetOtherPlayerDetailsTemplate),
        536 => Some(UserMessage::CrossUserServerPlayerTemplate),
        537 => Some(UserMessage::CrossUserServerPlayerTemplateNotify),
        538 => Some(UserMessage::GetPlayerInfoOnOtherShardTemplate),
        539 => Some(UserMessage::MultiDarTemplate),
        540 => Some(UserMessage::MultiDarComplexTemplate),
        541 => Some(UserMessage::GetRandomNames),
        542 => Some(UserMessage::SelectPlayerName),
        543 => Some(UserMessage::ValidateName),
        544 => Some(UserMessage::QuestEventInProgress),
        546 => Some(UserMessage::GetQuestAllFromParent),
        547 => Some(UserMessage::GetPlayerVotedList),
        548 => Some(UserMessage::CreatePlayerVoted),
        549 => Some(UserMessage::VoteOnPlayerVoted),
        550 => Some(UserMessage::GetPlayerVoted),
        551 => Some(UserMessage::GetComposedItem),
        552 => Some(UserMessage::SaveComposedItem),
        553 => Some(UserMessage::CompletePlayerVoted),
        554 => Some(UserMessage::WithdrawInstanceForVoted),
        555 => Some(UserMessage::GetLeaderBoardInfoForPlayerVoted),
        556 => Some(UserMessage::GetFriendsPlayerVoteds),
        557 => Some(UserMessage::ManageSynchronizedObjects),
        558 => Some(UserMessage::PurchaseUnlock),
        559 => Some(UserMessage::ValidateAndRedeemMobileProductPurchase),
        560 => Some(UserMessage::GetPlayerVotedData),
        561 => Some(UserMessage::UpdateAccountReferral),
        562 => Some(UserMessage::RemovePlayerExternalSiteMapping),
        563 => Some(UserMessage::GetInvitedPlayerQuest),
        564 => Some(UserMessage::AcceptQuestTransaction),
        565 => Some(UserMessage::FinalizeQuestTransaction),
        566 => Some(UserMessage::GetClientVersionInfo),
        567 => Some(UserMessage::PurchaseWalletItem),
        568 => Some(UserMessage::GetPlayerOnlineStatus),
        569 => Some(UserMessage::GetItemById),
        570 => Some(UserMessage::GetPublicAssetsByOids),
        571 => Some(UserMessage::GetPublicItemsByOids),
        572 => Some(UserMessage::GetPublicItemCategories),
        573 => Some(UserMessage::GetParentBuildingId),
        574 => Some(UserMessage::CreateRecipe),
        575 => Some(UserMessage::GetNpcsByChildHierarchies),
        576 => Some(UserMessage::RecycleRecipe),
        577 => Some(UserMessage::EnhanceRecipe),
        _ => None,
    }
}

/// Look an opcode up in the UserServer table.
pub fn user_message_from_code(c: i64) -> (r: Option<UserMessage>)
    ensures
        r == spec_user_message_from(c),
{
    if c <= 100 {
        user_message_from_code_t0(c)
    } else if c <= 200 {
        user_message_from_code_t1(c)
    } else if c <= 301 {
        user_message_from_code_t2(c)
    } else if c <= 401 {
        user_message_from_code_t3(c)
    } else if c <= 504 {
        user_message_from_code_t4(c)
    } else if c <= 577 {
        user_message_from_code_t5(c)
    } else {
        None
    }
}

/// The numeric code table of the auxiliary message-frame categories.
pub open spec fn spec_user_message2_from(c: i64) -> Option<UserMessage2> {
    if c == 10 {
        Some(UserMessage2::MfCrisp)
    } else if c == 11 {
        Some(UserMessage2::MfSynchronousApi)
    } else if c == 12 {
        Some(UserMessage2::MfAgent)
    } else {
        None
    }
}

/// Look a code up in the auxiliary category table.
pub fn user_message2_from_code(c: i64) -> (r: Option<UserMessage2>)
    ensures
        r == spec_user_message2_from(c),
{
    match c {
        10 => Some(UserMessage2::MfCrisp),
        11 => Some(UserMessage2::MfSynchronousApi),
        12 => Some(UserMessage2::MfAgent),
        _ => None,
    }
}

/// The numeric opcode table of the SyncServer class.
pub open spec fn spec_sync_message_from(c: i64) -> Option<SyncMessage> {
    if c == 1 {
        Some(SyncMessage::AddObject)
    } else if c == 2 {
        Some(SyncMessage::MoveObject)
    } else if c == 3 {
        Some(SyncMessage::RemoveObject)
    } else if c == 4 {
        Some(SyncMessage::ChangeObject)
    } else if c == 5 {
        Some(SyncMessage::VillageHandoffQuery)
    } else if c == 6 {
        Some(SyncMessage::ServerChangeObject)
    } else if c == 7 {
        Some(SyncMessage::MovePlayer)
    } else if c == 8 {
        Some(SyncMessage::RemovePlayer)
    } else if c == 9 {
        Some(SyncMessage::Chat)
    } else if c == 10 {
        Some(SyncMessage::StartEvent)
    } else if c == 11 {
        Some(SyncMessage::StopEvent)
    } else if c == 12 {
        Some(SyncMessage::Emote)
    } else if c == 13 {
        Some(SyncMessage::BindUserNotify)
    } else if c == 14 {
        Some(SyncMessage::PauseNpc)
    } else if c == 15 {
        Some(SyncMessage::ResumeNpc)
    } else if c == 16 {
        Some(SyncMessage::UpdateNpcScript)
    } else if c == 17 {
        Some(SyncMessage::Notification)
    } else if c == 18 {
        Some(SyncMessage::ClientTest)
    } else if c == 19 {
        Some(SyncMessage::AddItem)
    } else if c == 20 {
        Some(SyncMessage::Evict)
    } else if c == 21 {
        Some(SyncMessage::EnterLoc)
    } else if c == 22 {
        Some(SyncMessage::ExitLoc)
    } else if c == 23 {
        Some(SyncMessage::Echo)
    } else if c == 24 {
        Some(SyncMessage::GetVillage)
    } else if c == 25 {
        Some(SyncMessage::Refresh)
    } else if c == 26 {
        Some(SyncMessage::Bind)
    } else if c == 27 {
        Some(SyncMessage::BindQuery)
    } else if c == 28 {
        Some(SyncMessage::BindVillageNotify)
    } else if c == 29 {
        Some(SyncMessage::VillageHandoff)
    } else if c == 30 {
        Some(SyncMessage::FindServer)
    } else if c == 31 {
        Some(SyncMessage::UpdateFilter)
    } else if c == 32 {
        Some(SyncMessage::SendNotify)
    } else if c == 33 {
        Some(SyncMessage::Login)
    } else if c == 34 {
        Some(SyncMessage::UpdateUserInfo)
    } else if c == 35 {
        Some(SyncMessage::UpdateUserFriends)
    } else if c == 36 {
        Some(SyncMessage::UpdateUserGroups)
    } else if c == 37 {
        Some(SyncMessage::ManageUserFriends)
    } else if c == 38 {
        Some(SyncMessage::ManageUserGroups)
    } else if c == 39 {
        Some(SyncMessage::ListServers)
    } else if c == 40 {
        Some(SyncMessage::ListVillages)
    } else if c == 41 {
        Some(SyncMessage::ListUsers)
    } else if c == 42 {
        Some(SyncMessage::MoveVillage)
    } else if c == 43 {
        Some(SyncMessage::StartNpcs)
    } else if c == 44 {
        Some(SyncMessage::StopNpcs)
    } else if c == 45 {
        Some(SyncMessage::UserSessionHandoff)
    } else if c == 46 {
        Some(SyncMessage::EmoteSvc)
    } else if c == 47 {
        Some(SyncMessage::Action)
    } else if c == 48 {
        Some(SyncMessage::Logout)
    } else if c == 49 {
        Some(SyncMessage::CloseZone)
    } else if c == 50 {
        Some(SyncMessage::TerminateUserSession)
    } else if c == 51 {
        Some(SyncMessage::GetPlayerCount)
    } else if c == 52 {
        Some(SyncMessage::UpdateLocation)
    } else if c == 54 {
        Some(SyncMessage::HeartbeatNotify)
    } else if c == 55 {
        Some(SyncMessage::Relogin)
    } else {
        None
    }
}

/// Look an opcode up in the SyncServer table.
pub fn sync_message_from_code(c: i64) -> (r: Option<SyncMessage>)
    ensures
        r == spec_sync_message_from(c),
{
    match c {
        1 => Some(SyncMessage::AddObject),
        2 => Some(SyncMessage::MoveObject),
        3 => Some(SyncMessage::RemoveObject),
        4 => Some(SyncMessage::ChangeObject),
        5 => Some(SyncMessage::VillageHandoffQuery),
        6 => Some(SyncMessage::ServerChangeObject),
        7 => Some(SyncMessage::MovePlayer),
        8 => Some(SyncMessage::RemovePlayer),
        9 => Some(SyncMessage::Chat),
        10 => Some(SyncMessage::StartEvent),
        11 => Some(SyncMessage::StopEvent),
        12 => Some(SyncMessage::Emote),
        13 => Some(SyncMessage::BindUserNotify),
        14 => Some(SyncMessage::PauseNpc),
        15 => Some(SyncMessage::ResumeNpc),
        16 => Some(SyncMessage::UpdateNpcScript),
        17 => Some(SyncMessage::Notification),
        18 => Some(SyncMessage::ClientTest),
        19 => Some(SyncMessage::AddItem),
        20 => Some(SyncMessage::Evict),
        21 => Some(SyncMessage::EnterLoc),
        22 => Some(SyncMessage::ExitLoc),
        23 => Some(SyncMessage::Echo),
        24 => Some(SyncMessage::GetVillage),
        25 => Some(SyncMessage::Refresh),
        26 => Some(SyncMessage::Bind),
        27 => Some(SyncMessage::BindQuery),
        28 => Some(SyncMessage::BindVillageNotify),
        29 => Some(SyncMessage::VillageHandoff),
        30 => Some(SyncMessage::FindServer),
        31 => Some(SyncMessage::UpdateFilter),
        32 => Some(SyncMessage::SendNotify),
        33 => Some(SyncMessage::Login),
        34 => Some(SyncMessage::UpdateUserInfo),
        35 => Some(SyncMessage::UpdateUserFriends),
        36 => Some(SyncMessage::UpdateUserGroups),
        37 => Some(SyncMessage::ManageUserFriends),
        38 => Some(SyncMessage::ManageUserGroups),
        39 => Some(SyncMessage::ListServers),
        40 => Some(SyncMessage::ListVillages),
        41 => Some(SyncMessage::ListUsers),
        42 => Some(SyncMessage::MoveVillage),
        43 => Some(SyncMessage::StartNpcs),
        44 => Some(SyncMessage::StopNpcs),
        45 => Some(SyncMessage::UserSessionHandoff),
        46 => Some(SyncMessage::EmoteSvc),
        47 => Some(SyncMessage::Action),
        48 => Some(SyncMessage::Logout),
        49 => Some(SyncMessage::CloseZone),
        50 => Some(SyncMessage::TerminateUserSession),
        51 => Some(SyncMessage::GetPlayerCount),
        52 => Some(SyncMessage::UpdateLocation),
        54 => Some(SyncMessage::HeartbeatNotify),
        55 => Some(SyncMessage::Relogin),
        _ => None,
    }
}

/// The numeric tag table of the service classes.
pub open spec fn spec_service_class_from(c: i64) -> Option<ServiceClass> {
    if c == 18 {
        Some(ServiceClass::UserServer)
    } else if c == 19 {
        Some(ServiceClass::SyncServer)
    } else if c == 20 {
        Some(ServiceClass::Location)
    } else if c == -1 {
        Some(ServiceClass::Client)
    } else {
        None
    }
}

/// Look a service-class tag up.
pub fn service_class_from_code(c: i64) -> (r: Option<ServiceClass>)
    ensures
        r == spec_service_class_from(c),
{
    match c {
        18 => Some(ServiceClass::UserServer),
        19 => Some(ServiceClass::SyncServer),
        20 => Some(ServiceClass::Location),
        -1 => Some(ServiceClass::Client),
        _ => None,
    }
}

/// The numeric tag of a service class.
pub open spec fn spec_service_class_code(s: ServiceClass) -> i64 {
    match s {
        ServiceClass::UserServer => 18,
        ServiceClass::SyncServer => 19,
        ServiceClass::Location => 20,
        ServiceClass::Client => -1i64,
    }
}

impl ServiceClass {
    /// The numeric wire tag of this service class.
    pub fn code(&self) -> (c: i64)
        ensures
            c == spec_service_class_code(*self),
    {
        match self {
            ServiceClass::UserServer => 18,
            ServiceClass::SyncServer => 19,
            ServiceClass::Location => 20,
            ServiceClass::Client => -1,
        }
    }
}

} // verus!