use awproto::codes::{AppCode, ResultCode};
use awproto::message::{decode_message, encode_message, DecodeError};
use awproto::opcodes::{
    client_message_from_code, service_class_from_code, sync_message_from_code,
    user_message2_from_code, user_message_from_code, ClientMessage, MessageType, ServiceClass,
    SyncMessage, UserMessage, UserMessage2,
};

#[test]
fn service_class_tags() {
    assert_eq!(service_class_from_code(18), Some(ServiceClass::UserServer));
    assert_eq!(service_class_from_code(19), Some(ServiceClass::SyncServer));
    assert_eq!(service_class_from_code(20), Some(ServiceClass::Location));
    assert_eq!(service_class_from_code(-1), Some(ServiceClass::Client));
    assert_eq!(service_class_from_code(0), None);
    assert_eq!(service_class_from_code(21), None);
    assert_eq!(ServiceClass::UserServer.code(), 18);
    assert_eq!(ServiceClass::SyncServer.code(), 19);
    assert_eq!(ServiceClass::Location.code(), 20);
    assert_eq!(ServiceClass::Client.code(), -1);
}

#[test]
fn client_table_spot_checks() {
    assert_eq!(client_message_from_code(1), Some(ClientMessage::AddObject));
    assert_eq!(client_message_from_code(8), Some(ClientMessage::Chat));
    assert_eq!(client_message_from_code(14), Some(ClientMessage::Resume));
    // Code 15 is a gap in the Client table.
    assert_eq!(client_message_from_code(15), None);
    assert_eq!(client_message_from_code(16), Some(ClientMessage::Notification));
    assert_eq!(client_message_from_code(28), Some(ClientMessage::ChangeObjectState));
    assert_eq!(client_message_from_code(29), None);
    assert_eq!(client_message_from_code(0), None);
    assert_eq!(client_message_from_code(-1), None);
}

#[test]
fn sync_table_spot_checks() {
    assert_eq!(sync_message_from_code(1), Some(SyncMessage::AddObject));
    assert_eq!(sync_message_from_code(5), Some(SyncMessage::VillageHandoffQuery));
    assert_eq!(sync_message_from_code(52), Some(SyncMessage::UpdateLocation));
    // Code 53 is a gap in the Sync table.
    assert_eq!(sync_message_from_code(53), None);
    assert_eq!(sync_message_from_code(54), Some(SyncMessage::HeartbeatNotify));
    assert_eq!(sync_message_from_code(55), Some(SyncMessage::Relogin));
    assert_eq!(sync_message_from_code(56), None);
    assert_eq!(sync_message_from_code(0), None);
}

#[test]
fn user_table_spot_checks() {
    assert_eq!(user_message_from_code(1), Some(UserMessage::GetAvatars));
    assert_eq!(user_message_from_code(15), Some(UserMessage::Login));
    assert_eq!(user_message_from_code(100), Some(UserMessage::RemoveYardItem));
    assert_eq!(user_message_from_code(202), Some(UserMessage::GetPlayerQuestInvite));
    // Code 203 is a gap in the UserServer table.
    assert_eq!(user_message_from_code(203), None);
    assert_eq!(user_message_from_code(204), Some(UserMessage::CleanupPlayerMazes));
    assert_eq!(user_message_from_code(423), Some(UserMessage::RejectGame));
    // Codes 424 to 426 are a gap.
    assert_eq!(user_message_from_code(424), None);
    assert_eq!(user_message_from_code(426), None);
    assert_eq!(user_message_from_code(427), Some(UserMessage::CmsGetGameState));
    assert_eq!(user_message_from_code(544), Some(UserMessage::QuestEventInProgress));
    // Code 545 is a gap.
    assert_eq!(user_message_from_code(545), None);
    assert_eq!(user_message_from_code(546), Some(UserMessage::GetQuestAllFromParent));
    assert_eq!(user_message_from_code(577), Some(UserMessage::EnhanceRecipe));
    assert_eq!(user_message_from_code(578), None);
    assert_eq!(user_message_from_code(0), None);
    assert_eq!(user_message_from_code(9999), None);
}

#[test]
fn auxiliary_category_table() {
    assert_eq!(user_message2_from_code(10), Some(UserMessage2::MfCrisp));
    assert_eq!(user_message2_from_code(11), Some(UserMessage2::MfSynchronousApi));
    assert_eq!(user_message2_from_code(12), Some(UserMessage2::MfAgent));
    assert_eq!(user_message2_from_code(9), None);
    assert_eq!(user_message2_from_code(13), None);
}

#[test]
fn app_code_values() {
    assert_eq!(AppCode::Ilg.code(), -1);
    assert_eq!(AppCode::Okay.code(), 0);
    assert_eq!(AppCode::Continue.code(), 1);
    assert_eq!(AppCode::Error.code(), 10);
    assert_eq!(AppCode::DB.code(), 70);
    assert_eq!(AppCode::ScsBlocked.code(), 225);
    assert_eq!(AppCode::InternalError.code(), 500);
    assert_eq!(AppCode::TestErrorCode.code(), 9999);
}

#[test]
fn result_code_values_and_lookup() {
    assert_eq!(ResultCode::Incomplete.code(), -1);
    assert_eq!(ResultCode::OK.code(), 0);
    assert_eq!(ResultCode::Error.code(), 10);
    assert_eq!(ResultCode::Chrono.code(), 58);
    assert_eq!(ResultCode::NotReady.code(), 59);
    assert_eq!(ResultCode::from_code(-1), Some(ResultCode::Incomplete));
    assert_eq!(ResultCode::from_code(45), Some(ResultCode::Timeout));
    assert_eq!(ResultCode::from_code(58), Some(ResultCode::Chrono));
    assert_eq!(ResultCode::from_code(60), None);
    assert_eq!(ResultCode::from_code(2), None);
    // The two directions agree on every listed code.
    for c in -1i64..=59 {
        if let Some(rc) = ResultCode::from_code(c) {
            assert_eq!(rc.code(), c);
        }
    }
}

#[test]
fn opcode_coverage_across_all_tables() {
    // Every code in each canonical table decodes, from a minimal frame,
    // to its own message-type variant; every gap classifies as an
    // unknown opcode.
    for class in [18i32, 19, -1] {
        let class_tag = service_class_from_code(class as i64).unwrap();
        for op in 1i32..650 {
            let frame = encode_message(0, class, op, 1);
            let decoded = decode_message(&frame);
            let expected = match class {
                18 => user_message_from_code(op as i64).map(MessageType::User),
                19 => sync_message_from_code(op as i64).map(MessageType::Sync),
                _ => client_message_from_code(op as i64).map(MessageType::Client),
            };
            match expected {
                Some(mt) => {
                    let msg = decoded.unwrap();
                    assert_eq!(msg.gsf_null, false);
                    let h = msg.header.unwrap();
                    assert_eq!(h.flags, 0);
                    assert_eq!(h.message_type, mt);
                    assert_eq!(h.request_id, 1);
                }
                None => {
                    assert_eq!(decoded, Err(DecodeError::UnknownOpcode(class_tag, op as i64)));
                }
            }
        }
    }
}
