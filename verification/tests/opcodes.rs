use derust::types::gateway::opcodes::{recovery_for, CloseCode, Direction, OPCode, RecoveryAction};

#[test]
fn opcode_numbers_round_trip() {
    let all = [
        (OPCode::Dispatch, 0u8),
        (OPCode::Heartbeat, 1),
        (OPCode::Identify, 2),
        (OPCode::PresenceUpdate, 3),
        (OPCode::VoiceStateUpdate, 4),
        (OPCode::Resume, 6),
        (OPCode::Reconnect, 7),
        (OPCode::RequestGuildMembers, 8),
        (OPCode::InvalidSession, 9),
        (OPCode::Hello, 10),
        (OPCode::HeartbeatACK, 11),
    ];
    for (op, code) in all {
        assert_eq!(op.code(), code);
        assert_eq!(OPCode::from_code(code), Some(op));
    }
}

#[test]
fn opcode_numbers_without_an_opcode() {
    assert_eq!(OPCode::from_code(5), None);
    assert_eq!(OPCode::from_code(12), None);
    assert_eq!(OPCode::from_code(255), None);
}

#[test]
fn opcode_directions() {
    assert_eq!(OPCode::Heartbeat.direction(), Direction::Both);
    assert_eq!(OPCode::Hello.direction(), Direction::ServerToClient);
    assert_eq!(OPCode::Dispatch.direction(), Direction::ServerToClient);
    assert_eq!(OPCode::Identify.direction(), Direction::ClientToServer);
    assert_eq!(OPCode::Resume.direction(), Direction::ClientToServer);
    assert!(OPCode::Heartbeat.receivable());
    assert!(OPCode::HeartbeatACK.receivable());
    assert!(!OPCode::Identify.receivable());
    assert!(!OPCode::RequestGuildMembers.receivable());
}

#[test]
fn close_code_numbers_round_trip() {
    let all = [
        (CloseCode::Unknown, 4000u16),
        (CloseCode::UnknownOPCode, 4001),
        (CloseCode::DecodeError, 4002),
        (CloseCode::Unauthenticated, 4003),
        (CloseCode::AuthFailed, 4004),
        (CloseCode::AlreadyAuthenticated, 4005),
        (CloseCode::InvalidSeq, 4007),
        (CloseCode::Ratelimited, 4008),
        (CloseCode::Timeout, 4009),
        (CloseCode::InvalidShard, 4010),
        (CloseCode::ShardingRequired, 4011),
        (CloseCode::InvalidVersion, 4012),
        (CloseCode::InvalidIntent, 4013),
        (CloseCode::DisallowedIntent, 4014),
    ];
    for (cc, code) in all {
        assert_eq!(cc.code(), code);
        assert_eq!(CloseCode::from_code(code), Some(cc));
    }
    assert_eq!(CloseCode::from_code(4006), None);
    assert_eq!(CloseCode::from_code(3999), None);
    assert_eq!(CloseCode::from_code(4015), None);
    assert_eq!(CloseCode::from_code(1000), None);
}

#[test]
fn fatal_close_codes() {
    assert_eq!(CloseCode::AuthFailed.recovery(), RecoveryAction::FatalReauthenticate);
    assert_eq!(CloseCode::AlreadyAuthenticated.recovery(), RecoveryAction::FatalReauthenticate);
    assert_eq!(CloseCode::InvalidShard.recovery(), RecoveryAction::FatalConfiguration);
    assert_eq!(CloseCode::ShardingRequired.recovery(), RecoveryAction::FatalConfiguration);
    assert_eq!(CloseCode::InvalidVersion.recovery(), RecoveryAction::FatalConfiguration);
    assert_eq!(CloseCode::InvalidIntent.recovery(), RecoveryAction::FatalConfiguration);
    assert_eq!(CloseCode::DisallowedIntent.recovery(), RecoveryAction::FatalConfiguration);
    assert!(CloseCode::AuthFailed.recovery().is_fatal());
    assert!(CloseCode::DisallowedIntent.recovery().is_fatal());
}

#[test]
fn retryable_close_codes() {
    assert_eq!(CloseCode::Unknown.recovery(), RecoveryAction::RetryResume);
    assert_eq!(CloseCode::UnknownOPCode.recovery(), RecoveryAction::RetryResume);
    assert_eq!(CloseCode::DecodeError.recovery(), RecoveryAction::RetryResume);
    assert_eq!(CloseCode::Unauthenticated.recovery(), RecoveryAction::RetryResume);
    assert_eq!(CloseCode::InvalidSeq.recovery(), RecoveryAction::RetryResume);
    assert_eq!(CloseCode::Ratelimited.recovery(), RecoveryAction::RetryReconnect);
    assert_eq!(CloseCode::Timeout.recovery(), RecoveryAction::RetryReconnect);
    assert!(!CloseCode::Unknown.recovery().is_fatal());
    assert!(CloseCode::Unknown.recovery().keeps_session());
    assert!(!CloseCode::Timeout.recovery().is_fatal());
    assert!(!CloseCode::Timeout.recovery().keeps_session());
}

#[test]
fn recovery_for_numbers() {
    assert_eq!(recovery_for(None), RecoveryAction::RetryResume);
    assert_eq!(recovery_for(Some(1000)), RecoveryAction::RetryResume);
    assert_eq!(recovery_for(Some(1006)), RecoveryAction::RetryResume);
    assert_eq!(recovery_for(Some(4006)), RecoveryAction::RetryResume);
    assert_eq!(recovery_for(Some(4000)), RecoveryAction::RetryResume);
    assert_eq!(recovery_for(Some(4004)), RecoveryAction::FatalReauthenticate);
    assert_eq!(recovery_for(Some(4008)), RecoveryAction::RetryReconnect);
    assert_eq!(recovery_for(Some(4009)), RecoveryAction::RetryReconnect);
    assert_eq!(recovery_for(Some(4014)), RecoveryAction::FatalConfiguration);
}
