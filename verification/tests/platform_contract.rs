use kaigi::platform::{
    all_platform_contracts, platform_contract, AppSurface, TargetPlatform, TARGET_PLATFORMS,
    WEB_FALLBACK_PLATFORMS,
};
use std::collections::HashSet;

#[test]
fn all_target_platforms_have_contracts() {
    let contracts = all_platform_contracts();
    assert_eq!(contracts.len(), TARGET_PLATFORMS.len());
    let seen = contracts
        .iter()
        .map(|contract| contract.platform)
        .collect::<HashSet<_>>();
    assert_eq!(seen.len(), TARGET_PLATFORMS.len());
}

#[test]
fn native_platforms_require_web_fallback() {
    let expected_fallbacks = WEB_FALLBACK_PLATFORMS.into_iter().collect::<HashSet<_>>();
    for contract in all_platform_contracts() {
        if contract.platform.is_native() {
            assert!(contract.fallback.web_fallback_required);
            assert_eq!(
                contract
                    .fallback
                    .fallback_platforms
                    .iter()
                    .copied()
                    .collect::<HashSet<_>>(),
                expected_fallbacks
            );
        } else {
            assert!(!contract.fallback.web_fallback_required);
            assert!(contract.fallback.fallback_platforms.is_empty());
        }
    }
}

#[test]
fn all_platforms_enforce_security_baseline() {
    for contract in all_platform_contracts() {
        assert!(contract.security.e2ee_default);
        assert!(contract.security.signed_high_risk_actions);
        assert!(contract.security.replay_resistance);
    }
}

#[test]
fn all_platforms_define_media_hdr_and_sdr_fallback() {
    for contract in all_platform_contracts() {
        assert!(contract.media.camera_mic_speaker);
        assert!(contract.media.screen_share);
        assert!(contract.media.hdr_on_supported_devices);
        assert!(contract.media.sdr_tonemap_fallback);
        assert!(contract.media.active_profile_indicator);
    }
}

#[test]
fn all_platforms_target_full_feature_parity() {
    for contract in all_platform_contracts() {
        assert!(contract.parity.wallet_host_identity);
        assert!(contract.parity.guest_policy_controls);
        assert!(contract.parity.host_cohost_participant_roles);
        assert!(contract.parity.moderation_commands);
        assert!(contract.parity.waiting_room_and_room_lock);
        assert!(contract.parity.roster_chat_reactions_hand_raise);
        assert!(contract.parity.reconnect_and_session_continuity);
        assert_eq!(contract.parity.participant_scale_target, 500);
        assert!(contract.parity.accessibility_shortcuts_and_labels);
        assert!(contract.recording.local_recording_policy_controlled);
        assert!(contract.recording.host_and_participant_recording_paths);
    }
}

#[test]
fn windows_is_native_with_web_fallback() {
    let windows = platform_contract(TargetPlatform::Windows);
    assert_eq!(windows.app_surface, AppSurface::Native);
    assert!(windows.fallback.web_fallback_required);
    assert_eq!(
        windows.fallback.fallback_platforms.len(),
        WEB_FALLBACK_PLATFORMS.len()
    );
}
