//! The frozen cross-platform parity contract: what every client platform
//! must support, and which browser platforms back up each native one.
use vstd::prelude::*;

verus! {

/// Every client platform that the parity contract covers.
#[derive(Clone, Copy, Debug, PartialEq, Eq, Hash, Structural)]
pub enum TargetPlatform {
    WebChromium,
    WebSafari,
    WebFirefox,
    MacOS,
    IOS,
    IPadOS,
    VisionOS,
    Windows,
    Android,
    Linux,
}

/// Browser platforms.
pub open spec fn spec_is_web(p: TargetPlatform) -> bool {
    p == TargetPlatform::WebChromium || p == TargetPlatform::WebSafari
        || p == TargetPlatform::WebFirefox
}

impl TargetPlatform {
    /// True for the three browser platforms.
    pub fn is_web(self) -> (r: bool)
        ensures
            r == spec_is_web(self),
    {
        match self {
            TargetPlatform::WebChromium | TargetPlatform::WebSafari | TargetPlatform::WebFirefox => true,
            _ => false,
        }
    }

    /// True for every platform that is not a browser.
    pub fn is_native(self) -> (r: bool)
        ensures
            r == !spec_is_web(self),
    {
        !self.is_web()
    }
}

/// All platforms, in contract order.
pub const TARGET_PLATFORMS: [TargetPlatform; 10] = [
    TargetPlatform::WebChromium,
    TargetPlatform::WebSafari,
    TargetPlatform::WebFirefox,
    TargetPlatform::MacOS,
    TargetPlatform::IOS,
    TargetPlatform::IPadOS,
    TargetPlatform::VisionOS,
    TargetPlatform::Windows,
    TargetPlatform::Android,
    TargetPlatform::Linux,
];

/// The browser platforms that native clients fall back to.
pub const WEB_FALLBACK_PLATFORMS: [TargetPlatform; 3] = [
    TargetPlatform::WebChromium,
    TargetPlatform::WebSafari,
    TargetPlatform::WebFirefox,
];

/// The contract order of the platforms.
pub open spec fn spec_target_platforms() -> Seq<TargetPlatform> {
    seq![
        TargetPlatform::WebChromium,
        TargetPlatform::WebSafari,
        TargetPlatform::WebFirefox,
        TargetPlatform::MacOS,
        TargetPlatform::IOS,
        TargetPlatform::IPadOS,
        TargetPlatform::VisionOS,
        TargetPlatform::Windows,
        TargetPlatform::Android,
        TargetPlatform::Linux,
    ]
}

/// The browser fallback list.
pub open spec fn spec_web_fallback_platforms() -> Seq<TargetPlatform> {
    seq![TargetPlatform::WebChromium, TargetPlatform::WebSafari, TargetPlatform::WebFirefox]
}

/// How a platform's client is delivered.
#[derive(Clone, Copy, Debug, PartialEq, Eq, Hash, Structural)]
pub enum AppSurface {
    Native,
    Web,
}

/// The parity contract of one platform.
#[derive(Clone, Debug, PartialEq, Eq)]
pub struct PlatformContract {
    pub platform: TargetPlatform,
    pub app_surface: AppSurface,
    pub parity: ParityTargets,
    pub security: SecurityTargets,
    pub media: MediaTargets,
    pub recording: RecordingTargets,
    pub fallback: FallbackTargets,
}

/// Feature-parity targets.
#[derive(Clone, Debug, PartialEq, Eq)]
pub struct ParityTargets {
    pub wallet_host_identity: bool,
    pub guest_policy_controls: bool,
    pub host_cohost_participant_roles: bool,
    pub moderation_commands: bool,
    pub waiting_room_and_room_lock: bool,
    pub roster_chat_reactions_hand_raise: bool,
    pub reconnect_and_session_continuity: bool,
    pub participant_scale_target: u16,
    pub accessibility_shortcuts_and_labels: bool,
}

/// Security baseline targets.
#[derive(Clone, Debug, PartialEq, Eq)]
pub struct SecurityTargets {
    pub e2ee_default: bool,
    pub signed_high_risk_actions: bool,
    pub replay_resistance: bool,
}

/// Media targets.
#[derive(Clone, Debug, PartialEq, Eq)]
pub struct MediaTargets {
    pub camera_mic_speaker: bool,
    pub screen_share: bool,
    pub hdr_on_supported_devices: bool,
    pub sdr_tonemap_fallback: bool,
    pub active_profile_indicator: bool,
}

/// Recording targets.
#[derive(Clone, Debug, PartialEq, Eq)]
pub struct RecordingTargets {
    pub local_recording_policy_controlled: bool,
    pub host_and_participant_recording_paths: bool,
}

/// Which platforms a client falls back to.
#[derive(Clone, Debug, PartialEq, Eq)]
pub struct FallbackTargets {
    pub web_fallback_required: bool,
    pub fallback_platforms: Vec<TargetPlatform>,
}

/// What the contract of platform `p` holds: full parity, the security,
/// media and recording baselines for everyone, and the browser fallback
/// list for native platforms only.
pub open spec fn is_contract_of(c: PlatformContract, p: TargetPlatform) -> bool {
    &&& c.platform == p
    &&& c.app_surface == (if spec_is_web(p) { AppSurface::Web } else { AppSurface::Native })
    &&& c.parity.wallet_host_identity
    &&& c.parity.guest_policy_controls
    &&& c.parity.host_cohost_participant_roles
    &&& c.parity.moderation_commands
    &&& c.parity.waiting_room_and_room_lock
    &&& c.parity.roster_chat_reactions_hand_raise
    &&& c.parity.reconnect_and_session_continuity
    &&& c.parity.participant_scale_target == 500
    &&& c.parity.accessibility_shortcuts_and_labels
    &&& c.security.e2ee_default
    &&& c.security.signed_high_risk_actions
    &&& c.security.replay_resistance
    &&& c.media.camera_mic_speaker
    &&& c.media.screen_share
    &&& c.media.hdr_on_supported_devices
    &&& c.media.sdr_tonemap_fallback
    &&& c.media.active_profile_indicator
    &&& c.recording.local_recording_policy_controlled
    &&& c.recording.host_and_participant_recording_paths
    &&& c.fallback.web_fallback_required == !spec_is_web(p)
    &&& c.fallback.fallback_platforms@ == (if spec_is_web(p) {
        Seq::<TargetPlatform>::empty()
    } else {
        spec_web_fallback_platforms()
    })
}

fn web_fallback_list() -> (r: Vec<TargetPlatform>)
    ensures
        r@ == spec_web_fallback_platforms(),
{
    let mut v: Vec<TargetPlatform> = Vec::new();
    v.push(TargetPlatform::WebChromium);
    v.push(TargetPlatform::WebSafari);
    v.push(TargetPlatform::WebFirefox);
    v
}

/// The parity contract of one platform.
pub fn platform_contract(platform: TargetPlatform) -> (c: PlatformContract)
    ensures
        is_contract_of(c, platform),
{
    PlatformContract {
        platform,
        app_surface: if platform.is_web() {
            AppSurface::Web
        } else {
            AppSurface::Native
        },
        parity: ParityTargets {
            wallet_host_identity: true,
            guest_policy_controls: true,
            host_cohost_participant_roles: true,
            moderation_commands: true,
            waiting_room_and_room_lock: true,
            roster_chat_reactions_hand_raise: true,
            reconnect_and_session_continuity: true,
            participant_scale_target: 500,
            accessibility_shortcuts_and_labels: true,
        },
        security: SecurityTargets {
            e2ee_default: true,
            signed_high_risk_actions: true,
            replay_resistance: true,
        },
        media: MediaTargets {
            camera_mic_speaker: true,
            screen_share: true,
            hdr_on_supported_devices: true,
            sdr_tonemap_fallback: true,
            active_profile_indicator: true,
        },
        recording: RecordingTargets {
            local_recording_policy_controlled: true,
            host_and_participant_recording_paths: true,
        },
        fallback: if platform.is_native() {
            FallbackTargets { web_fallback_required: true, fallback_platforms: web_fallback_list() }
        } else {
            FallbackTargets { web_fallback_required: false, fallback_platforms: Vec::new() }
        },
    }
}

/// The contracts of all platforms, one per platform, in contract order.
pub fn all_platform_contracts() -> (r: Vec<PlatformContract>)
    ensures
        r@.len() == spec_target_platforms().len(),
        forall|i: int|
            0 <= i < r@.len() ==> is_contract_of(#[trigger] r@[i], spec_target_platforms()[i]),
{
    let platforms = TARGET_PLATFORMS;
    assert(platforms@ == spec_target_platforms());
    let mut out: Vec<PlatformContract> = Vec::new();
    let mut i: usize = 0;
    while i < 10
        invariant
            i <= 10,
            platforms@ == spec_target_platforms(),
            out@.len() == i,
            forall|j: int| 0 <= j < i ==> is_contract_of(#[trigger] out@[j], spec_target_platforms()[j]),
        decreases 10 - i,
    {
        out.push(platform_contract(platforms[i]));
        i += 1;
    }
    out
}

/// Every platform of the contract list occurs once.
pub proof fn lemma_target_platforms_distinct()
    ensures
        forall|i: int, j: int|
            0 <= i < j < spec_target_platforms().len() ==> spec_target_platforms()[i]
                != spec_target_platforms()[j],
{
}

/// Native platforms are exactly the non-browser ones, and each contract
/// requires the browser fallback exactly when its platform is native.
pub proof fn lemma_native_requires_web_fallback(c: PlatformContract, p: TargetPlatform)
    requires
        is_contract_of(c, p),
    ensures
        !spec_is_web(p) ==> c.fallback.web_fallback_required
            && c.fallback.fallback_platforms@ == spec_web_fallback_platforms(),
        spec_is_web(p) ==> !c.fallback.web_fallback_required
            && c.fallback.fallback_platforms@.len() == 0,
        forall|i: int|
            0 <= i < c.fallback.fallback_platforms@.len() ==> spec_is_web(
                #[trigger] c.fallback.fallback_platforms@[i],
            ),
{
}

} // verus!
