//! The data model of the gateway and its events: plain records with public
//! fields, as they travel in event payloads and in calls of the REST interface.

use vstd::prelude::*;

verus! {

/// The JSON value type of serde_json, carried through unread where a payload
/// holds free-form data.
#[verifier::external_type_specification]
#[verifier::external_body]
pub struct ExJsonValue(serde_json::Value);

/// The default gateway endpoint, with its version and encoding parameters.
pub const DISCORD_GATEWAY: &'static str = "wss://gateway.discord.gg/?v=9&encoding=json";

/// The version and encoding parameters appended to every gateway URL.
pub const GATEWAY_PARAMS: &'static str = "?v=9&encoding=json";

/// The base URL of the REST interface.
pub const HTTP_URL: &'static str = "https://discord.com/api/v9";

#[derive(Debug)]
pub struct GatewayIdentifyProperties {
    pub os: String,
    pub browser: String,
    pub device: String,
}

#[derive(Debug)]
pub struct GatewayActivityTimestamps {
    pub start: Option<u64>,
    pub end: Option<u64>,
}

#[derive(Debug)]
pub struct GatewayActivityEmoji {
    pub name: String,
    pub id: Option<u64>,
    pub animated: Option<bool>,
}

#[derive(Debug)]
pub struct GatewayActivityParty {
    pub id: Option<String>,
    pub size: Option<[u64; 2]>,
}

#[derive(Debug)]
pub struct GatewayActivityAssets {
    pub large_image: Option<String>,
    pub large_text: Option<String>,
    pub small_image: Option<String>,
    pub small_text: Option<String>,
}

#[derive(Debug)]
pub struct GatewayActivitySecrets {
    pub join: Option<String>,
    pub spectate: Option<String>,
    pub match_: Option<String>,
}

#[derive(Debug)]
pub struct GatewayActivity {
    pub name: String,
    pub activity_type: u32,
    pub url: Option<String>,
    pub created_at: u64,
    pub timestamps: Option<GatewayActivityTimestamps>,
    pub application_id: Option<u64>,
    pub details: Option<String>,
    pub state: Option<String>,
    pub emoji: Option<GatewayActivityEmoji>,
    pub party: Option<GatewayActivityParty>,
    pub assets: Option<GatewayActivityAssets>,
    pub secrets: Option<GatewayActivitySecrets>,
    pub instance: Option<bool>,
    pub flags: Option<u64>,
}

#[derive(Debug)]
pub struct GatewayPresenceUpdate {
    pub since: Option<u64>,
    pub activities: Option<Vec<GatewayActivity>>,
    pub status: String,
    pub afk: bool,
}

#[derive(Debug)]
pub struct User {
    pub id: String,
    pub username: String,
    pub discriminator: Option<String>,
    pub avatar: Option<String>,
    pub bot: Option<bool>,
    pub system: Option<bool>,
    pub mfa_enabled: Option<bool>,
    pub locale: Option<String>,
    pub verified: Option<bool>,
    pub email: Option<String>,
    pub flags: Option<u64>,
    pub premium_type: Option<u32>,
    pub public_flags: Option<u64>,
    pub global_name: Option<String>,
}

#[derive(Debug)]
pub struct PartialApplication {
    pub id: String,
    pub flags: Option<u64>,
}

#[derive(Debug)]
pub struct Application {
    pub id: String,
    pub name: String,
    pub icon: Option<String>,
    pub description: String,
    pub rpc_origins: Option<Vec<String>>,
    pub bot_public: Option<bool>,
    pub bot_require_code_grant: Option<bool>,
    pub terms_of_service_url: Option<String>,
    pub privacy_policy_url: Option<String>,
    pub owner: Option<User>,
    pub summary: String,
    pub verify_key: String,
    pub team: Option<Team>,
    pub guild_id: Option<String>,
    pub primary_sku_id: Option<String>,
    pub slug: Option<String>,
    pub cover_image: Option<String>,
    pub flags: Option<u64>,
}

#[derive(Debug)]
pub struct ApplicationUpdate {
    pub application_id: String,
    pub description: Option<String>,
    pub icon: Option<String>,
    pub cover_image: Option<String>,
    pub team_id: Option<String>,
    pub flags: Option<i64>,
    pub interactions_endpoint_url: Option<String>,
    pub max_participants: Option<i64>,
    pub application_type: Option<String>,
    pub tags: Vec<String>,
    pub custom_install_url: Option<String>,
    pub install_params: Option<String>,
    pub role_connections_verification_url: Option<String>,
}

#[derive(Debug)]
pub struct TeamMember {
    pub membership_state: u32,
    pub permissions: Vec<String>,
    pub team_id: String,
    pub user: User,
}

#[derive(Debug)]
pub struct Team {
    pub id: String,
    pub icon: Option<String>,
    pub members: Vec<TeamMember>,
    pub owner_user_id: String,
}

#[derive(Debug)]
pub struct RoleTags {
    pub bot_id: Option<String>,
    pub integration_id: Option<String>,
    pub subscription_listing_id: Option<String>,
    pub premium_subscriber: Option<bool>,
    pub available_for_purchase: Option<bool>,
    pub guild_connections: Option<bool>,
}

#[derive(Debug)]
pub struct Role {
    pub id: String,
    pub name: String,
    pub color: u32,
    pub hoist: bool,
    pub icon: Option<String>,
    pub unicode_emoji: Option<String>,
    pub position: u64,
    pub permissions: String,
    pub managed: bool,
    pub mentionable: bool,
    pub tags: Option<RoleTags>,
    pub flags: u64,
}

#[derive(Debug)]
pub struct Emoji {
    pub id: Option<String>,
    pub name: Option<String>,
    pub roles: Option<Vec<String>>,
    pub user: Option<User>,
    pub require_colons: Option<bool>,
    pub managed: Option<bool>,
    pub animated: Option<bool>,
    pub available: Option<bool>,
}

#[derive(Debug)]
pub struct GuildMember {
    pub user: Option<User>,
    pub nick: Option<String>,
    pub avatar: Option<String>,
    pub roles: Vec<String>,
    pub joined_at: String,
    pub premium_since: Option<String>,
    pub deaf: bool,
    pub mute: bool,
    pub flags: u64,
    pub pending: Option<bool>,
    pub permissions: Option<String>,
    pub guild_id: Option<String>,
    pub communication_disabled_until: Option<String>,
}

#[derive(Debug)]
pub struct Channel {
    pub id: String,
    pub channel_type: u32,
    pub guild_id: Option<String>,
    pub position: Option<u64>,
    pub permission_overwrites: Option<Vec<PermissionOverwrite>>,
    pub name: Option<String>,
    pub topic: Option<String>,
    pub nsfw: Option<bool>,
    pub last_message_id: Option<String>,
    pub bitrate: Option<u64>,
    pub user_limit: Option<u64>,
    pub rate_limit_per_user: Option<u64>,
    pub recipients: Option<Vec<User>>,
    pub icon: Option<String>,
    pub owner_id: Option<String>,
    pub application_id: Option<String>,
    pub parent_id: Option<String>,
    pub last_pin_timestamp: Option<String>,
    pub rtc_region: Option<String>,
    pub video_quality_mode: Option<u32>,
    pub message_count: Option<u64>,
    pub member_count: Option<u64>,
    pub thread_metadata: Option<ThreadMetadata>,
    pub member: Option<ThreadMember>,
    pub default_auto_archive_duration: Option<u64>,
    pub permissions: Option<String>,
}

#[derive(Debug)]
pub struct PermissionOverwrite {
    pub id: String,
    pub overwrite_type: u32,
    pub allow: Option<u32>,
    pub deny: Option<u32>,
}

#[derive(Debug)]
pub struct ThreadMetadata {
    pub archived: bool,
    pub auto_archive_duration: u64,
    pub archive_timestamp: String,
    pub locked: Option<bool>,
}

#[derive(Debug)]
pub struct ThreadMember {
    pub id: String,
    pub user_id: String,
    pub join_timestamp: String,
    pub flags: u32,
    pub guild_id: Option<String>,
}

#[derive(Debug)]
pub struct PresenceUpdate {
    pub user: User,
    pub guild_id: String,
    pub status: String,
    pub activities: Option<Vec<Activity>>,
    pub client_status: ClientStatus,
    pub premium_since: Option<String>,
    pub nick: Option<String>,
    pub roles: Option<Vec<String>>,
    pub guild_member: Option<GuildMember>,
}

#[derive(Debug)]
pub struct Activity {
    pub name: String,
    pub activity_type: u32,
    pub url: Option<String>,
    pub created_at: u64,
    pub timestamps: Option<ActivityTimestamps>,
    pub application_id: Option<String>,
    pub details: Option<String>,
    pub state: Option<String>,
    pub emoji: Option<ActivityEmoji>,
    pub party: Option<ActivityParty>,
    pub assets: Option<ActivityAssets>,
    pub secrets: Option<ActivitySecrets>,
    pub instance: Option<bool>,
    pub flags: Option<u64>,
}

#[derive(Debug)]
pub struct ActivityTimestamps {
    pub start: Option<u64>,
    pub end: Option<u64>,
}

#[derive(Debug)]
pub struct ActivityEmoji {
    pub name: String,
    pub id: Option<u64>,
    pub animated: Option<bool>,
}

#[derive(Debug)]
pub struct ActivityParty {
    pub id: Option<String>,
    pub size: Option<[u64; 2]>,
}

#[derive(Debug)]
pub struct ActivityAssets {
    pub large_image: Option<String>,
    pub large_text: Option<String>,
    pub small_image: Option<String>,
    pub small_text: Option<String>,
}

#[derive(Debug)]
pub struct ActivitySecrets {
    pub join: Option<String>,
    pub spectate: Option<String>,
    pub match_: Option<String>,
}

#[derive(Debug)]
pub struct ClientStatus {
    pub desktop: Option<String>,
    pub mobile: Option<String>,
    pub web: Option<String>,
}

#[derive(Debug)]
pub struct WelcomeScreen {
    pub enabled: Option<bool>,
    pub description: Option<String>,
    pub welcome_channels: Vec<WelcomeScreenChannel>,
}

#[derive(Debug)]
pub struct WelcomeScreenChannel {
    pub channel_id: String,
    pub description: String,
    pub emoji_id: Option<String>,
    pub emoji_name: Option<String>,
}

#[derive(Debug)]
pub struct Guild {
    pub id: String,
    pub name: String,
    pub icon: Option<String>,
    pub icon_hash: Option<String>,
    pub splash: Option<String>,
    pub discovery_splash: Option<String>,
    pub owner: Option<bool>,
    pub owner_id: String,
    pub permissions: Option<u64>,
    pub region: String,
    pub afk_channel_id: Option<String>,
    pub afk_timeout: u64,
    pub widget_enabled: Option<bool>,
    pub widget_channel_id: Option<String>,
    pub verification_level: u32,
    pub default_message_notifications: u32,
    pub explicit_content_filter: u32,
    pub roles: Vec<Role>,
    pub emojis: Vec<Emoji>,
    pub features: Vec<String>,
    pub mfa_level: u32,
    pub application_id: Option<String>,
    pub system_channel_id: Option<String>,
    pub system_channel_flags: u32,
    pub rules_channel_id: Option<String>,
    pub max_presences: Option<u64>,
    pub max_members: Option<u64>,
    pub vanity_url_code: Option<String>,
    pub description: Option<String>,
    pub banner: Option<String>,
    pub premium_tier: u32,
    pub premium_subscription_count: Option<u64>,
    pub preferred_locale: String,
    pub public_updates_channel_id: Option<String>,
    pub max_video_channel_users: Option<u64>,
    pub approximate_member_count: Option<u64>,
    pub approximate_presence_count: Option<u64>,
    pub welcome_screen: Option<WelcomeScreen>,
    pub nsfw_level: u32,
    pub joined_at: Option<String>,
    pub large: Option<bool>,
    pub unavailable: Option<bool>,
    pub member_count: Option<u64>,
    pub voice_states: Option<Vec<VoiceState>>,
    pub members: Option<Vec<GuildMember>>,
    pub channels: Option<Vec<Channel>>,
    pub threads: Option<Vec<Channel>>,
    pub presences: Option<Vec<PresenceUpdate>>,
    pub stage_instances: Option<Vec<StageInstance>>,
    pub guild_scheduled_events: Option<Vec<GuildScheduledEvent>>,
}

#[derive(Debug)]
pub struct UnavailableGuild {
    pub id: String,
    pub unavailable: bool,
}

#[derive(Debug)]
pub struct ApplicationCommandPermissions {
    pub id: String,
    pub permission_type: u32,
    pub permission: bool,
}

#[derive(Debug)]
pub struct AutoModerationRule {
    pub id: String,
    pub name: String,
    pub enabled: bool,
    pub actions: Vec<AutoModerationAction>,
    pub conditions: Vec<AutoModerationCondition>,
}

#[derive(Debug)]
pub struct AutoModerationAction {
    pub action_type: u32,
    pub reason: Option<String>,
}

#[derive(Debug)]
pub struct AutoModerationCondition {
    pub condition_type: u32,
    pub match_: u32,
    pub match_parameters: Vec<String>,
}

#[derive(Debug)]
pub struct Hello {
    pub heartbeat_interval: u64,
}

#[derive(Debug)]
pub struct Ready {
    pub application: PartialApplication,
    pub v: u32,
    pub user: User,
    pub guilds: Vec<serde_json::Value>,
    pub resume_gateway_url: String,
    pub session_id: String,
    pub shard: Option<[u64; 2]>,
    pub auth: Option<serde_json::Value>,
    pub current_location: Option<Vec<String>>,
    pub geo_ordered_rtc_regions: Option<Vec<String>>,
    pub guild_join_requests: Option<Vec<String>>,
    pub presences: Option<Vec<PresenceUpdate>>,
    pub relationships: Option<Vec<String>>,
    pub private_channels: Option<Vec<String>>,
    pub session_type: Option<String>,
    pub user_settings: Option<serde_json::Value>,
}

#[derive(Debug)]
pub struct ApplicationCommandPermissionsUpdate {
    pub id: String,
    pub application_id: String,
    pub guild_id: String,
    pub permissions: Vec<ApplicationCommandPermissions>,
}

#[derive(Debug)]
pub struct AutoModerationRuleCreate {
    pub guild_id: String,
    pub rule: AutoModerationRule,
}

#[derive(Debug)]
pub struct AutoModerationRuleUpdate {
    pub guild_id: String,
    pub rule: AutoModerationRule,
}

#[derive(Debug)]
pub struct AutoModerationRuleDelete {
    pub guild_id: String,
    pub rule_id: String,
}

#[derive(Debug)]
pub struct AutoModerationActionExecution {
    pub guild_id: String,
    pub rule_id: String,
    pub action: AutoModerationAction,
    pub user_id: String,
    pub reason: Option<String>,
    pub rule_trigger_type: u32,
    pub channel_id: Option<String>,
    pub message_id: Option<String>,
    pub alert_system_message_id: Option<String>,
    pub content: Option<String>,
    pub matched_keyword: Option<String>,
    pub matched_content: Option<String>,
}

#[derive(Debug)]
pub struct ChannelPinsUpdate {
    pub guild_id: Option<String>,
    pub channel_id: String,
    pub last_pin_timestamp: Option<String>,
}

#[derive(Debug)]
pub struct ThreadDelete {
    pub id: String,
    pub guild_id: Option<String>,
    pub parent_id: Option<String>,
    pub channel_type: u32,
}

#[derive(Debug)]
pub struct ThreadListSync {
    pub guild_id: String,
    pub channel_ids: Vec<String>,
    pub threads: Vec<Channel>,
    pub members: Vec<ThreadMember>,
}

#[derive(Debug)]
pub struct ThreadMembersUpdate {
    pub id: String,
    pub guild_id: Option<String>,
    pub member_count: u64,
    pub added_members: Vec<ThreadMember>,
    pub removed_member_ids: Vec<String>,
}

#[derive(Debug)]
pub struct Entitlement {
    pub id: String,
    pub sku_id: String,
    pub application_id: String,
    pub entitlement_type: u32,
    pub deleted: bool,
    pub starts_at: Option<String>,
    pub ends_at: Option<String>,
    pub guild_id: String,
}

#[derive(Debug)]
pub struct AuditLogChange {
    pub key: String,
    pub new_value: Option<String>,
    pub old_value: Option<String>,
}

#[derive(Debug)]
pub struct OptionalAuditEntryInfo {
    pub delete_member_days: Option<String>,
    pub members_removed: Option<String>,
    pub channel_id: Option<String>,
    pub message_id: Option<String>,
    pub count: Option<String>,
    pub id: Option<String>,
    pub audit_type: Option<String>,
    pub role_name: Option<String>,
}

#[derive(Debug)]
pub struct AuditLogEntry {
    pub id: String,
    pub target_id: Option<String>,
    pub changes: Option<Vec<AuditLogChange>>,
    pub user_id: Option<String>,
    pub action_type: u32,
    pub options: Option<OptionalAuditEntryInfo>,
    pub reason: Option<String>,
}

#[derive(Debug)]
pub struct GuildBanAdd {
    pub guild_id: String,
    pub user: User,
}

#[derive(Debug)]
pub struct GuildBanRemove {
    pub guild_id: String,
    pub user: User,
}

#[derive(Debug)]
pub struct GuildEmojisUpdate {
    pub guild_id: String,
    pub emojis: Vec<Emoji>,
}

#[derive(Debug)]
pub struct Sticker {
    pub id: String,
    pub pack_id: Option<String>,
    pub name: String,
    pub description: String,
    pub tags: Option<String>,
    pub asset: String,
    pub preview_asset: Option<String>,
    pub format_type: u32,
}

#[derive(Debug)]
pub struct GuildStickersUpdate {
    pub guild_id: String,
    pub stickers: Vec<Sticker>,
}

#[derive(Debug)]
pub struct GuildIntegrationsUpdate {
    pub guild_id: String,
}

#[derive(Debug)]
pub struct GuildMemberRemove {
    pub guild_id: String,
    pub user: User,
}

#[derive(Debug)]
pub struct GuildMemberUpdate {
    pub guild_id: String,
    pub roles: Vec<String>,
    pub user: User,
    pub nick: Option<String>,
    pub avatar: Option<String>,
    pub joined_at: Option<String>,
    pub premium_since: Option<String>,
    pub deaf: Option<bool>,
    pub mute: Option<bool>,
    pub pending: Option<bool>,
    pub communication_disabled_until: Option<String>,
}

#[derive(Debug)]
pub struct GuildMembersChunk {
    pub guild_id: String,
    pub members: Vec<GuildMember>,
    pub chunk_index: u64,
    pub chunk_count: u64,
    pub not_found: Option<Vec<String>>,
    pub presences: Option<Vec<PresenceUpdate>>,
    pub nonce: Option<String>,
}

#[derive(Debug)]
pub struct GuildRoleCreate {
    pub guild_id: String,
    pub role: Role,
}

#[derive(Debug)]
pub struct GuildRoleUpdate {
    pub guild_id: String,
    pub role: Role,
}

#[derive(Debug)]
pub struct GuildRoleDelete {
    pub guild_id: String,
    pub role_id: String,
}

#[derive(Debug)]
pub struct EntityMetadata {
    pub location: Option<String>,
}

#[derive(Debug)]
pub struct GuildScheduledEvent {
    pub id: String,
    pub guild_id: String,
    pub channel_id: Option<String>,
    pub creator_id: Option<String>,
    pub name: String,
    pub description: Option<String>,
    pub scheduled_start_time: String,
    pub scheduled_end_time: Option<String>,
    pub privacy_level: u32,
    pub status: u32,
    pub entity_type: u32,
    pub entity_id: Option<String>,
    pub entity_metadata: Option<EntityMetadata>,
    pub creator: Option<User>,
    pub user_count: Option<u64>,
    pub image: Option<String>,
}

#[derive(Debug)]
pub struct GuildScheduledEventUser {
    pub guild_scheduled_event_id: String,
    pub user_id: String,
    pub guild_id: String,
}

#[derive(Debug)]
pub struct Account {
    pub id: String,
    pub name: String,
}

#[derive(Debug)]
pub struct Integration {
    pub id: String,
    pub name: String,
    pub integration_type: String,
    pub enabled: bool,
    pub syncing: Option<bool>,
    pub role_id: Option<String>,
    pub enable_emoticons: Option<bool>,
    pub expire_behavior: Option<u32>,
    pub expire_grace_period: Option<u64>,
    pub user: Option<User>,
    pub account: Option<Account>,
    pub synced_at: Option<String>,
    pub subscriber_count: Option<u64>,
    pub revoked: Option<bool>,
    pub application: Option<Application>,
    pub scopes: Option<Vec<String>>,
    pub guild_id: Option<String>,
}

#[derive(Debug)]
pub struct IntegrationDelete {
    pub id: String,
    pub guild_id: String,
    pub application_id: Option<String>,
}

#[derive(Debug)]
pub struct MessageActivity {
    pub activity_type: u32,
    pub party_id: Option<String>,
}

#[derive(Debug)]
pub struct MessageReference {
    pub message_id: Option<String>,
    pub channel_id: String,
    pub guild_id: Option<String>,
    pub fail_if_not_exists: Option<bool>,
}

#[derive(Debug)]
pub struct Reaction {
    pub count: u64,
    pub count_details: u64,
    pub me: bool,
    pub me_burst: bool,
    pub emoji: Emoji,
    pub burst_colors: Vec<String>,
}

#[derive(Debug)]
pub struct Embed {
    pub title: Option<String>,
    pub embed_type: Option<String>,
    pub description: Option<String>,
    pub url: Option<String>,
    pub timestamp: Option<String>,
    pub color: Option<u32>,
    pub footer: Option<EmbedFooter>,
    pub image: Option<EmbedImage>,
    pub thumbnail: Option<EmbedThumbnail>,
    pub video: Option<EmbedVideo>,
    pub provider: Option<EmbedProvider>,
    pub author: Option<EmbedAuthor>,
    pub fields: Option<Vec<EmbedField>>,
}

#[derive(Debug)]
pub struct EmbedFooter {
    pub text: String,
    pub icon_url: Option<String>,
    pub proxy_icon_url: Option<String>,
}

#[derive(Debug)]
pub struct EmbedImage {
    pub url: String,
    pub proxy_url: Option<String>,
    pub height: Option<u64>,
    pub width: Option<u64>,
}

#[derive(Debug)]
pub struct EmbedThumbnail {
    pub url: String,
    pub proxy_url: Option<String>,
    pub height: Option<u64>,
    pub width: Option<u64>,
}

#[derive(Debug)]
pub struct EmbedVideo {
    pub url: Option<String>,
    pub proxy_url: Option<String>,
    pub height: Option<u64>,
    pub width: Option<u64>,
}

#[derive(Debug)]
pub struct EmbedProvider {
    pub name: Option<String>,
    pub url: Option<String>,
}

#[derive(Debug)]
pub struct EmbedAuthor {
    pub name: String,
    pub url: Option<String>,
    pub icon_url: Option<String>,
    pub proxy_icon_url: Option<String>,
}

#[derive(Debug)]
pub struct EmbedField {
    pub name: String,
    pub value: String,
    pub inline: Option<bool>,
}

#[derive(Debug)]
pub struct StickerItem {
    pub id: String,
    pub name: String,
    pub format_type: u32,
}

#[derive(Debug)]
pub struct RoleSubscriptionData {
    pub role_subscription_listing_id: String,
    pub tier_name: String,
    pub total_months_subscribed: u64,
    pub is_renewal: bool,
}

#[derive(Debug)]
pub struct InviteCreate {
    pub channel_id: String,
    pub code: String,
    pub created_at: String,
    pub guild_id: Option<String>,
    pub inviter: Option<User>,
    pub max_age: Option<u64>,
    pub max_uses: Option<u64>,
    pub target_type: Option<u32>,
    pub target_user: Option<User>,
    pub target_application: Option<Application>,
    pub temporary: Option<bool>,
    pub uses: Option<u64>,
}

#[derive(Debug)]
pub struct InviteDelete {
    pub channel_id: String,
    pub guild_id: Option<String>,
    pub code: String,
}

#[derive(Debug)]
pub struct MessageDelete {
    pub id: String,
    pub channel_id: String,
    pub guild_id: Option<String>,
}

#[derive(Debug)]
pub struct MessageDeleteBulk {
    pub ids: Vec<String>,
    pub channel_id: String,
    pub guild_id: Option<String>,
}

#[derive(Debug)]
pub struct MessageReactionAdd {
    pub user_id: String,
    pub channel_id: String,
    pub message_id: String,
    pub guild_id: Option<String>,
    pub member: Option<GuildMember>,
    pub emoji: Emoji,
    pub message_author_id: Option<String>,
}

#[derive(Debug)]
pub struct MessageReactionRemove {
    pub user_id: String,
    pub channel_id: String,
    pub message_id: String,
    pub guild_id: Option<String>,
    pub emoji: Emoji,
}

#[derive(Debug)]
pub struct MessageReactionRemoveAll {
    pub channel_id: String,
    pub message_id: String,
    pub guild_id: Option<String>,
}

#[derive(Debug)]
pub struct MessageReactionRemoveEmoji {
    pub channel_id: String,
    pub guild_id: Option<String>,
    pub message_id: String,
    pub emoji: Emoji,
}

#[derive(Debug)]
pub struct TypingStart {
    pub channel_id: String,
    pub guild_id: Option<String>,
    pub user_id: String,
    pub timestamp: u64,
    pub member: Option<GuildMember>,
}

#[derive(Debug)]
pub struct VoiceState {
    pub guild_id: Option<String>,
    pub channel_id: Option<String>,
    pub user_id: String,
    pub member: Option<GuildMember>,
    pub session_id: String,
    pub deaf: bool,
    pub mute: bool,
    pub self_deaf: bool,
    pub self_mute: bool,
    pub self_stream: Option<bool>,
    pub self_video: bool,
    pub suppress: bool,
    pub request_to_speak_timestamp: Option<String>,
}

#[derive(Debug)]
pub struct VoiceServerUpdate {
    pub token: String,
    pub guild_id: String,
    pub endpoint: Option<String>,
}

#[derive(Debug)]
pub struct WebhooksUpdate {
    pub guild_id: String,
    pub channel_id: String,
}

#[derive(Debug)]
pub struct StageInstance {
    pub id: String,
    pub guild_id: String,
    pub channel_id: String,
    pub topic: String,
    pub privacy_level: u32,
    pub discoverable_disabled: bool,
    pub guild_scheduled_event_id: Option<String>,
}

#[derive(Debug)]
pub struct GuildChannelUpdate {
    pub id: String,
    pub position: Option<u32>,
    pub parent_id: Option<String>,
    pub lock_permissions: Option<bool>,
}

#[derive(Debug)]
pub struct GuildChannel {
    pub name: String,
    pub channel_type: Option<String>,
    pub position: Option<i32>,
    pub topic: Option<String>,
    pub bitrate: Option<i32>,
    pub user_limit: Option<i32>,
    pub nsfw: Option<bool>,
    pub rate_limit_per_user: Option<i32>,
    pub parent_id: Option<String>,
    pub permission_overwrites: Vec<PermissionOverwrite>,
    pub rtc_region: Option<String>,
    pub video_quality_mode: Option<String>,
    pub default_auto_archive_duration: Option<String>,
    pub default_reaction_emoji: Option<String>,
    pub default_sort_order: Option<String>,
    pub default_forum_layout: Option<String>,
    pub available_tags: Option<Vec<String>>,
}

#[derive(Debug)]
pub struct PermissionType {
    pub title: String,
    pub permission_const: u32,
    pub description: Option<String>,
}

#[derive(Debug)]
pub struct ApplicationCommandPermission {
    pub id: String,
    pub permission_type: PermissionType,
    pub permission: bool,
}

#[derive(Debug)]
pub struct ApplicationCommandOption {
    pub option_type: u8,
    pub name: String,
    pub description: String,
    pub name_localizations: Option<std::collections::HashMap<String, String>>,
    pub description_localizations: Option<std::collections::HashMap<String, String>>,
    pub required: Option<bool>,
}

#[derive(Debug)]
pub struct ApplicationCommand {
    pub name: String,
    pub description: Option<String>,
    pub command_type: Option<ApplicationCommandType>,
    pub application_id: String,
    pub guild_id: String,
    pub command_id: String,
    pub name_localizations: Option<std::collections::HashMap<String, String>>,
    pub description_localizations: Option<std::collections::HashMap<String, String>>,
    pub default_member_permissions: Option<u32>,
    pub dm_permission: Option<bool>,
    pub options: Vec<ApplicationCommandOption>,
}

#[derive(Debug)]
pub struct NewApplicationCommand {
    pub name: String,
    pub description: Option<String>,
    pub command_type: Option<u8>,
    pub options: Option<Vec<ApplicationCommandOption>>,
}

#[derive(Debug)]
pub struct GuildRole {
    pub id: String,
    pub name: Option<String>,
    pub color: Option<u32>,
    pub permissions: Option<u32>,
    pub hoist: Option<bool>,
    pub mentionable: Option<bool>,
    pub unicode_emoji: Option<String>,
}

#[derive(Debug)]
pub struct NewGuild {
    pub name: String,
    pub description: Option<String>,
    pub region: Option<String>,
    pub icon: Option<String>,
    pub verification_level: Option<u32>,
    pub default_message_notifications: Option<u32>,
    pub explicit_content_filter: Option<u32>,
    pub preferred_locale: Option<String>,
    pub afk_timeout: Option<u32>,
    pub roles: Vec<GuildRole>,
    pub channels: Option<Vec<GuildChannel>>,
    pub afk_channel_id: Option<String>,
    pub system_channel_id: Option<String>,
    pub system_channel_flags: Option<u32>,
}

#[derive(Debug)]
pub struct UpdateGuild {
    pub name: Option<String>,
    pub description: Option<String>,
    pub region: Option<String>,
    pub icon: Option<String>,
    pub verification_level: Option<String>,
    pub default_message_notifications: Option<String>,
    pub explicit_content_filter: Option<String>,
    pub preferred_locale: Option<String>,
    pub afk_timeout: Option<String>,
    pub afk_channel_id: Option<String>,
    pub system_channel_id: Option<String>,
    pub owner_id: Option<String>,
    pub splash: Option<String>,
    pub banner: Option<String>,
    pub system_channel_flags: Option<String>,
    pub features: Option<Vec<String>>,
    pub discovery_splash: Option<String>,
    pub home_header: Option<String>,
    pub rules_channel_id: Option<String>,
    pub safety_alerts_channel_id: Option<String>,
    pub public_updates_channel_id: Option<String>,
    pub premium_progress_bar_enabled: Option<String>,
}

#[derive(Debug)]
pub struct AllowedMention {
    pub parse: Vec<String>,
    pub roles: Vec<String>,
    pub users: Vec<String>,
    pub replied_user: bool,
}

#[derive(Debug)]
pub struct HttpGuildRoleUpdate {
    pub id: Option<String>,
    pub position: Option<String>,
}

#[derive(Debug)]
pub struct ApplicationRoleConnectionsMetadata {
    pub application_role_connections_metadata_type: PermissionType,
    pub key: String,
    pub name: String,
    pub description: String,
    pub name_localizations: std::collections::HashMap<String, String>,
    pub description_localizations: std::collections::HashMap<String, String>,
}

#[derive(Debug)]
pub struct HttpStageInstance {
    pub topic: String,
    pub channel_id: String,
    pub privacy_level: Option<u32>,
    pub guild_scheduled_event_id: Option<String>,
    pub send_start_notification: Option<bool>,
}

/// The kind of an option of an application command.
#[derive(Debug, Clone, Copy, PartialEq, Eq, Structural)]
pub enum ApplicationCommandOptionType {
    SubCommand,
    SubCommandGroup,
    String,
    Integer,
    Boolean,
    User,
    Channel,
    Role,
    Mentionable,
    Number,
    Attachment,
}

impl ApplicationCommandOptionType {
    /// The numeric code of the kind on the wire.
    pub open spec fn code(self) -> u8 {
        match self {
            ApplicationCommandOptionType::SubCommand => 1,
            ApplicationCommandOptionType::SubCommandGroup => 2,
            ApplicationCommandOptionType::String => 3,
            ApplicationCommandOptionType::Integer => 4,
            ApplicationCommandOptionType::Boolean => 5,
            ApplicationCommandOptionType::User => 6,
            ApplicationCommandOptionType::Channel => 7,
            ApplicationCommandOptionType::Role => 8,
            ApplicationCommandOptionType::Mentionable => 9,
            ApplicationCommandOptionType::Number => 10,
            ApplicationCommandOptionType::Attachment => 11,
        }
    }

    pub fn as_u8(&self) -> (r: u8)
        ensures
            r == self.code(),
            1 <= r <= 11,
    {
        match self {
            ApplicationCommandOptionType::SubCommand => 1,
            ApplicationCommandOptionType::SubCommandGroup => 2,
            ApplicationCommandOptionType::String => 3,
            ApplicationCommandOptionType::Integer => 4,
            ApplicationCommandOptionType::Boolean => 5,
            ApplicationCommandOptionType::User => 6,
            ApplicationCommandOptionType::Channel => 7,
            ApplicationCommandOptionType::Role => 8,
            ApplicationCommandOptionType::Mentionable => 9,
            ApplicationCommandOptionType::Number => 10,
            ApplicationCommandOptionType::Attachment => 11,
        }
    }
}

/// The kind of an application command.
#[derive(Debug, Clone, Copy, PartialEq, Eq, Structural)]
pub enum ApplicationCommandType {
    ChatInput,
    User,
    Message,
}

impl ApplicationCommandType {
    /// The numeric code of the kind on the wire.
    pub open spec fn code(self) -> u8 {
        match self {
            ApplicationCommandType::ChatInput => 1,
            ApplicationCommandType::User => 2,
            ApplicationCommandType::Message => 3,
        }
    }

    pub fn as_u8(&self) -> (r: u8)
        ensures
            r == self.code(),
            1 <= r <= 3,
    {
        match self {
            ApplicationCommandType::ChatInput => 1,
            ApplicationCommandType::User => 2,
            ApplicationCommandType::Message => 3,
        }
    }
}

} // verus!
