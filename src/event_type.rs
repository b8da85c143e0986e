//! The dispatch event types of the gateway and the table that maps an event
//! tag (`"MESSAGE_CREATE"`) to its type.

use vstd::prelude::*;
use crate::text::{is_upper_tag_char, str_eq, to_upper, upper_of};

verus! {

/// The type of a dispatched gateway event, named by the tag of its frame.
#[derive(Debug, Clone, Copy, PartialEq, Eq, Structural)]
pub enum GatewayEventType {
    Ready,
    Resumed,
    ApplicationCommandPermissionsUpdate,
    AutoModerationRuleCreate,
    AutoModerationRuleUpdate,
    AutoModerationRuleDelete,
    AutoModerationActionExecution,
    ChannelCreate,
    ChannelUpdate,
    ChannelDelete,
    ChannelPinsUpdate,
    ThreadCreate,
    ThreadUpdate,
    ThreadDelete,
    ThreadListSync,
    ThreadMemberUpdate,
    ThreadMembersUpdate,
    EntitlementCreate,
    EntitlementUpdate,
    EntitlementDelete,
    GuildCreate,
    GuildUpdate,
    GuildDelete,
    GuildAuditLogEntryCreate,
    GuildBanAdd,
    GuildBanRemove,
    GuildEmojisUpdate,
    GuildStickersUpdate,
    GuildIntegrationsUpdate,
    GuildMemberAdd,
    GuildMemberRemove,
    GuildMemberUpdate,
    GuildMembersChunk,
    GuildRoleCreate,
    GuildRoleUpdate,
    GuildRoleDelete,
    GuildScheduledEventCreate,
    GuildScheduledEventUpdate,
    GuildScheduledEventDelete,
    GuildScheduledEventUserAdd,
    GuildScheduledEventUserRemove,
    IntegrationCreate,
    IntegrationUpdate,
    IntegrationDelete,
    InteractionCreate,
    InviteCreate,
    InviteDelete,
    MessageCreate,
    MessageUpdate,
    MessageDelete,
    MessageDeleteBulk,
    MessageReactionAdd,
    MessageReactionRemove,
    MessageReactionRemoveAll,
    MessageReactionRemoveEmoji,
    PresenceUpdate,
    StageInstanceCreate,
    StageInstanceUpdate,
    StageInstanceDelete,
    TypingStart,
    UserUpdate,
    VoiceStateUpdate,
    VoiceServerUpdate,
    WebhooksUpdate,
}

/// The event type that an uppercase tag names, if any.
pub open spec fn event_type_of(u: Seq<char>) -> Option<GatewayEventType> {
    if u == "READY"@ {
        Some(GatewayEventType::Ready)
    } else if u == "RESUMED"@ {
        Some(GatewayEventType::Resumed)
    } else if u == "APPLICATION_COMMAND_PERMISSIONS_UPDATE"@ {
        Some(GatewayEventType::ApplicationCommandPermissionsUpdate)
    } else if u == "AUTOMODERATION_RULE_CREATE"@ {
        Some(GatewayEventType::AutoModerationRuleCreate)
    } else if u == "AUTOMODERATION_RULE_UPDATE"@ {
        Some(GatewayEventType::AutoModerationRuleUpdate)
    } else if u == "AUTOMODERATION_RULE_DELETE"@ {
        Some(GatewayEventType::AutoModerationRuleDelete)
    } else if u == "AUTOMODERATION_ACTION_EXECUTION"@ {
        Some(GatewayEventType::AutoModerationActionExecution)
    } else if u == "CHANNEL_CREATE"@ {
        Some(GatewayEventType::ChannelCreate)
    } else if u == "CHANNEL_UPDATE"@ {
        Some(GatewayEventType::ChannelUpdate)
    } else if u == "CHANNEL_DELETE"@ {
        Some(GatewayEventType::ChannelDelete)
    } else if u == "CHANNEL_PINS_UPDATE"@ {
        Some(GatewayEventType::ChannelPinsUpdate)
    } else if u == "THREAD_CREATE"@ {
        Some(GatewayEventType::ThreadCreate)
    } else if u == "THREAD_UPDATE"@ {
        Some(GatewayEventType::ThreadUpdate)
    } else if u == "THREAD_DELETE"@ {
        Some(GatewayEventType::ThreadDelete)
    } else if u == "THREAD_LIST_SYNC"@ {
        Some(GatewayEventType::ThreadListSync)
    } else if u == "THREAD_MEMBER_UPDATE"@ {
        Some(GatewayEventType::ThreadMemberUpdate)
    } else if u == "THREAD_MEMBERS_UPDATE"@ {
        Some(GatewayEventType::ThreadMembersUpdate)
    } else if u == "ENTITLEMENT_CREATE"@ {
        Some(GatewayEventType::EntitlementCreate)
    } else if u == "ENTITLEMENT_UPDATE"@ {
        Some(GatewayEventType::EntitlementUpdate)
    } else if u == "ENTITLEMENT_DELETE"@ {
        Some(GatewayEventType::EntitlementDelete)
    } else if u == "GUILD_CREATE"@ {
        Some(GatewayEventType::GuildCreate)
    } else if u == "GUILD_UPDATE"@ {
        Some(GatewayEventType::GuildUpdate)
    } else if u == "GUILD_DELETE"@ {
        Some(GatewayEventType::GuildDelete)
    } else if u == "GUILD_AUDIT_LOG_ENTRY_CREATE"@ {
        Some(GatewayEventType::GuildAuditLogEntryCreate)
    } else if u == "GUILD_BAN_ADD"@ {
        Some(GatewayEventType::GuildBanAdd)
    } else if u == "GUILD_BAN_REMOVE"@ {
        Some(GatewayEventType::GuildBanRemove)
    } else if u == "GUILD_EMOJIS_UPDATE"@ {
        Some(GatewayEventType::GuildEmojisUpdate)
    } else if u == "GUILD_STICKERS_UPDATE"@ {
        Some(GatewayEventType::GuildStickersUpdate)
    } else if u == "GUILD_INTEGRATIONS_UPDATE"@ {
        Some(GatewayEventType::GuildIntegrationsUpdate)
    } else if u == "GUILD_MEMBER_ADD"@ {
        Some(GatewayEventType::GuildMemberAdd)
    } else if u == "GUILD_MEMBER_REMOVE"@ {
        Some(GatewayEventType::GuildMemberRemove)
    } else if u == "GUILD_MEMBER_UPDATE"@ {
        Some(GatewayEventType::GuildMemberUpdate)
    } else if u == "GUILD_MEMBERS_CHUNK"@ {
        Some(GatewayEventType::GuildMembersChunk)
    } else if u == "GUILD_ROLE_CREATE"@ {
        Some(GatewayEventType::GuildRoleCreate)
    } else if u == "GUILD_ROLE_UPDATE"@ {
        Some(GatewayEventType::GuildRoleUpdate)
    } else if u == "GUILD_ROLE_DELETE"@ {
        Some(GatewayEventType::GuildRoleDelete)
    } else if u == "GUILD_SCHEDULED_EVENT_CREATE"@ {
        Some(GatewayEventType::GuildScheduledEventCreate)
    } else if u == "GUILD_SCHEDULED_EVENT_UPDATE"@ {
        Some(GatewayEventType::GuildScheduledEventUpdate)
    } else if u == "GUILD_SCHEDULED_EVENT_DELETE"@ {
        Some(GatewayEventType::GuildScheduledEventDelete)
    } else if u == "GUILD_SCHEDULED_EVENT_USER_ADD"@ {
        Some(GatewayEventType::GuildScheduledEventUserAdd)
    } else if u == "GUILD_SCHEDULED_EVENT_USER_REMOVE"@ {
        Some(GatewayEventType::GuildScheduledEventUserRemove)
    } else if u == "INTEGRATION_CREATE"@ {
        Some(GatewayEventType::IntegrationCreate)
    } else if u == "INTEGRATION_UPDATE"@ {
        Some(GatewayEventType::IntegrationUpdate)
    } else if u == "INTEGRATION_DELETE"@ {
        Some(GatewayEventType::IntegrationDelete)
    } else if u == "INTERACTION_CREATE"@ {
        Some(GatewayEventType::InteractionCreate)
    } else if u == "INVITE_CREATE"@ {
        Some(GatewayEventType::InviteCreate)
    } else if u == "INVITE_DELETE"@ {
        Some(GatewayEventType::InviteDelete)
    } else if u == "MESSAGE_CREATE"@ {
        Some(GatewayEventType::MessageCreate)
    } else if u == "MESSAGE_UPDATE"@ {
        Some(GatewayEventType::MessageUpdate)
    } else if u == "MESSAGE_DELETE"@ {
        Some(GatewayEventType::MessageDelete)
    } else if u == "MESSAGE_DELETE_BULK"@ {
        Some(GatewayEventType::MessageDeleteBulk)
    } else if u == "MESSAGE_REACTION_ADD"@ {
        Some(GatewayEventType::MessageReactionAdd)
    } else if u == "MESSAGE_REACTION_REMOVE"@ {
        Some(GatewayEventType::MessageReactionRemove)
    } else if u == "MESSAGE_REACTION_REMOVE_ALL"@ {
        Some(GatewayEventType::MessageReactionRemoveAll)
    } else if u == "MESSAGE_REACTION_REMOVE_EMOJI"@ {
        Some(GatewayEventType::MessageReactionRemoveEmoji)
    } else if u == "PRESENCE_UPDATE"@ {
        Some(GatewayEventType::PresenceUpdate)
    } else if u == "STAGE_INSTANCE_CREATE"@ {
        Some(GatewayEventType::StageInstanceCreate)
    } else if u == "STAGE_INSTANCE_UPDATE"@ {
        Some(GatewayEventType::StageInstanceUpdate)
    } else if u == "STAGE_INSTANCE_DELETE"@ {
        Some(GatewayEventType::StageInstanceDelete)
    } else if u == "TYPING_START"@ {
        Some(GatewayEventType::TypingStart)
    } else if u == "USER_UPDATE"@ {
        Some(GatewayEventType::UserUpdate)
    } else if u == "VOICE_STATE_UPDATE"@ {
        Some(GatewayEventType::VoiceStateUpdate)
    } else if u == "VOICE_SERVER_UPDATE"@ {
        Some(GatewayEventType::VoiceServerUpdate)
    } else if u == "WEBHOOKS_UPDATE"@ {
        Some(GatewayEventType::WebhooksUpdate)
    } else {
        None
    }
}

impl GatewayEventType {
    /// The tag that names this event type on the wire.
    pub open spec fn tag_spec(self) -> Seq<char> {
        match self {
            GatewayEventType::Ready => "READY"@,
            GatewayEventType::Resumed => "RESUMED"@,
            GatewayEventType::ApplicationCommandPermissionsUpdate => "APPLICATION_COMMAND_PERMISSIONS_UPDATE"@,
            GatewayEventType::AutoModerationRuleCreate => "AUTOMODERATION_RULE_CREATE"@,
            GatewayEventType::AutoModerationRuleUpdate => "AUTOMODERATION_RULE_UPDATE"@,
            GatewayEventType::AutoModerationRuleDelete => "AUTOMODERATION_RULE_DELETE"@,
            GatewayEventType::AutoModerationActionExecution => "AUTOMODERATION_ACTION_EXECUTION"@,
            GatewayEventType::ChannelCreate => "CHANNEL_CREATE"@,
            GatewayEventType::ChannelUpdate => "CHANNEL_UPDATE"@,
            GatewayEventType::ChannelDelete => "CHANNEL_DELETE"@,
            GatewayEventType::ChannelPinsUpdate => "CHANNEL_PINS_UPDATE"@,
            GatewayEventType::ThreadCreate => "THREAD_CREATE"@,
            GatewayEventType::ThreadUpdate => "THREAD_UPDATE"@,
            GatewayEventType::ThreadDelete => "THREAD_DELETE"@,
            GatewayEventType::ThreadListSync => "THREAD_LIST_SYNC"@,
            GatewayEventType::ThreadMemberUpdate => "THREAD_MEMBER_UPDATE"@,
            GatewayEventType::ThreadMembersUpdate => "THREAD_MEMBERS_UPDATE"@,
            GatewayEventType::EntitlementCreate => "ENTITLEMENT_CREATE"@,
            GatewayEventType::EntitlementUpdate => "ENTITLEMENT_UPDATE"@,
            GatewayEventType::EntitlementDelete => "ENTITLEMENT_DELETE"@,
            GatewayEventType::GuildCreate => "GUILD_CREATE"@,
            GatewayEventType::GuildUpdate => "GUILD_UPDATE"@,
            GatewayEventType::GuildDelete => "GUILD_DELETE"@,
            GatewayEventType::GuildAuditLogEntryCreate => "GUILD_AUDIT_LOG_ENTRY_CREATE"@,
            GatewayEventType::GuildBanAdd => "GUILD_BAN_ADD"@,
            GatewayEventType::GuildBanRemove => "GUILD_BAN_REMOVE"@,
            GatewayEventType::GuildEmojisUpdate => "GUILD_EMOJIS_UPDATE"@,
            GatewayEventType::GuildStickersUpdate => "GUILD_STICKERS_UPDATE"@,
            GatewayEventType::GuildIntegrationsUpdate => "GUILD_INTEGRATIONS_UPDATE"@,
            GatewayEventType::GuildMemberAdd => "GUILD_MEMBER_ADD"@,
            GatewayEventType::GuildMemberRemove => "GUILD_MEMBER_REMOVE"@,
            GatewayEventType::GuildMemberUpdate => "GUILD_MEMBER_UPDATE"@,
            GatewayEventType::GuildMembersChunk => "GUILD_MEMBERS_CHUNK"@,
            GatewayEventType::GuildRoleCreate => "GUILD_ROLE_CREATE"@,
            GatewayEventType::GuildRoleUpdate => "GUILD_ROLE_UPDATE"@,
            GatewayEventType::GuildRoleDelete => "GUILD_ROLE_DELETE"@,
            GatewayEventType::GuildScheduledEventCreate => "GUILD_SCHEDULED_EVENT_CREATE"@,
            GatewayEventType::GuildScheduledEventUpdate => "GUILD_SCHEDULED_EVENT_UPDATE"@,
            GatewayEventType::GuildScheduledEventDelete => "GUILD_SCHEDULED_EVENT_DELETE"@,
            GatewayEventType::GuildScheduledEventUserAdd => "GUILD_SCHEDULED_EVENT_USER_ADD"@,
            GatewayEventType::GuildScheduledEventUserRemove => "GUILD_SCHEDULED_EVENT_USER_REMOVE"@,
            GatewayEventType::IntegrationCreate => "INTEGRATION_CREATE"@,
            GatewayEventType::IntegrationUpdate => "INTEGRATION_UPDATE"@,
            GatewayEventType::IntegrationDelete => "INTEGRATION_DELETE"@,
            GatewayEventType::InteractionCreate => "INTERACTION_CREATE"@,
            GatewayEventType::InviteCreate => "INVITE_CREATE"@,
            GatewayEventType::InviteDelete => "INVITE_DELETE"@,
            GatewayEventType::MessageCreate => "MESSAGE_CREATE"@,
            GatewayEventType::MessageUpdate => "MESSAGE_UPDATE"@,
            GatewayEventType::MessageDelete => "MESSAGE_DELETE"@,
            GatewayEventType::MessageDeleteBulk => "MESSAGE_DELETE_BULK"@,
            GatewayEventType::MessageReactionAdd => "MESSAGE_REACTION_ADD"@,
            GatewayEventType::MessageReactionRemove => "MESSAGE_REACTION_REMOVE"@,
            GatewayEventType::MessageReactionRemoveAll => "MESSAGE_REACTION_REMOVE_ALL"@,
            GatewayEventType::MessageReactionRemoveEmoji => "MESSAGE_REACTION_REMOVE_EMOJI"@,
            GatewayEventType::PresenceUpdate => "PRESENCE_UPDATE"@,
            GatewayEventType::StageInstanceCreate => "STAGE_INSTANCE_CREATE"@,
            GatewayEventType::StageInstanceUpdate => "STAGE_INSTANCE_UPDATE"@,
            GatewayEventType::StageInstanceDelete => "STAGE_INSTANCE_DELETE"@,
            GatewayEventType::TypingStart => "TYPING_START"@,
            GatewayEventType::UserUpdate => "USER_UPDATE"@,
            GatewayEventType::VoiceStateUpdate => "VOICE_STATE_UPDATE"@,
            GatewayEventType::VoiceServerUpdate => "VOICE_SERVER_UPDATE"@,
            GatewayEventType::WebhooksUpdate => "WEBHOOKS_UPDATE"@,
        }
    }

    /// The tag that names this event type on the wire.
    pub fn tag(&self) -> (r: &'static str)
        ensures
            r@ == self.tag_spec(),
    {
        match self {
            GatewayEventType::Ready => "READY",
            GatewayEventType::Resumed => "RESUMED",
            GatewayEventType::ApplicationCommandPermissionsUpdate => "APPLICATION_COMMAND_PERMISSIONS_UPDATE",
            GatewayEventType::AutoModerationRuleCreate => "AUTOMODERATION_RULE_CREATE",
            GatewayEventType::AutoModerationRuleUpdate => "AUTOMODERATION_RULE_UPDATE",
            GatewayEventType::AutoModerationRuleDelete => "AUTOMODERATION_RULE_DELETE",
            GatewayEventType::AutoModerationActionExecution => "AUTOMODERATION_ACTION_EXECUTION",
            GatewayEventType::ChannelCreate => "CHANNEL_CREATE",
            GatewayEventType::ChannelUpdate => "CHANNEL_UPDATE",
            GatewayEventType::ChannelDelete => "CHANNEL_DELETE",
            GatewayEventType::ChannelPinsUpdate => "CHANNEL_PINS_UPDATE",
            GatewayEventType::ThreadCreate => "THREAD_CREATE",
            GatewayEventType::ThreadUpdate => "THREAD_UPDATE",
            GatewayEventType::ThreadDelete => "THREAD_DELETE",
            GatewayEventType::ThreadListSync => "THREAD_LIST_SYNC",
            GatewayEventType::ThreadMemberUpdate => "THREAD_MEMBER_UPDATE",
            GatewayEventType::ThreadMembersUpdate => "THREAD_MEMBERS_UPDATE",
            GatewayEventType::EntitlementCreate => "ENTITLEMENT_CREATE",
            GatewayEventType::EntitlementUpdate => "ENTITLEMENT_UPDATE",
            GatewayEventType::EntitlementDelete => "ENTITLEMENT_DELETE",
            GatewayEventType::GuildCreate => "GUILD_CREATE",
            GatewayEventType::GuildUpdate => "GUILD_UPDATE",
            GatewayEventType::GuildDelete => "GUILD_DELETE",
            GatewayEventType::GuildAuditLogEntryCreate => "GUILD_AUDIT_LOG_ENTRY_CREATE",
            GatewayEventType::GuildBanAdd => "GUILD_BAN_ADD",
            GatewayEventType::GuildBanRemove => "GUILD_BAN_REMOVE",
            GatewayEventType::GuildEmojisUpdate => "GUILD_EMOJIS_UPDATE",
            GatewayEventType::GuildStickersUpdate => "GUILD_STICKERS_UPDATE",
            GatewayEventType::GuildIntegrationsUpdate => "GUILD_INTEGRATIONS_UPDATE",
            GatewayEventType::GuildMemberAdd => "GUILD_MEMBER_ADD",
            GatewayEventType::GuildMemberRemove => "GUILD_MEMBER_REMOVE",
            GatewayEventType::GuildMemberUpdate => "GUILD_MEMBER_UPDATE",
            GatewayEventType::GuildMembersChunk => "GUILD_MEMBERS_CHUNK",
            GatewayEventType::GuildRoleCreate => "GUILD_ROLE_CREATE",
            GatewayEventType::GuildRoleUpdate => "GUILD_ROLE_UPDATE",
            GatewayEventType::GuildRoleDelete => "GUILD_ROLE_DELETE",
            GatewayEventType::GuildScheduledEventCreate => "GUILD_SCHEDULED_EVENT_CREATE",
            GatewayEventType::GuildScheduledEventUpdate => "GUILD_SCHEDULED_EVENT_UPDATE",
            GatewayEventType::GuildScheduledEventDelete => "GUILD_SCHEDULED_EVENT_DELETE",
            GatewayEventType::GuildScheduledEventUserAdd => "GUILD_SCHEDULED_EVENT_USER_ADD",
            GatewayEventType::GuildScheduledEventUserRemove => "GUILD_SCHEDULED_EVENT_USER_REMOVE",
            GatewayEventType::IntegrationCreate => "INTEGRATION_CREATE",
            GatewayEventType::IntegrationUpdate => "INTEGRATION_UPDATE",
            GatewayEventType::IntegrationDelete => "INTEGRATION_DELETE",
            GatewayEventType::InteractionCreate => "INTERACTION_CREATE",
            GatewayEventType::InviteCreate => "INVITE_CREATE",
            GatewayEventType::InviteDelete => "INVITE_DELETE",
            GatewayEventType::MessageCreate => "MESSAGE_CREATE",
            GatewayEventType::MessageUpdate => "MESSAGE_UPDATE",
            GatewayEventType::MessageDelete => "MESSAGE_DELETE",
            GatewayEventType::MessageDeleteBulk => "MESSAGE_DELETE_BULK",
            GatewayEventType::MessageReactionAdd => "MESSAGE_REACTION_ADD",
            GatewayEventType::MessageReactionRemove => "MESSAGE_REACTION_REMOVE",
            GatewayEventType::MessageReactionRemoveAll => "MESSAGE_REACTION_REMOVE_ALL",
            GatewayEventType::MessageReactionRemoveEmoji => "MESSAGE_REACTION_REMOVE_EMOJI",
            GatewayEventType::PresenceUpdate => "PRESENCE_UPDATE",
            GatewayEventType::StageInstanceCreate => "STAGE_INSTANCE_CREATE",
            GatewayEventType::StageInstanceUpdate => "STAGE_INSTANCE_UPDATE",
            GatewayEventType::StageInstanceDelete => "STAGE_INSTANCE_DELETE",
            GatewayEventType::TypingStart => "TYPING_START",
            GatewayEventType::UserUpdate => "USER_UPDATE",
            GatewayEventType::VoiceStateUpdate => "VOICE_STATE_UPDATE",
            GatewayEventType::VoiceServerUpdate => "VOICE_SERVER_UPDATE",
            GatewayEventType::WebhooksUpdate => "WEBHOOKS_UPDATE",
        }
    }

    /// Looks up a tag that is already uppercase.
    pub fn from_upper(u: &str) -> (r: Option<GatewayEventType>)
        ensures
            r == event_type_of(u@),
    {
        if str_eq(u, "READY") {
            Some(GatewayEventType::Ready)
        } else if str_eq(u, "RESUMED") {
            Some(GatewayEventType::Resumed)
        } else if str_eq(u, "APPLICATION_COMMAND_PERMISSIONS_UPDATE") {
            Some(GatewayEventType::ApplicationCommandPermissionsUpdate)
        } else if str_eq(u, "AUTOMODERATION_RULE_CREATE") {
            Some(GatewayEventType::AutoModerationRuleCreate)
        } else if str_eq(u, "AUTOMODERATION_RULE_UPDATE") {
            Some(GatewayEventType::AutoModerationRuleUpdate)
        } else if str_eq(u, "AUTOMODERATION_RULE_DELETE") {
            Some(GatewayEventType::AutoModerationRuleDelete)
        } else if str_eq(u, "AUTOMODERATION_ACTION_EXECUTION") {
            Some(GatewayEventType::AutoModerationActionExecution)
        } else if str_eq(u, "CHANNEL_CREATE") {
            Some(GatewayEventType::ChannelCreate)
        } else if str_eq(u, "CHANNEL_UPDATE") {
            Some(GatewayEventType::ChannelUpdate)
        } else if str_eq(u, "CHANNEL_DELETE") {
            Some(GatewayEventType::ChannelDelete)
        } else if str_eq(u, "CHANNEL_PINS_UPDATE") {
            Some(GatewayEventType::ChannelPinsUpdate)
        } else if str_eq(u, "THREAD_CREATE") {
            Some(GatewayEventType::ThreadCreate)
        } else if str_eq(u, "THREAD_UPDATE") {
            Some(GatewayEventType::ThreadUpdate)
        } else if str_eq(u, "THREAD_DELETE") {
            Some(GatewayEventType::ThreadDelete)
        } else if str_eq(u, "THREAD_LIST_SYNC") {
            Some(GatewayEventType::ThreadListSync)
        } else if str_eq(u, "THREAD_MEMBER_UPDATE") {
            Some(GatewayEventType::ThreadMemberUpdate)
        } else if str_eq(u, "THREAD_MEMBERS_UPDATE") {
            Some(GatewayEventType::ThreadMembersUpdate)
        } else if str_eq(u, "ENTITLEMENT_CREATE") {
            Some(GatewayEventType::EntitlementCreate)
        } else if str_eq(u, "ENTITLEMENT_UPDATE") {
            Some(GatewayEventType::EntitlementUpdate)
        } else if str_eq(u, "ENTITLEMENT_DELETE") {
            Some(GatewayEventType::EntitlementDelete)
        } else if str_eq(u, "GUILD_CREATE") {
            Some(GatewayEventType::GuildCreate)
        } else if str_eq(u, "GUILD_UPDATE") {
            Some(GatewayEventType::GuildUpdate)
        } else if str_eq(u, "GUILD_DELETE") {
            Some(GatewayEventType::GuildDelete)
        } else if str_eq(u, "GUILD_AUDIT_LOG_ENTRY_CREATE") {
            Some(GatewayEventType::GuildAuditLogEntryCreate)
        } else if str_eq(u, "GUILD_BAN_ADD") {
            Some(GatewayEventType::GuildBanAdd)
        } else if str_eq(u, "GUILD_BAN_REMOVE") {
            Some(GatewayEventType::GuildBanRemove)
        } else if str_eq(u, "GUILD_EMOJIS_UPDATE") {
            Some(GatewayEventType::GuildEmojisUpdate)
        } else if str_eq(u, "GUILD_STICKERS_UPDATE") {
            Some(GatewayEventType::GuildStickersUpdate)
        } else if str_eq(u, "GUILD_INTEGRATIONS_UPDATE") {
            Some(GatewayEventType::GuildIntegrationsUpdate)
        } else if str_eq(u, "GUILD_MEMBER_ADD") {
            Some(GatewayEventType::GuildMemberAdd)
        } else if str_eq(u, "GUILD_MEMBER_REMOVE") {
            Some(GatewayEventType::GuildMemberRemove)
        } else if str_eq(u, "GUILD_MEMBER_UPDATE") {
            Some(GatewayEventType::GuildMemberUpdate)
        } else if str_eq(u, "GUILD_MEMBERS_CHUNK") {
            Some(GatewayEventType::GuildMembersChunk)
        } else if str_eq(u, "GUILD_ROLE_CREATE") {
            Some(GatewayEventType::GuildRoleCreate)
        } else if str_eq(u, "GUILD_ROLE_UPDATE") {
            Some(GatewayEventType::GuildRoleUpdate)
        } else if str_eq(u, "GUILD_ROLE_DELETE") {
            Some(GatewayEventType::GuildRoleDelete)
        } else if str_eq(u, "GUILD_SCHEDULED_EVENT_CREATE") {
            Some(GatewayEventType::GuildScheduledEventCreate)
        } else if str_eq(u, "GUILD_SCHEDULED_EVENT_UPDATE") {
            Some(GatewayEventType::GuildScheduledEventUpdate)
        } else if str_eq(u, "GUILD_SCHEDULED_EVENT_DELETE") {
            Some(GatewayEventType::GuildScheduledEventDelete)
        } else if str_eq(u, "GUILD_SCHEDULED_EVENT_USER_ADD") {
            Some(GatewayEventType::GuildScheduledEventUserAdd)
        } else if str_eq(u, "GUILD_SCHEDULED_EVENT_USER_REMOVE") {
            Some(GatewayEventType::GuildScheduledEventUserRemove)
        } else if str_eq(u, "INTEGRATION_CREATE") {
            Some(GatewayEventType::IntegrationCreate)
        } else if str_eq(u, "INTEGRATION_UPDATE") {
            Some(GatewayEventType::IntegrationUpdate)
        } else if str_eq(u, "INTEGRATION_DELETE") {
            Some(GatewayEventType::IntegrationDelete)
        } else if str_eq(u, "INTERACTION_CREATE") {
            Some(GatewayEventType::InteractionCreate)
        } else if str_eq(u, "INVITE_CREATE") {
            Some(GatewayEventType::InviteCreate)
        } else if str_eq(u, "INVITE_DELETE") {
            Some(GatewayEventType::InviteDelete)
        } else if str_eq(u, "MESSAGE_CREATE") {
            Some(GatewayEventType::MessageCreate)
        } else if str_eq(u, "MESSAGE_UPDATE") {
            Some(GatewayEventType::MessageUpdate)
        } else if str_eq(u, "MESSAGE_DELETE") {
            Some(GatewayEventType::MessageDelete)
        } else if str_eq(u, "MESSAGE_DELETE_BULK") {
            Some(GatewayEventType::MessageDeleteBulk)
        } else if str_eq(u, "MESSAGE_REACTION_ADD") {
            Some(GatewayEventType::MessageReactionAdd)
        } else if str_eq(u, "MESSAGE_REACTION_REMOVE") {
            Some(GatewayEventType::MessageReactionRemove)
        } else if str_eq(u, "MESSAGE_REACTION_REMOVE_ALL") {
            Some(GatewayEventType::MessageReactionRemoveAll)
        } else if str_eq(u, "MESSAGE_REACTION_REMOVE_EMOJI") {
            Some(GatewayEventType::MessageReactionRemoveEmoji)
        } else if str_eq(u, "PRESENCE_UPDATE") {
            Some(GatewayEventType::PresenceUpdate)
        } else if str_eq(u, "STAGE_INSTANCE_CREATE") {
            Some(GatewayEventType::StageInstanceCreate)
        } else if str_eq(u, "STAGE_INSTANCE_UPDATE") {
            Some(GatewayEventType::StageInstanceUpdate)
        } else if str_eq(u, "STAGE_INSTANCE_DELETE") {
            Some(GatewayEventType::StageInstanceDelete)
        } else if str_eq(u, "TYPING_START") {
            Some(GatewayEventType::TypingStart)
        } else if str_eq(u, "USER_UPDATE") {
            Some(GatewayEventType::UserUpdate)
        } else if str_eq(u, "VOICE_STATE_UPDATE") {
            Some(GatewayEventType::VoiceStateUpdate)
        } else if str_eq(u, "VOICE_SERVER_UPDATE") {
            Some(GatewayEventType::VoiceServerUpdate)
        } else if str_eq(u, "WEBHOOKS_UPDATE") {
            Some(GatewayEventType::WebhooksUpdate)
        } else {
            None
        }
    }

    /// Looks up a tag in any letter case: the tag is uppercased first.
    pub fn from_str(s: &str) -> (r: Option<GatewayEventType>)
        ensures
            r == event_type_of(upper_of(s@)),
            forall|t: GatewayEventType| s@ == t.tag_spec() ==> r == Some(t),
    {
        let u = to_upper(s);
        let r = GatewayEventType::from_upper(u.as_str());
        assert forall|t: GatewayEventType| s@ == t.tag_spec() implies r == Some(t) by {
            lemma_tag_is_upper(t);
            lemma_tag_round_trip(t);
        }
        r
    }
}

/// Every tag is made of uppercase letters and `_`, so uppercasing keeps it.
pub proof fn lemma_tag_is_upper(t: GatewayEventType)
    ensures
        forall|i: int| 0 <= i < t.tag_spec().len() ==> is_upper_tag_char(#[trigger] t.tag_spec()[i]),
{
    reveal_strlit("READY");
    reveal_strlit("RESUMED");
    reveal_strlit("APPLICATION_COMMAND_PERMISSIONS_UPDATE");
    reveal_strlit("AUTOMODERATION_RULE_CREATE");
    reveal_strlit("AUTOMODERATION_RULE_UPDATE");
    reveal_strlit("AUTOMODERATION_RULE_DELETE");
    reveal_strlit("AUTOMODERATION_ACTION_EXECUTION");
    reveal_strlit("CHANNEL_CREATE");
    reveal_strlit("CHANNEL_UPDATE");
    reveal_strlit("CHANNEL_DELETE");
    reveal_strlit("CHANNEL_PINS_UPDATE");
    reveal_strlit("THREAD_CREATE");
    reveal_strlit("THREAD_UPDATE");
    reveal_strlit("THREAD_DELETE");
    reveal_strlit("THREAD_LIST_SYNC");
    reveal_strlit("THREAD_MEMBER_UPDATE");
    reveal_strlit("THREAD_MEMBERS_UPDATE");
    reveal_strlit("ENTITLEMENT_CREATE");
    reveal_strlit("ENTITLEMENT_UPDATE");
    reveal_strlit("ENTITLEMENT_DELETE");
    reveal_strlit("GUILD_CREATE");
    reveal_strlit("GUILD_UPDATE");
    reveal_strlit("GUILD_DELETE");
    reveal_strlit("GUILD_AUDIT_LOG_ENTRY_CREATE");
    reveal_strlit("GUILD_BAN_ADD");
    reveal_strlit("GUILD_BAN_REMOVE");
    reveal_strlit("GUILD_EMOJIS_UPDATE");
    reveal_strlit("GUILD_STICKERS_UPDATE");
    reveal_strlit("GUILD_INTEGRATIONS_UPDATE");
    reveal_strlit("GUILD_MEMBER_ADD");
    reveal_strlit("GUILD_MEMBER_REMOVE");
    reveal_strlit("GUILD_MEMBER_UPDATE");
    reveal_strlit("GUILD_MEMBERS_CHUNK");
    reveal_strlit("GUILD_ROLE_CREATE");
    reveal_strlit("GUILD_ROLE_UPDATE");
    reveal_strlit("GUILD_ROLE_DELETE");
    reveal_strlit("GUILD_SCHEDULED_EVENT_CREATE");
    reveal_strlit("GUILD_SCHEDULED_EVENT_UPDATE");
    reveal_strlit("GUILD_SCHEDULED_EVENT_DELETE");
    reveal_strlit("GUILD_SCHEDULED_EVENT_USER_ADD");
    reveal_strlit("GUILD_SCHEDULED_EVENT_USER_REMOVE");
    reveal_strlit("INTEGRATION_CREATE");
    reveal_strlit("INTEGRATION_UPDATE");
    reveal_strlit("INTEGRATION_DELETE");
    reveal_strlit("INTERACTION_CREATE");
    reveal_strlit("INVITE_CREATE");
    reveal_strlit("INVITE_DELETE");
    reveal_strlit("MESSAGE_CREATE");
    reveal_strlit("MESSAGE_UPDATE");
    reveal_strlit("MESSAGE_DELETE");
    reveal_strlit("MESSAGE_DELETE_BULK");
    reveal_strlit("MESSAGE_REACTION_ADD");
    reveal_strlit("MESSAGE_REACTION_REMOVE");
    reveal_strlit("MESSAGE_REACTION_REMOVE_ALL");
    reveal_strlit("MESSAGE_REACTION_REMOVE_EMOJI");
    reveal_strlit("PRESENCE_UPDATE");
    reveal_strlit("STAGE_INSTANCE_CREATE");
    reveal_strlit("STAGE_INSTANCE_UPDATE");
    reveal_strlit("STAGE_INSTANCE_DELETE");
    reveal_strlit("TYPING_START");
    reveal_strlit("USER_UPDATE");
    reveal_strlit("VOICE_STATE_UPDATE");
    reveal_strlit("VOICE_SERVER_UPDATE");
    reveal_strlit("WEBHOOKS_UPDATE");
}

/// The table gives back the type of every tag: looking up the tag of an
/// event type yields that event type.
#[verifier::spinoff_prover]
#[verifier::rlimit(100)]
pub proof fn lemma_tag_round_trip(t: GatewayEventType)
    ensures
        event_type_of(t.tag_spec()) == Some(t),
{
    reveal_strlit("READY");
    reveal_strlit("RESUMED");
    reveal_strlit("APPLICATION_COMMAND_PERMISSIONS_UPDATE");
    reveal_strlit("AUTOMODERATION_RULE_CREATE");
    reveal_strlit("AUTOMODERATION_RULE_UPDATE");
    reveal_strlit("AUTOMODERATION_RULE_DELETE");
    reveal_strlit("AUTOMODERATION_ACTION_EXECUTION");
    reveal_strlit("CHANNEL_CREATE");
    reveal_strlit("CHANNEL_UPDATE");
    reveal_strlit("CHANNEL_DELETE");
    reveal_strlit("CHANNEL_PINS_UPDATE");
    reveal_strlit("THREAD_CREATE");
    reveal_strlit("THREAD_UPDATE");
    reveal_strlit("THREAD_DELETE");
    reveal_strlit("THREAD_LIST_SYNC");
    reveal_strlit("THREAD_MEMBER_UPDATE");
    reveal_strlit("THREAD_MEMBERS_UPDATE");
    reveal_strlit("ENTITLEMENT_CREATE");
    reveal_strlit("ENTITLEMENT_UPDATE");
    reveal_strlit("ENTITLEMENT_DELETE");
    reveal_strlit("GUILD_CREATE");
    reveal_strlit("GUILD_UPDATE");
    reveal_strlit("GUILD_DELETE");
    reveal_strlit("GUILD_AUDIT_LOG_ENTRY_CREATE");
    reveal_strlit("GUILD_BAN_ADD");
    reveal_strlit("GUILD_BAN_REMOVE");
    reveal_strlit("GUILD_EMOJIS_UPDATE");
    reveal_strlit("GUILD_STICKERS_UPDATE");
    reveal_strlit("GUILD_INTEGRATIONS_UPDATE");
    reveal_strlit("GUILD_MEMBER_ADD");
    reveal_strlit("GUILD_MEMBER_REMOVE");
    reveal_strlit("GUILD_MEMBER_UPDATE");
    reveal_strlit("GUILD_MEMBERS_CHUNK");
    reveal_strlit("GUILD_ROLE_CREATE");
    reveal_strlit("GUILD_ROLE_UPDATE");
    reveal_strlit("GUILD_ROLE_DELETE");
    reveal_strlit("GUILD_SCHEDULED_EVENT_CREATE");
    reveal_strlit("GUILD_SCHEDULED_EVENT_UPDATE");
    reveal_strlit("GUILD_SCHEDULED_EVENT_DELETE");
    reveal_strlit("GUILD_SCHEDULED_EVENT_USER_ADD");
    reveal_strlit("GUILD_SCHEDULED_EVENT_USER_REMOVE");
    reveal_strlit("INTEGRATION_CREATE");
    reveal_strlit("INTEGRATION_UPDATE");
    reveal_strlit("INTEGRATION_DELETE");
    reveal_strlit("INTERACTION_CREATE");
    reveal_strlit("INVITE_CREATE");
    reveal_strlit("INVITE_DELETE");
    reveal_strlit("MESSAGE_CREATE");
    reveal_strlit("MESSAGE_UPDATE");
    reveal_strlit("MESSAGE_DELETE");
    reveal_strlit("MESSAGE_DELETE_BULK");
    reveal_strlit("MESSAGE_REACTION_ADD");
    reveal_strlit("MESSAGE_REACTION_REMOVE");
    reveal_strlit("MESSAGE_REACTION_REMOVE_ALL");
    reveal_strlit("MESSAGE_REACTION_REMOVE_EMOJI");
    reveal_strlit("PRESENCE_UPDATE");
    reveal_strlit("STAGE_INSTANCE_CREATE");
    reveal_strlit("STAGE_INSTANCE_UPDATE");
    reveal_strlit("STAGE_INSTANCE_DELETE");
    reveal_strlit("TYPING_START");
    reveal_strlit("USER_UPDATE");
    reveal_strlit("VOICE_STATE_UPDATE");
    reveal_strlit("VOICE_SERVER_UPDATE");
    reveal_strlit("WEBHOOKS_UPDATE");
    assert("READY"@.len() == 5);
    assert("RESUMED"@.len() == 7);
    assert("APPLICATION_COMMAND_PERMISSIONS_UPDATE"@.len() == 38);
    assert("AUTOMODERATION_RULE_CREATE"@.len() == 26);
    assert("AUTOMODERATION_RULE_UPDATE"@.len() == 26);
    assert("AUTOMODERATION_RULE_DELETE"@.len() == 26);
    assert("AUTOMODERATION_ACTION_EXECUTION"@.len() == 31);
    assert("CHANNEL_CREATE"@.len() == 14);
    assert("CHANNEL_UPDATE"@.len() == 14);
    assert("CHANNEL_DELETE"@.len() == 14);
    assert("CHANNEL_PINS_UPDATE"@.len() == 19);
    assert("THREAD_CREATE"@.len() == 13);
    assert("THREAD_UPDATE"@.len() == 13);
    assert("THREAD_DELETE"@.len() == 13);
    assert("THREAD_LIST_SYNC"@.len() == 16);
    assert("THREAD_MEMBER_UPDATE"@.len() == 20);
    assert("THREAD_MEMBERS_UPDATE"@.len() == 21);
    assert("ENTITLEMENT_CREATE"@.len() == 18);
    assert("ENTITLEMENT_UPDATE"@.len() == 18);
    assert("ENTITLEMENT_DELETE"@.len() == 18);
    assert("GUILD_CREATE"@.len() == 12);
    assert("GUILD_UPDATE"@.len() == 12);
    assert("GUILD_DELETE"@.len() == 12);
    assert("GUILD_AUDIT_LOG_ENTRY_CREATE"@.len() == 28);
    assert("GUILD_BAN_ADD"@.len() == 13);
    assert("GUILD_BAN_REMOVE"@.len() == 16);
    assert("GUILD_EMOJIS_UPDATE"@.len() == 19);
    assert("GUILD_STICKERS_UPDATE"@.len() == 21);
    assert("GUILD_INTEGRATIONS_UPDATE"@.len() == 25);
    assert("GUILD_MEMBER_ADD"@.len() == 16);
    assert("GUILD_MEMBER_REMOVE"@.len() == 19);
    assert("GUILD_MEMBER_UPDATE"@.len() == 19);
    assert("GUILD_MEMBERS_CHUNK"@.len() == 19);
    assert("GUILD_ROLE_CREATE"@.len() == 17);
    assert("GUILD_ROLE_UPDATE"@.len() == 17);
    assert("GUILD_ROLE_DELETE"@.len() == 17);
    assert("GUILD_SCHEDULED_EVENT_CREATE"@.len() == 28);
    assert("GUILD_SCHEDULED_EVENT_UPDATE"@.len() == 28);
    assert("GUILD_SCHEDULED_EVENT_DELETE"@.len() == 28);
    assert("GUILD_SCHEDULED_EVENT_USER_ADD"@.len() == 30);
    assert("GUILD_SCHEDULED_EVENT_USER_REMOVE"@.len() == 33);
    assert("INTEGRATION_CREATE"@.len() == 18);
    assert("INTEGRATION_UPDATE"@.len() == 18);
    assert("INTEGRATION_DELETE"@.len() == 18);
    assert("INTERACTION_CREATE"@.len() == 18);
    assert("INVITE_CREATE"@.len() == 13);
    assert("INVITE_DELETE"@.len() == 13);
    assert("MESSAGE_CREATE"@.len() == 14);
    assert("MESSAGE_UPDATE"@.len() == 14);
    assert("MESSAGE_DELETE"@.len() == 14);
    assert("MESSAGE_DELETE_BULK"@.len() == 19);
    assert("MESSAGE_REACTION_ADD"@.len() == 20);
    assert("MESSAGE_REACTION_REMOVE"@.len() == 23);
    assert("MESSAGE_REACTION_REMOVE_ALL"@.len() == 27);
    assert("MESSAGE_REACTION_REMOVE_EMOJI"@.len() == 29);
    assert("PRESENCE_UPDATE"@.len() == 15);
    assert("STAGE_INSTANCE_CREATE"@.len() == 21);
    assert("STAGE_INSTANCE_UPDATE"@.len() == 21);
    assert("STAGE_INSTANCE_DELETE"@.len() == 21);
    assert("TYPING_START"@.len() == 12);
    assert("USER_UPDATE"@.len() == 11);
    assert("VOICE_STATE_UPDATE"@.len() == 18);
    assert("VOICE_SERVER_UPDATE"@.len() == 19);
    assert("WEBHOOKS_UPDATE"@.len() == 15);
    match t {
        GatewayEventType::Ready => {
            assert(event_type_of("READY"@) == Some(GatewayEventType::Ready));
        },
        GatewayEventType::Resumed => {
            assert(event_type_of("RESUMED"@) == Some(GatewayEventType::Resumed));
        },
        GatewayEventType::ApplicationCommandPermissionsUpdate => {
            assert(event_type_of("APPLICATION_COMMAND_PERMISSIONS_UPDATE"@) == Some(GatewayEventType::ApplicationCommandPermissionsUpdate));
        },
        GatewayEventType::AutoModerationRuleCreate => {
            assert(event_type_of("AUTOMODERATION_RULE_CREATE"@) == Some(GatewayEventType::AutoModerationRuleCreate));
        },
        GatewayEventType::AutoModerationRuleUpdate => {
            assert("AUTOMODERATION_RULE_UPDATE"@[20] != "AUTOMODERATION_RULE_CREATE"@[20]);
            assert(event_type_of("AUTOMODERATION_RULE_UPDATE"@) == Some(GatewayEventType::AutoModerationRuleUpdate));
        },
        GatewayEventType::AutoModerationRuleDelete => {
            assert("AUTOMODERATION_RULE_DELETE"@[20] != "AUTOMODERATION_RULE_CREATE"@[20]);
            assert("AUTOMODERATION_RULE_DELETE"@[20] != "AUTOMODERATION_RULE_UPDATE"@[20]);
            assert(event_type_of("AUTOMODERATION_RULE_DELETE"@) == Some(GatewayEventType::AutoModerationRuleDelete));
        },
        GatewayEventType::AutoModerationActionExecution => {
            assert(event_type_of("AUTOMODERATION_ACTION_EXECUTION"@) == Some(GatewayEventType::AutoModerationActionExecution));
        },
        GatewayEventType::ChannelCreate => {
            assert(event_type_of("CHANNEL_CREATE"@) == Some(GatewayEventType::ChannelCreate));
        },
        GatewayEventType::ChannelUpdate => {
            assert("CHANNEL_UPDATE"@[8] != "CHANNEL_CREATE"@[8]);
            assert(event_type_of("CHANNEL_UPDATE"@) == Some(GatewayEventType::ChannelUpdate));
        },
        GatewayEventType::ChannelDelete => {
            assert("CHANNEL_DELETE"@[8] != "CHANNEL_CREATE"@[8]);
            assert("CHANNEL_DELETE"@[8] != "CHANNEL_UPDATE"@[8]);
            assert(event_type_of("CHANNEL_DELETE"@) == Some(GatewayEventType::ChannelDelete));
        },
        GatewayEventType::ChannelPinsUpdate => {
            assert(event_type_of("CHANNEL_PINS_UPDATE"@) == Some(GatewayEventType::ChannelPinsUpdate));
        },
        GatewayEventType::ThreadCreate => {
            assert(event_type_of("THREAD_CREATE"@) == Some(GatewayEventType::ThreadCreate));
        },
        GatewayEventType::ThreadUpdate => {
            assert("THREAD_UPDATE"@[7] != "THREAD_CREATE"@[7]);
            assert(event_type_of("THREAD_UPDATE"@) == Some(GatewayEventType::ThreadUpdate));
        },
        GatewayEventType::ThreadDelete => {
            assert("THREAD_DELETE"@[7] != "THREAD_CREATE"@[7]);
            assert("THREAD_DELETE"@[7] != "THREAD_UPDATE"@[7]);
            assert(event_type_of("THREAD_DELETE"@) == Some(GatewayEventType::ThreadDelete));
        },
        GatewayEventType::ThreadListSync => {
            assert(event_type_of("THREAD_LIST_SYNC"@) == Some(GatewayEventType::ThreadListSync));
        },
        GatewayEventType::ThreadMemberUpdate => {
            assert(event_type_of("THREAD_MEMBER_UPDATE"@) == Some(GatewayEventType::ThreadMemberUpdate));
        },
        GatewayEventType::ThreadMembersUpdate => {
            assert(event_type_of("THREAD_MEMBERS_UPDATE"@) == Some(GatewayEventType::ThreadMembersUpdate));
        },
        GatewayEventType::EntitlementCreate => {
            assert(event_type_of("ENTITLEMENT_CREATE"@) == Some(GatewayEventType::EntitlementCreate));
        },
        GatewayEventType::EntitlementUpdate => {
            assert("ENTITLEMENT_UPDATE"@[12] != "ENTITLEMENT_CREATE"@[12]);
            assert(event_type_of("ENTITLEMENT_UPDATE"@) == Some(GatewayEventType::EntitlementUpdate));
        },
        GatewayEventType::EntitlementDelete => {
            assert("ENTITLEMENT_DELETE"@[12] != "ENTITLEMENT_CREATE"@[12]);
            assert("ENTITLEMENT_DELETE"@[12] != "ENTITLEMENT_UPDATE"@[12]);
            assert(event_type_of("ENTITLEMENT_DELETE"@) == Some(GatewayEventType::EntitlementDelete));
        },
        GatewayEventType::GuildCreate => {
            assert(event_type_of("GUILD_CREATE"@) == Some(GatewayEventType::GuildCreate));
        },
        GatewayEventType::GuildUpdate => {
            assert("GUILD_UPDATE"@[6] != "GUILD_CREATE"@[6]);
            assert(event_type_of("GUILD_UPDATE"@) == Some(GatewayEventType::GuildUpdate));
        },
        GatewayEventType::GuildDelete => {
            assert("GUILD_DELETE"@[6] != "GUILD_CREATE"@[6]);
            assert("GUILD_DELETE"@[6] != "GUILD_UPDATE"@[6]);
            assert(event_type_of("GUILD_DELETE"@) == Some(GatewayEventType::GuildDelete));
        },
        GatewayEventType::GuildAuditLogEntryCreate => {
            assert(event_type_of("GUILD_AUDIT_LOG_ENTRY_CREATE"@) == Some(GatewayEventType::GuildAuditLogEntryCreate));
        },
        GatewayEventType::GuildBanAdd => {
            assert("GUILD_BAN_ADD"@[0] != "THREAD_CREATE"@[0]);
            assert("GUILD_BAN_ADD"@[0] != "THREAD_UPDATE"@[0]);
            assert("GUILD_BAN_ADD"@[0] != "THREAD_DELETE"@[0]);
            assert(event_type_of("GUILD_BAN_ADD"@) == Some(GatewayEventType::GuildBanAdd));
        },
        GatewayEventType::GuildBanRemove => {
            assert("GUILD_BAN_REMOVE"@[0] != "THREAD_LIST_SYNC"@[0]);
            assert(event_type_of("GUILD_BAN_REMOVE"@) == Some(GatewayEventType::GuildBanRemove));
        },
        GatewayEventType::GuildEmojisUpdate => {
            assert("GUILD_EMOJIS_UPDATE"@[0] != "CHANNEL_PINS_UPDATE"@[0]);
            assert(event_type_of("GUILD_EMOJIS_UPDATE"@) == Some(GatewayEventType::GuildEmojisUpdate));
        },
        GatewayEventType::GuildStickersUpdate => {
            assert("GUILD_STICKERS_UPDATE"@[0] != "THREAD_MEMBERS_UPDATE"@[0]);
            assert(event_type_of("GUILD_STICKERS_UPDATE"@) == Some(GatewayEventType::GuildStickersUpdate));
        },
        GatewayEventType::GuildIntegrationsUpdate => {
            assert(event_type_of("GUILD_INTEGRATIONS_UPDATE"@) == Some(GatewayEventType::GuildIntegrationsUpdate));
        },
        GatewayEventType::GuildMemberAdd => {
            assert("GUILD_MEMBER_ADD"@[0] != "THREAD_LIST_SYNC"@[0]);
            assert("GUILD_MEMBER_ADD"@[6] != "GUILD_BAN_REMOVE"@[6]);
            assert(event_type_of("GUILD_MEMBER_ADD"@) == Some(GatewayEventType::GuildMemberAdd));
        },
        GatewayEventType::GuildMemberRemove => {
            assert("GUILD_MEMBER_REMOVE"@[0] != "CHANNEL_PINS_UPDATE"@[0]);
            assert("GUILD_MEMBER_REMOVE"@[6] != "GUILD_EMOJIS_UPDATE"@[6]);
            assert(event_type_of("GUILD_MEMBER_REMOVE"@) == Some(GatewayEventType::GuildMemberRemove));
        },
        GatewayEventType::GuildMemberUpdate => {
            assert("GUILD_MEMBER_UPDATE"@[0] != "CHANNEL_PINS_UPDATE"@[0]);
            assert("GUILD_MEMBER_UPDATE"@[6] != "GUILD_EMOJIS_UPDATE"@[6]);
            assert("GUILD_MEMBER_UPDATE"@[13] != "GUILD_MEMBER_REMOVE"@[13]);
            assert(event_type_of("GUILD_MEMBER_UPDATE"@) == Some(GatewayEventType::GuildMemberUpdate));
        },
        GatewayEventType::GuildMembersChunk => {
            assert("GUILD_MEMBERS_CHUNK"@[0] != "CHANNEL_PINS_UPDATE"@[0]);
            assert("GUILD_MEMBERS_CHUNK"@[6] != "GUILD_EMOJIS_UPDATE"@[6]);
            assert("GUILD_MEMBERS_CHUNK"@[12] != "GUILD_MEMBER_REMOVE"@[12]);
            assert("GUILD_MEMBERS_CHUNK"@[12] != "GUILD_MEMBER_UPDATE"@[12]);
            assert(event_type_of("GUILD_MEMBERS_CHUNK"@) == Some(GatewayEventType::GuildMembersChunk));
        },
        GatewayEventType::GuildRoleCreate => {
            assert(event_type_of("GUILD_ROLE_CREATE"@) == Some(GatewayEventType::GuildRoleCreate));
        },
        GatewayEventType::GuildRoleUpdate => {
            assert("GUILD_ROLE_UPDATE"@[11] != "GUILD_ROLE_CREATE"@[11]);
            assert(event_type_of("GUILD_ROLE_UPDATE"@) == Some(GatewayEventType::GuildRoleUpdate));
        },
        GatewayEventType::GuildRoleDelete => {
            assert("GUILD_ROLE_DELETE"@[11] != "GUILD_ROLE_CREATE"@[11]);
            assert("GUILD_ROLE_DELETE"@[11] != "GUILD_ROLE_UPDATE"@[11]);
            assert(event_type_of("GUILD_ROLE_DELETE"@) == Some(GatewayEventType::GuildRoleDelete));
        },
        GatewayEventType::GuildScheduledEventCreate => {
            assert("GUILD_SCHEDULED_EVENT_CREATE"@[6] != "GUILD_AUDIT_LOG_ENTRY_CREATE"@[6]);
            assert(event_type_of("GUILD_SCHEDULED_EVENT_CREATE"@) == Some(GatewayEventType::GuildScheduledEventCreate));
        },
        GatewayEventType::GuildScheduledEventUpdate => {
            assert("GUILD_SCHEDULED_EVENT_UPDATE"@[6] != "GUILD_AUDIT_LOG_ENTRY_CREATE"@[6]);
            assert("GUILD_SCHEDULED_EVENT_UPDATE"@[22] != "GUILD_SCHEDULED_EVENT_CREATE"@[22]);
            assert(event_type_of("GUILD_SCHEDULED_EVENT_UPDATE"@) == Some(GatewayEventType::GuildScheduledEventUpdate));
        },
        GatewayEventType::GuildScheduledEventDelete => {
            assert("GUILD_SCHEDULED_EVENT_DELETE"@[6] != "GUILD_AUDIT_LOG_ENTRY_CREATE"@[6]);
            assert("GUILD_SCHEDULED_EVENT_DELETE"@[22] != "GUILD_SCHEDULED_EVENT_CREATE"@[22]);
            assert("GUILD_SCHEDULED_EVENT_DELETE"@[22] != "GUILD_SCHEDULED_EVENT_UPDATE"@[22]);
            assert(event_type_of("GUILD_SCHEDULED_EVENT_DELETE"@) == Some(GatewayEventType::GuildScheduledEventDelete));
        },
        GatewayEventType::GuildScheduledEventUserAdd => {
            assert(event_type_of("GUILD_SCHEDULED_EVENT_USER_ADD"@) == Some(GatewayEventType::GuildScheduledEventUserAdd));
        },
        GatewayEventType::GuildScheduledEventUserRemove => {
            assert(event_type_of("GUILD_SCHEDULED_EVENT_USER_REMOVE"@) == Some(GatewayEventType::GuildScheduledEventUserRemove));
        },
        GatewayEventType::IntegrationCreate => {
            assert("INTEGRATION_CREATE"@[0] != "ENTITLEMENT_CREATE"@[0]);
            assert("INTEGRATION_CREATE"@[0] != "ENTITLEMENT_UPDATE"@[0]);
            assert("INTEGRATION_CREATE"@[0] != "ENTITLEMENT_DELETE"@[0]);
            assert(event_type_of("INTEGRATION_CREATE"@) == Some(GatewayEventType::IntegrationCreate));
        },
        GatewayEventType::IntegrationUpdate => {
            assert("INTEGRATION_UPDATE"@[0] != "ENTITLEMENT_CREATE"@[0]);
            assert("INTEGRATION_UPDATE"@[0] != "ENTITLEMENT_UPDATE"@[0]);
            assert("INTEGRATION_UPDATE"@[0] != "ENTITLEMENT_DELETE"@[0]);
            assert("INTEGRATION_UPDATE"@[12] != "INTEGRATION_CREATE"@[12]);
            assert(event_type_of("INTEGRATION_UPDATE"@) == Some(GatewayEventType::IntegrationUpdate));
        },
        GatewayEventType::IntegrationDelete => {
            assert("INTEGRATION_DELETE"@[0] != "ENTITLEMENT_CREATE"@[0]);
            assert("INTEGRATION_DELETE"@[0] != "ENTITLEMENT_UPDATE"@[0]);
            assert("INTEGRATION_DELETE"@[0] != "ENTITLEMENT_DELETE"@[0]);
            assert("INTEGRATION_DELETE"@[12] != "INTEGRATION_CREATE"@[12]);
            assert("INTEGRATION_DELETE"@[12] != "INTEGRATION_UPDATE"@[12]);
            assert(event_type_of("INTEGRATION_DELETE"@) == Some(GatewayEventType::IntegrationDelete));
        },
        GatewayEventType::InteractionCreate => {
            assert("INTERACTION_CREATE"@[0] != "ENTITLEMENT_CREATE"@[0]);
            assert("INTERACTION_CREATE"@[0] != "ENTITLEMENT_UPDATE"@[0]);
            assert("INTERACTION_CREATE"@[0] != "ENTITLEMENT_DELETE"@[0]);
            assert("INTERACTION_CREATE"@[4] != "INTEGRATION_CREATE"@[4]);
            assert("INTERACTION_CREATE"@[4] != "INTEGRATION_UPDATE"@[4]);
            assert("INTERACTION_CREATE"@[4] != "INTEGRATION_DELETE"@[4]);
            assert(event_type_of("INTERACTION_CREATE"@) == Some(GatewayEventType::InteractionCreate));
        },
        GatewayEventType::InviteCreate => {
            assert("INVITE_CREATE"@[0] != "THREAD_CREATE"@[0]);
            assert("INVITE_CREATE"@[0] != "THREAD_UPDATE"@[0]);
            assert("INVITE_CREATE"@[0] != "THREAD_DELETE"@[0]);
            assert("INVITE_CREATE"@[0] != "GUILD_BAN_ADD"@[0]);
            assert(event_type_of("INVITE_CREATE"@) == Some(GatewayEventType::InviteCreate));
        },
        GatewayEventType::InviteDelete => {
            assert("INVITE_DELETE"@[0] != "THREAD_CREATE"@[0]);
            assert("INVITE_DELETE"@[0] != "THREAD_UPDATE"@[0]);
            assert("INVITE_DELETE"@[0] != "THREAD_DELETE"@[0]);
            assert("INVITE_DELETE"@[0] != "GUILD_BAN_ADD"@[0]);
            assert("INVITE_DELETE"@[7] != "INVITE_CREATE"@[7]);
            assert(event_type_of("INVITE_DELETE"@) == Some(GatewayEventType::InviteDelete));
        },
        GatewayEventType::MessageCreate => {
            assert("MESSAGE_CREATE"@[0] != "CHANNEL_CREATE"@[0]);
            assert("MESSAGE_CREATE"@[0] != "CHANNEL_UPDATE"@[0]);
            assert("MESSAGE_CREATE"@[0] != "CHANNEL_DELETE"@[0]);
            assert(event_type_of("MESSAGE_CREATE"@) == Some(GatewayEventType::MessageCreate));
        },
        GatewayEventType::MessageUpdate => {
            assert("MESSAGE_UPDATE"@[0] != "CHANNEL_CREATE"@[0]);
            assert("MESSAGE_UPDATE"@[0] != "CHANNEL_UPDATE"@[0]);
            assert("MESSAGE_UPDATE"@[0] != "CHANNEL_DELETE"@[0]);
            assert("MESSAGE_UPDATE"@[8] != "MESSAGE_CREATE"@[8]);
            assert(event_type_of("MESSAGE_UPDATE"@) == Some(GatewayEventType::MessageUpdate));
        },
        GatewayEventType::MessageDelete => {
            assert("MESSAGE_DELETE"@[0] != "CHANNEL_CREATE"@[0]);
            assert("MESSAGE_DELETE"@[0] != "CHANNEL_UPDATE"@[0]);
            assert("MESSAGE_DELETE"@[0] != "CHANNEL_DELETE"@[0]);
            assert("MESSAGE_DELETE"@[8] != "MESSAGE_CREATE"@[8]);
            assert("MESSAGE_DELETE"@[8] != "MESSAGE_UPDATE"@[8]);
            assert(event_type_of("MESSAGE_DELETE"@) == Some(GatewayEventType::MessageDelete));
        },
        GatewayEventType::MessageDeleteBulk => {
            assert("MESSAGE_DELETE_BULK"@[0] != "CHANNEL_PINS_UPDATE"@[0]);
            assert("MESSAGE_DELETE_BULK"@[0] != "GUILD_EMOJIS_UPDATE"@[0]);
            assert("MESSAGE_DELETE_BULK"@[0] != "GUILD_MEMBER_REMOVE"@[0]);
            assert("MESSAGE_DELETE_BULK"@[0] != "GUILD_MEMBER_UPDATE"@[0]);
            assert("MESSAGE_DELETE_BULK"@[0] != "GUILD_MEMBERS_CHUNK"@[0]);
            assert(event_type_of("MESSAGE_DELETE_BULK"@) == Some(GatewayEventType::MessageDeleteBulk));
        },
        GatewayEventType::MessageReactionAdd => {
            assert("MESSAGE_REACTION_ADD"@[0] != "THREAD_MEMBER_UPDATE"@[0]);
            assert(event_type_of("MESSAGE_REACTION_ADD"@) == Some(GatewayEventType::MessageReactionAdd));
        },
        GatewayEventType::MessageReactionRemove => {
            assert(event_type_of("MESSAGE_REACTION_REMOVE"@) == Some(GatewayEventType::MessageReactionRemove));
        },
        GatewayEventType::MessageReactionRemoveAll => {
            assert(event_type_of("MESSAGE_REACTION_REMOVE_ALL"@) == Some(GatewayEventType::MessageReactionRemoveAll));
        },
        GatewayEventType::MessageReactionRemoveEmoji => {
            assert(event_type_of("MESSAGE_REACTION_REMOVE_EMOJI"@) == Some(GatewayEventType::MessageReactionRemoveEmoji));
        },
        GatewayEventType::PresenceUpdate => {
            assert(event_type_of("PRESENCE_UPDATE"@) == Some(GatewayEventType::PresenceUpdate));
        },
        GatewayEventType::StageInstanceCreate => {
            assert("STAGE_INSTANCE_CREATE"@[0] != "THREAD_MEMBERS_UPDATE"@[0]);
            assert("STAGE_INSTANCE_CREATE"@[0] != "GUILD_STICKERS_UPDATE"@[0]);
            assert(event_type_of("STAGE_INSTANCE_CREATE"@) == Some(GatewayEventType::StageInstanceCreate));
        },
        GatewayEventType::StageInstanceUpdate => {
            assert("STAGE_INSTANCE_UPDATE"@[0] != "THREAD_MEMBERS_UPDATE"@[0]);
            assert("STAGE_INSTANCE_UPDATE"@[0] != "GUILD_STICKERS_UPDATE"@[0]);
            assert("STAGE_INSTANCE_UPDATE"@[15] != "STAGE_INSTANCE_CREATE"@[15]);
            assert(event_type_of("STAGE_INSTANCE_UPDATE"@) == Some(GatewayEventType::StageInstanceUpdate));
        },
        GatewayEventType::StageInstanceDelete => {
            assert("STAGE_INSTANCE_DELETE"@[0] != "THREAD_MEMBERS_UPDATE"@[0]);
            assert("STAGE_INSTANCE_DELETE"@[0] != "GUILD_STICKERS_UPDATE"@[0]);
            assert("STAGE_INSTANCE_DELETE"@[15] != "STAGE_INSTANCE_CREATE"@[15]);
            assert("STAGE_INSTANCE_DELETE"@[15] != "STAGE_INSTANCE_UPDATE"@[15]);
            assert(event_type_of("STAGE_INSTANCE_DELETE"@) == Some(GatewayEventType::StageInstanceDelete));
        },
        GatewayEventType::TypingStart => {
            assert("TYPING_START"@[0] != "GUILD_CREATE"@[0]);
            assert("TYPING_START"@[0] != "GUILD_UPDATE"@[0]);
            assert("TYPING_START"@[0] != "GUILD_DELETE"@[0]);
            assert(event_type_of("TYPING_START"@) == Some(GatewayEventType::TypingStart));
        },
        GatewayEventType::UserUpdate => {
            assert(event_type_of("USER_UPDATE"@) == Some(GatewayEventType::UserUpdate));
        },
        GatewayEventType::VoiceStateUpdate => {
            assert("VOICE_STATE_UPDATE"@[0] != "ENTITLEMENT_CREATE"@[0]);
            assert("VOICE_STATE_UPDATE"@[0] != "ENTITLEMENT_UPDATE"@[0]);
            assert("VOICE_STATE_UPDATE"@[0] != "ENTITLEMENT_DELETE"@[0]);
            assert("VOICE_STATE_UPDATE"@[0] != "INTEGRATION_CREATE"@[0]);
            assert("VOICE_STATE_UPDATE"@[0] != "INTEGRATION_UPDATE"@[0]);
            assert("VOICE_STATE_UPDATE"@[0] != "INTEGRATION_DELETE"@[0]);
            assert("VOICE_STATE_UPDATE"@[0] != "INTERACTION_CREATE"@[0]);
            assert(event_type_of("VOICE_STATE_UPDATE"@) == Some(GatewayEventType::VoiceStateUpdate));
        },
        GatewayEventType::VoiceServerUpdate => {
            assert("VOICE_SERVER_UPDATE"@[0] != "CHANNEL_PINS_UPDATE"@[0]);
            assert("VOICE_SERVER_UPDATE"@[0] != "GUILD_EMOJIS_UPDATE"@[0]);
            assert("VOICE_SERVER_UPDATE"@[0] != "GUILD_MEMBER_REMOVE"@[0]);
            assert("VOICE_SERVER_UPDATE"@[0] != "GUILD_MEMBER_UPDATE"@[0]);
            assert("VOICE_SERVER_UPDATE"@[0] != "GUILD_MEMBERS_CHUNK"@[0]);
            assert("VOICE_SERVER_UPDATE"@[0] != "MESSAGE_DELETE_BULK"@[0]);
            assert(event_type_of("VOICE_SERVER_UPDATE"@) == Some(GatewayEventType::VoiceServerUpdate));
        },
        GatewayEventType::WebhooksUpdate => {
            assert("WEBHOOKS_UPDATE"@[0] != "PRESENCE_UPDATE"@[0]);
            assert(event_type_of("WEBHOOKS_UPDATE"@) == Some(GatewayEventType::WebhooksUpdate));
        },
    }
}

} // verus!
