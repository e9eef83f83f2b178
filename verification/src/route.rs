//! Routes of the upstream REST API. The upstream's route grammar is the one
//! of `twilight_http_ratelimiting`: a request is classified by that crate, and
//! the `Path` it gives is also the identity of the rate-limit bucket that the
//! request is charged to.

use crate::text::str_eq;
use twilight_http_ratelimiting::request::PathParseError;
use twilight_http_ratelimiting::request::PathParseErrorType;
use twilight_http_ratelimiting::Path;
use vstd::prelude::*;

verus! {

/// A classified request path, from `twilight_http_ratelimiting`. It holds the
/// endpoint family and those identifiers of the URL that select the bucket.
#[verifier::external_type_specification]
#[verifier::external_body]
pub struct ExPath(Path);

/// The error of `twilight_http_ratelimiting` for a path that it cannot classify.
#[verifier::external_type_specification]
#[verifier::external_body]
pub struct ExPathParseError(PathParseError);

/// The request methods that the upstream accepts.
#[derive(Clone, Copy, Debug, PartialEq, Eq, Structural)]
pub enum Method {
    Delete,
    Get,
    Patch,
    Post,
    Put,
}

/// Why a path could not be classified.
#[derive(Clone, Copy, Debug, PartialEq, Eq, Structural)]
pub enum PathFailure {
    /// An identifier in a segment is not a number.
    IntegerParsing,
    /// A message path was given without its method.
    MessageIdWithoutMethod,
    /// No route of the upstream has this shape.
    NoMatch,
    /// A failure that this library has no name for.
    Other,
}

/// The endpoint family of a route: a `Path` without its identifiers.
#[derive(Clone, Copy, Debug, PartialEq, Eq, Structural)]
pub enum RouteKind {
    ApplicationCommand,
    ApplicationCommandId,
    ApplicationGuildCommand,
    ApplicationGuildCommandId,
    ChannelsId,
    ChannelsIdInvites,
    ChannelsIdMessages,
    ChannelsIdMessagesBulkDelete,
    ChannelsIdMessagesId,
    ChannelsIdMessagesIdCrosspost,
    ChannelsIdMessagesIdReactions,
    ChannelsIdMessagesIdReactionsUserIdType,
    ChannelsIdMessagesIdThreads,
    ChannelsIdPermissionsOverwriteId,
    ChannelsIdPins,
    ChannelsIdPinsMessageId,
    ChannelsIdRecipients,
    ChannelsIdThreadMembers,
    ChannelsIdThreads,
    ChannelsIdTyping,
    ChannelsIdWebhooks,
    ChannelsIdFollowers,
    Gateway,
    GatewayBot,
    Guilds,
    GuildsId,
    GuildsIdBans,
    GuildsIdBansId,
    GuildsIdAuditLogs,
    GuildsIdBansUserId,
    GuildsIdChannels,
    GuildsIdWidget,
    GuildsIdEmojis,
    GuildsIdEmojisId,
    GuildsIdIntegrations,
    GuildsIdIntegrationsId,
    GuildsIdIntegrationsIdSync,
    GuildsIdInvites,
    GuildsIdMembers,
    GuildsIdMembersId,
    GuildsIdMembersIdRolesId,
    GuildsIdMembersMeNick,
    GuildsIdMembersSearch,
    GuildsIdPreview,
    GuildsIdPrune,
    GuildsIdRegions,
    GuildsIdRoles,
    GuildsIdRolesId,
    GuildsIdScheduledEvents,
    GuildsIdScheduledEventsId,
    GuildsIdScheduledEventsIdUsers,
    GuildsIdStickers,
    GuildsIdTemplates,
    GuildsTemplatesCode,
    GuildsIdTemplatesCode,
    GuildsIdThreads,
    GuildsIdVanityUrl,
    GuildsIdVoiceStates,
    GuildsIdWelcomeScreen,
    GuildsIdWebhooks,
    InvitesCode,
    InteractionCallback,
    StageInstances,
    StickerPacks,
    Stickers,
    UsersId,
    OauthApplicationsMe,
    UsersIdConnections,
    UsersIdChannels,
    UsersIdGuilds,
    UsersIdGuildsId,
    UsersIdGuildsIdMember,
    VoiceRegions,
    WebhooksId,
    WebhooksIdToken,
    WebhooksIdTokenMessagesId,
    /// A route that this library has no name for.
    Unknown,
}

/// The name of a method as it stands in a request line.
pub open spec fn method_name(method: Method) -> Seq<char> {
    match method {
        Method::Delete => "DELETE"@,
        Method::Get => "GET"@,
        Method::Patch => "PATCH"@,
        Method::Post => "POST"@,
        Method::Put => "PUT"@,
    }
}

/// The method that a request line names, if the upstream accepts it. Names are
/// case-sensitive.
pub open spec fn method_named(name: Seq<char>) -> Option<Method> {
    if name == "DELETE"@ {
        Some(Method::Delete)
    } else if name == "GET"@ {
        Some(Method::Get)
    } else if name == "PATCH"@ {
        Some(Method::Patch)
    } else if name == "POST"@ {
        Some(Method::Post)
    } else if name == "PUT"@ {
        Some(Method::Put)
    } else {
        None
    }
}

/// What `Path::try_from` of `twilight_http_ratelimiting` gives for a method and
/// a path below the API prefix.
pub uninterp spec fn parsed_path(method: Method, path: Seq<char>) -> Result<Path, PathParseError>;

/// The endpoint family that a `Path` of `twilight_http_ratelimiting` belongs to:
/// the variant of the same name, `Unknown` for a variant that `RouteKind` lacks.
pub uninterp spec fn kind_of(path: Path) -> RouteKind;

/// The reason that a `PathParseError` of `twilight_http_ratelimiting` holds.
pub uninterp spec fn failure_of(error: PathParseError) -> PathFailure;

/// A human-readable name for each endpoint family, as used in logs and as a
/// metric label.
pub open spec fn route_name(kind: RouteKind) -> Seq<char> {
    match kind {
        RouteKind::ApplicationCommand => "Application commands"@,
        RouteKind::ApplicationCommandId => "Application command"@,
        RouteKind::ApplicationGuildCommand => "Application commands in guild"@,
        RouteKind::ApplicationGuildCommandId => "Application command in guild"@,
        RouteKind::ChannelsId => "Channel"@,
        RouteKind::ChannelsIdInvites => "Channel invite"@,
        RouteKind::ChannelsIdMessages => "Channel message"@,
        RouteKind::ChannelsIdMessagesBulkDelete => "Bulk delete message"@,
        RouteKind::ChannelsIdMessagesId => "Channel message"@,
        RouteKind::ChannelsIdMessagesIdCrosspost => "Crosspost message"@,
        RouteKind::ChannelsIdMessagesIdReactions => "Message reaction"@,
        RouteKind::ChannelsIdMessagesIdReactionsUserIdType => "Message reaction for user"@,
        RouteKind::ChannelsIdMessagesIdThreads => "Threads of a specific message"@,
        RouteKind::ChannelsIdPermissionsOverwriteId => "Channel permission override"@,
        RouteKind::ChannelsIdPins => "Channel pins"@,
        RouteKind::ChannelsIdPinsMessageId => "Specific channel pin"@,
        RouteKind::ChannelsIdRecipients => "Channel recipients"@,
        RouteKind::ChannelsIdThreadMembers => "Thread members"@,
        RouteKind::ChannelsIdThreads => "Channel threads"@,
        RouteKind::ChannelsIdTyping => "Typing indicator"@,
        RouteKind::ChannelsIdWebhooks => "Webhook"@,
        RouteKind::ChannelsIdFollowers => "Channel followers"@,
        RouteKind::Gateway => "Gateway"@,
        RouteKind::GatewayBot => "Gateway bot info"@,
        RouteKind::Guilds => "Guilds"@,
        RouteKind::GuildsId => "Guild"@,
        RouteKind::GuildsIdBans => "Guild bans"@,
        RouteKind::GuildsIdBansId => "Specific guild ban"@,
        RouteKind::GuildsIdAuditLogs => "Guild audit logs"@,
        RouteKind::GuildsIdBansUserId => "Guild ban for user"@,
        RouteKind::GuildsIdChannels => "Guild channel"@,
        RouteKind::GuildsIdWidget => "Guild widget"@,
        RouteKind::GuildsIdEmojis => "Guild emoji"@,
        RouteKind::GuildsIdEmojisId => "Specific guild emoji"@,
        RouteKind::GuildsIdIntegrations => "Guild integrations"@,
        RouteKind::GuildsIdIntegrationsId => "Specific guild integration"@,
        RouteKind::GuildsIdIntegrationsIdSync => "Sync guild integration"@,
        RouteKind::GuildsIdInvites => "Guild invites"@,
        RouteKind::GuildsIdMembers => "Guild members"@,
        RouteKind::GuildsIdMembersId => "Specific guild member"@,
        RouteKind::GuildsIdMembersIdRolesId => "Guild member role"@,
        RouteKind::GuildsIdMembersMeNick => "Modify own nickname"@,
        RouteKind::GuildsIdMembersSearch => "Search guild members"@,
        RouteKind::GuildsIdPreview => "Guild preview"@,
        RouteKind::GuildsIdPrune => "Guild prune"@,
        RouteKind::GuildsIdRegions => "Guild region"@,
        RouteKind::GuildsIdRoles => "Guild roles"@,
        RouteKind::GuildsIdRolesId => "Specific guild role"@,
        RouteKind::GuildsIdScheduledEvents => "Scheduled events in guild"@,
        RouteKind::GuildsIdScheduledEventsId => "Scheduled event in guild"@,
        RouteKind::GuildsIdScheduledEventsIdUsers => "Users of a scheduled event"@,
        RouteKind::GuildsIdStickers => "Guild stickers"@,
        RouteKind::GuildsIdTemplates => "Guild templates"@,
        RouteKind::GuildsTemplatesCode => "Specific guild template"@,
        RouteKind::GuildsIdTemplatesCode => "Specific guild template"@,
        RouteKind::GuildsIdThreads => "Guild threads"@,
        RouteKind::GuildsIdVanityUrl => "Guild vanity invite"@,
        RouteKind::GuildsIdVoiceStates => "Guild voice states"@,
        RouteKind::GuildsIdWelcomeScreen => "Guild welcome screen"@,
        RouteKind::GuildsIdWebhooks => "Guild webhooks"@,
        RouteKind::InvitesCode => "Invite info"@,
        RouteKind::InteractionCallback => "Interaction callback"@,
        RouteKind::StageInstances => "Stage instances"@,
        RouteKind::StickerPacks => "Sticker packs"@,
        RouteKind::Stickers => "Stickers"@,
        RouteKind::UsersId => "User info"@,
        RouteKind::OauthApplicationsMe => "Current application info"@,
        RouteKind::UsersIdConnections => "User connections"@,
        RouteKind::UsersIdChannels => "User channels"@,
        RouteKind::UsersIdGuilds => "User in guild"@,
        RouteKind::UsersIdGuildsId => "Guild from user"@,
        RouteKind::UsersIdGuildsIdMember => "Member of a guild"@,
        RouteKind::VoiceRegions => "Voice region list"@,
        RouteKind::WebhooksId => "Webhook"@,
        RouteKind::WebhooksIdToken => "Webhook"@,
        RouteKind::WebhooksIdTokenMessagesId => "Specific webhook message"@,
        RouteKind::Unknown => "Unknown path!"@,
    }
}

/// The sentence that names a classification failure.
pub open spec fn failure_text(failure: PathFailure) -> Seq<char> {
    match failure {
        PathFailure::IntegerParsing => "An ID in a segment was invalid"@,
        PathFailure::MessageIdWithoutMethod =>
            "A message path was detected but the method wasn't given"@,
        PathFailure::NoMatch => "There was no matched path"@,
        PathFailure::Other => "The path could not be parsed"@,
    }
}

/// The endpoint families of the routes of applications, interactions and
/// webhooks, the gateway and the voice regions.
pub open spec fn is_service_kind(kind: RouteKind) -> bool {
    matches!(
        kind,
        RouteKind::ApplicationCommand
            | RouteKind::ApplicationCommandId
            | RouteKind::ApplicationGuildCommand
            | RouteKind::ApplicationGuildCommandId
            | RouteKind::Gateway
            | RouteKind::GatewayBot
            | RouteKind::InteractionCallback
            | RouteKind::OauthApplicationsMe
            | RouteKind::VoiceRegions
            | RouteKind::WebhooksId
            | RouteKind::WebhooksIdToken
            | RouteKind::WebhooksIdTokenMessagesId
    )
}

/// The endpoint families of the routes of a channel, its followers, its invites
/// and its messages.
pub open spec fn is_message_kind(kind: RouteKind) -> bool {
    matches!(
        kind,
        RouteKind::ChannelsId
            | RouteKind::ChannelsIdInvites
            | RouteKind::ChannelsIdMessages
            | RouteKind::ChannelsIdMessagesBulkDelete
            | RouteKind::ChannelsIdMessagesId
            | RouteKind::ChannelsIdMessagesIdCrosspost
            | RouteKind::ChannelsIdMessagesIdReactions
            | RouteKind::ChannelsIdMessagesIdReactionsUserIdType
            | RouteKind::ChannelsIdMessagesIdThreads
            | RouteKind::ChannelsIdFollowers
    )
}

/// The endpoint families of the other routes below a channel.
pub open spec fn is_channel_kind(kind: RouteKind) -> bool {
    matches!(
        kind,
        RouteKind::ChannelsIdPermissionsOverwriteId
            | RouteKind::ChannelsIdPins
            | RouteKind::ChannelsIdPinsMessageId
            | RouteKind::ChannelsIdRecipients
            | RouteKind::ChannelsIdThreadMembers
            | RouteKind::ChannelsIdThreads
            | RouteKind::ChannelsIdTyping
            | RouteKind::ChannelsIdWebhooks
    )
}

/// The endpoint families of the routes of guilds, their audit logs, bans,
/// channels, emojis and integrations.
pub open spec fn is_guild_kind(kind: RouteKind) -> bool {
    matches!(
        kind,
        RouteKind::Guilds
            | RouteKind::GuildsId
            | RouteKind::GuildsIdBans
            | RouteKind::GuildsIdBansId
            | RouteKind::GuildsIdAuditLogs
            | RouteKind::GuildsIdBansUserId
            | RouteKind::GuildsIdChannels
            | RouteKind::GuildsIdEmojis
            | RouteKind::GuildsIdEmojisId
            | RouteKind::GuildsIdIntegrations
            | RouteKind::GuildsIdIntegrationsId
            | RouteKind::GuildsIdIntegrationsIdSync
    )
}

/// The endpoint families of the routes of a guild's invites, members, preview,
/// prune, regions, roles and scheduled events.
pub open spec fn is_member_kind(kind: RouteKind) -> bool {
    matches!(
        kind,
        RouteKind::GuildsIdInvites
            | RouteKind::GuildsIdMembers
            | RouteKind::GuildsIdMembersId
            | RouteKind::GuildsIdMembersIdRolesId
            | RouteKind::GuildsIdMembersMeNick
            | RouteKind::GuildsIdMembersSearch
            | RouteKind::GuildsIdPreview
            | RouteKind::GuildsIdPrune
            | RouteKind::GuildsIdRegions
            | RouteKind::GuildsIdRoles
            | RouteKind::GuildsIdRolesId
            | RouteKind::GuildsIdScheduledEvents
    )
}

/// The endpoint families of the remaining routes below a guild, and the guild
/// templates.
pub open spec fn is_guild_extra_kind(kind: RouteKind) -> bool {
    matches!(
        kind,
        RouteKind::GuildsIdWidget
            | RouteKind::GuildsIdScheduledEventsId
            | RouteKind::GuildsIdScheduledEventsIdUsers
            | RouteKind::GuildsIdStickers
            | RouteKind::GuildsIdTemplates
            | RouteKind::GuildsTemplatesCode
            | RouteKind::GuildsIdTemplatesCode
            | RouteKind::GuildsIdThreads
            | RouteKind::GuildsIdVanityUrl
            | RouteKind::GuildsIdVoiceStates
            | RouteKind::GuildsIdWelcomeScreen
            | RouteKind::GuildsIdWebhooks
    )
}

/// The endpoint families of the routes of invites, stage instances, stickers
/// and users.
pub open spec fn is_user_kind(kind: RouteKind) -> bool {
    matches!(
        kind,
        RouteKind::InvitesCode
            | RouteKind::StageInstances
            | RouteKind::StickerPacks
            | RouteKind::Stickers
            | RouteKind::UsersId
            | RouteKind::UsersIdConnections
            | RouteKind::UsersIdChannels
            | RouteKind::UsersIdGuilds
            | RouteKind::UsersIdGuildsId
            | RouteKind::UsersIdGuildsIdMember
    )
}

impl Method {
    /// The method that `name` spells, in upper case as in a request line.
    pub fn from_name(name: &str) -> (r: Option<Method>)
        ensures
            r == method_named(name@),
    {
        if str_eq(name, "DELETE") {
            Some(Method::Delete)
        } else if str_eq(name, "GET") {
            Some(Method::Get)
        } else if str_eq(name, "PATCH") {
            Some(Method::Patch)
        } else if str_eq(name, "POST") {
            Some(Method::Post)
        } else if str_eq(name, "PUT") {
            Some(Method::Put)
        } else {
            None
        }
    }

    /// The name of the method, in upper case.
    pub fn name(self) -> (r: &'static str)
        ensures
            r@ == method_name(self),
    {
        match self {
            Method::Delete => "DELETE",
            Method::Get => "GET",
            Method::Patch => "PATCH",
            Method::Post => "POST",
            Method::Put => "PUT",
        }
    }
}

/// A method is found again by its name: the five names are five different strings.
pub proof fn lemma_method_round_trip(method: Method)
    ensures
        method_named(method_name(method)) == Some(method),
{
    reveal_strlit("DELETE");
    reveal_strlit("GET");
    reveal_strlit("PATCH");
    reveal_strlit("POST");
    reveal_strlit("PUT");
    assert("DELETE"@.len() == 6 && "GET"@.len() == 3 && "PATCH"@.len() == 5 && "POST"@.len() == 4
        && "PUT"@.len() == 3);
    assert("GET"@[0] == 'G' && "PUT"@[0] == 'P');
}

impl PathFailure {
    /// The sentence that names the failure.
    pub fn text(self) -> (r: &'static str)
        ensures
            r@ == failure_text(self),
    {
        match self {
            PathFailure::IntegerParsing => "An ID in a segment was invalid",
            PathFailure::MessageIdWithoutMethod =>
                "A message path was detected but the method wasn't given",
            PathFailure::NoMatch => "There was no matched path",
            PathFailure::Other => "The path could not be parsed",
        }
    }
}

impl RouteKind {
    /// The human-readable name of the endpoint family.
    pub fn name(self) -> (r: &'static str)
        ensures
            r@ == route_name(self),
    {
        match self {
            RouteKind::ApplicationCommand => "Application commands",
            RouteKind::ApplicationCommandId => "Application command",
            RouteKind::ApplicationGuildCommand => "Application commands in guild",
            RouteKind::ApplicationGuildCommandId => "Application command in guild",
            RouteKind::ChannelsId => "Channel",
            RouteKind::ChannelsIdInvites => "Channel invite",
            RouteKind::ChannelsIdMessages => "Channel message",
            RouteKind::ChannelsIdMessagesBulkDelete => "Bulk delete message",
            RouteKind::ChannelsIdMessagesId => "Channel message",
            RouteKind::ChannelsIdMessagesIdCrosspost => "Crosspost message",
            RouteKind::ChannelsIdMessagesIdReactions => "Message reaction",
            RouteKind::ChannelsIdMessagesIdReactionsUserIdType => "Message reaction for user",
            RouteKind::ChannelsIdMessagesIdThreads => "Threads of a specific message",
            RouteKind::ChannelsIdPermissionsOverwriteId => "Channel permission override",
            RouteKind::ChannelsIdPins => "Channel pins",
            RouteKind::ChannelsIdPinsMessageId => "Specific channel pin",
            RouteKind::ChannelsIdRecipients => "Channel recipients",
            RouteKind::ChannelsIdThreadMembers => "Thread members",
            RouteKind::ChannelsIdThreads => "Channel threads",
            RouteKind::ChannelsIdTyping => "Typing indicator",
            RouteKind::ChannelsIdWebhooks => "Webhook",
            RouteKind::ChannelsIdFollowers => "Channel followers",
            RouteKind::Gateway => "Gateway",
            RouteKind::GatewayBot => "Gateway bot info",
            RouteKind::Guilds => "Guilds",
            RouteKind::GuildsId => "Guild",
            RouteKind::GuildsIdBans => "Guild bans",
            RouteKind::GuildsIdBansId => "Specific guild ban",
            RouteKind::GuildsIdAuditLogs => "Guild audit logs",
            RouteKind::GuildsIdBansUserId => "Guild ban for user",
            RouteKind::GuildsIdChannels => "Guild channel",
            RouteKind::GuildsIdWidget => "Guild widget",
            RouteKind::GuildsIdEmojis => "Guild emoji",
            RouteKind::GuildsIdEmojisId => "Specific guild emoji",
            RouteKind::GuildsIdIntegrations => "Guild integrations",
            RouteKind::GuildsIdIntegrationsId => "Specific guild integration",
            RouteKind::GuildsIdIntegrationsIdSync => "Sync guild integration",
            RouteKind::GuildsIdInvites => "Guild invites",
            RouteKind::GuildsIdMembers => "Guild members",
            RouteKind::GuildsIdMembersId => "Specific guild member",
            RouteKind::GuildsIdMembersIdRolesId => "Guild member role",
            RouteKind::GuildsIdMembersMeNick => "Modify own nickname",
            RouteKind::GuildsIdMembersSearch => "Search guild members",
            RouteKind::GuildsIdPreview => "Guild preview",
            RouteKind::GuildsIdPrune => "Guild prune",
            RouteKind::GuildsIdRegions => "Guild region",
            RouteKind::GuildsIdRoles => "Guild roles",
            RouteKind::GuildsIdRolesId => "Specific guild role",
            RouteKind::GuildsIdScheduledEvents => "Scheduled events in guild",
            RouteKind::GuildsIdScheduledEventsId => "Scheduled event in guild",
            RouteKind::GuildsIdScheduledEventsIdUsers => "Users of a scheduled event",
            RouteKind::GuildsIdStickers => "Guild stickers",
            RouteKind::GuildsIdTemplates => "Guild templates",
            RouteKind::GuildsTemplatesCode => "Specific guild template",
            RouteKind::GuildsIdTemplatesCode => "Specific guild template",
            RouteKind::GuildsIdThreads => "Guild threads",
            RouteKind::GuildsIdVanityUrl => "Guild vanity invite",
            RouteKind::GuildsIdVoiceStates => "Guild voice states",
            RouteKind::GuildsIdWelcomeScreen => "Guild welcome screen",
            RouteKind::GuildsIdWebhooks => "Guild webhooks",
            RouteKind::InvitesCode => "Invite info",
            RouteKind::InteractionCallback => "Interaction callback",
            RouteKind::StageInstances => "Stage instances",
            RouteKind::StickerPacks => "Sticker packs",
            RouteKind::Stickers => "Stickers",
            RouteKind::UsersId => "User info",
            RouteKind::OauthApplicationsMe => "Current application info",
            RouteKind::UsersIdConnections => "User connections",
            RouteKind::UsersIdChannels => "User channels",
            RouteKind::UsersIdGuilds => "User in guild",
            RouteKind::UsersIdGuildsId => "Guild from user",
            RouteKind::UsersIdGuildsIdMember => "Member of a guild",
            RouteKind::VoiceRegions => "Voice region list",
            RouteKind::WebhooksId => "Webhook",
            RouteKind::WebhooksIdToken => "Webhook",
            RouteKind::WebhooksIdTokenMessagesId => "Specific webhook message",
            RouteKind::Unknown => "Unknown path!",
        }
    }
}

/// Calls `Path::try_from((Method, &str))` of `twilight_http_ratelimiting`, which
/// matches the segments of `path` against the upstream's routes. The contract
/// only names the result: it is a function of the method and the path.
#[verifier::external_body]
fn parse_path(method: Method, path: &str) -> (r: Result<Path, PathParseError>)
    ensures
        r == parsed_path(method, path@),
{
    let method = match method {
        Method::Delete => twilight_http_ratelimiting::Method::Delete,
        Method::Get => twilight_http_ratelimiting::Method::Get,
        Method::Patch => twilight_http_ratelimiting::Method::Patch,
        Method::Post => twilight_http_ratelimiting::Method::Post,
        Method::Put => twilight_http_ratelimiting::Method::Put,
    };
    Path::try_from((method, path))
}

/// Reads `PathParseError::kind` of `twilight_http_ratelimiting` and tells its
/// variants apart.
#[verifier::external_body]
fn parse_failure(error: &PathParseError) -> (r: PathFailure)
    ensures
        r == failure_of(*error),
{
    match error.kind() {
        PathParseErrorType::IntegerParsing => PathFailure::IntegerParsing,
        PathParseErrorType::MessageIdWithoutMethod { .. } => PathFailure::MessageIdWithoutMethod,
        PathParseErrorType::NoMatch => PathFailure::NoMatch,
        _ => PathFailure::Other,
    }
}

/// Tells apart the variants of `Path` of `twilight_http_ratelimiting` for the
/// routes of applications, interactions and webhooks, the gateway and the voice
/// regions: each gives the endpoint family of its own name, any other variant
/// gives `None`.
#[verifier::external_body]
fn service_kind(path: &Path) -> (r: Option<RouteKind>)
    ensures
        r == if is_service_kind(kind_of(*path)) {
            Some(kind_of(*path))
        } else {
            None
        },
{
    Some(match path {
        Path::ApplicationCommand(..) => RouteKind::ApplicationCommand,
        Path::ApplicationCommandId(..) => RouteKind::ApplicationCommandId,
        Path::ApplicationGuildCommand(..) => RouteKind::ApplicationGuildCommand,
        Path::ApplicationGuildCommandId(..) => RouteKind::ApplicationGuildCommandId,
        Path::Gateway => RouteKind::Gateway,
        Path::GatewayBot => RouteKind::GatewayBot,
        Path::InteractionCallback(..) => RouteKind::InteractionCallback,
        Path::OauthApplicationsMe => RouteKind::OauthApplicationsMe,
        Path::VoiceRegions => RouteKind::VoiceRegions,
        Path::WebhooksId(..) => RouteKind::WebhooksId,
        Path::WebhooksIdToken(..) => RouteKind::WebhooksIdToken,
        Path::WebhooksIdTokenMessagesId(..) => RouteKind::WebhooksIdTokenMessagesId,
        _ => return None,
    })
}

/// Tells apart the variants of `Path` of `twilight_http_ratelimiting` for the
/// routes of a channel, its followers, its invites and its messages: each gives
/// the endpoint family of its own name, any other variant gives `None`.
#[verifier::external_body]
fn message_kind(path: &Path) -> (r: Option<RouteKind>)
    ensures
        r == if is_message_kind(kind_of(*path)) {
            Some(kind_of(*path))
        } else {
            None
        },
{
    Some(match path {
        Path::ChannelsId(..) => RouteKind::ChannelsId,
        Path::ChannelsIdInvites(..) => RouteKind::ChannelsIdInvites,
        Path::ChannelsIdMessages(..) => RouteKind::ChannelsIdMessages,
        Path::ChannelsIdMessagesBulkDelete(..) => RouteKind::ChannelsIdMessagesBulkDelete,
        Path::ChannelsIdMessagesId(..) => RouteKind::ChannelsIdMessagesId,
        Path::ChannelsIdMessagesIdCrosspost(..) => RouteKind::ChannelsIdMessagesIdCrosspost,
        Path::ChannelsIdMessagesIdReactions(..) => RouteKind::ChannelsIdMessagesIdReactions,
        Path::ChannelsIdMessagesIdReactionsUserIdType(..) => RouteKind::ChannelsIdMessagesIdReactionsUserIdType,
        Path::ChannelsIdMessagesIdThreads(..) => RouteKind::ChannelsIdMessagesIdThreads,
        Path::ChannelsIdFollowers(..) => RouteKind::ChannelsIdFollowers,
        _ => return None,
    })
}

/// Tells apart the variants of `Path` of `twilight_http_ratelimiting` for the
/// other routes below a channel: each gives the endpoint family of its own
/// name, any other variant gives `None`.
#[verifier::external_body]
fn channel_kind(path: &Path) -> (r: Option<RouteKind>)
    ensures
        r == if is_channel_kind(kind_of(*path)) {
            Some(kind_of(*path))
        } else {
            None
        },
{
    Some(match path {
        Path::ChannelsIdPermissionsOverwriteId(..) => RouteKind::ChannelsIdPermissionsOverwriteId,
        Path::ChannelsIdPins(..) => RouteKind::ChannelsIdPins,
        Path::ChannelsIdPinsMessageId(..) => RouteKind::ChannelsIdPinsMessageId,
        Path::ChannelsIdRecipients(..) => RouteKind::ChannelsIdRecipients,
        Path::ChannelsIdThreadMembers(..) => RouteKind::ChannelsIdThreadMembers,
        Path::ChannelsIdThreads(..) => RouteKind::ChannelsIdThreads,
        Path::ChannelsIdTyping(..) => RouteKind::ChannelsIdTyping,
        Path::ChannelsIdWebhooks(..) => RouteKind::ChannelsIdWebhooks,
        _ => return None,
    })
}

/// Tells apart the variants of `Path` of `twilight_http_ratelimiting` for the
/// routes of guilds, their audit logs, bans, channels, emojis and integrations:
/// each gives the endpoint family of its own name, any other variant gives
/// `None`.
#[verifier::external_body]
fn guild_kind(path: &Path) -> (r: Option<RouteKind>)
    ensures
        r == if is_guild_kind(kind_of(*path)) {
            Some(kind_of(*path))
        } else {
            None
        },
{
    Some(match path {
        Path::Guilds => RouteKind::Guilds,
        Path::GuildsId(..) => RouteKind::GuildsId,
        Path::GuildsIdBans(..) => RouteKind::GuildsIdBans,
        Path::GuildsIdBansId(..) => RouteKind::GuildsIdBansId,
        Path::GuildsIdAuditLogs(..) => RouteKind::GuildsIdAuditLogs,
        Path::GuildsIdBansUserId(..) => RouteKind::GuildsIdBansUserId,
        Path::GuildsIdChannels(..) => RouteKind::GuildsIdChannels,
        Path::GuildsIdEmojis(..) => RouteKind::GuildsIdEmojis,
        Path::GuildsIdEmojisId(..) => RouteKind::GuildsIdEmojisId,
        Path::GuildsIdIntegrations(..) => RouteKind::GuildsIdIntegrations,
        Path::GuildsIdIntegrationsId(..) => RouteKind::GuildsIdIntegrationsId,
        Path::GuildsIdIntegrationsIdSync(..) => RouteKind::GuildsIdIntegrationsIdSync,
        _ => return None,
    })
}

/// Tells apart the variants of `Path` of `twilight_http_ratelimiting` for the
/// routes of a guild's invites, members, preview, prune, regions, roles and
/// scheduled events: each gives the endpoint family of its own name, any other
/// variant gives `None`.
#[verifier::external_body]
fn member_kind(path: &Path) -> (r: Option<RouteKind>)
    ensures
        r == if is_member_kind(kind_of(*path)) {
            Some(kind_of(*path))
        } else {
            None
        },
{
    Some(match path {
        Path::GuildsIdInvites(..) => RouteKind::GuildsIdInvites,
        Path::GuildsIdMembers(..) => RouteKind::GuildsIdMembers,
        Path::GuildsIdMembersId(..) => RouteKind::GuildsIdMembersId,
        Path::GuildsIdMembersIdRolesId(..) => RouteKind::GuildsIdMembersIdRolesId,
        Path::GuildsIdMembersMeNick(..) => RouteKind::GuildsIdMembersMeNick,
        Path::GuildsIdMembersSearch(..) => RouteKind::GuildsIdMembersSearch,
        Path::GuildsIdPreview(..) => RouteKind::GuildsIdPreview,
        Path::GuildsIdPrune(..) => RouteKind::GuildsIdPrune,
        Path::GuildsIdRegions(..) => RouteKind::GuildsIdRegions,
        Path::GuildsIdRoles(..) => RouteKind::GuildsIdRoles,
        Path::GuildsIdRolesId(..) => RouteKind::GuildsIdRolesId,
        Path::GuildsIdScheduledEvents(..) => RouteKind::GuildsIdScheduledEvents,
        _ => return None,
    })
}

/// Tells apart the variants of `Path` of `twilight_http_ratelimiting` for the
/// remaining routes below a guild, and the guild templates: each gives the
/// endpoint family of its own name, any other variant gives `None`.
#[verifier::external_body]
fn guild_extra_kind(path: &Path) -> (r: Option<RouteKind>)
    ensures
        r == if is_guild_extra_kind(kind_of(*path)) {
            Some(kind_of(*path))
        } else {
            None
        },
{
    Some(match path {
        Path::GuildsIdWidget(..) => RouteKind::GuildsIdWidget,
        Path::GuildsIdScheduledEventsId(..) => RouteKind::GuildsIdScheduledEventsId,
        Path::GuildsIdScheduledEventsIdUsers(..) => RouteKind::GuildsIdScheduledEventsIdUsers,
        Path::GuildsIdStickers(..) => RouteKind::GuildsIdStickers,
        Path::GuildsIdTemplates(..) => RouteKind::GuildsIdTemplates,
        Path::GuildsTemplatesCode(..) => RouteKind::GuildsTemplatesCode,
        Path::GuildsIdTemplatesCode(..) => RouteKind::GuildsIdTemplatesCode,
        Path::GuildsIdThreads(..) => RouteKind::GuildsIdThreads,
        Path::GuildsIdVanityUrl(..) => RouteKind::GuildsIdVanityUrl,
        Path::GuildsIdVoiceStates(..) => RouteKind::GuildsIdVoiceStates,
        Path::GuildsIdWelcomeScreen(..) => RouteKind::GuildsIdWelcomeScreen,
        Path::GuildsIdWebhooks(..) => RouteKind::GuildsIdWebhooks,
        _ => return None,
    })
}

/// Tells apart the variants of `Path` of `twilight_http_ratelimiting` for the
/// routes of invites, stage instances, stickers and users: each gives the
/// endpoint family of its own name, any other variant gives `None`.
#[verifier::external_body]
fn user_kind(path: &Path) -> (r: Option<RouteKind>)
    ensures
        r == if is_user_kind(kind_of(*path)) {
            Some(kind_of(*path))
        } else {
            None
        },
{
    Some(match path {
        Path::InvitesCode => RouteKind::InvitesCode,
        Path::StageInstances => RouteKind::StageInstances,
        Path::StickerPacks => RouteKind::StickerPacks,
        Path::Stickers => RouteKind::Stickers,
        Path::UsersId => RouteKind::UsersId,
        Path::UsersIdConnections => RouteKind::UsersIdConnections,
        Path::UsersIdChannels => RouteKind::UsersIdChannels,
        Path::UsersIdGuilds => RouteKind::UsersIdGuilds,
        Path::UsersIdGuildsId => RouteKind::UsersIdGuildsId,
        Path::UsersIdGuildsIdMember => RouteKind::UsersIdGuildsIdMember,
        _ => return None,
    })
}

/// The endpoint family of a classified path.
pub fn route_kind(path: &Path) -> (kind: RouteKind)
    ensures
        kind == kind_of(*path),
{
    if let Some(kind) = service_kind(path) {
        kind
    } else if let Some(kind) = message_kind(path) {
        kind
    } else if let Some(kind) = channel_kind(path) {
        kind
    } else if let Some(kind) = guild_kind(path) {
        kind
    } else if let Some(kind) = member_kind(path) {
        kind
    } else if let Some(kind) = guild_extra_kind(path) {
        kind
    } else if let Some(kind) = user_kind(path) {
        kind
    } else {
        RouteKind::Unknown
    }
}

/// The human-readable name of the endpoint family of a classified path.
pub fn path_name(path: &Path) -> (name: &'static str)
    ensures
        name@ == route_name(kind_of(*path)),
{
    route_kind(path).name()
}

/// What classifying a path gives: the path of `twilight_http_ratelimiting`, or
/// the reason why it has none.
pub open spec fn classified(method: Method, trimmed: Seq<char>) -> Result<Path, PathFailure> {
    match parsed_path(method, trimmed) {
        Ok(path) => Ok(path),
        Err(error) => Err(failure_of(error)),
    }
}

/// Classifies a path below the API prefix as a route of the upstream.
pub fn classify(method: Method, trimmed: &str) -> (r: Result<Path, PathFailure>)
    ensures
        r == classified(method, trimmed@),
{
    match parse_path(method, trimmed) {
        Ok(path) => Ok(path),
        Err(error) => Err(parse_failure(&error)),
    }
}

} // verus!
