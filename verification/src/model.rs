//! Plain data model types that gateway messages and callers exchange.

use vstd::prelude::*;
use vstd::utf8::encode_utf8;
use crate::json::dec_digits;
use crate::json::write_u64;

verus! {

/// The unique identifier of a guild.
#[derive(Clone, Copy, Debug, PartialEq, Eq, Structural)]
pub struct GuildId {
    pub value: u64,
}

impl GuildId {
    pub fn new(value: u64) -> (r: GuildId)
        ensures
            r.value == value,
    {
        GuildId { value }
    }

    pub fn get(&self) -> (r: u64)
        ensures
            r == self.value,
    {
        self.value
    }
}

/// The unique identifier of a user.
#[derive(Clone, Copy, Debug, PartialEq, Eq, Structural)]
pub struct UserId {
    pub value: u64,
}

impl UserId {
    pub fn new(value: u64) -> (r: UserId)
        ensures
            r.value == value,
    {
        UserId { value }
    }

    pub fn get(&self) -> (r: u64)
        ensures
            r == self.value,
    {
        self.value
    }
}

/// The unique identifier of a channel.
#[derive(Clone, Copy, Debug, PartialEq, Eq, Structural)]
pub struct ChannelId {
    pub value: u64,
}

impl ChannelId {
    pub fn new(value: u64) -> (r: ChannelId)
        ensures
            r.value == value,
    {
        ChannelId { value }
    }

    pub fn get(&self) -> (r: u64)
        ensures
            r == self.value,
    {
        self.value
    }
}

/// The unique identifier of a message.
#[derive(Clone, Copy, Debug, PartialEq, Eq, Structural)]
pub struct MessageId {
    pub value: u64,
}

/// A point in time, as milliseconds since the Unix epoch.
#[derive(Clone, Copy, Debug, PartialEq, Eq, Structural)]
pub struct Timestamp {
    pub unix_millis: u64,
}

/// The kind of a channel.
#[derive(Clone, Copy, Debug, PartialEq, Eq, Structural)]
pub enum ChannelType {
    Text,
    Private,
    Voice,
    GroupDm,
    Category,
    News,
    NewsThread,
    PublicThread,
    PrivateThread,
    Stage,
    Directory,
    Forum,
}

/// A set of permissions, as the service's permission bit field.
#[derive(Clone, Copy, Debug, PartialEq, Eq, Structural)]
pub struct Permissions {
    pub bits: u64,
}

impl Permissions {
    /// The empty permission set.
    pub fn empty() -> (r: Permissions)
        ensures
            r.bits == 0,
    {
        Permissions { bits: 0 }
    }

    pub fn from_bits_retain(bits: u64) -> (r: Permissions)
        ensures
            r.bits == bits,
    {
        Permissions { bits }
    }
}

/// A user, reduced to the identity fields this layer reads.
#[derive(Clone, Debug)]
pub struct User {
    pub id: UserId,
    /// The account name.
    pub name: String,
    /// The legacy discriminator; zero means none.
    pub discriminator: u16,
}

/// A representation of a banning of a user.
#[derive(Clone, Debug)]
pub struct Ban {
    /// The reason given for this ban.
    pub reason: Option<String>,
    /// The user that was banned.
    pub user: User,
}

/// The response from a bulk ban operation.
#[derive(Clone, Debug)]
pub struct BulkBanResponse {
    /// The users that were successfully banned.
    pub banned_users: Vec<UserId>,
    /// The users that were not successfully banned.
    pub failed_users: Vec<UserId>,
}

/// Information about the voice afk channel of a guild.
#[derive(Clone, Copy, Debug, PartialEq, Eq, Structural)]
pub struct AfkMetadata {
    /// Id of a voice channel that's considered the AFK channel.
    pub afk_channel_id: ChannelId,
    /// The amount of seconds a user can show no activity in a voice channel
    /// before being moved to the AFK channel.
    pub afk_timeout: u32,
}

/// A guild widget.
#[derive(Clone, Copy, Debug, PartialEq, Eq, Structural)]
pub struct GuildWidget {
    /// Whether the widget is enabled.
    pub enabled: bool,
    /// The widget channel id.
    pub channel_id: Option<ChannelId>,
}

/// The number of members that would be pruned by a guild prune operation.
#[derive(Clone, Copy, Debug, PartialEq, Eq, Structural)]
pub struct GuildPrune {
    pub pruned: u64,
}

/// Basic information about a guild, as a guild listing returns it.
#[derive(Clone, Debug)]
pub struct GuildInfo {
    /// The unique Id of the guild.
    pub id: GuildId,
    /// The name of the guild.
    pub name: String,
    /// The hash of the icon of the guild; an animated icon's hash starts
    /// with `a_`.
    pub icon: Option<String>,
    /// Indicator of whether the current user is the owner.
    pub owner: bool,
    /// The permissions that the current user has.
    pub permissions: Permissions,
    /// The guild's feature flags.
    pub features: Vec<String>,
}

/// The guild data carried inside an invite.
#[derive(Clone, Debug)]
pub struct InviteGuild {
    pub id: GuildId,
    pub name: String,
    /// An identifying hash of the guild's splash icon.
    pub splash: Option<String>,
}

/// Data for an unavailable guild.
#[derive(Clone, Copy, Debug, PartialEq, Eq, Structural)]
pub struct UnavailableGuild {
    /// The Id of the guild that may be unavailable.
    pub id: GuildId,
    /// Indicator of whether the guild is unavailable.
    pub unavailable: bool,
}

/// A partial guild channel.
#[derive(Clone, Debug)]
pub struct PartialGuildChannel {
    /// The channel Id.
    pub id: ChannelId,
    /// The channel guild Id.
    pub guild_id: GuildId,
    /// The channel category Id, or the parent text channel Id for a thread.
    pub parent_id: ChannelId,
    /// The channel type.
    pub kind: ChannelType,
}

/// A direct message text channel with another user.
#[derive(Clone, Debug)]
pub struct PrivateChannel {
    /// The unique Id of the private channel.
    pub id: ChannelId,
    /// The Id of the last message sent.
    pub last_message_id: Option<MessageId>,
    /// Timestamp of the last time a message was pinned.
    pub last_pin_timestamp: Option<Timestamp>,
    /// Indicator of the type of channel this is; always [`ChannelType::Private`].
    pub kind: ChannelType,
    /// The recipient of the private channel.
    pub recipient: User,
}

/// The content delivery host that image URLs point at, as bytes.
pub open spec fn cdn_prefix() -> Seq<u8> {
    // "https://cdn.discordapp.com"
    seq![
        104u8, 116u8, 116u8, 112u8, 115u8, 58u8, 47u8, 47u8, 99u8, 100u8, 110u8, 46u8, 100u8,
        105u8, 115u8, 99u8, 111u8, 114u8, 100u8, 97u8, 112u8, 112u8, 46u8, 99u8, 111u8, 109u8,
    ]
}

/// The URL of a guild icon: the CDN host, `/icons/`, the guild id, a slash,
/// the icon hash, then `.gif` for an animated hash (prefix `a_`) or `.webp`
/// otherwise, with a fixed size query.
pub open spec fn icon_url_bytes(id: u64, icon: Seq<u8>) -> Seq<u8> {
    cdn_prefix() + seq![47u8, 105u8, 99u8, 111u8, 110u8, 115u8, 47u8]  // "/icons/"
        + dec_digits(id as nat) + seq![47u8] + icon + seq![46u8]  // "."
        + (if is_animated(icon) {
        seq![103u8, 105u8, 102u8]  // "gif"
    } else {
        seq![119u8, 101u8, 98u8, 112u8]  // "webp"
    }) + size_query_1024()
}

/// `?size=1024`
pub open spec fn size_query_1024() -> Seq<u8> {
    seq![63u8, 115u8, 105u8, 122u8, 101u8, 61u8, 49u8, 48u8, 50u8, 52u8]
}

/// `?size=4096`
pub open spec fn size_query_4096() -> Seq<u8> {
    seq![63u8, 115u8, 105u8, 122u8, 101u8, 61u8, 52u8, 48u8, 57u8, 54u8]
}

/// An icon hash is animated when it starts with `a_`.
pub open spec fn is_animated(icon: Seq<u8>) -> bool {
    icon.len() >= 2 && icon[0] == 97 && icon[1] == 95
}

/// The URL of a guild splash image: the CDN host, `/splashes/`, the guild id,
/// a slash, the splash hash, `.webp` and a fixed size query.
pub open spec fn splash_url_bytes(id: u64, splash: Seq<u8>) -> Seq<u8> {
    cdn_prefix()
        + seq![
        47u8, 115u8, 112u8, 108u8, 97u8, 115u8, 104u8, 101u8, 115u8, 47u8,
    ]  // "/splashes/"
        + dec_digits(id as nat) + seq![47u8] + splash
        + seq![46u8, 119u8, 101u8, 98u8, 112u8]  // ".webp"
        + size_query_4096()
}

/// Appends each byte of `s` to `out`.
fn push_bytes(out: &mut Vec<u8>, s: &[u8])
    ensures
        final(out)@ == old(out)@ + s@,
{
    let mut i: usize = 0;
    while i < s.len()
        invariant
            i <= s@.len(),
            out@ == old(out)@ + s@.subrange(0, i as int),
        decreases s@.len() - i,
    {
        out.push(s[i]);
        assert(out@ =~= old(out)@ + s@.subrange(0, i + 1));
        i = i + 1;
    }
    assert(out@ =~= old(out)@ + s@);
}

/// The CDN host bytes.
fn cdn_prefix_bytes() -> (r: Vec<u8>)
    ensures
        r@ == cdn_prefix(),
{
    let mut v: Vec<u8> = Vec::new();
    v.push(104);
    v.push(116);
    v.push(116);
    v.push(112);
    v.push(115);
    v.push(58);
    v.push(47);
    v.push(47);
    v.push(99);
    v.push(100);
    v.push(110);
    v.push(46);
    v.push(100);
    v.push(105);
    v.push(115);
    v.push(99);
    v.push(111);
    v.push(114);
    v.push(100);
    v.push(97);
    v.push(112);
    v.push(112);
    v.push(46);
    v.push(99);
    v.push(111);
    v.push(109);
    assert(v@ =~= cdn_prefix());
    v
}

/// Whether an icon hash, given as bytes, names an animated icon.
pub fn icon_is_animated(icon: &[u8]) -> (r: bool)
    ensures
        r == is_animated(icon@),
{
    icon.len() >= 2 && icon[0] == 97 && icon[1] == 95
}

/// The formatted URL of a guild's icon, from the guild id and icon hash.
pub fn format_icon_url(id: u64, icon: &[u8]) -> (r: Vec<u8>)
    ensures
        r@ == icon_url_bytes(id, icon@),
{
    let mut out = cdn_prefix_bytes();
    out.push(47);
    out.push(105);
    out.push(99);
    out.push(111);
    out.push(110);
    out.push(115);
    out.push(47);
    write_u64(id, &mut out);
    out.push(47);
    push_bytes(&mut out, icon);
    out.push(46);
    if icon_is_animated(icon) {
        out.push(103);
        out.push(105);
        out.push(102);
    } else {
        out.push(119);
        out.push(101);
        out.push(98);
        out.push(112);
    }
    out.push(63);
    out.push(115);
    out.push(105);
    out.push(122);
    out.push(101);
    out.push(61);
    out.push(49);
    out.push(48);
    out.push(50);
    out.push(52);
    assert(out@ =~= icon_url_bytes(id, icon@));
    out
}

/// The formatted URL of a guild's splash image, from the guild id and splash
/// hash.
pub fn format_splash_url(id: u64, splash: &[u8]) -> (r: Vec<u8>)
    ensures
        r@ == splash_url_bytes(id, splash@),
{
    let mut out = cdn_prefix_bytes();
    out.push(47);
    out.push(115);
    out.push(112);
    out.push(108);
    out.push(97);
    out.push(115);
    out.push(104);
    out.push(101);
    out.push(115);
    out.push(47);
    write_u64(id, &mut out);
    out.push(47);
    push_bytes(&mut out, splash);
    out.push(46);
    out.push(119);
    out.push(101);
    out.push(98);
    out.push(112);
    out.push(63);
    out.push(115);
    out.push(105);
    out.push(122);
    out.push(101);
    out.push(61);
    out.push(52);
    out.push(48);
    out.push(57);
    out.push(54);
    assert(out@ =~= splash_url_bytes(id, splash@));
    out
}

impl GuildInfo {
    /// Returns the formatted URL of the guild's icon, if the guild has an
    /// icon: a GIF URL for an animated icon, a WEBP URL otherwise.
    pub fn icon_url(&self) -> (r: Option<Vec<u8>>)
        ensures
            match r {
                Some(url) => self.icon is Some && url@ == icon_url_bytes(
                    self.id.value,
                    encode_utf8(self.icon->Some_0@),
                ),
                None => self.icon is None,
            },
    {
        match &self.icon {
            Some(icon) => Some(format_icon_url(self.id.value, icon.as_str().as_bytes())),
            None => None,
        }
    }
}

impl InviteGuild {
    /// Returns the formatted URL of the guild's splash image, if one exists.
    pub fn splash_url(&self) -> (r: Option<Vec<u8>>)
        ensures
            match r {
                Some(url) => self.splash is Some && url@ == splash_url_bytes(
                    self.id.value,
                    encode_utf8(self.splash->Some_0@),
                ),
                None => self.splash is None,
            },
    {
        match &self.splash {
            Some(splash) => Some(format_splash_url(self.id.value, splash.as_str().as_bytes())),
            None => None,
        }
    }
}

} // verus!
