//! The typed `{op, d}` message protocol: serialization of the five outbound
//! control-message kinds into a uniform envelope, and the value-level
//! decoding that recovers their fields.
//!
//! Wire text is produced by [`crate::json`]; this module pins down, field by
//! field, which JSON document each outbound operation builds.

use vstd::prelude::*;
use vstd::slice::slice_to_vec;
use crate::compression::TransportCompression;
use crate::json::Json;
use crate::json::JsonV;
use crate::json::lemma_view_elems;
use crate::json::lemma_view_fields;
use crate::json::view_elems;
use crate::json::view_fields;
use crate::model::GuildId;
use crate::model::UserId;

verus! {

/// The number of guild members above which a guild is treated as large; sent
/// in the identify payload.
pub const LARGE_THRESHOLD: u8 = 250;

/// The integer tag identifying the kind of a gateway envelope.
#[derive(Clone, Copy, Debug, PartialEq, Eq, Structural)]
pub enum Opcode {
    Dispatch,
    Heartbeat,
    Identify,
    PresenceUpdate,
    VoiceStateUpdate,
    Resume,
    Reconnect,
    RequestGuildMembers,
    InvalidSession,
    Hello,
    HeartbeatAck,
}

impl Opcode {
    /// The wire value of the opcode.
    pub open spec fn value(self) -> u8 {
        match self {
            Opcode::Dispatch => 0,
            Opcode::Heartbeat => 1,
            Opcode::Identify => 2,
            Opcode::PresenceUpdate => 3,
            Opcode::VoiceStateUpdate => 4,
            Opcode::Resume => 6,
            Opcode::Reconnect => 7,
            Opcode::RequestGuildMembers => 8,
            Opcode::InvalidSession => 9,
            Opcode::Hello => 10,
            Opcode::HeartbeatAck => 11,
        }
    }

    /// The wire value of the opcode.
    pub fn as_u8(self) -> (r: u8)
        ensures
            r == self.value(),
    {
        match self {
            Opcode::Dispatch => 0,
            Opcode::Heartbeat => 1,
            Opcode::Identify => 2,
            Opcode::PresenceUpdate => 3,
            Opcode::VoiceStateUpdate => 4,
            Opcode::Resume => 6,
            Opcode::Reconnect => 7,
            Opcode::RequestGuildMembers => 8,
            Opcode::InvalidSession => 9,
            Opcode::Hello => 10,
            Opcode::HeartbeatAck => 11,
        }
    }
}

/// The identity of one logical connection: its shard index and the total
/// number of shards.
#[derive(Clone, Copy, Debug, PartialEq, Eq, Structural)]
pub struct ShardInfo {
    pub id: u16,
    pub total: u16,
}

impl ShardInfo {
    pub fn new(id: u16, total: u16) -> (r: ShardInfo)
        ensures
            r.id == id,
            r.total == total,
    {
        ShardInfo { id, total }
    }
}

/// The event categories a connection subscribes to, as the service's intent
/// bit field.
#[derive(Clone, Copy, Debug, PartialEq, Eq, Structural)]
pub struct GatewayIntents {
    pub bits: u64,
}

impl GatewayIntents {
    pub fn from_bits_retain(bits: u64) -> (r: GatewayIntents)
        ensures
            r.bits == bits,
    {
        GatewayIntents { bits }
    }
}

/// The online status advertised in a presence.
#[derive(Clone, Copy, Debug, PartialEq, Eq, Structural)]
pub enum OnlineStatus {
    Online,
    Idle,
    DoNotDisturb,
    Invisible,
    Offline,
}

/// The wire name of an online status.
pub open spec fn status_name(s: OnlineStatus) -> Seq<u8> {
    match s {
        OnlineStatus::Online => seq![111u8, 110u8, 108u8, 105u8, 110u8, 101u8],
        OnlineStatus::Idle => seq![105u8, 100u8, 108u8, 101u8],
        OnlineStatus::DoNotDisturb => seq![100u8, 110u8, 100u8],
        OnlineStatus::Invisible => seq![
            105u8, 110u8, 118u8, 105u8, 115u8, 105u8, 98u8, 108u8, 101u8,
        ],
        OnlineStatus::Offline => seq![111u8, 102u8, 102u8, 108u8, 105u8, 110u8, 101u8],
    }
}

impl OnlineStatus {
    /// The wire name of the status: `online`, `idle`, `dnd`, `invisible` or
    /// `offline`.
    pub fn name_bytes(self) -> (r: Vec<u8>)
        ensures
            r@ == status_name(self),
    {
        let mut v: Vec<u8> = Vec::new();
        match self {
            OnlineStatus::Online => {
                v.push(111);
                v.push(110);
                v.push(108);
                v.push(105);
                v.push(110);
                v.push(101);
            },
            OnlineStatus::Idle => {
                v.push(105);
                v.push(100);
                v.push(108);
                v.push(101);
            },
            OnlineStatus::DoNotDisturb => {
                v.push(100);
                v.push(110);
                v.push(100);
            },
            OnlineStatus::Invisible => {
                v.push(105);
                v.push(110);
                v.push(118);
                v.push(105);
                v.push(115);
                v.push(105);
                v.push(98);
                v.push(108);
                v.push(101);
            },
            OnlineStatus::Offline => {
                v.push(111);
                v.push(102);
                v.push(102);
                v.push(108);
                v.push(105);
                v.push(110);
                v.push(101);
            },
        }
        assert(v@ =~= status_name(self));
        v
    }
}

/// A single activity advertised in a presence, reduced to the fields this
/// layer serializes.  String content is carried as UTF-8 bytes.
#[derive(Clone, Debug)]
pub struct ActivityData {
    pub name: Vec<u8>,
    /// The wire value of the activity kind.
    pub kind: u8,
    pub state: Option<Vec<u8>>,
    pub url: Option<Vec<u8>>,
}

/// The mathematical shape of an [`ActivityData`].
pub struct ActivityDataV {
    pub name: Seq<u8>,
    pub kind: u8,
    pub state: Option<Seq<u8>>,
    pub url: Option<Seq<u8>>,
}

impl View for ActivityData {
    type V = ActivityDataV;

    open spec fn view(&self) -> ActivityDataV {
        ActivityDataV {
            name: self.name@,
            kind: self.kind,
            state: match self.state {
                Some(s) => Some(s@),
                None => None,
            },
            url: match self.url {
                Some(u) => Some(u@),
                None => None,
            },
        }
    }
}

/// The presence advertised at identify time or in a presence update.
#[derive(Clone, Debug)]
pub struct PresenceData {
    pub activity: Option<ActivityData>,
    pub status: OnlineStatus,
}

/// The shape of an optional activity.
pub open spec fn activity_view(a: Option<ActivityData>) -> Option<ActivityDataV> {
    match a {
        Some(x) => Some(x@),
        None => None,
    }
}

/// The tri-state member-chunk filter: no filter, a name-prefix query, or an
/// explicit list of user ids.
#[derive(Clone, Debug)]
pub enum ChunkGuildFilter {
    /// Returns all members of the guild.
    NoFilter,
    /// A common username prefix filter.
    Query(Vec<u8>),
    /// A set of exact user ids.
    UserIds(Vec<UserId>),
}

/// `"op"`
pub open spec fn k_op() -> Seq<u8> {
    seq![111u8, 112u8]
}

fn key_op() -> (r: Vec<u8>)
    ensures
        r@ == k_op(),
{
    let mut v: Vec<u8> = Vec::new();
    v.push(111);
    v.push(112);
    assert(v@ =~= k_op());
    v
}

/// `"d"`
pub open spec fn k_d() -> Seq<u8> {
    seq![100u8]
}

fn key_d() -> (r: Vec<u8>)
    ensures
        r@ == k_d(),
{
    let mut v: Vec<u8> = Vec::new();
    v.push(100);
    assert(v@ =~= k_d());
    v
}

/// `"token"`
pub open spec fn k_token() -> Seq<u8> {
    seq![116u8, 111u8, 107u8, 101u8, 110u8]
}

fn key_token() -> (r: Vec<u8>)
    ensures
        r@ == k_token(),
{
    let mut v: Vec<u8> = Vec::new();
    v.push(116);
    v.push(111);
    v.push(107);
    v.push(101);
    v.push(110);
    assert(v@ =~= k_token());
    v
}

/// `"session_id"`
pub open spec fn k_session_id() -> Seq<u8> {
    seq![115u8, 101u8, 115u8, 115u8, 105u8, 111u8, 110u8, 95u8, 105u8, 100u8]
}

fn key_session_id() -> (r: Vec<u8>)
    ensures
        r@ == k_session_id(),
{
    let mut v: Vec<u8> = Vec::new();
    v.push(115);
    v.push(101);
    v.push(115);
    v.push(115);
    v.push(105);
    v.push(111);
    v.push(110);
    v.push(95);
    v.push(105);
    v.push(100);
    assert(v@ =~= k_session_id());
    v
}

/// `"seq"`
pub open spec fn k_seq() -> Seq<u8> {
    seq![115u8, 101u8, 113u8]
}

fn key_seq() -> (r: Vec<u8>)
    ensures
        r@ == k_seq(),
{
    let mut v: Vec<u8> = Vec::new();
    v.push(115);
    v.push(101);
    v.push(113);
    assert(v@ =~= k_seq());
    v
}

/// `"guild_id"`
pub open spec fn k_guild_id() -> Seq<u8> {
    seq![103u8, 117u8, 105u8, 108u8, 100u8, 95u8, 105u8, 100u8]
}

fn key_guild_id() -> (r: Vec<u8>)
    ensures
        r@ == k_guild_id(),
{
    let mut v: Vec<u8> = Vec::new();
    v.push(103);
    v.push(117);
    v.push(105);
    v.push(108);
    v.push(100);
    v.push(95);
    v.push(105);
    v.push(100);
    assert(v@ =~= k_guild_id());
    v
}

/// `"query"`
pub open spec fn k_query() -> Seq<u8> {
    seq![113u8, 117u8, 101u8, 114u8, 121u8]
}

fn key_query() -> (r: Vec<u8>)
    ensures
        r@ == k_query(),
{
    let mut v: Vec<u8> = Vec::new();
    v.push(113);
    v.push(117);
    v.push(101);
    v.push(114);
    v.push(121);
    assert(v@ =~= k_query());
    v
}

/// `"limit"`
pub open spec fn k_limit() -> Seq<u8> {
    seq![108u8, 105u8, 109u8, 105u8, 116u8]
}

fn key_limit() -> (r: Vec<u8>)
    ensures
        r@ == k_limit(),
{
    let mut v: Vec<u8> = Vec::new();
    v.push(108);
    v.push(105);
    v.push(109);
    v.push(105);
    v.push(116);
    assert(v@ =~= k_limit());
    v
}

/// `"presences"`
pub open spec fn k_presences() -> Seq<u8> {
    seq![112u8, 114u8, 101u8, 115u8, 101u8, 110u8, 99u8, 101u8, 115u8]
}

fn key_presences() -> (r: Vec<u8>)
    ensures
        r@ == k_presences(),
{
    let mut v: Vec<u8> = Vec::new();
    v.push(112);
    v.push(114);
    v.push(101);
    v.push(115);
    v.push(101);
    v.push(110);
    v.push(99);
    v.push(101);
    v.push(115);
    assert(v@ =~= k_presences());
    v
}

/// `"user_ids"`
pub open spec fn k_user_ids() -> Seq<u8> {
    seq![117u8, 115u8, 101u8, 114u8, 95u8, 105u8, 100u8, 115u8]
}

fn key_user_ids() -> (r: Vec<u8>)
    ensures
        r@ == k_user_ids(),
{
    let mut v: Vec<u8> = Vec::new();
    v.push(117);
    v.push(115);
    v.push(101);
    v.push(114);
    v.push(95);
    v.push(105);
    v.push(100);
    v.push(115);
    assert(v@ =~= k_user_ids());
    v
}

/// `"nonce"`
pub open spec fn k_nonce() -> Seq<u8> {
    seq![110u8, 111u8, 110u8, 99u8, 101u8]
}

fn key_nonce() -> (r: Vec<u8>)
    ensures
        r@ == k_nonce(),
{
    let mut v: Vec<u8> = Vec::new();
    v.push(110);
    v.push(111);
    v.push(110);
    v.push(99);
    v.push(101);
    assert(v@ =~= k_nonce());
    v
}

/// `"compress"`
pub open spec fn k_compress() -> Seq<u8> {
    seq![99u8, 111u8, 109u8, 112u8, 114u8, 101u8, 115u8, 115u8]
}

fn key_compress() -> (r: Vec<u8>)
    ensures
        r@ == k_compress(),
{
    let mut v: Vec<u8> = Vec::new();
    v.push(99);
    v.push(111);
    v.push(109);
    v.push(112);
    v.push(114);
    v.push(101);
    v.push(115);
    v.push(115);
    assert(v@ =~= k_compress());
    v
}

/// `"large_threshold"`
pub open spec fn k_large_threshold() -> Seq<u8> {
    seq![108u8, 97u8, 114u8, 103u8, 101u8, 95u8, 116u8, 104u8, 114u8, 101u8, 115u8, 104u8, 111u8, 108u8, 100u8]
}

fn key_large_threshold() -> (r: Vec<u8>)
    ensures
        r@ == k_large_threshold(),
{
    let mut v: Vec<u8> = Vec::new();
    v.push(108);
    v.push(97);
    v.push(114);
    v.push(103);
    v.push(101);
    v.push(95);
    v.push(116);
    v.push(104);
    v.push(114);
    v.push(101);
    v.push(115);
    v.push(104);
    v.push(111);
    v.push(108);
    v.push(100);
    assert(v@ =~= k_large_threshold());
    v
}

/// `"shard"`
pub open spec fn k_shard() -> Seq<u8> {
    seq![115u8, 104u8, 97u8, 114u8, 100u8]
}

fn key_shard() -> (r: Vec<u8>)
    ensures
        r@ == k_shard(),
{
    let mut v: Vec<u8> = Vec::new();
    v.push(115);
    v.push(104);
    v.push(97);
    v.push(114);
    v.push(100);
    assert(v@ =~= k_shard());
    v
}

/// `"intents"`
pub open spec fn k_intents() -> Seq<u8> {
    seq![105u8, 110u8, 116u8, 101u8, 110u8, 116u8, 115u8]
}

fn key_intents() -> (r: Vec<u8>)
    ensures
        r@ == k_intents(),
{
    let mut v: Vec<u8> = Vec::new();
    v.push(105);
    v.push(110);
    v.push(116);
    v.push(101);
    v.push(110);
    v.push(116);
    v.push(115);
    assert(v@ =~= k_intents());
    v
}

/// `"properties"`
pub open spec fn k_properties() -> Seq<u8> {
    seq![112u8, 114u8, 111u8, 112u8, 101u8, 114u8, 116u8, 105u8, 101u8, 115u8]
}

fn key_properties() -> (r: Vec<u8>)
    ensures
        r@ == k_properties(),
{
    let mut v: Vec<u8> = Vec::new();
    v.push(112);
    v.push(114);
    v.push(111);
    v.push(112);
    v.push(101);
    v.push(114);
    v.push(116);
    v.push(105);
    v.push(101);
    v.push(115);
    assert(v@ =~= k_properties());
    v
}

/// `"browser"`
pub open spec fn k_browser() -> Seq<u8> {
    seq![98u8, 114u8, 111u8, 119u8, 115u8, 101u8, 114u8]
}

fn key_browser() -> (r: Vec<u8>)
    ensures
        r@ == k_browser(),
{
    let mut v: Vec<u8> = Vec::new();
    v.push(98);
    v.push(114);
    v.push(111);
    v.push(119);
    v.push(115);
    v.push(101);
    v.push(114);
    assert(v@ =~= k_browser());
    v
}

/// `"device"`
pub open spec fn k_device() -> Seq<u8> {
    seq![100u8, 101u8, 118u8, 105u8, 99u8, 101u8]
}

fn key_device() -> (r: Vec<u8>)
    ensures
        r@ == k_device(),
{
    let mut v: Vec<u8> = Vec::new();
    v.push(100);
    v.push(101);
    v.push(118);
    v.push(105);
    v.push(99);
    v.push(101);
    assert(v@ =~= k_device());
    v
}

/// `"os"`
pub open spec fn k_os() -> Seq<u8> {
    seq![111u8, 115u8]
}

fn key_os() -> (r: Vec<u8>)
    ensures
        r@ == k_os(),
{
    let mut v: Vec<u8> = Vec::new();
    v.push(111);
    v.push(115);
    assert(v@ =~= k_os());
    v
}

/// `"presence"`
pub open spec fn k_presence() -> Seq<u8> {
    seq![112u8, 114u8, 101u8, 115u8, 101u8, 110u8, 99u8, 101u8]
}

fn key_presence() -> (r: Vec<u8>)
    ensures
        r@ == k_presence(),
{
    let mut v: Vec<u8> = Vec::new();
    v.push(112);
    v.push(114);
    v.push(101);
    v.push(115);
    v.push(101);
    v.push(110);
    v.push(99);
    v.push(101);
    assert(v@ =~= k_presence());
    v
}

/// `"afk"`
pub open spec fn k_afk() -> Seq<u8> {
    seq![97u8, 102u8, 107u8]
}

fn key_afk() -> (r: Vec<u8>)
    ensures
        r@ == k_afk(),
{
    let mut v: Vec<u8> = Vec::new();
    v.push(97);
    v.push(102);
    v.push(107);
    assert(v@ =~= k_afk());
    v
}

/// `"status"`
pub open spec fn k_status() -> Seq<u8> {
    seq![115u8, 116u8, 97u8, 116u8, 117u8, 115u8]
}

fn key_status() -> (r: Vec<u8>)
    ensures
        r@ == k_status(),
{
    let mut v: Vec<u8> = Vec::new();
    v.push(115);
    v.push(116);
    v.push(97);
    v.push(116);
    v.push(117);
    v.push(115);
    assert(v@ =~= k_status());
    v
}

/// `"since"`
pub open spec fn k_since() -> Seq<u8> {
    seq![115u8, 105u8, 110u8, 99u8, 101u8]
}

fn key_since() -> (r: Vec<u8>)
    ensures
        r@ == k_since(),
{
    let mut v: Vec<u8> = Vec::new();
    v.push(115);
    v.push(105);
    v.push(110);
    v.push(99);
    v.push(101);
    assert(v@ =~= k_since());
    v
}

/// `"activities"`
pub open spec fn k_activities() -> Seq<u8> {
    seq![97u8, 99u8, 116u8, 105u8, 118u8, 105u8, 116u8, 105u8, 101u8, 115u8]
}

fn key_activities() -> (r: Vec<u8>)
    ensures
        r@ == k_activities(),
{
    let mut v: Vec<u8> = Vec::new();
    v.push(97);
    v.push(99);
    v.push(116);
    v.push(105);
    v.push(118);
    v.push(105);
    v.push(116);
    v.push(105);
    v.push(101);
    v.push(115);
    assert(v@ =~= k_activities());
    v
}

/// `"name"`
pub open spec fn k_name() -> Seq<u8> {
    seq![110u8, 97u8, 109u8, 101u8]
}

fn key_name() -> (r: Vec<u8>)
    ensures
        r@ == k_name(),
{
    let mut v: Vec<u8> = Vec::new();
    v.push(110);
    v.push(97);
    v.push(109);
    v.push(101);
    assert(v@ =~= k_name());
    v
}

/// `"type"`
pub open spec fn k_activity_type() -> Seq<u8> {
    seq![116u8, 121u8, 112u8, 101u8]
}

fn key_activity_type() -> (r: Vec<u8>)
    ensures
        r@ == k_activity_type(),
{
    let mut v: Vec<u8> = Vec::new();
    v.push(116);
    v.push(121);
    v.push(112);
    v.push(101);
    assert(v@ =~= k_activity_type());
    v
}

/// `"state"`
pub open spec fn k_state() -> Seq<u8> {
    seq![115u8, 116u8, 97u8, 116u8, 101u8]
}

fn key_state() -> (r: Vec<u8>)
    ensures
        r@ == k_state(),
{
    let mut v: Vec<u8> = Vec::new();
    v.push(115);
    v.push(116);
    v.push(97);
    v.push(116);
    v.push(101);
    assert(v@ =~= k_state());
    v
}

/// `"url"`
pub open spec fn k_url() -> Seq<u8> {
    seq![117u8, 114u8, 108u8]
}

fn key_url() -> (r: Vec<u8>)
    ensures
        r@ == k_url(),
{
    let mut v: Vec<u8> = Vec::new();
    v.push(117);
    v.push(114);
    v.push(108);
    assert(v@ =~= k_url());
    v
}

/// `"serenity"`
pub open spec fn k_serenity() -> Seq<u8> {
    seq![115u8, 101u8, 114u8, 101u8, 110u8, 105u8, 116u8, 121u8]
}

fn key_serenity() -> (r: Vec<u8>)
    ensures
        r@ == k_serenity(),
{
    let mut v: Vec<u8> = Vec::new();
    v.push(115);
    v.push(101);
    v.push(114);
    v.push(101);
    v.push(110);
    v.push(105);
    v.push(116);
    v.push(121);
    assert(v@ =~= k_serenity());
    v
}

/// The `{op, d}` envelope around a payload.
pub open spec fn envelope_json(op: Opcode, d: JsonV) -> JsonV {
    JsonV::Obj(seq![(k_op(), JsonV::UInt(op.value() as u64)), (k_d(), d)])
}

/// The heartbeat payload: the last seen sequence number or null.
pub open spec fn heartbeat_envelope(seq_num: Option<u64>) -> JsonV {
    envelope_json(
        Opcode::Heartbeat,
        match seq_num {
            Some(n) => JsonV::UInt(n),
            None => JsonV::Null,
        },
    )
}

/// The resume payload: session id, token and last sequence.
pub open spec fn resume_envelope(session_id: Seq<u8>, token: Seq<u8>, seq_num: u64) -> JsonV {
    envelope_json(
        Opcode::Resume,
        JsonV::Obj(
            seq![
                (k_session_id(), JsonV::Str(session_id)),
                (k_token(), JsonV::Str(token)),
                (k_seq(), JsonV::UInt(seq_num)),
            ],
        ),
    )
}

/// The serialized form of one activity.
pub open spec fn activity_json(a: ActivityDataV) -> JsonV {
    JsonV::Obj(
        seq![(k_name(), JsonV::Str(a.name)), (k_activity_type(), JsonV::UInt(a.kind as u64))]
            + (match a.state {
            Some(s) => seq![(k_state(), JsonV::Str(s))],
            None => Seq::<(Seq<u8>, JsonV)>::empty(),
        }) + (match a.url {
            Some(u) => seq![(k_url(), JsonV::Str(u))],
            None => Seq::<(Seq<u8>, JsonV)>::empty(),
        }),
    )
}

/// The presence object embedded in identify and presence-update payloads:
/// `afk` fixed to false, the status name, the caller's clock reading, and the
/// single activity (if any) as a one-element list.
pub open spec fn presence_json(
    activity: Option<ActivityDataV>,
    status: OnlineStatus,
    since: u64,
) -> JsonV {
    JsonV::Obj(
        seq![
            (k_afk(), JsonV::Bool(false)),
            (k_status(), JsonV::Str(status_name(status))),
            (k_since(), JsonV::UInt(since)),
            (
                k_activities(),
                JsonV::Arr(
                    match activity {
                        Some(a) => seq![activity_json(a)],
                        None => Seq::<JsonV>::empty(),
                    },
                ),
            ),
        ],
    )
}

/// The static client identification sent in the identify payload.
pub open spec fn properties_json(os: Seq<u8>) -> JsonV {
    JsonV::Obj(
        seq![
            (k_browser(), JsonV::Str(k_serenity())),
            (k_device(), JsonV::Str(k_serenity())),
            (k_os(), JsonV::Str(os)),
        ],
    )
}

/// Whether the identify payload asks the server to deflate each payload
/// individually: exactly when no transport-level stream compression was
/// negotiated.
pub open spec fn identify_compress(mode: TransportCompression) -> bool {
    mode is Identity
}

/// The identify `compress` flag is true exactly for the
/// [`TransportCompression::Identity`] scheme and false for the two streaming
/// schemes.
pub proof fn lemma_identify_compress_flag(mode: TransportCompression)
    ensures
        identify_compress(mode) == (mode is Identity),
        mode is Zlib ==> !identify_compress(mode),
        mode is Zstd ==> !identify_compress(mode),
{
}

/// The identify payload.
pub open spec fn identify_envelope(
    token: Seq<u8>,
    shard: ShardInfo,
    intents: u64,
    compress: bool,
    os: Seq<u8>,
    activity: Option<ActivityDataV>,
    status: OnlineStatus,
    since: u64,
) -> JsonV {
    envelope_json(
        Opcode::Identify,
        JsonV::Obj(
            seq![
                (k_compress(), JsonV::Bool(compress)),
                (k_token(), JsonV::Str(token)),
                (k_large_threshold(), JsonV::UInt(LARGE_THRESHOLD as u64)),
                (
                    k_shard(),
                    JsonV::Arr(
                        seq![JsonV::UInt(shard.id as u64), JsonV::UInt(shard.total as u64)],
                    ),
                ),
                (k_intents(), JsonV::UInt(intents)),
                (k_properties(), properties_json(os)),
                (k_presence(), presence_json(activity, status, since)),
            ],
        ),
    )
}

/// The presence-update payload: the same presence object, sent standalone.
pub open spec fn presence_update_envelope(
    activity: Option<ActivityDataV>,
    status: OnlineStatus,
    since: u64,
) -> JsonV {
    envelope_json(Opcode::PresenceUpdate, presence_json(activity, status, since))
}

/// The `query` wire field a member-chunk filter collapses to: the empty
/// string for no filter, the query itself for a query filter, absent for an
/// id-list filter.
pub open spec fn chunk_query_of(filter: ChunkGuildFilter) -> Option<Seq<u8>> {
    match filter {
        ChunkGuildFilter::NoFilter => Some(Seq::<u8>::empty()),
        ChunkGuildFilter::Query(q) => Some(q@),
        ChunkGuildFilter::UserIds(_) => None,
    }
}

/// The `user_ids` wire field a member-chunk filter collapses to: present
/// exactly for an id-list filter.
pub open spec fn chunk_user_ids_of(filter: ChunkGuildFilter) -> Option<Seq<u64>> {
    match filter {
        ChunkGuildFilter::UserIds(u) => Some(u@.map_values(|x: UserId| x.value)),
        _ => None,
    }
}

/// The `query` and `user_ids` wire fields are mutually exclusive: every
/// filter produces exactly one of them, no filter and a query filter produce
/// `query` (the former as the empty string), and an id-list filter produces
/// `user_ids` alone.
pub proof fn lemma_member_chunk_filter_exclusive(filter: ChunkGuildFilter)
    ensures
        chunk_query_of(filter) is Some <==> chunk_user_ids_of(filter) is None,
        filter is NoFilter ==> chunk_query_of(filter) == Some(Seq::<u8>::empty()),
        filter matches ChunkGuildFilter::Query(q) ==> chunk_query_of(filter) == Some(q@),
        filter matches ChunkGuildFilter::UserIds(u) ==> chunk_user_ids_of(filter) == Some(
            u@.map_values(|x: UserId| x.value),
        ),
{
}

/// The member-chunk request payload, over the collapsed wire fields.
pub open spec fn chunk_guild_envelope(
    guild_id: u64,
    query: Option<Seq<u8>>,
    limit: u16,
    presences: bool,
    user_ids: Option<Seq<u64>>,
    nonce: Seq<u8>,
) -> JsonV {
    envelope_json(
        Opcode::RequestGuildMembers,
        JsonV::Obj(
            seq![(k_guild_id(), JsonV::UInt(guild_id))] + (match query {
                Some(q) => seq![(k_query(), JsonV::Str(q))],
                None => Seq::<(Seq<u8>, JsonV)>::empty(),
            }) + seq![
                (k_limit(), JsonV::UInt(limit as u64)),
                (k_presences(), JsonV::Bool(presences)),
            ] + (match user_ids {
                Some(u) => seq![
                    (k_user_ids(), JsonV::Arr(u.map_values(|x: u64| JsonV::UInt(x)))),
                ],
                None => Seq::<(Seq<u8>, JsonV)>::empty(),
            }) + seq![(k_nonce(), JsonV::Str(nonce))],
        ),
    )
}

/// A fresh vector holding the same bytes.
fn clone_bytes(v: &[u8]) -> (r: Vec<u8>)
    ensures
        r@ == v@,
{
    slice_to_vec(v)
}

/// Wraps a payload in the `{op, d}` envelope.
fn wrap_envelope(op: Opcode, d: Json) -> (r: Json)
    ensures
        r@ == envelope_json(op, d@),
{
    let mut fields: Vec<(Vec<u8>, Json)> = Vec::new();
    fields.push((key_op(), Json::UInt(op.as_u8() as u64)));
    fields.push((key_d(), d));
    let ghost fv = fields@;
    let r = Json::Obj(fields);
    proof {
        lemma_view_fields(fv);
        assert(view_fields(fv) =~= seq![
            (k_op(), JsonV::UInt(op.value() as u64)),
            (k_d(), d@),
        ]);
    }
    r
}

/// Builds the heartbeat envelope carrying the last seen sequence number.
pub fn heartbeat_message(seq_num: Option<u64>) -> (r: Json)
    ensures
        r@ == heartbeat_envelope(seq_num),
{
    let d = match seq_num {
        Some(n) => Json::UInt(n),
        None => Json::Null,
    };
    wrap_envelope(Opcode::Heartbeat, d)
}

/// Builds the resume envelope carrying session id, token and last sequence.
pub fn resume_message(session_id: &[u8], token: &[u8], seq_num: u64) -> (r: Json)
    ensures
        r@ == resume_envelope(session_id@, token@, seq_num),
{
    let mut d: Vec<(Vec<u8>, Json)> = Vec::new();
    d.push((key_session_id(), Json::Str(clone_bytes(session_id))));
    d.push((key_token(), Json::Str(clone_bytes(token))));
    d.push((key_seq(), Json::UInt(seq_num)));
    let ghost dv = d@;
    let r = wrap_envelope(Opcode::Resume, Json::Obj(d));
    proof {
        lemma_view_fields(dv);
        assert(view_fields(dv) =~= seq![
            (k_session_id(), JsonV::Str(session_id@)),
            (k_token(), JsonV::Str(token@)),
            (k_seq(), JsonV::UInt(seq_num)),
        ]);
    }
    r
}

/// Builds the serialized form of one activity.
fn activity_message(a: &ActivityData) -> (r: Json)
    ensures
        r@ == activity_json(a@),
{
    let mut d: Vec<(Vec<u8>, Json)> = Vec::new();
    d.push((key_name(), Json::Str(clone_bytes(a.name.as_slice()))));
    d.push((key_activity_type(), Json::UInt(a.kind as u64)));
    match &a.state {
        Some(s) => {
            d.push((key_state(), Json::Str(clone_bytes(s.as_slice()))));
        },
        None => {},
    }
    match &a.url {
        Some(u) => {
            d.push((key_url(), Json::Str(clone_bytes(u.as_slice()))));
        },
        None => {},
    }
    let ghost dv = d@;
    let r = Json::Obj(d);
    proof {
        lemma_view_fields(dv);
        assert(view_fields(dv) =~= (
            seq![(k_name(), JsonV::Str(a@.name)), (k_activity_type(), JsonV::UInt(a@.kind as u64))]
                + (match a@.state {
                Some(s) => seq![(k_state(), JsonV::Str(s))],
                None => Seq::<(Seq<u8>, JsonV)>::empty(),
            }) + (match a@.url {
                Some(u) => seq![(k_url(), JsonV::Str(u))],
                None => Seq::<(Seq<u8>, JsonV)>::empty(),
            })
        ));
    }
    r
}

/// Builds the presence object from the caller's presence data and clock
/// reading.
fn presence_message(presence: &PresenceData, since_millis: u64) -> (r: Json)
    ensures
        r@ == presence_json(activity_view(presence.activity), presence.status, since_millis),
{
    let mut arr: Vec<Json> = Vec::new();
    match &presence.activity {
        Some(a) => {
            let aj = activity_message(a);
            arr.push(aj);
        },
        None => {},
    }
    let ghost av = arr@;
    let mut d: Vec<(Vec<u8>, Json)> = Vec::new();
    d.push((key_afk(), Json::Bool(false)));
    d.push((key_status(), Json::Str(presence.status.name_bytes())));
    d.push((key_since(), Json::UInt(since_millis)));
    d.push((key_activities(), Json::Arr(arr)));
    let ghost dv = d@;
    let r = Json::Obj(d);
    proof {
        lemma_view_elems(av);
        assert(view_elems(av) =~= (match activity_view(presence.activity) {
            Some(a) => seq![activity_json(a)],
            None => Seq::<JsonV>::empty(),
        }));
        lemma_view_fields(dv);
        let t = presence_json(activity_view(presence.activity), presence.status, since_millis);
        assert(view_fields(dv)[0] == t->Obj_0[0]);
        assert(view_fields(dv)[1] == t->Obj_0[1]);
        assert(view_fields(dv)[2] == t->Obj_0[2]);
        assert(view_fields(dv)[3] == t->Obj_0[3]);
        assert(view_fields(dv) =~= t->Obj_0);
        assert(r@ == t);
    }
    r
}

/// Builds the identify envelope.  The `compress` wire flag is true exactly
/// when `mode` is [`TransportCompression::None`]: with no transport-level
/// stream compression the caller instead asks the server to deflate each
/// payload individually.
pub fn identify_message(
    token: &[u8],
    shard: &ShardInfo,
    intents: GatewayIntents,
    presence: &PresenceData,
    mode: TransportCompression,
    since_millis: u64,
    os: &[u8],
) -> (r: Json)
    ensures
        r@ == identify_envelope(
            token@,
            *shard,
            intents.bits,
            identify_compress(mode),
            os@,
            activity_view(presence.activity),
            presence.status,
            since_millis,
        ),
{
    let compress = match mode {
        TransportCompression::Identity => true,
        _ => false,
    };
    let mut shard_arr: Vec<Json> = Vec::new();
    shard_arr.push(Json::UInt(shard.id as u64));
    shard_arr.push(Json::UInt(shard.total as u64));
    let ghost sv = shard_arr@;
    let mut props: Vec<(Vec<u8>, Json)> = Vec::new();
    props.push((key_browser(), Json::Str(key_serenity())));
    props.push((key_device(), Json::Str(key_serenity())));
    props.push((key_os(), Json::Str(clone_bytes(os))));
    let ghost pv = props@;
    let presence_obj = presence_message(presence, since_millis);
    let mut d: Vec<(Vec<u8>, Json)> = Vec::new();
    d.push((key_compress(), Json::Bool(compress)));
    d.push((key_token(), Json::Str(clone_bytes(token))));
    d.push((key_large_threshold(), Json::UInt(LARGE_THRESHOLD as u64)));
    d.push((key_shard(), Json::Arr(shard_arr)));
    d.push((key_intents(), Json::UInt(intents.bits)));
    d.push((key_properties(), Json::Obj(props)));
    d.push((key_presence(), presence_obj));
    let ghost dv = d@;
    let r = wrap_envelope(Opcode::Identify, Json::Obj(d));
    proof {
        lemma_view_elems(sv);
        assert(view_elems(sv) =~= seq![
            JsonV::UInt(shard.id as u64),
            JsonV::UInt(shard.total as u64),
        ]);
        lemma_view_fields(pv);
        assert(view_fields(pv) =~= seq![
            (k_browser(), JsonV::Str(k_serenity())),
            (k_device(), JsonV::Str(k_serenity())),
            (k_os(), JsonV::Str(os@)),
        ]);
        lemma_view_fields(dv);
        assert(view_fields(dv) =~= seq![
            (k_compress(), JsonV::Bool(identify_compress(mode))),
            (k_token(), JsonV::Str(token@)),
            (k_large_threshold(), JsonV::UInt(LARGE_THRESHOLD as u64)),
            (
                k_shard(),
                JsonV::Arr(seq![JsonV::UInt(shard.id as u64), JsonV::UInt(shard.total as u64)]),
            ),
            (k_intents(), JsonV::UInt(intents.bits)),
            (k_properties(), properties_json(os@)),
            (
                k_presence(),
                presence_json(activity_view(presence.activity), presence.status, since_millis),
            ),
        ]);
    }
    r
}

/// Builds the standalone presence-update envelope.
pub fn presence_update_message(presence: &PresenceData, since_millis: u64) -> (r: Json)
    ensures
        r@ == presence_update_envelope(
            activity_view(presence.activity),
            presence.status,
            since_millis,
        ),
{
    let d = presence_message(presence, since_millis);
    wrap_envelope(Opcode::PresenceUpdate, d)
}

/// Builds the member-chunk request envelope.  The tri-state filter collapses
/// to mutually exclusive wire fields: no filter becomes `query = ""` with no
/// `user_ids`, a query filter becomes `query` with no `user_ids`, and an
/// id-list filter becomes `user_ids` with no `query`.  `limit` defaults to 0
/// and `nonce` to the empty string.
pub fn chunk_guild_message(
    guild_id: GuildId,
    limit: Option<u16>,
    presences: bool,
    filter: ChunkGuildFilter,
    nonce: Option<&[u8]>,
) -> (r: Json)
    ensures
        r@ == chunk_guild_envelope(
            guild_id.value,
            chunk_query_of(filter),
            match limit {
                Some(l) => l,
                None => 0,
            },
            presences,
            chunk_user_ids_of(filter),
            match nonce {
                Some(n) => n@,
                None => Seq::<u8>::empty(),
            },
        ),
{
    let mut d: Vec<(Vec<u8>, Json)> = Vec::new();
    d.push((key_guild_id(), Json::UInt(guild_id.get())));
    let ids: Option<Vec<UserId>> = match filter {
        ChunkGuildFilter::NoFilter => {
            d.push((key_query(), Json::Str(Vec::new())));
            None
        },
        ChunkGuildFilter::Query(q) => {
            d.push((key_query(), Json::Str(q)));
            None
        },
        ChunkGuildFilter::UserIds(u) => Some(u),
    };
    let limit_value = match limit {
        Some(l) => l,
        None => 0,
    };
    d.push((key_limit(), Json::UInt(limit_value as u64)));
    d.push((key_presences(), Json::Bool(presences)));
    let ghost idsv = ids;
    match ids {
        Some(u) => {
            let mut arr: Vec<Json> = Vec::new();
            let mut i: usize = 0;
            while i < u.len()
                invariant
                    i <= u@.len(),
                    arr@.len() == i,
                    forall|k: int| 0 <= k < i ==> arr@[k] == (Json::UInt(u@[k].value)),
                decreases u@.len() - i,
            {
                arr.push(Json::UInt(u[i].get()));
                i = i + 1;
            }
            let ghost av = arr@;
            d.push((key_user_ids(), Json::Arr(arr)));
            proof {
                lemma_view_elems(av);
                assert(view_elems(av) =~= u@.map_values(|x: UserId| x.value).map_values(
                    |x: u64| JsonV::UInt(x),
                ));
            }
        },
        None => {},
    }
    let nonce_vec = match nonce {
        Some(n) => clone_bytes(n),
        None => Vec::new(),
    };
    d.push((key_nonce(), Json::Str(nonce_vec)));
    let ghost dv = d@;
    let r = wrap_envelope(Opcode::RequestGuildMembers, Json::Obj(d));
    proof {
        lemma_view_fields(dv);
        let target = chunk_guild_envelope(
            guild_id.value,
            chunk_query_of(filter),
            match limit {
                Some(l) => l,
                None => 0,
            },
            presences,
            chunk_user_ids_of(filter),
            match nonce {
                Some(n) => n@,
                None => Seq::<u8>::empty(),
            },
        );
        assert(view_fields(dv) =~= target->Obj_0[1].1->Obj_0);
    }
    r
}

/// The fields an outbound envelope decodes back to: the payload of each of
/// the five outbound kinds, as plain mathematical values.
#[verifier::ext_equal]
pub enum OutboundMessageV {
    Heartbeat { seq_num: Option<u64> },
    Identify {
        token: Seq<u8>,
        compress: bool,
        large_threshold: u64,
        shard_id: u64,
        shard_total: u64,
        intents: u64,
    },
    Resume { session_id: Seq<u8>, token: Seq<u8>, seq_num: u64 },
    PresenceUpdate { afk: bool, status: Seq<u8>, since: u64, activity_names: Seq<Seq<u8>> },
    ChunkGuild {
        guild_id: u64,
        query: Option<Seq<u8>>,
        limit: u64,
        presences: bool,
        user_ids: Option<Seq<u64>>,
        nonce: Seq<u8>,
    },
}

/// The first value stored under `key` at or after position `i`, if any.
pub open spec fn lookup_from(fields: Seq<(Seq<u8>, JsonV)>, i: int, key: Seq<u8>) -> Option<
    JsonV,
>
    decreases fields.len() - i,
{
    if i < 0 || i >= fields.len() {
        None
    } else if fields[i].0 == key {
        Some(fields[i].1)
    } else {
        lookup_from(fields, i + 1, key)
    }
}

/// The first value stored under `key` in an object's fields, if any.
pub open spec fn lookup_field(fields: Seq<(Seq<u8>, JsonV)>, key: Seq<u8>) -> Option<JsonV> {
    lookup_from(fields, 0, key)
}

/// The sequence of numbers an all-integer JSON array decodes to.
pub open spec fn decode_u64_seq(items: Seq<JsonV>) -> Option<Seq<u64>>
    decreases items.len(),
{
    if items.len() == 0 {
        Some(Seq::<u64>::empty())
    } else {
        match (items[0], decode_u64_seq(items.drop_first())) {
            (JsonV::UInt(n), Some(rest)) => Some(seq![n] + rest),
            _ => None,
        }
    }
}

/// The names of the activity objects in a JSON array.
pub open spec fn decode_activity_names(items: Seq<JsonV>) -> Option<Seq<Seq<u8>>>
    decreases items.len(),
{
    if items.len() == 0 {
        Some(Seq::<Seq<u8>>::empty())
    } else {
        match items[0] {
            JsonV::Obj(fields) => match (
                lookup_field(fields, k_name()),
                decode_activity_names(items.drop_first()),
            ) {
                (Some(JsonV::Str(name)), Some(rest)) => Some(seq![name] + rest),
                _ => None,
            },
            _ => None,
        }
    }
}

/// The heartbeat payload decodes to its optional sequence number.
pub open spec fn decode_heartbeat_d(d: JsonV) -> Option<OutboundMessageV> {
    match d {
        JsonV::UInt(n) => Some(OutboundMessageV::Heartbeat { seq_num: Some(n) }),
        JsonV::Null => Some(OutboundMessageV::Heartbeat { seq_num: None }),
        _ => None,
    }
}

/// The identify payload decodes to its principal fields.
pub open spec fn decode_identify_d(d: JsonV) -> Option<OutboundMessageV> {
    match d {
        JsonV::Obj(f) => match (
            lookup_field(f, k_compress()),
            lookup_field(f, k_token()),
            lookup_field(f, k_large_threshold()),
            lookup_field(f, k_shard()),
            lookup_field(f, k_intents()),
        ) {
            (
                Some(JsonV::Bool(compress)),
                Some(JsonV::Str(token)),
                Some(JsonV::UInt(large_threshold)),
                Some(JsonV::Arr(shard)),
                Some(JsonV::UInt(intents)),
            ) => {
                if shard.len() == 2 {
                    match (shard[0], shard[1]) {
                        (JsonV::UInt(shard_id), JsonV::UInt(shard_total)) => Some(
                            OutboundMessageV::Identify {
                                token,
                                compress,
                                large_threshold,
                                shard_id,
                                shard_total,
                                intents,
                            },
                        ),
                        _ => None,
                    }
                } else {
                    None
                }
            },
            _ => None,
        },
        _ => None,
    }
}

/// The resume payload decodes to session id, token and sequence.
pub open spec fn decode_resume_d(d: JsonV) -> Option<OutboundMessageV> {
    match d {
        JsonV::Obj(f) => match (
            lookup_field(f, k_session_id()),
            lookup_field(f, k_token()),
            lookup_field(f, k_seq()),
        ) {
            (Some(JsonV::Str(session_id)), Some(JsonV::Str(token)), Some(JsonV::UInt(s))) => Some(
                OutboundMessageV::Resume { session_id, token, seq_num: s },
            ),
            _ => None,
        },
        _ => None,
    }
}

/// The presence-update payload decodes to its flags, status, clock reading
/// and activity names.
pub open spec fn decode_presence_d(d: JsonV) -> Option<OutboundMessageV> {
    match d {
        JsonV::Obj(f) => match (
            lookup_field(f, k_afk()),
            lookup_field(f, k_status()),
            lookup_field(f, k_since()),
            lookup_field(f, k_activities()),
        ) {
            (
                Some(JsonV::Bool(afk)),
                Some(JsonV::Str(status)),
                Some(JsonV::UInt(since)),
                Some(JsonV::Arr(items)),
            ) => match decode_activity_names(items) {
                Some(activity_names) => Some(
                    OutboundMessageV::PresenceUpdate { afk, status, since, activity_names },
                ),
                None => None,
            },
            _ => None,
        },
        _ => None,
    }
}

/// The member-chunk payload decodes to its wire fields; `query` and
/// `user_ids` are recovered as present or absent.
pub open spec fn decode_chunk_guild_d(d: JsonV) -> Option<OutboundMessageV> {
    match d {
        JsonV::Obj(f) => match (
            lookup_field(f, k_guild_id()),
            lookup_field(f, k_limit()),
            lookup_field(f, k_presences()),
            lookup_field(f, k_nonce()),
        ) {
            (
                Some(JsonV::UInt(guild_id)),
                Some(JsonV::UInt(limit)),
                Some(JsonV::Bool(presences)),
                Some(JsonV::Str(nonce)),
            ) => {
                let query = match lookup_field(f, k_query()) {
                    Some(JsonV::Str(q)) => Some(Some(q)),
                    Some(_) => None,
                    None => Some(None),
                };
                let user_ids = match lookup_field(f, k_user_ids()) {
                    Some(JsonV::Arr(items)) => match decode_u64_seq(items) {
                        Some(u) => Some(Some(u)),
                        None => None,
                    },
                    Some(_) => None,
                    None => Some(None),
                };
                match (query, user_ids) {
                    (Some(q), Some(u)) => Some(
                        OutboundMessageV::ChunkGuild {
                            guild_id,
                            query: q,
                            limit,
                            presences,
                            user_ids: u,
                            nonce,
                        },
                    ),
                    _ => None,
                }
            },
            _ => None,
        },
        _ => None,
    }
}

/// Which outbound message an `{op, d}` envelope denotes: the opcode selects
/// the payload decoder.
pub open spec fn decode_outbound_spec(v: JsonV) -> Option<OutboundMessageV> {
    match v {
        JsonV::Obj(fields) => match (lookup_field(fields, k_op()), lookup_field(fields, k_d())) {
            (Some(JsonV::UInt(op)), Some(d)) => {
                if op == 1 {
                    decode_heartbeat_d(d)
                } else if op == 2 {
                    decode_identify_d(d)
                } else if op == 3 {
                    decode_presence_d(d)
                } else if op == 6 {
                    decode_resume_d(d)
                } else if op == 8 {
                    decode_chunk_guild_d(d)
                } else {
                    None
                }
            },
            _ => None,
        },
        _ => None,
    }
}

/// Round trip: decoding the heartbeat envelope recovers its opcode and
/// sequence number.
pub proof fn lemma_heartbeat_round_trip(seq_num: Option<u64>)
    ensures
        decode_outbound_spec(heartbeat_envelope(seq_num)) == Some(
            OutboundMessageV::Heartbeat { seq_num },
        ),
{
    reveal_with_fuel(lookup_from, 4);
}

/// Round trip: decoding the resume envelope recovers its opcode, session id,
/// token and sequence.
pub proof fn lemma_resume_round_trip(session_id: Seq<u8>, token: Seq<u8>, seq_num: u64)
    ensures
        decode_outbound_spec(resume_envelope(session_id, token, seq_num)) == Some(
            OutboundMessageV::Resume { session_id, token, seq_num },
        ),
{
    reveal_with_fuel(lookup_from, 6);
}

/// Round trip: decoding the identify envelope recovers its opcode and
/// principal fields — token, compress flag, large threshold, shard and
/// intents.
pub proof fn lemma_identify_round_trip(
    token: Seq<u8>,
    shard: ShardInfo,
    intents: u64,
    compress: bool,
    os: Seq<u8>,
    activity: Option<ActivityDataV>,
    status: OnlineStatus,
    since: u64,
)
    ensures
        decode_outbound_spec(
            identify_envelope(token, shard, intents, compress, os, activity, status, since),
        ) == Some(
            OutboundMessageV::Identify {
                token,
                compress,
                large_threshold: LARGE_THRESHOLD as u64,
                shard_id: shard.id as u64,
                shard_total: shard.total as u64,
                intents,
            },
        ),
{
    reveal_with_fuel(lookup_from, 10);
}

/// Round trip: decoding the presence-update envelope recovers its opcode,
/// afk flag, status, clock reading and the activity names.
pub proof fn lemma_presence_update_round_trip(
    activity: Option<ActivityDataV>,
    status: OnlineStatus,
    since: u64,
)
    ensures
        decode_outbound_spec(presence_update_envelope(activity, status, since)) == Some(
            OutboundMessageV::PresenceUpdate {
                afk: false,
                status: status_name(status),
                since,
                activity_names: match activity {
                    Some(a) => seq![a.name],
                    None => Seq::<Seq<u8>>::empty(),
                },
            },
        ),
{
    reveal_with_fuel(lookup_from, 8);
    match activity {
        Some(a) => {
            let items = seq![activity_json(a)];
            assert(items.drop_first() =~= Seq::<JsonV>::empty());
            assert(decode_activity_names(items) == Some(seq![a.name]));
        },
        None => {
            assert(decode_activity_names(Seq::<JsonV>::empty()) == Some(
                Seq::<Seq<u8>>::empty(),
            ));
        },
    }
}

/// Round trip: decoding the member-chunk envelope recovers its opcode and
/// wire fields, including which of the mutually exclusive filter fields is
/// present.
pub proof fn lemma_chunk_guild_round_trip(
    guild_id: u64,
    query: Option<Seq<u8>>,
    limit: u16,
    presences: bool,
    user_ids: Option<Seq<u64>>,
    nonce: Seq<u8>,
)
    ensures
        decode_outbound_spec(
            chunk_guild_envelope(guild_id, query, limit, presences, user_ids, nonce),
        ) == Some(
            OutboundMessageV::ChunkGuild {
                guild_id,
                query,
                limit: limit as u64,
                presences,
                user_ids,
                nonce,
            },
        ),
{
    reveal_with_fuel(lookup_from, 10);
    match user_ids {
        Some(u) => {
            lemma_decode_u64_seq_of_uints(u);
        },
        None => {},
    }
}

/// Mapping numbers into JSON integers and decoding them back is the
/// identity.
proof fn lemma_decode_u64_seq_of_uints(u: Seq<u64>)
    ensures
        decode_u64_seq(u.map_values(|x: u64| JsonV::UInt(x))) == Some(u),
    decreases u.len(),
{
    let items = u.map_values(|x: u64| JsonV::UInt(x));
    if u.len() == 0 {
        assert(u =~= Seq::<u64>::empty());
    } else {
        lemma_decode_u64_seq_of_uints(u.drop_first());
        assert(items.drop_first() =~= u.drop_first().map_values(|x: u64| JsonV::UInt(x)));
        assert(seq![u[0]] + u.drop_first() =~= u);
    }
}

} // verus!
