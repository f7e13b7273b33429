//! The message decoder: one envelope (command string plus JSON payload) is
//! mapped to one variant of the closed room-event taxonomy, or rejected as
//! an unsupported command or a malformed payload.

use vstd::prelude::*;
use crate::json::{
    JsonVal, json_model, obj_field, arr_at, get_field, get_index, arr_len, as_str_owned, as_u64,
    as_bool,
};

verus! {

/// One decoded command-plus-payload unit extracted from a message-operation
/// frame, prior to taxonomy decoding.
#[derive(Debug)]
pub struct Envelope {
    pub command: String,
    pub payload: serde_json::Value,
}

impl View for Envelope {
    type V = (Seq<char>, JsonVal);

    open spec fn view(&self) -> (Seq<char>, JsonVal) {
        (self.command@, json_model(self.payload))
    }
}

/// A paid membership tier, in increasing privilege: captain, commander,
/// governor. The wire encodes them as 1, 2 and 3 respectively, and the
/// variants are declared in increasing privilege, so the derived order
/// follows it.
#[derive(Debug, Clone, Copy, PartialEq, Eq, PartialOrd, Ord, Structural)]
pub enum GuardRank {
    Captain,
    Commander,
    Governor,
}

/// The sub-type of a viewer-interaction event.
#[derive(Debug, Clone, Copy, PartialEq, Eq, Structural)]
pub enum InteractKind {
    Enter,
    Follow,
    Share,
    SpecialFollow,
    MutualFollow,
}

/// A viewer loyalty indicator: a label and a numeric level.
#[derive(Debug, Clone)]
pub struct FanBadge {
    pub label: String,
    pub level: u64,
}

impl View for FanBadge {
    type V = (Seq<char>, u64);

    open spec fn view(&self) -> (Seq<char>, u64) {
        (self.label@, self.level)
    }
}

/// The closed taxonomy of room events handed to the consumer.
#[derive(Debug)]
pub enum RoomEvent {
    LiveStart,
    LiveStop,
    Welcome { username: String, is_privileged: bool },
    WelcomeGuard { username: String, guard_rank: GuardRank },
    Warning { text: String },
    LiveCutOff { text: String },
    Danmaku {
        username: String,
        text: String,
        is_privileged: bool,
        guard_rank: Option<GuardRank>,
        fan_badge: Option<FanBadge>,
    },
    GiftSent { username: String, count: u64, gift_name: String },
    SuperChat { username: String, price: u64, text: String },
    Interact { username: String, kind: InteractKind },
    GuardPurchase { username: String, guard_rank: GuardRank, months: u64 },
}

/// The mathematical shape of a room event, with strings as character
/// sequences.
pub enum RoomEventModel {
    LiveStart,
    LiveStop,
    Welcome { username: Seq<char>, is_privileged: bool },
    WelcomeGuard { username: Seq<char>, guard_rank: GuardRank },
    Warning { text: Seq<char> },
    LiveCutOff { text: Seq<char> },
    Danmaku {
        username: Seq<char>,
        text: Seq<char>,
        is_privileged: bool,
        guard_rank: Option<GuardRank>,
        fan_badge: Option<(Seq<char>, u64)>,
    },
    GiftSent { username: Seq<char>, count: u64, gift_name: Seq<char> },
    SuperChat { username: Seq<char>, price: u64, text: Seq<char> },
    Interact { username: Seq<char>, kind: InteractKind },
    GuardPurchase { username: Seq<char>, guard_rank: GuardRank, months: u64 },
}

impl View for RoomEvent {
    type V = RoomEventModel;

    open spec fn view(&self) -> RoomEventModel {
        match self {
            RoomEvent::LiveStart => RoomEventModel::LiveStart,
            RoomEvent::LiveStop => RoomEventModel::LiveStop,
            RoomEvent::Welcome { username, is_privileged } => RoomEventModel::Welcome {
                username: username@,
                is_privileged: *is_privileged,
            },
            RoomEvent::WelcomeGuard { username, guard_rank } => RoomEventModel::WelcomeGuard {
                username: username@,
                guard_rank: *guard_rank,
            },
            RoomEvent::Warning { text } => RoomEventModel::Warning { text: text@ },
            RoomEvent::LiveCutOff { text } => RoomEventModel::LiveCutOff { text: text@ },
            RoomEvent::Danmaku { username, text, is_privileged, guard_rank, fan_badge } => (
            RoomEventModel::Danmaku {
                username: username@,
                text: text@,
                is_privileged: *is_privileged,
                guard_rank: *guard_rank,
                fan_badge: match fan_badge {
                    Some(b) => Some(b@),
                    None => None,
                },
            }),
            RoomEvent::GiftSent { username, count, gift_name } => RoomEventModel::GiftSent {
                username: username@,
                count: *count,
                gift_name: gift_name@,
            },
            RoomEvent::SuperChat { username, price, text } => RoomEventModel::SuperChat {
                username: username@,
                price: *price,
                text: text@,
            },
            RoomEvent::Interact { username, kind } => RoomEventModel::Interact {
                username: username@,
                kind: *kind,
            },
            RoomEvent::GuardPurchase { username, guard_rank, months } => (
            RoomEventModel::GuardPurchase {
                username: username@,
                guard_rank: *guard_rank,
                months: *months,
            }),
        }
    }
}

/// Why one envelope was not decoded: its command is outside the known set,
/// or the command is known but the payload's required fields are absent or
/// of the wrong shape.
#[derive(Debug)]
pub enum DecodeError {
    NotSupported(String),
    DeserializeError,
}

/// The mathematical shape of a decode failure.
pub enum DecodeErrorModel {
    NotSupported(Seq<char>),
    DeserializeError,
}

impl View for DecodeError {
    type V = DecodeErrorModel;

    open spec fn view(&self) -> DecodeErrorModel {
        match self {
            DecodeError::NotSupported(cmd) => DecodeErrorModel::NotSupported(cmd@),
            DecodeError::DeserializeError => DecodeErrorModel::DeserializeError,
        }
    }
}

/// The guard rank the wire value `n` denotes, if any.
pub open spec fn spec_guard_rank_of(n: u64) -> Option<GuardRank> {
    if n == 1 {
        Some(GuardRank::Captain)
    } else if n == 2 {
        Some(GuardRank::Commander)
    } else if n == 3 {
        Some(GuardRank::Governor)
    } else {
        None
    }
}

/// Maps a wire guard-rank value to its rank.
pub fn guard_rank_of(n: u64) -> (r: Option<GuardRank>)
    ensures
        r == spec_guard_rank_of(n),
{
    if n == 1 {
        Some(GuardRank::Captain)
    } else if n == 2 {
        Some(GuardRank::Commander)
    } else if n == 3 {
        Some(GuardRank::Governor)
    } else {
        None
    }
}

/// The interaction kind the wire value `n` denotes, if any.
pub open spec fn spec_interact_kind_of(n: u64) -> Option<InteractKind> {
    if n == 1 {
        Some(InteractKind::Enter)
    } else if n == 2 {
        Some(InteractKind::Follow)
    } else if n == 3 {
        Some(InteractKind::Share)
    } else if n == 4 {
        Some(InteractKind::SpecialFollow)
    } else if n == 5 {
        Some(InteractKind::MutualFollow)
    } else {
        None
    }
}

/// Maps a wire interaction sub-type value to its kind.
pub fn interact_kind_of(n: u64) -> (r: Option<InteractKind>)
    ensures
        r == spec_interact_kind_of(n),
{
    if n == 1 {
        Some(InteractKind::Enter)
    } else if n == 2 {
        Some(InteractKind::Follow)
    } else if n == 3 {
        Some(InteractKind::Share)
    } else if n == 4 {
        Some(InteractKind::SpecialFollow)
    } else if n == 5 {
        Some(InteractKind::MutualFollow)
    } else {
        None
    }
}

/// The string under `key` of an object, if the field is there and is a
/// string.
pub open spec fn spec_obj_str(m: JsonVal, key: Seq<char>) -> Option<Seq<char>> {
    match obj_field(m, key) {
        Some(JsonVal::Str(s)) => Some(s),
        _ => None,
    }
}

/// The unsigned number under `key` of an object, if the field is there and
/// reads as one.
pub open spec fn spec_obj_u64(m: JsonVal, key: Seq<char>) -> Option<u64> {
    match obj_field(m, key) {
        Some(JsonVal::Num(Some(n))) => Some(n),
        _ => None,
    }
}

/// The boolean under `key` of an object, if the field is there and is a
/// boolean.
pub open spec fn spec_obj_bool(m: JsonVal, key: Seq<char>) -> Option<bool> {
    match obj_field(m, key) {
        Some(JsonVal::Bool(b)) => Some(b),
        _ => None,
    }
}

/// The string at index `i` of an array, if present and a string.
pub open spec fn spec_arr_str(m: JsonVal, i: int) -> Option<Seq<char>> {
    match arr_at(m, i) {
        Some(JsonVal::Str(s)) => Some(s),
        _ => None,
    }
}

/// The unsigned number at index `i` of an array, if present and readable as
/// one.
pub open spec fn spec_arr_u64(m: JsonVal, i: int) -> Option<u64> {
    match arr_at(m, i) {
        Some(JsonVal::Num(Some(n))) => Some(n),
        _ => None,
    }
}

pub(crate) fn obj_str(v: &serde_json::Value, key: &str) -> (r: Option<String>)
    ensures
        match spec_obj_str(json_model(*v), key@) {
            Some(s) => r matches Some(x) && x@ == s,
            None => r is None,
        },
{
    match get_field(v, key) {
        Some(x) => as_str_owned(x),
        None => None,
    }
}

fn obj_u64(v: &serde_json::Value, key: &str) -> (r: Option<u64>)
    ensures
        r == spec_obj_u64(json_model(*v), key@),
{
    match get_field(v, key) {
        Some(x) => as_u64(x),
        None => None,
    }
}

fn obj_bool(v: &serde_json::Value, key: &str) -> (r: Option<bool>)
    ensures
        r == spec_obj_bool(json_model(*v), key@),
{
    match get_field(v, key) {
        Some(x) => as_bool(x),
        None => None,
    }
}

fn idx_str(v: &serde_json::Value, i: usize) -> (r: Option<String>)
    ensures
        match spec_arr_str(json_model(*v), i as int) {
            Some(s) => r matches Some(x) && x@ == s,
            None => r is None,
        },
{
    match get_index(v, i) {
        Some(x) => as_str_owned(x),
        None => None,
    }
}

fn idx_u64(v: &serde_json::Value, i: usize) -> (r: Option<u64>)
    ensures
        r == spec_arr_u64(json_model(*v), i as int),
{
    match get_index(v, i) {
        Some(x) => as_u64(x),
        None => None,
    }
}

/// What a positional fan-badge value denotes: `Some(None)` for an empty
/// array (no badge), `Some(Some((label, level)))` for an array whose first
/// element is the numeric level and second the label, and `None` for any
/// other shape.
pub open spec fn spec_fan_badge(m: JsonVal) -> Option<Option<(Seq<char>, u64)>> {
    match m {
        JsonVal::Arr(items) => if items.len() == 0 {
            Some(None)
        } else {
            match (spec_arr_u64(m, 0), spec_arr_str(m, 1)) {
                (Some(level), Some(label)) => Some(Some((label, level))),
                _ => None,
            }
        },
        _ => None,
    }
}

/// What a positional guard-rank value denotes: `Some(None)` for the wire
/// value 0 (no rank), `Some(Some(rank))` for 1 to 3, `None` otherwise.
pub open spec fn spec_opt_guard_rank(n: u64) -> Option<Option<GuardRank>> {
    if n == 0 {
        Some(None)
    } else {
        match spec_guard_rank_of(n) {
            Some(r) => Some(Some(r)),
            None => None,
        }
    }
}

/// The decode rule for a chat line. The payload encodes its fields
/// positionally: index 1 the text; index 2 an array with the username at
/// index 1 and a privilege flag (a number, non-zero meaning privileged) at
/// index 2; index 3 the fan badge, an empty array or a (level, label) pair;
/// index 7 the guard rank, 0 meaning none. Any index out of range or of the
/// wrong shape is a `DeserializeError`, never defaulted.
pub open spec fn spec_decode_danmaku(p: JsonVal) -> Result<RoomEventModel, DecodeErrorModel> {
    match (arr_at(p, 2), arr_at(p, 3)) {
        (Some(user), Some(badge)) => match (
            spec_arr_str(p, 1),
            spec_arr_str(user, 1),
            spec_arr_u64(user, 2),
            spec_fan_badge(badge),
            spec_arr_u64(p, 7),
        ) {
            (Some(text), Some(username), Some(privilege), Some(fan_badge), Some(g)) => match (
            spec_opt_guard_rank(g)) {
                Some(guard_rank) => Ok(RoomEventModel::Danmaku {
                    username,
                    text,
                    is_privileged: privilege != 0,
                    guard_rank,
                    fan_badge,
                }),
                None => Err(DecodeErrorModel::DeserializeError),
            },
            _ => Err(DecodeErrorModel::DeserializeError),
        },
        _ => Err(DecodeErrorModel::DeserializeError),
    }
}

/// The decode rule for a welcome: `uname` a string, `is_admin` a boolean.
pub open spec fn spec_decode_welcome(p: JsonVal) -> Result<RoomEventModel, DecodeErrorModel> {
    match (spec_obj_str(p, "uname"@), spec_obj_bool(p, "is_admin"@)) {
        (Some(username), Some(is_privileged)) => Ok(RoomEventModel::Welcome {
            username,
            is_privileged,
        }),
        _ => Err(DecodeErrorModel::DeserializeError),
    }
}

/// The decode rule for a member's welcome: `uname` a string, `guard_level`
/// a rank value 1 to 3.
pub open spec fn spec_decode_welcome_guard(p: JsonVal) -> Result<
    RoomEventModel,
    DecodeErrorModel,
> {
    match (spec_obj_str(p, "uname"@), spec_obj_u64(p, "guard_level"@)) {
        (Some(username), Some(g)) => match spec_guard_rank_of(g) {
            Some(guard_rank) => Ok(RoomEventModel::WelcomeGuard { username, guard_rank }),
            None => Err(DecodeErrorModel::DeserializeError),
        },
        _ => Err(DecodeErrorModel::DeserializeError),
    }
}

/// The decode rule for a moderator warning: `msg` a string.
pub open spec fn spec_decode_warning(p: JsonVal) -> Result<RoomEventModel, DecodeErrorModel> {
    match spec_obj_str(p, "msg"@) {
        Some(text) => Ok(RoomEventModel::Warning { text }),
        None => Err(DecodeErrorModel::DeserializeError),
    }
}

/// The decode rule for a stream cut-off: `msg` a string.
pub open spec fn spec_decode_cut_off(p: JsonVal) -> Result<RoomEventModel, DecodeErrorModel> {
    match spec_obj_str(p, "msg"@) {
        Some(text) => Ok(RoomEventModel::LiveCutOff { text }),
        None => Err(DecodeErrorModel::DeserializeError),
    }
}

/// The decode rule for a gift: `uname` a string, `num` a number, `giftName`
/// a string.
pub open spec fn spec_decode_gift(p: JsonVal) -> Result<RoomEventModel, DecodeErrorModel> {
    match (spec_obj_str(p, "uname"@), spec_obj_u64(p, "num"@), spec_obj_str(p, "giftName"@)) {
        (Some(username), Some(count), Some(gift_name)) => Ok(RoomEventModel::GiftSent {
            username,
            count,
            gift_name,
        }),
        _ => Err(DecodeErrorModel::DeserializeError),
    }
}

/// The decode rule for a super chat: `uname` a string, `price` a number,
/// `message` a string.
pub open spec fn spec_decode_super_chat(p: JsonVal) -> Result<RoomEventModel, DecodeErrorModel> {
    match (spec_obj_str(p, "uname"@), spec_obj_u64(p, "price"@), spec_obj_str(p, "message"@)) {
        (Some(username), Some(price), Some(text)) => Ok(RoomEventModel::SuperChat {
            username,
            price,
            text,
        }),
        _ => Err(DecodeErrorModel::DeserializeError),
    }
}

/// The decode rule for a viewer interaction: `uname` a string, `msg_type` a
/// sub-type value 1 to 5.
pub open spec fn spec_decode_interact(p: JsonVal) -> Result<RoomEventModel, DecodeErrorModel> {
    match (spec_obj_str(p, "uname"@), spec_obj_u64(p, "msg_type"@)) {
        (Some(username), Some(n)) => match spec_interact_kind_of(n) {
            Some(kind) => Ok(RoomEventModel::Interact { username, kind }),
            None => Err(DecodeErrorModel::DeserializeError),
        },
        _ => Err(DecodeErrorModel::DeserializeError),
    }
}

/// The decode rule for a membership purchase: `uname` a string,
/// `guard_level` a rank value 1 to 3, `num` the number of months.
pub open spec fn spec_decode_guard_buy(p: JsonVal) -> Result<RoomEventModel, DecodeErrorModel> {
    match (
        spec_obj_str(p, "uname"@),
        spec_obj_u64(p, "guard_level"@),
        spec_obj_u64(p, "num"@),
    ) {
        (Some(username), Some(g), Some(months)) => match spec_guard_rank_of(g) {
            Some(guard_rank) => Ok(RoomEventModel::GuardPurchase {
                username,
                guard_rank,
                months,
            }),
            None => Err(DecodeErrorModel::DeserializeError),
        },
        _ => Err(DecodeErrorModel::DeserializeError),
    }
}

/// Whether `cmd` is in the decoder's known command set.
pub open spec fn known_command(cmd: Seq<char>) -> bool {
    ||| cmd == "LIVE"@
    ||| cmd == "PREPARING"@
    ||| cmd == "WELCOME"@
    ||| cmd == "WELCOME_GUARD"@
    ||| cmd == "WARNING"@
    ||| cmd == "CUT_OFF"@
    ||| cmd == "DANMU_MSG"@
    ||| cmd == "SEND_GIFT"@
    ||| cmd == "SUPER_CHAT_MESSAGE"@
    ||| cmd == "INTERACT_WORD"@
    ||| cmd == "GUARD_BUY"@
}

/// What decoding an envelope yields: the decode rule of its command applied
/// to its payload, or `NotSupported` for a command outside the known set.
pub open spec fn spec_decode(cmd: Seq<char>, p: JsonVal) -> Result<
    RoomEventModel,
    DecodeErrorModel,
> {
    if cmd == "LIVE"@ {
        Ok(RoomEventModel::LiveStart)
    } else if cmd == "PREPARING"@ {
        Ok(RoomEventModel::LiveStop)
    } else if cmd == "WELCOME"@ {
        spec_decode_welcome(p)
    } else if cmd == "WELCOME_GUARD"@ {
        spec_decode_welcome_guard(p)
    } else if cmd == "WARNING"@ {
        spec_decode_warning(p)
    } else if cmd == "CUT_OFF"@ {
        spec_decode_cut_off(p)
    } else if cmd == "DANMU_MSG"@ {
        spec_decode_danmaku(p)
    } else if cmd == "SEND_GIFT"@ {
        spec_decode_gift(p)
    } else if cmd == "SUPER_CHAT_MESSAGE"@ {
        spec_decode_super_chat(p)
    } else if cmd == "INTERACT_WORD"@ {
        spec_decode_interact(p)
    } else if cmd == "GUARD_BUY"@ {
        spec_decode_guard_buy(p)
    } else {
        Err(DecodeErrorModel::NotSupported(cmd))
    }
}

fn cmd_is(cmd: &String, lit: &str) -> (r: bool)
    ensures
        r == (cmd@ == lit@),
{
    *cmd == lit.to_owned()
}

fn decode_danmaku(p: &serde_json::Value) -> (r: Result<RoomEvent, DecodeError>)
    ensures
        match r {
            Ok(ev) => spec_decode_danmaku(json_model(*p)) == Ok::<_, DecodeErrorModel>(ev@),
            Err(er) => spec_decode_danmaku(json_model(*p)) == Err::<RoomEventModel, _>(er@),
        },
{
    let user = match get_index(p, 2) {
        Some(u) => u,
        None => {
            return Err(DecodeError::DeserializeError);
        },
    };
    let badge = match get_index(p, 3) {
        Some(b) => b,
        None => {
            return Err(DecodeError::DeserializeError);
        },
    };
    let text = idx_str(p, 1);
    let username = idx_str(user, 1);
    let privilege = idx_u64(user, 2);
    let fan_badge = decode_fan_badge(badge);
    let g = idx_u64(p, 7);
    match (text, username, privilege, fan_badge, g) {
        (Some(text), Some(username), Some(privilege), Some(fan_badge), Some(g)) => {
            if g == 0 {
                Ok(RoomEvent::Danmaku {
                    username,
                    text,
                    is_privileged: privilege != 0,
                    guard_rank: None,
                    fan_badge,
                })
            } else {
                match guard_rank_of(g) {
                    Some(rank) => Ok(RoomEvent::Danmaku {
                        username,
                        text,
                        is_privileged: privilege != 0,
                        guard_rank: Some(rank),
                        fan_badge,
                    }),
                    None => Err(DecodeError::DeserializeError),
                }
            }
        },
        _ => Err(DecodeError::DeserializeError),
    }
}

fn decode_fan_badge(b: &serde_json::Value) -> (r: Option<Option<FanBadge>>)
    ensures
        match spec_fan_badge(json_model(*b)) {
            Some(Some(m)) => r matches Some(Some(fb)) && fb@ == m,
            Some(None) => r == Some(Option::<FanBadge>::None),
            None => r is None,
        },
{
    let n = match arr_len(b) {
        Some(n) => n,
        None => {
            return None;
        },
    };
    if n == 0 {
        return Some(None);
    }
    match (idx_u64(b, 0), idx_str(b, 1)) {
        (Some(level), Some(label)) => Some(Some(FanBadge { label, level })),
        _ => None,
    }
}

fn decode_welcome(p: &serde_json::Value) -> (r: Result<RoomEvent, DecodeError>)
    ensures
        match r {
            Ok(ev) => spec_decode_welcome(json_model(*p)) == Ok::<_, DecodeErrorModel>(ev@),
            Err(er) => spec_decode_welcome(json_model(*p)) == Err::<RoomEventModel, _>(er@),
        },
{
    match (obj_str(p, "uname"), obj_bool(p, "is_admin")) {
        (Some(username), Some(is_privileged)) => Ok(RoomEvent::Welcome {
            username,
            is_privileged,
        }),
        _ => Err(DecodeError::DeserializeError),
    }
}

fn decode_welcome_guard(p: &serde_json::Value) -> (r: Result<RoomEvent, DecodeError>)
    ensures
        match r {
            Ok(ev) => spec_decode_welcome_guard(json_model(*p)) == Ok::<_, DecodeErrorModel>(ev@),
            Err(er) => spec_decode_welcome_guard(json_model(*p)) == Err::<RoomEventModel, _>(er@),
        },
{
    match (obj_str(p, "uname"), obj_u64(p, "guard_level")) {
        (Some(username), Some(g)) => match guard_rank_of(g) {
            Some(guard_rank) => Ok(RoomEvent::WelcomeGuard { username, guard_rank }),
            None => Err(DecodeError::DeserializeError),
        },
        _ => Err(DecodeError::DeserializeError),
    }
}

fn decode_gift(p: &serde_json::Value) -> (r: Result<RoomEvent, DecodeError>)
    ensures
        match r {
            Ok(ev) => spec_decode_gift(json_model(*p)) == Ok::<_, DecodeErrorModel>(ev@),
            Err(er) => spec_decode_gift(json_model(*p)) == Err::<RoomEventModel, _>(er@),
        },
{
    match (obj_str(p, "uname"), obj_u64(p, "num"), obj_str(p, "giftName")) {
        (Some(username), Some(count), Some(gift_name)) => Ok(RoomEvent::GiftSent {
            username,
            count,
            gift_name,
        }),
        _ => Err(DecodeError::DeserializeError),
    }
}

fn decode_super_chat(p: &serde_json::Value) -> (r: Result<RoomEvent, DecodeError>)
    ensures
        match r {
            Ok(ev) => spec_decode_super_chat(json_model(*p)) == Ok::<_, DecodeErrorModel>(ev@),
            Err(er) => spec_decode_super_chat(json_model(*p)) == Err::<RoomEventModel, _>(er@),
        },
{
    match (obj_str(p, "uname"), obj_u64(p, "price"), obj_str(p, "message")) {
        (Some(username), Some(price), Some(text)) => Ok(RoomEvent::SuperChat {
            username,
            price,
            text,
        }),
        _ => Err(DecodeError::DeserializeError),
    }
}

fn decode_interact(p: &serde_json::Value) -> (r: Result<RoomEvent, DecodeError>)
    ensures
        match r {
            Ok(ev) => spec_decode_interact(json_model(*p)) == Ok::<_, DecodeErrorModel>(ev@),
            Err(er) => spec_decode_interact(json_model(*p)) == Err::<RoomEventModel, _>(er@),
        },
{
    match (obj_str(p, "uname"), obj_u64(p, "msg_type")) {
        (Some(username), Some(n)) => match interact_kind_of(n) {
            Some(kind) => Ok(RoomEvent::Interact { username, kind }),
            None => Err(DecodeError::DeserializeError),
        },
        _ => Err(DecodeError::DeserializeError),
    }
}

fn decode_guard_buy(p: &serde_json::Value) -> (r: Result<RoomEvent, DecodeError>)
    ensures
        match r {
            Ok(ev) => spec_decode_guard_buy(json_model(*p)) == Ok::<_, DecodeErrorModel>(ev@),
            Err(er) => spec_decode_guard_buy(json_model(*p)) == Err::<RoomEventModel, _>(er@),
        },
{
    match (obj_str(p, "uname"), obj_u64(p, "guard_level"), obj_u64(p, "num")) {
        (Some(username), Some(g), Some(months)) => match guard_rank_of(g) {
            Some(guard_rank) => Ok(RoomEvent::GuardPurchase { username, guard_rank, months }),
            None => Err(DecodeError::DeserializeError),
        },
        _ => Err(DecodeError::DeserializeError),
    }
}

fn decode_text_field(p: &serde_json::Value) -> (r: Option<String>)
    ensures
        match spec_obj_str(json_model(*p), "msg"@) {
            Some(s) => r matches Some(x) && x@ == s,
            None => r is None,
        },
{
    obj_str(p, "msg")
}

/// Decodes one envelope into a room event. A command outside the known set
/// is `NotSupported(cmd)`; a known command whose payload's required fields
/// are absent or of the wrong shape is `DeserializeError`.
pub fn decode(e: &Envelope) -> (r: Result<RoomEvent, DecodeError>)
    ensures
        match r {
            Ok(ev) => spec_decode(e.command@, json_model(e.payload)) == Ok::<
                _,
                DecodeErrorModel,
            >(ev@),
            Err(er) => spec_decode(e.command@, json_model(e.payload)) == Err::<
                RoomEventModel,
                _,
            >(er@),
        },
{
    let p = &e.payload;
    if cmd_is(&e.command, "LIVE") {
        Ok(RoomEvent::LiveStart)
    } else if cmd_is(&e.command, "PREPARING") {
        Ok(RoomEvent::LiveStop)
    } else if cmd_is(&e.command, "WELCOME") {
        decode_welcome(p)
    } else if cmd_is(&e.command, "WELCOME_GUARD") {
        decode_welcome_guard(p)
    } else if cmd_is(&e.command, "WARNING") {
        match decode_text_field(p) {
            Some(text) => Ok(RoomEvent::Warning { text }),
            None => Err(DecodeError::DeserializeError),
        }
    } else if cmd_is(&e.command, "CUT_OFF") {
        match decode_text_field(p) {
            Some(text) => Ok(RoomEvent::LiveCutOff { text }),
            None => Err(DecodeError::DeserializeError),
        }
    } else if cmd_is(&e.command, "DANMU_MSG") {
        decode_danmaku(p)
    } else if cmd_is(&e.command, "SEND_GIFT") {
        decode_gift(p)
    } else if cmd_is(&e.command, "SUPER_CHAT_MESSAGE") {
        decode_super_chat(p)
    } else if cmd_is(&e.command, "INTERACT_WORD") {
        decode_interact(p)
    } else if cmd_is(&e.command, "GUARD_BUY") {
        decode_guard_buy(p)
    } else {
        Err(DecodeError::NotSupported(e.command.clone()))
    }
}

/// A command string outside the known set always decodes to
/// `NotSupported(cmd)`, never to `DeserializeError`, whatever the payload.
pub proof fn lemma_unknown_command_not_supported(cmd: Seq<char>, p: JsonVal)
    requires
        !known_command(cmd),
    ensures
        spec_decode(cmd, p) == Err::<RoomEventModel, DecodeErrorModel>(
            DecodeErrorModel::NotSupported(cmd),
        ),
{
}

} // verus!
