//! Registration response normalizer: decodes the heterogeneous shapes
//! returned by the upstream registration endpoint into one canonical
//! result, and maps non-success statuses to fixed user-facing messages.
//!
//! Only the JSON parse itself is trusted, behind a thin boundary
//! around `serde_json` that yields a plain [`JsonTree`]; the reading
//! of the tree into the [`UpstreamBody`] model and the shape dispatch
//! on that model are both verified exactly.

use vstd::prelude::*;
use vstd::string::*;
use crate::models::{DiscordRegisterResponse, RegisterError, UpstreamBody, UpstreamObject, User};
use crate::text::{dec_str, is_dec_digit, u64_to_string};

verus! {

/// The message synthesized when the upstream shape carries no message.
pub open spec fn spec_default_message() -> Seq<char> {
    "Client creation token generated"@
}

/// Whether `u` is the user the normalizer synthesizes when the
/// upstream shape omits one: the requesting identity, with the given
/// creation time and the default role set.
pub open spec fn spec_synth_user(
    u: User,
    discord_id: i64,
    username: Option<String>,
    now: Seq<char>,
) -> bool {
    &&& u.discord_id == discord_id
    &&& (match (u.username, username) {
        (Some(a), Some(b)) => a@ == b@,
        (None, None) => true,
        _ => false,
    })
    &&& (match u.created_at {
        Some(c) => c@ == now,
        None => false,
    })
    &&& (match u.roles {
        Some(r) => r@.len() == 1 && r@[0]@ == "user"@,
        None => false,
    })
}

/// Whether two optional strings hold the same text.
pub open spec fn spec_opt_str_eq(a: Option<String>, b: Option<String>) -> bool {
    match (a, b) {
        (Some(x), Some(y)) => x@ == y@,
        (None, None) => true,
        _ => false,
    }
}

/// What the normalizer owes for a decoded body: the accepted shapes
/// are tried in priority order — bare token, token+message, full
/// object, then the alternative object which must carry both `user`
/// and `message` — and the first structural match wins.
pub open spec fn spec_normalized(
    r: Result<DiscordRegisterResponse, RegisterError>,
    body: UpstreamBody,
    discord_id: i64,
    username: Option<String>,
    now: Seq<char>,
) -> bool {
    match body {
        UpstreamBody::Token(t) => match r {
            Ok(res) => {
                &&& spec_synth_user(res.user, discord_id, username, now)
                &&& res.message@ == spec_default_message()
                &&& spec_opt_str_eq(res.token, Some(t))
            },
            Err(_) => false,
        },
        UpstreamBody::Object(o) => {
            if o.token is Some && o.message is Some {
                match r {
                    Ok(res) => {
                        &&& spec_synth_user(res.user, discord_id, username, now)
                        &&& spec_opt_str_eq(Some(res.message), o.message)
                        &&& spec_opt_str_eq(res.token, o.token)
                    },
                    Err(_) => false,
                }
            } else if o.user is Some && o.message is Some {
                match r {
                    Ok(res) => {
                        &&& Some(res.user) == o.user
                        &&& spec_opt_str_eq(Some(res.message), o.message)
                        &&& res.token == o.token
                    },
                    Err(_) => false,
                }
            } else {
                r == Err::<DiscordRegisterResponse, RegisterError>(
                    RegisterError::IncompleteResponse,
                )
            }
        },
        UpstreamBody::Malformed(d) => match r {
            Err(RegisterError::ParseError(detail)) => detail@ == d@,
            _ => false,
        },
    }
}

fn make_synth_user(discord_id: i64, username: Option<String>, now: String) -> (u: User)
    ensures
        spec_synth_user(u, discord_id, username, now@),
{
    let mut roles: Vec<String> = Vec::new();
    roles.push("user".to_owned());
    User { discord_id, username, created_at: Some(now), roles: Some(roles) }
}

/// Synthesizes the canonical registration result for a decoded
/// upstream body, trying the accepted shapes in priority order.
pub fn normalize_upstream(
    body: UpstreamBody,
    discord_id: i64,
    username: Option<String>,
    now: String,
) -> (r: Result<DiscordRegisterResponse, RegisterError>)
    ensures
        spec_normalized(r, body, discord_id, username, now@),
{
    match body {
        UpstreamBody::Token(t) => Ok(
            DiscordRegisterResponse {
                user: make_synth_user(discord_id, username, now),
                message: "Client creation token generated".to_owned(),
                token: Some(t),
            },
        ),
        UpstreamBody::Object(o) => {
            let UpstreamObject { token, message, user } = o;
            match (token, message) {
                (Some(t), Some(m)) => Ok(
                    DiscordRegisterResponse {
                        user: make_synth_user(discord_id, username, now),
                        message: m,
                        token: Some(t),
                    },
                ),
                (token, message) => match (user, message) {
                    (Some(u), Some(m)) => Ok(
                        DiscordRegisterResponse { user: u, message: m, token },
                    ),
                    _ => Err(RegisterError::IncompleteResponse),
                },
            }
        },
        UpstreamBody::Malformed(d) => Err(RegisterError::ParseError(d)),
    }
}

/// Whether `status` counts as success, as the upstream HTTP layer
/// defines it.
pub open spec fn spec_is_success(status: u16) -> bool {
    200 <= status < 300
}

/// The fixed user-facing message for a non-success upstream status.
pub open spec fn spec_http_error_message(status: u16, body: Seq<char>) -> Seq<char> {
    if status == 409 {
        "User already exists"@
    } else if status == 401 {
        "Invalid authentication token"@
    } else if status == 500 {
        "Internal server error"@
    } else {
        "HTTP error "@ + dec_str(status as nat) + ": "@ + body
    }
}

/// Maps a non-success upstream status to its fixed user-facing
/// message; any unlisted status yields a generic message carrying the
/// status code and the raw body.
pub fn handle_http_error(status: u16, body: &str) -> (r: String)
    ensures
        r@ == spec_http_error_message(status, body@),
{
    if status == 409 {
        "User already exists".to_owned()
    } else if status == 401 {
        "Invalid authentication token".to_owned()
    } else if status == 500 {
        "Internal server error".to_owned()
    } else {
        let mut r = "HTTP error ".to_owned();
        r.append(u64_to_string(status as u64).as_str());
        r.append(": ");
        r.append(body);
        r
    }
}

/// The human-readable text of a registration failure.
pub open spec fn spec_error_text(e: RegisterError) -> Seq<char> {
    match e {
        RegisterError::ParseError(d) => "API response format error: "@ + d@,
        RegisterError::IncompleteResponse => "Incomplete API response: user or message missing"@,
        RegisterError::UpstreamHttpError(m) => m@,
    }
}

impl RegisterError {
    /// Renders the failure as the text surfaced to the invoker.
    pub fn text(&self) -> (r: String)
        ensures
            r@ == spec_error_text(*self),
    {
        match self {
            RegisterError::ParseError(d) => {
                let mut r = "API response format error: ".to_owned();
                r.append(d.as_str());
                r
            },
            RegisterError::IncompleteResponse => {
                "Incomplete API response: user or message missing".to_owned()
            },
            RegisterError::UpstreamHttpError(m) => m.clone(),
        }
    }
}

/// A parsed JSON document as the plain tree the protocol reads: a
/// number carries the integer it denotes when it is one, an object
/// its fields in decoder order.
#[derive(Debug)]
pub enum JsonTree {
    Null,
    Bool(bool),
    Num(Option<i64>),
    Str(String),
    Arr(Vec<JsonTree>),
    Obj(Vec<(String, JsonTree)>),
}

#[verifier::external_type_specification]
#[verifier::external_body]
pub struct ExValue(serde_json::Value);

pub uninterp spec fn spec_parsed(s: Seq<char>) -> Result<JsonTree, String>;

/// Relies on the variants of `serde_json::Value`: converts a decoded
/// value, one variant for one, into the library's plain tree; a
/// number becomes the integer it denotes when it is one.
#[verifier::external_body]
fn value_to_tree(v: serde_json::Value) -> JsonTree {
    match v {
        serde_json::Value::Null => JsonTree::Null,
        serde_json::Value::Bool(b) => JsonTree::Bool(b),
        serde_json::Value::Number(n) => JsonTree::Num(n.as_i64()),
        serde_json::Value::String(s) => JsonTree::Str(s),
        serde_json::Value::Array(a) => JsonTree::Arr(a.into_iter().map(value_to_tree).collect()),
        serde_json::Value::Object(m) => {
            JsonTree::Obj(m.into_iter().map(|(k, c)| (k, value_to_tree(c))).collect())
        },
    }
}

/// Relies on `serde_json::from_str::<Value>`: decodes JSON text into
/// the plain tree, or reports the decoder's error text. The parse and
/// the variant-for-variant conversion above are functions of the text
/// alone, so the result bears the name `spec_parsed`; nothing more is
/// claimed of the name.
#[verifier::external_body]
fn parse_json_tree(body: &str) -> (r: Result<JsonTree, String>)
    ensures
        r == spec_parsed(body@),
{
    match serde_json::from_str::<serde_json::Value>(body) {
        Ok(v) => Ok(value_to_tree(v)),
        Err(e) => Err(e.to_string()),
    }
}

/// The first field of a decoded object under the key. The decoder
/// never emits two fields with one key, but the rule is fixed here
/// for every tree.
pub open spec fn spec_field(o: Seq<(String, JsonTree)>, key: Seq<char>) -> Option<JsonTree>
    decreases o.len(),
{
    if o.len() == 0 {
        None
    } else if o[0].0@ == key {
        Some(o[0].1)
    } else {
        spec_field(o.drop_first(), key)
    }
}

/// How a field of an upstream object reads under an expected
/// structure: absent (missing or JSON null), present with that
/// structure, or present with another one — which no accepted shape
/// tolerates.
#[derive(Debug)]
pub enum FieldRead<T> {
    Absent,
    Present(T),
    Invalid,
}

/// How the field under `key` reads as a string.
pub open spec fn spec_str_field(o: Seq<(String, JsonTree)>, key: Seq<char>) -> FieldRead<
    Seq<char>,
> {
    match spec_field(o, key) {
        None => FieldRead::Absent,
        Some(t) => match t {
            JsonTree::Null => FieldRead::Absent,
            JsonTree::Str(s) => FieldRead::Present(s@),
            _ => FieldRead::Invalid,
        },
    }
}

/// Whether the optional string `a` is what the field read `f`
/// demands.
pub open spec fn spec_opt_matches(a: Option<String>, f: FieldRead<Seq<char>>) -> bool {
    match (a, f) {
        (Some(s), FieldRead::Present(v)) => s@ == v,
        (None, FieldRead::Absent) => true,
        _ => false,
    }
}

/// Whether the tree is a JSON string.
pub open spec fn spec_is_str(t: JsonTree) -> bool {
    t matches JsonTree::Str(_)
}

/// The text of a string tree (the empty sequence elsewhere).
pub open spec fn spec_str_view(t: JsonTree) -> Seq<char> {
    match t {
        JsonTree::Str(s) => s@,
        _ => Seq::empty(),
    }
}

/// What the carried role set must be for a given `roles` field: the
/// strings of a string array, nothing for any other structure — the
/// upstream accepts any value there, so none fails the decode.
pub open spec fn spec_roles_ok(roles: Option<Vec<String>>, field: Option<JsonTree>) -> bool {
    match field {
        Some(t) => match t {
            JsonTree::Arr(items) => if (forall|i: int|
                0 <= i < items@.len() ==> spec_is_str(#[trigger] items@[i])) {
                match roles {
                    Some(r) => r@.len() == items@.len() && (forall|i: int|
                        0 <= i < r@.len() ==> #[trigger] r@[i]@ == spec_str_view(items@[i])),
                    None => false,
                }
            } else {
                roles is None
            },
            _ => roles is None,
        },
        None => roles is None,
    }
}

/// Whether a `user` field is well-formed: an object whose
/// `discord_id` is an integer, and whose `username` and `created_at`,
/// when present, are strings or null.
pub open spec fn spec_user_valid(t: JsonTree) -> bool {
    match t {
        JsonTree::Obj(entries) => match spec_field(entries@, "discord_id"@) {
            Some(f) => match f {
                JsonTree::Num(id) => {
                    &&& id is Some
                    &&& !(spec_str_field(entries@, "username"@) is Invalid)
                    &&& !(spec_str_field(entries@, "created_at"@) is Invalid)
                },
                _ => false,
            },
            None => false,
        },
        _ => false,
    }
}

/// Whether `u` is the user read from a well-formed `user` field.
pub open spec fn spec_user_fields_ok(u: User, t: JsonTree) -> bool {
    match t {
        JsonTree::Obj(entries) => {
            &&& (match spec_field(entries@, "discord_id"@) {
                Some(JsonTree::Num(Some(id))) => u.discord_id == id,
                _ => false,
            })
            &&& spec_opt_matches(u.username, spec_str_field(entries@, "username"@))
            &&& spec_opt_matches(u.created_at, spec_str_field(entries@, "created_at"@))
            &&& spec_roles_ok(u.roles, spec_field(entries@, "roles"@))
        },
        _ => false,
    }
}

/// Whether `b` is the malformed verdict with exactly this detail.
pub open spec fn spec_malformed_with(b: UpstreamBody, d: Seq<char>) -> bool {
    match b {
        UpstreamBody::Malformed(x) => x@ == d,
        _ => false,
    }
}

/// Whether `b` is the object model with these field reads and no
/// user.
pub open spec fn spec_object_without_user(
    b: UpstreamBody,
    token: FieldRead<Seq<char>>,
    message: FieldRead<Seq<char>>,
) -> bool {
    match b {
        UpstreamBody::Object(ob) => {
            &&& spec_opt_matches(ob.token, token)
            &&& spec_opt_matches(ob.message, message)
            &&& ob.user is None
        },
        _ => false,
    }
}

/// Whether `b` is the object model with these field reads and the
/// user read from `uv`.
pub open spec fn spec_object_with_user(
    b: UpstreamBody,
    token: FieldRead<Seq<char>>,
    message: FieldRead<Seq<char>>,
    uv: JsonTree,
) -> bool {
    match b {
        UpstreamBody::Object(ob) => {
            &&& spec_opt_matches(ob.token, token)
            &&& spec_opt_matches(ob.message, message)
            &&& (match ob.user {
                Some(u) => spec_user_fields_ok(u, uv),
                None => false,
            })
        },
        _ => false,
    }
}

/// The reading rules for an object body: an ill-typed `token` or
/// `message` fails the decode; a missing or null field counts absent;
/// an ill-formed `user` fails it too, unless the token-and-message
/// shape — which never reads the user — has already matched.
pub open spec fn spec_classified_object(b: UpstreamBody, o: Seq<(String, JsonTree)>) -> bool {
    let token = spec_str_field(o, "token"@);
    let message = spec_str_field(o, "message"@);
    if token is Invalid || message is Invalid {
        spec_malformed_with(b, "a field did not match any accepted shape"@)
    } else {
        match spec_field(o, "user"@) {
            None => spec_object_without_user(b, token, message),
            Some(uv) => {
                if uv is Null {
                    spec_object_without_user(b, token, message)
                } else if spec_user_valid(uv) {
                    spec_object_with_user(b, token, message, uv)
                } else if token is Present && message is Present {
                    spec_object_without_user(b, token, message)
                } else {
                    spec_malformed_with(b, "a field did not match any accepted shape"@)
                }
            },
        }
    }
}

/// The reading rules of the whole decode: a bare JSON string is the
/// token itself; an object reads field by field; any other document
/// is malformed.
pub open spec fn spec_classified(b: UpstreamBody, t: JsonTree) -> bool {
    match t {
        JsonTree::Str(s) => (match b {
            UpstreamBody::Token(tok) => tok@ == s@,
            _ => false,
        }),
        JsonTree::Obj(entries) => spec_classified_object(b, entries@),
        _ => spec_malformed_with(b, "expected a string or an object"@),
    }
}

/// What the decode owes for a body text: the classification of the
/// parsed tree, or the parse error's own text.
pub open spec fn spec_decode_ok(b: UpstreamBody, parsed: Result<JsonTree, String>) -> bool {
    match parsed {
        Ok(t) => spec_classified(b, t),
        Err(e) => spec_malformed_with(b, e@),
    }
}

proof fn lemma_field_skip(o: Seq<(String, JsonTree)>, key: Seq<char>, i: int)
    requires
        0 <= i <= o.len(),
        forall|j: int| 0 <= j < i ==> (#[trigger] o[j]).0@ != key,
    ensures
        spec_field(o, key) == spec_field(o.skip(i), key),
    decreases i,
{
    if i > 0 {
        assert(o.drop_first() =~= o.skip(1));
        lemma_field_skip(o.skip(1), key, i - 1);
        assert(o.skip(1).skip(i - 1) =~= o.skip(i));
    } else {
        assert(o.skip(0) =~= o);
    }
}

fn tree_get<'a>(entries: &'a Vec<(String, JsonTree)>, key: &str) -> (r: Option<&'a JsonTree>)
    ensures
        (match r {
            Some(t) => spec_field(entries@, key@) == Some(*t),
            None => spec_field(entries@, key@) is None,
        }),
{
    let key_string = key.to_owned();
    let mut i: usize = 0;
    while i < entries.len()
        invariant
            0 <= i <= entries@.len(),
            key_string@ == key@,
            forall|j: int| 0 <= j < i ==> (#[trigger] entries@[j]).0@ != key@,
        decreases entries@.len() - i,
    {
        if entries[i].0.eq(&key_string) {
            proof {
                lemma_field_skip(entries@, key@, i as int);
            }
            return Some(&entries[i].1);
        }
        i = i + 1;
    }
    proof {
        lemma_field_skip(entries@, key@, entries@.len() as int);
    }
    None
}

fn read_string_field(entries: &Vec<(String, JsonTree)>, key: &str) -> (r: FieldRead<String>)
    ensures
        (match r {
            FieldRead::Absent => spec_str_field(entries@, key@) is Absent,
            FieldRead::Present(s) => spec_str_field(entries@, key@) == FieldRead::Present(s@),
            FieldRead::Invalid => spec_str_field(entries@, key@) is Invalid,
        }),
{
    match tree_get(entries, key) {
        None => FieldRead::Absent,
        Some(t) => match t {
            JsonTree::Null => FieldRead::Absent,
            JsonTree::Str(s) => FieldRead::Present(s.clone()),
            _ => FieldRead::Invalid,
        },
    }
}

fn tree_string_array(items: &Vec<JsonTree>) -> (r: Option<Vec<String>>)
    ensures
        (match r {
            Some(rs) => {
                &&& (forall|i: int| 0 <= i < items@.len() ==> spec_is_str(#[trigger] items@[i]))
                &&& rs@.len() == items@.len()
                &&& (forall|i: int|
                    0 <= i < rs@.len() ==> #[trigger] rs@[i]@ == spec_str_view(items@[i]))
            },
            None => !(forall|i: int| 0 <= i < items@.len() ==> spec_is_str(#[trigger] items@[i])),
        }),
{
    let mut out: Vec<String> = Vec::new();
    let mut i: usize = 0;
    while i < items.len()
        invariant
            0 <= i <= items@.len(),
            out@.len() == i,
            forall|j: int| 0 <= j < i ==> spec_is_str(#[trigger] items@[j]),
            forall|j: int| 0 <= j < i ==> #[trigger] out@[j]@ == spec_str_view(items@[j]),
        decreases items@.len() - i,
    {
        match &items[i] {
            JsonTree::Str(s) => out.push(s.clone()),
            _ => {
                return None;
            },
        }
        i = i + 1;
    }
    Some(out)
}

fn roles_field(entries: &Vec<(String, JsonTree)>) -> (r: Option<Vec<String>>)
    ensures
        spec_roles_ok(r, spec_field(entries@, "roles"@)),
{
    match tree_get(entries, "roles") {
        None => None,
        Some(t) => match t {
            JsonTree::Arr(items) => tree_string_array(items),
            _ => None,
        },
    }
}

fn decode_user(t: &JsonTree) -> (r: FieldRead<User>)
    ensures
        spec_user_valid(*t) ==> (match r {
            FieldRead::Present(u) => spec_user_fields_ok(u, *t),
            _ => false,
        }),
        !spec_user_valid(*t) ==> r is Invalid,
{
    let entries = match t {
        JsonTree::Obj(entries) => entries,
        _ => {
            return FieldRead::Invalid;
        },
    };
    let discord_id = match tree_get(entries, "discord_id") {
        Some(f) => match f {
            JsonTree::Num(Some(id)) => *id,
            _ => {
                return FieldRead::Invalid;
            },
        },
        None => {
            return FieldRead::Invalid;
        },
    };
    let username = match read_string_field(entries, "username") {
        FieldRead::Absent => None,
        FieldRead::Present(s) => Some(s),
        FieldRead::Invalid => {
            return FieldRead::Invalid;
        },
    };
    let created_at = match read_string_field(entries, "created_at") {
        FieldRead::Absent => None,
        FieldRead::Present(s) => Some(s),
        FieldRead::Invalid => {
            return FieldRead::Invalid;
        },
    };
    let roles = roles_field(entries);
    FieldRead::Present(User { discord_id, username, created_at, roles })
}

fn classify_tree(t: &JsonTree) -> (b: UpstreamBody)
    ensures
        spec_classified(b, *t),
{
    let entries = match t {
        JsonTree::Str(s) => {
            return UpstreamBody::Token(s.clone());
        },
        JsonTree::Obj(entries) => entries,
        _ => {
            return UpstreamBody::Malformed("expected a string or an object".to_owned());
        },
    };
    let token = match read_string_field(entries, "token") {
        FieldRead::Absent => None,
        FieldRead::Present(s) => Some(s),
        FieldRead::Invalid => {
            return UpstreamBody::Malformed("a field did not match any accepted shape".to_owned());
        },
    };
    let message = match read_string_field(entries, "message") {
        FieldRead::Absent => None,
        FieldRead::Present(s) => Some(s),
        FieldRead::Invalid => {
            return UpstreamBody::Malformed("a field did not match any accepted shape".to_owned());
        },
    };
    let user = match tree_get(entries, "user") {
        None => None,
        Some(uv) => match uv {
            JsonTree::Null => None,
            _ => match decode_user(uv) {
                FieldRead::Present(u) => Some(u),
                _ => {
                    // An ill-formed user sinks every shape that still
                    // reads it; the token-and-message shape, matched
                    // first, never does.
                    if token.is_some() && message.is_some() {
                        None
                    } else {
                        return UpstreamBody::Malformed(
                            "a field did not match any accepted shape".to_owned(),
                        );
                    }
                },
            },
        },
    };
    UpstreamBody::Object(UpstreamObject { token, message, user })
}

/// Decodes a successful upstream body into the plain model the
/// normalizer dispatches on: a bare JSON string is the token itself;
/// an object reads field by field, where a missing field and a JSON
/// null both count as absent and a field present with the wrong
/// structure fails the decode, as a typed decoder would. Only the
/// parse itself is trusted, under the name `spec_parsed`; the reading
/// rules are stated by [`spec_decode_ok`] and verified here, and the
/// dispatch on the result is pinned by [`normalize_upstream`].
pub fn decode_upstream_body(body: &str) -> (b: UpstreamBody)
    ensures
        spec_decode_ok(b, spec_parsed(body@)),
{
    match parse_json_tree(body) {
        Ok(t) => classify_tree(&t),
        Err(e) => UpstreamBody::Malformed(e),
    }
}

/// The shape of a clock timestamp rendered as `%Y-%m-%d %H:%M:%S`: a
/// year of four or more digits, then fixed separators around
/// two-digit month, day, hour, minute and second fields.
pub open spec fn spec_timestamp_shape(s: Seq<char>) -> bool {
    let n = s.len() as int;
    &&& n >= 19
    &&& (forall|i: int| 0 <= i < n - 15 ==> is_dec_digit(#[trigger] s[i]))
    &&& s[n - 15] == '-' && is_dec_digit(s[n - 14]) && is_dec_digit(s[n - 13])
    &&& s[n - 12] == '-' && is_dec_digit(s[n - 11]) && is_dec_digit(s[n - 10])
    &&& s[n - 9] == ' ' && is_dec_digit(s[n - 8]) && is_dec_digit(s[n - 7])
    &&& s[n - 6] == ':' && is_dec_digit(s[n - 5]) && is_dec_digit(s[n - 4])
    &&& s[n - 3] == ':' && is_dec_digit(s[n - 2]) && is_dec_digit(s[n - 1])
}

/// Relies on `chrono::Utc::now` and `DateTime::format` with
/// `%Y-%m-%d %H:%M:%S`: when the clock reads is the clock's own, so
/// only the rendering's shape is promised — the year is four or more
/// digits (`now` is at or after the epoch, and the format pads the
/// year to four), and the remaining fields are fixed two-digit groups
/// behind fixed separators.
#[verifier::external_body]
fn current_timestamp() -> (r: String)
    ensures
        spec_timestamp_shape(r@),
{
    chrono::Utc::now().format("%Y-%m-%d %H:%M:%S").to_string()
}

/// What a whole registration exchange owes: a non-success status maps
/// to its fixed message, and a success status yields the normalizer's
/// verdict on the model decoded from that very body, at some clock
/// reading of the fixed timestamp shape.
pub open spec fn spec_register_outcome(
    r: Result<DiscordRegisterResponse, RegisterError>,
    status: u16,
    body: Seq<char>,
    discord_id: i64,
    username: Option<String>,
) -> bool {
    if spec_is_success(status) {
        exists|b: UpstreamBody, now: Seq<char>|
            {
                &&& spec_decode_ok(b, spec_parsed(body))
                &&& #[trigger] spec_normalized(r, b, discord_id, username, now)
                &&& spec_timestamp_shape(now)
            }
    } else {
        match r {
            Err(RegisterError::UpstreamHttpError(m)) => m@ == spec_http_error_message(
                status,
                body,
            ),
            _ => false,
        }
    }
}

/// Handles one upstream registration response: non-success statuses
/// map to their fixed messages; a success body is decoded and
/// normalized, with the creation time synthesized from the clock.
pub fn register_response(
    status: u16,
    body: &str,
    discord_id: i64,
    username: Option<String>,
) -> (r: Result<DiscordRegisterResponse, RegisterError>)
    ensures
        spec_register_outcome(r, status, body@, discord_id, username),
{
    if 200 <= status && status < 300 {
        let decoded = decode_upstream_body(body);
        let ghost bsnap = decoded;
        let now = current_timestamp();
        let ghost n = now@;
        let r = normalize_upstream(decoded, discord_id, username, now);
        proof {
            assert(spec_decode_ok(bsnap, spec_parsed(body@)) && spec_normalized(
                r,
                bsnap,
                discord_id,
                username,
                n,
            ) && spec_timestamp_shape(n));
        }
        r
    } else {
        Err(RegisterError::UpstreamHttpError(handle_http_error(status, body)))
    }
}

/// The upstream registration endpoint under a base URL.
pub fn registration_endpoint(base_url: &str) -> (r: String)
    ensures
        r@ == base_url@ + "/api/internal/discord_register"@,
{
    let mut r = base_url.to_owned();
    r.append("/api/internal/discord_register");
    r
}

/// The authorization header value carrying the bearer token.
pub fn bearer_header(token: &str) -> (r: String)
    ensures
        r@ == "Bearer "@ + token@,
{
    let mut r = "Bearer ".to_owned();
    r.append(token);
    r
}

/// For the three upstream shapes that encode the same logical success
/// — bare token, token with message, and the full object — the
/// normalizer produces the same canonical result except for the
/// synthesized message text when the shape carries none.
pub proof fn lemma_success_shapes_agree(
    r1: Result<DiscordRegisterResponse, RegisterError>,
    r2: Result<DiscordRegisterResponse, RegisterError>,
    r3: Result<DiscordRegisterResponse, RegisterError>,
    t: String,
    m: String,
    u: User,
    discord_id: i64,
    username: Option<String>,
    now: Seq<char>,
)
    requires
        spec_normalized(r1, UpstreamBody::Token(t), discord_id, username, now),
        spec_normalized(
            r2,
            UpstreamBody::Object(
                UpstreamObject { token: Some(t), message: Some(m), user: None },
            ),
            discord_id,
            username,
            now,
        ),
        spec_normalized(
            r3,
            UpstreamBody::Object(
                UpstreamObject { token: Some(t), message: Some(m), user: Some(u) },
            ),
            discord_id,
            username,
            now,
        ),
    ensures
        match (r1, r2, r3) {
            (Ok(a), Ok(b), Ok(c)) => {
                &&& spec_opt_str_eq(a.token, Some(t))
                &&& spec_opt_str_eq(b.token, Some(t))
                &&& spec_opt_str_eq(c.token, Some(t))
                &&& spec_synth_user(a.user, discord_id, username, now)
                &&& spec_synth_user(b.user, discord_id, username, now)
                &&& spec_synth_user(c.user, discord_id, username, now)
                &&& a.message@ == spec_default_message()
                &&& b.message@ == m@
                &&& c.message@ == m@
            },
            _ => false,
        },
{
}

/// The alternative shape with only a token — no `user`, no `message` —
/// yields the incomplete-response error.
pub proof fn lemma_token_only_is_incomplete(
    r: Result<DiscordRegisterResponse, RegisterError>,
    t: String,
    discord_id: i64,
    username: Option<String>,
    now: Seq<char>,
)
    requires
        spec_normalized(
            r,
            UpstreamBody::Object(
                UpstreamObject { token: Some(t), message: None, user: None },
            ),
            discord_id,
            username,
            now,
        ),
    ensures
        r == Err::<DiscordRegisterResponse, RegisterError>(RegisterError::IncompleteResponse),
{
}

} // verus!
