//! What is playing, the presets of a device and what it can do: the values
//! that the JSON payloads carry, and how a document maps to each.
//!
//! A member that a value does not know is ignored. An optional member may be
//! missing or `null`.

use vstd::prelude::*;
use vstd::string::*;
use crate::commands::DecodeError;
use crate::json::{members_value, push_member, Json, JsonValue};
use crate::text::{integer_text, push_integer, push_quoted, quoted};

verus! {

/// The text member `key` of `j`, absent where `j` has no such member or
/// holds `null` there; an error where the member is anything else.
pub open spec fn optional_text(j: JsonValue, key: Seq<char>) -> Result<
    Option<Seq<char>>,
    DecodeError,
> {
    match j.get(key) {
        None => Ok(None),
        Some(JsonValue::Null) => Ok(None),
        Some(JsonValue::Str(s)) => Ok(Some(s)),
        Some(_) => Err(DecodeError::InvalidShape),
    }
}

/// The truth-value member `key` of `j`, absent where `j` has no such member
/// or holds `null` there; an error where the member is anything else.
pub open spec fn optional_bool(j: JsonValue, key: Seq<char>) -> Result<Option<bool>, DecodeError> {
    match j.get(key) {
        None => Ok(None),
        Some(JsonValue::Null) => Ok(None),
        Some(JsonValue::Bool(b)) => Ok(Some(b)),
        Some(_) => Err(DecodeError::InvalidShape),
    }
}

/// The member `key` of `j` as an integer of the signed 32-bit range, absent
/// where `j` has no such member or holds `null` there; an error where the
/// member is anything else.
pub open spec fn optional_i32(j: JsonValue, key: Seq<char>) -> Result<Option<i32>, DecodeError> {
    match j.get(key) {
        None => Ok(None),
        Some(JsonValue::Null) => Ok(None),
        Some(JsonValue::Int(i)) => if i32::MIN <= i <= i32::MAX {
            Ok(Some(i as i32))
        } else {
            Err(DecodeError::InvalidShape)
        },
        Some(_) => Err(DecodeError::InvalidShape),
    }
}

/// The text member `key` of `j`; an error where `j` has no such member or
/// the member is no text.
pub open spec fn required_text(j: JsonValue, key: Seq<char>) -> Result<Seq<char>, DecodeError> {
    match j.get(key) {
        Some(JsonValue::Str(s)) => Ok(s),
        _ => Err(DecodeError::InvalidShape),
    }
}

/// The truth-value member `key` of `j`; an error where `j` has no such
/// member or the member is no truth value.
pub open spec fn required_bool(j: JsonValue, key: Seq<char>) -> Result<bool, DecodeError> {
    match j.get(key) {
        Some(JsonValue::Bool(b)) => Ok(b),
        _ => Err(DecodeError::InvalidShape),
    }
}

/// The integer member `key` of `j`; an error where `j` has no such member
/// or the member is no integer of the signed 64-bit range.
pub open spec fn required_i64(j: JsonValue, key: Seq<char>) -> Result<i64, DecodeError> {
    match j.get(key) {
        Some(JsonValue::Int(i)) => Ok(i),
        _ => Err(DecodeError::InvalidShape),
    }
}

/// Reads an optional text member.
pub fn read_optional_text(j: &Json, key: &str) -> (r: Result<Option<String>, DecodeError>)
    ensures
        match r {
            Ok(v) => optional_text(j@, key@) == Ok::<Option<Seq<char>>, DecodeError>(v.deep_view()),
            Err(e) => optional_text(j@, key@) == Err::<Option<Seq<char>>, DecodeError>(e),
        },
{
    match j.get(key) {
        None => Ok(None),
        Some(Json::Null) => Ok(None),
        Some(Json::Str(s)) => Ok(Some(s.clone())),
        Some(_) => Err(DecodeError::InvalidShape),
    }
}

/// Reads an optional truth-value member.
pub fn read_optional_bool(j: &Json, key: &str) -> (r: Result<Option<bool>, DecodeError>)
    ensures
        r == optional_bool(j@, key@),
{
    match j.get(key) {
        None => Ok(None),
        Some(Json::Null) => Ok(None),
        Some(Json::Bool(b)) => Ok(Some(*b)),
        Some(_) => Err(DecodeError::InvalidShape),
    }
}

/// Reads an optional member that is an integer of the signed 32-bit range.
pub fn read_optional_i32(j: &Json, key: &str) -> (r: Result<Option<i32>, DecodeError>)
    ensures
        r == optional_i32(j@, key@),
{
    match j.get(key) {
        None => Ok(None),
        Some(Json::Null) => Ok(None),
        Some(Json::Int(i)) => {
            if *i < -2147483648 || *i > 2147483647 {
                Err(DecodeError::InvalidShape)
            } else {
                Ok(Some(*i as i32))
            }
        },
        Some(_) => Err(DecodeError::InvalidShape),
    }
}

/// Reads a text member that must be there.
pub fn read_required_text(j: &Json, key: &str) -> (r: Result<String, DecodeError>)
    ensures
        match r {
            Ok(v) => required_text(j@, key@) == Ok::<Seq<char>, DecodeError>(v@),
            Err(e) => required_text(j@, key@) == Err::<Seq<char>, DecodeError>(e),
        },
{
    match j.get(key) {
        Some(Json::Str(s)) => Ok(s.clone()),
        _ => Err(DecodeError::InvalidShape),
    }
}

/// Reads a truth-value member that must be there.
pub fn read_required_bool(j: &Json, key: &str) -> (r: Result<bool, DecodeError>)
    ensures
        r == required_bool(j@, key@),
{
    match j.get(key) {
        Some(Json::Bool(b)) => Ok(*b),
        _ => Err(DecodeError::InvalidShape),
    }
}

/// Reads an integer member that must be there.
pub fn read_required_i64(j: &Json, key: &str) -> (r: Result<i64, DecodeError>)
    ensures
        r == required_i64(j@, key@),
{
    match j.get(key) {
        Some(Json::Int(i)) => Ok(*i),
        _ => Err(DecodeError::InvalidShape),
    }
}

/// A copy of an optional text.
pub fn copy_optional_text(s: &Option<String>) -> (r: Option<String>)
    ensures
        r.deep_view() == s.deep_view(),
{
    match s {
        Some(t) => Some(t.clone()),
        None => None,
    }
}

/// The document of an optional text: the text, or `null`.
pub open spec fn text_or_null(s: Option<Seq<char>>) -> JsonValue {
    match s {
        Some(t) => JsonValue::Str(t),
        None => JsonValue::Null,
    }
}

/// A description of what is playing.
#[derive(Debug, PartialEq, Eq)]
pub struct PlayInfoData {
    pub is_from_channel: bool,
    pub play_album: Option<String>,
    pub play_album_uri: Option<String>,
    pub play_artist: Option<String>,
    pub play_attribution: Option<String>,
    pub play_identity: Option<String>,
    pub play_object: Option<String>,
    pub play_pic: Option<String>,
    pub play_preset_available: Option<i32>,
    pub play_subtitle: Option<String>,
    pub play_title: Option<String>,
    pub play_type: Option<String>,
    pub play_username: Option<String>,
    pub play_token: Option<String>,
}

/// The mathematical content of a [`PlayInfoData`].
pub ghost struct PlayInfoDataView {
    pub is_from_channel: bool,
    pub play_album: Option<Seq<char>>,
    pub play_album_uri: Option<Seq<char>>,
    pub play_artist: Option<Seq<char>>,
    pub play_attribution: Option<Seq<char>>,
    pub play_identity: Option<Seq<char>>,
    pub play_object: Option<Seq<char>>,
    pub play_pic: Option<Seq<char>>,
    pub play_preset_available: Option<i32>,
    pub play_subtitle: Option<Seq<char>>,
    pub play_title: Option<Seq<char>>,
    pub play_type: Option<Seq<char>>,
    pub play_username: Option<Seq<char>>,
    pub play_token: Option<Seq<char>>,
}

impl View for PlayInfoData {
    type V = PlayInfoDataView;

    open spec fn view(&self) -> PlayInfoDataView {
        PlayInfoDataView {
            is_from_channel: self.is_from_channel,
            play_album: self.play_album.deep_view(),
            play_album_uri: self.play_album_uri.deep_view(),
            play_artist: self.play_artist.deep_view(),
            play_attribution: self.play_attribution.deep_view(),
            play_identity: self.play_identity.deep_view(),
            play_object: self.play_object.deep_view(),
            play_pic: self.play_pic.deep_view(),
            play_preset_available: self.play_preset_available,
            play_subtitle: self.play_subtitle.deep_view(),
            play_title: self.play_title.deep_view(),
            play_type: self.play_type.deep_view(),
            play_username: self.play_username.deep_view(),
            play_token: self.play_token.deep_view(),
        }
    }
}

impl DeepView for PlayInfoData {
    type V = PlayInfoDataView;

    open spec fn deep_view(&self) -> PlayInfoDataView {
        self@
    }
}

impl PlayInfoDataView {
    /// Nothing is known of what is playing, and it does not come from a
    /// channel.
    pub open spec fn empty() -> PlayInfoDataView {
        PlayInfoDataView {
            is_from_channel: false,
            play_album: None,
            play_album_uri: None,
            play_artist: None,
            play_attribution: None,
            play_identity: None,
            play_object: None,
            play_pic: None,
            play_preset_available: None,
            play_subtitle: None,
            play_title: None,
            play_type: None,
            play_username: None,
            play_token: None,
        }
    }

    /// The document that carries this description.
    pub open spec fn json(self) -> JsonValue {
        JsonValue::Object(
            seq![
                ("is_from_channel"@, JsonValue::Bool(self.is_from_channel)),
                ("play_album"@, text_or_null(self.play_album)),
                ("play_album_uri"@, text_or_null(self.play_album_uri)),
                ("play_artist"@, text_or_null(self.play_artist)),
                ("play_attribution"@, text_or_null(self.play_attribution)),
                ("play_identity"@, text_or_null(self.play_identity)),
                ("play_object"@, text_or_null(self.play_object)),
                ("play_pic"@, text_or_null(self.play_pic)),
                (
                    "play_preset_available"@,
                    match self.play_preset_available {
                        Some(n) => JsonValue::Int(n as i64),
                        None => JsonValue::Null,
                    },
                ),
                ("play_subtitle"@, text_or_null(self.play_subtitle)),
                ("play_title"@, text_or_null(self.play_title)),
                ("play_type"@, text_or_null(self.play_type)),
                ("play_username"@, text_or_null(self.play_username)),
                ("play_token"@, text_or_null(self.play_token)),
            ],
        )
    }

    /// Every member of `j` that a description knows has the shape it should.
    pub open spec fn fits(j: JsonValue) -> bool {
        &&& required_bool(j, "is_from_channel"@) is Ok
        &&& optional_text(j, "play_album"@) is Ok
        &&& optional_text(j, "play_album_uri"@) is Ok
        &&& optional_text(j, "play_artist"@) is Ok
        &&& optional_text(j, "play_attribution"@) is Ok
        &&& optional_text(j, "play_identity"@) is Ok
        &&& optional_text(j, "play_object"@) is Ok
        &&& optional_text(j, "play_pic"@) is Ok
        &&& optional_i32(j, "play_preset_available"@) is Ok
        &&& optional_text(j, "play_subtitle"@) is Ok
        &&& optional_text(j, "play_title"@) is Ok
        &&& optional_text(j, "play_type"@) is Ok
        &&& optional_text(j, "play_username"@) is Ok
        &&& optional_text(j, "play_token"@) is Ok
    }

    /// The description that the document `j` carries.
    pub open spec fn of_json(j: JsonValue) -> Result<PlayInfoDataView, DecodeError> {
        if Self::fits(j) {
            Ok(
                PlayInfoDataView {
                    is_from_channel: required_bool(j, "is_from_channel"@)->Ok_0,
                    play_album: optional_text(j, "play_album"@)->Ok_0,
                    play_album_uri: optional_text(j, "play_album_uri"@)->Ok_0,
                    play_artist: optional_text(j, "play_artist"@)->Ok_0,
                    play_attribution: optional_text(j, "play_attribution"@)->Ok_0,
                    play_identity: optional_text(j, "play_identity"@)->Ok_0,
                    play_object: optional_text(j, "play_object"@)->Ok_0,
                    play_pic: optional_text(j, "play_pic"@)->Ok_0,
                    play_preset_available: optional_i32(j, "play_preset_available"@)->Ok_0,
                    play_subtitle: optional_text(j, "play_subtitle"@)->Ok_0,
                    play_title: optional_text(j, "play_title"@)->Ok_0,
                    play_type: optional_text(j, "play_type"@)->Ok_0,
                    play_username: optional_text(j, "play_username"@)->Ok_0,
                    play_token: optional_text(j, "play_token"@)->Ok_0,
                },
            )
        } else {
            Err(DecodeError::InvalidShape)
        }
    }
}

impl Default for PlayInfoData {
    fn default() -> (d: PlayInfoData)
        ensures
            d@ == PlayInfoDataView::empty(),
    {
        PlayInfoData {
            is_from_channel: false,
            play_album: None,
            play_album_uri: None,
            play_artist: None,
            play_attribution: None,
            play_identity: None,
            play_object: None,
            play_pic: None,
            play_preset_available: None,
            play_subtitle: None,
            play_title: None,
            play_type: None,
            play_username: None,
            play_token: None,
        }
    }
}

impl Clone for PlayInfoData {
    fn clone(&self) -> (d: PlayInfoData)
        ensures
            d@ == self@,
    {
        PlayInfoData {
            is_from_channel: self.is_from_channel,
            play_album: copy_optional_text(&self.play_album),
            play_album_uri: copy_optional_text(&self.play_album_uri),
            play_artist: copy_optional_text(&self.play_artist),
            play_attribution: copy_optional_text(&self.play_attribution),
            play_identity: copy_optional_text(&self.play_identity),
            play_object: copy_optional_text(&self.play_object),
            play_pic: copy_optional_text(&self.play_pic),
            play_preset_available: self.play_preset_available,
            play_subtitle: copy_optional_text(&self.play_subtitle),
            play_title: copy_optional_text(&self.play_title),
            play_type: copy_optional_text(&self.play_type),
            play_username: copy_optional_text(&self.play_username),
            play_token: copy_optional_text(&self.play_token),
        }
    }
}

impl PlayInfoData {
    /// Reads a description from a document.
    pub fn from_json(j: &Json) -> (r: Result<PlayInfoData, DecodeError>)
        ensures
            match r {
                Ok(d) => PlayInfoDataView::of_json(j@) == Ok::<PlayInfoDataView, DecodeError>(d@),
                Err(e) => PlayInfoDataView::of_json(j@) == Err::<PlayInfoDataView, DecodeError>(e),
            },
    {
        let is_from_channel = match read_required_bool(j, "is_from_channel") {
            Ok(v) => v,
            Err(_) => return Err(DecodeError::InvalidShape),
        };
        let play_album = match read_optional_text(j, "play_album") {
            Ok(v) => v,
            Err(_) => return Err(DecodeError::InvalidShape),
        };
        let play_album_uri = match read_optional_text(j, "play_album_uri") {
            Ok(v) => v,
            Err(_) => return Err(DecodeError::InvalidShape),
        };
        let play_artist = match read_optional_text(j, "play_artist") {
            Ok(v) => v,
            Err(_) => return Err(DecodeError::InvalidShape),
        };
        let play_attribution = match read_optional_text(j, "play_attribution") {
            Ok(v) => v,
            Err(_) => return Err(DecodeError::InvalidShape),
        };
        let play_identity = match read_optional_text(j, "play_identity") {
            Ok(v) => v,
            Err(_) => return Err(DecodeError::InvalidShape),
        };
        let play_object = match read_optional_text(j, "play_object") {
            Ok(v) => v,
            Err(_) => return Err(DecodeError::InvalidShape),
        };
        let play_pic = match read_optional_text(j, "play_pic") {
            Ok(v) => v,
            Err(_) => return Err(DecodeError::InvalidShape),
        };
        let play_preset_available = match read_optional_i32(j, "play_preset_available") {
            Ok(v) => v,
            Err(_) => return Err(DecodeError::InvalidShape),
        };
        let play_subtitle = match read_optional_text(j, "play_subtitle") {
            Ok(v) => v,
            Err(_) => return Err(DecodeError::InvalidShape),
        };
        let play_title = match read_optional_text(j, "play_title") {
            Ok(v) => v,
            Err(_) => return Err(DecodeError::InvalidShape),
        };
        let play_type = match read_optional_text(j, "play_type") {
            Ok(v) => v,
            Err(_) => return Err(DecodeError::InvalidShape),
        };
        let play_username = match read_optional_text(j, "play_username") {
            Ok(v) => v,
            Err(_) => return Err(DecodeError::InvalidShape),
        };
        let play_token = match read_optional_text(j, "play_token") {
            Ok(v) => v,
            Err(_) => return Err(DecodeError::InvalidShape),
        };
        Ok(
            PlayInfoData {
                is_from_channel,
                play_album,
                play_album_uri,
                play_artist,
                play_attribution,
                play_identity,
                play_object,
                play_pic,
                play_preset_available,
                play_subtitle,
                play_title,
                play_type,
                play_username,
                play_token,
            },
        )
    }

    /// The document that carries this description.
    pub fn to_json(&self) -> (j: Json)
        ensures
            j@ == self@.json(),
    {
        let mut members: Vec<(String, Json)> = Vec::new();
        assert(members_value(members@) =~= Seq::empty());
        push_member(&mut members, "is_from_channel", Json::Bool(self.is_from_channel));
        push_member(&mut members, "play_album", Json::text_or_null(&self.play_album));
        push_member(&mut members, "play_album_uri", Json::text_or_null(&self.play_album_uri));
        push_member(&mut members, "play_artist", Json::text_or_null(&self.play_artist));
        push_member(&mut members, "play_attribution", Json::text_or_null(&self.play_attribution));
        push_member(&mut members, "play_identity", Json::text_or_null(&self.play_identity));
        push_member(&mut members, "play_object", Json::text_or_null(&self.play_object));
        push_member(&mut members, "play_pic", Json::text_or_null(&self.play_pic));
        let preset = match self.play_preset_available {
            Some(n) => Json::Int(n as i64),
            None => Json::Null,
        };
        push_member(&mut members, "play_preset_available", preset);
        push_member(&mut members, "play_subtitle", Json::text_or_null(&self.play_subtitle));
        push_member(&mut members, "play_title", Json::text_or_null(&self.play_title));
        push_member(&mut members, "play_type", Json::text_or_null(&self.play_type));
        push_member(&mut members, "play_username", Json::text_or_null(&self.play_username));
        push_member(&mut members, "play_token", Json::text_or_null(&self.play_token));
        assert(members_value(members@) =~= self@.json()->Object_0);
        Json::object(members)
    }
}

/// The document of a description can be written.
pub proof fn lemma_play_info_json_writable(d: PlayInfoDataView)
    ensures
        d.json().writable(),
{
    reveal_strlit("is_from_channel");
    reveal_strlit("play_album");
    reveal_strlit("play_album_uri");
    reveal_strlit("play_artist");
    reveal_strlit("play_attribution");
    reveal_strlit("play_identity");
    reveal_strlit("play_object");
    reveal_strlit("play_pic");
    reveal_strlit("play_preset_available");
    reveal_strlit("play_subtitle");
    reveal_strlit("play_title");
    reveal_strlit("play_type");
    reveal_strlit("play_username");
    reveal_strlit("play_token");
    let members = d.json()->Object_0;
    assert(members.len() == 14);
    assert forall|i: int, j: int| 0 <= i < j < members.len() implies (#[trigger] members[i]).0 != (
    #[trigger] members[j]).0 by {
        let a = members[i].0;
        let b = members[j].0;
        if a.len() == b.len() {
            assert(a[5] != b[5] || a[6] != b[6]);
        }
    }
    assert forall|i: int| 0 <= i < members.len() implies (#[trigger] members[i]).1.writable() by {}
}

/// One thing that a device can do.
#[derive(Debug, PartialEq, Eq)]
pub struct Capability {
    pub name: String,
}

/// What a device can do.
#[derive(Debug, PartialEq, Eq)]
pub struct CapabilitiesData {
    pub capabilities: Vec<Capability>,
}

impl View for Capability {
    type V = Seq<char>;

    open spec fn view(&self) -> Seq<char> {
        self.name@
    }
}

impl DeepView for Capability {
    type V = Seq<char>;

    open spec fn deep_view(&self) -> Seq<char> {
        self.name@
    }
}

impl View for CapabilitiesData {
    type V = Seq<Seq<char>>;

    open spec fn view(&self) -> Seq<Seq<char>> {
        self.capabilities.deep_view()
    }
}

impl DeepView for CapabilitiesData {
    type V = Seq<Seq<char>>;

    open spec fn deep_view(&self) -> Seq<Seq<char>> {
        self@
    }
}

/// The names of the capabilities that the items of an array carry: each
/// item has a text member `name`.
pub open spec fn capability_names(items: Seq<JsonValue>) -> Result<Seq<Seq<char>>, DecodeError> {
    if forall|i: int| 0 <= i < items.len() ==> required_text(#[trigger] items[i], "name"@) is Ok {
        Ok(Seq::new(items.len(), |i: int| required_text(items[i], "name"@)->Ok_0))
    } else {
        Err(DecodeError::InvalidShape)
    }
}

/// The capabilities that the document `j` carries: its member
/// `capabilities` is an array of capabilities.
pub open spec fn capabilities_of_json(j: JsonValue) -> Result<Seq<Seq<char>>, DecodeError> {
    match j.get("capabilities"@) {
        Some(JsonValue::Array(items)) => capability_names(items),
        _ => Err(DecodeError::InvalidShape),
    }
}

impl CapabilitiesData {
    /// Reads the capabilities that a document carries.
    pub fn from_json(j: &Json) -> (r: Result<CapabilitiesData, DecodeError>)
        ensures
            match r {
                Ok(c) => capabilities_of_json(j@) == Ok::<Seq<Seq<char>>, DecodeError>(c@),
                Err(e) => capabilities_of_json(j@) == Err::<Seq<Seq<char>>, DecodeError>(e),
            },
    {
        match j.get("capabilities") {
            Some(list) => match list {
                Json::Array(items) => {
                    proof {
                        crate::json::lemma_json_value(*list);
                    }
                    let ghost values = list@->Array_0;
                    let mut out: Vec<Capability> = Vec::new();
                    let mut i: usize = 0;
                    assert(capabilities_of_json(j@) == capability_names(values));
                    while i < items.len()
                        invariant
                            i <= items.len(),
                            capabilities_of_json(j@) == capability_names(values),
                            values.len() == items@.len(),
                            forall|k: int|
                                0 <= k < items@.len() ==> #[trigger] values[k] == items@[k]@,
                            out@.len() == i,
                            forall|k: int|
                                0 <= k < i ==> required_text(#[trigger] values[k], "name"@) == Ok::<
                                    Seq<char>,
                                    DecodeError,
                                >(out@[k]@),
                        decreases items.len() - i,
                    {
                        match read_required_text(&items[i], "name") {
                            Ok(name) => {
                                out.push(Capability { name });
                            },
                            Err(_) => {
                                assert(!(required_text(values[i as int], "name"@) is Ok));
                                return Err(DecodeError::InvalidShape);
                            },
                        }
                        i += 1;
                    }
                    assert(capability_names(values) is Ok);
                    assert forall|k: int| 0 <= k < out@.len() implies #[trigger] out.deep_view()[k]
                        == capability_names(values)->Ok_0[k] by {
                        assert(required_text(values[k], "name"@) is Ok);
                    }
                    assert(out.deep_view() =~= capability_names(values)->Ok_0);
                    Ok(CapabilitiesData { capabilities: out })
                },
                _ => Err(DecodeError::InvalidShape),
            },
            None => Err(DecodeError::InvalidShape),
        }
    }
}

/// The text of a truth value.
pub open spec fn bool_text(b: bool) -> Seq<char> {
    if b {
        "true"@
    } else {
        "false"@
    }
}

/// The text of a truth value.
pub fn bool_str(b: bool) -> (s: &'static str)
    ensures
        s@ == bool_text(b),
{
    if b {
        "true"
    } else {
        "false"
    }
}

/// `acc` followed by the display form of an optional text.
pub open spec fn optional_text_described(acc: Seq<char>, s: Option<Seq<char>>) -> Seq<char> {
    match s {
        Some(t) => acc + "Some("@ + quoted(t) + ")"@,
        None => acc + "None"@,
    }
}

/// `acc` followed by the display form of an optional integer.
pub open spec fn optional_integer_described(acc: Seq<char>, n: Option<int>) -> Seq<char> {
    match n {
        Some(i) => acc + "Some("@ + integer_text(i) + ")"@,
        None => acc + "None"@,
    }
}

/// `acc` followed by the display form of an optional truth value.
pub open spec fn optional_bool_described(acc: Seq<char>, b: Option<bool>) -> Seq<char> {
    match b {
        Some(v) => acc + "Some("@ + bool_text(v) + ")"@,
        None => acc + "None"@,
    }
}

/// Appends the display form of an optional text.
pub fn push_optional_text(out: &mut String, s: &Option<String>)
    ensures
        final(out)@ == optional_text_described(old(out)@, s.deep_view()),
{
    match s {
        Some(t) => {
            out.append("Some(");
            push_quoted(out, t.as_str());
            out.append(")");
        },
        None => {
            out.append("None");
        },
    }
}

impl PlayInfoDataView {
    /// `acc` followed by the display form of this description.
    pub open spec fn described(self, acc: Seq<char>) -> Seq<char> {
        let t = acc + "PlayInfoData { is_from_channel: "@ + bool_text(self.is_from_channel);
        let t = t + ", play_album: "@;
        let t = optional_text_described(t, self.play_album);
        let t = t + ", play_album_uri: "@;
        let t = optional_text_described(t, self.play_album_uri);
        let t = t + ", play_artist: "@;
        let t = optional_text_described(t, self.play_artist);
        let t = t + ", play_attribution: "@;
        let t = optional_text_described(t, self.play_attribution);
        let t = t + ", play_identity: "@;
        let t = optional_text_described(t, self.play_identity);
        let t = t + ", play_object: "@;
        let t = optional_text_described(t, self.play_object);
        let t = t + ", play_pic: "@;
        let t = optional_text_described(t, self.play_pic);
        let t = t + ", play_preset_available: "@;
        let t = optional_integer_described(
            t,
            match self.play_preset_available {
                Some(n) => Some(n as int),
                None => None,
            },
        );
        let t = t + ", play_subtitle: "@;
        let t = optional_text_described(t, self.play_subtitle);
        let t = t + ", play_title: "@;
        let t = optional_text_described(t, self.play_title);
        let t = t + ", play_type: "@;
        let t = optional_text_described(t, self.play_type);
        let t = t + ", play_username: "@;
        let t = optional_text_described(t, self.play_username);
        let t = t + ", play_token: "@;
        let t = optional_text_described(t, self.play_token);
        t + " }"@
    }
}

impl PlayInfoData {
    /// Appends the display form of this description.
    pub fn describe(&self, out: &mut String)
        ensures
            final(out)@ == self@.described(old(out)@),
    {
        out.append("PlayInfoData { is_from_channel: ");
        out.append(bool_str(self.is_from_channel));
        out.append(", play_album: ");
        push_optional_text(out, &self.play_album);
        out.append(", play_album_uri: ");
        push_optional_text(out, &self.play_album_uri);
        out.append(", play_artist: ");
        push_optional_text(out, &self.play_artist);
        out.append(", play_attribution: ");
        push_optional_text(out, &self.play_attribution);
        out.append(", play_identity: ");
        push_optional_text(out, &self.play_identity);
        out.append(", play_object: ");
        push_optional_text(out, &self.play_object);
        out.append(", play_pic: ");
        push_optional_text(out, &self.play_pic);
        out.append(", play_preset_available: ");
        match self.play_preset_available {
            Some(n) => {
                out.append("Some(");
                push_integer(out, n as i64);
                out.append(")");
            },
            None => {
                out.append("None");
            },
        }
        out.append(", play_subtitle: ");
        push_optional_text(out, &self.play_subtitle);
        out.append(", play_title: ");
        push_optional_text(out, &self.play_title);
        out.append(", play_type: ");
        push_optional_text(out, &self.play_type);
        out.append(", play_username: ");
        push_optional_text(out, &self.play_username);
        out.append(", play_token: ");
        push_optional_text(out, &self.play_token);
        out.append(" }");
    }
}

/// `acc` followed by the display forms of the first `n` of the capabilities
/// called `names`, with `, ` between them.
pub open spec fn first_capabilities_described(
    acc: Seq<char>,
    names: Seq<Seq<char>>,
    n: nat,
) -> Seq<char>
    decreases n,
{
    if n == 0 {
        acc
    } else {
        let t = first_capabilities_described(acc, names, (n - 1) as nat);
        let t = if n > 1 {
            t + ", "@
        } else {
            t
        };
        t + "Capability { name: "@ + quoted(names[n - 1]) + " }"@
    }
}

/// `acc` followed by the display form of the capabilities called `names`.
pub open spec fn capabilities_described(acc: Seq<char>, names: Seq<Seq<char>>) -> Seq<char> {
    first_capabilities_described(
        acc + "CapabilitiesData { capabilities: ["@,
        names,
        names.len(),
    ) + "] }"@
}

impl CapabilitiesData {
    /// Appends the display form of these capabilities.
    pub fn describe(&self, out: &mut String)
        ensures
            final(out)@ == capabilities_described(old(out)@, self@),
    {
        out.append("CapabilitiesData { capabilities: [");
        let mut i: usize = 0;
        while i < self.capabilities.len()
            invariant
                i <= self.capabilities.len(),
                out@ == first_capabilities_described(
                    old(out)@ + "CapabilitiesData { capabilities: ["@,
                    self@,
                    i as nat,
                ),
            decreases self.capabilities.len() - i,
        {
            if i > 0 {
                out.append(", ");
            }
            assert(self@[i as int] == self.capabilities@[i as int].name@);
            out.append("Capability { name: ");
            push_quoted(out, self.capabilities[i].name.as_str());
            out.append(" }");
            i += 1;
        }
        assert(self@.len() == self.capabilities@.len());
        out.append("] }");
    }
}

/// In the members of the document of a description, each name of a member
/// finds the member's value.
proof fn lemma_play_info_members(d: PlayInfoDataView, i: int)
    requires
        0 <= i < 14,
    ensures
        d.json().get(d.json()->Object_0[i].0) == Some(d.json()->Object_0[i].1),
{
    lemma_play_info_json_writable(d);
    crate::json::lemma_member_of_distinct(d.json()->Object_0, i);
}

/// Reading the document of a description gives the description.
pub proof fn lemma_play_info_json_round_trip(d: PlayInfoDataView)
    ensures
        PlayInfoDataView::of_json(d.json()) == Ok::<PlayInfoDataView, DecodeError>(d),
{
    let j = d.json();
    let m = j->Object_0;
    assert(m.len() == 14);
    lemma_play_info_members(d, 0);
    lemma_play_info_members(d, 1);
    lemma_play_info_members(d, 2);
    lemma_play_info_members(d, 3);
    lemma_play_info_members(d, 4);
    lemma_play_info_members(d, 5);
    lemma_play_info_members(d, 6);
    lemma_play_info_members(d, 7);
    lemma_play_info_members(d, 8);
    lemma_play_info_members(d, 9);
    lemma_play_info_members(d, 10);
    lemma_play_info_members(d, 11);
    lemma_play_info_members(d, 12);
    lemma_play_info_members(d, 13);
    assert(m[0].0 == "is_from_channel"@);
    assert(m[1].0 == "play_album"@);
    assert(m[2].0 == "play_album_uri"@);
    assert(m[3].0 == "play_artist"@);
    assert(m[4].0 == "play_attribution"@);
    assert(m[5].0 == "play_identity"@);
    assert(m[6].0 == "play_object"@);
    assert(m[7].0 == "play_pic"@);
    assert(m[8].0 == "play_preset_available"@);
    assert(m[9].0 == "play_subtitle"@);
    assert(m[10].0 == "play_title"@);
    assert(m[11].0 == "play_type"@);
    assert(m[12].0 == "play_username"@);
    assert(m[13].0 == "play_token"@);
    assert(PlayInfoDataView::fits(j));
}

} // verus!
