//! Presets of a device: a radio station or a playlist that the device can
//! start by itself.

use vstd::prelude::*;
use vstd::string::*;
use crate::commands::DecodeError;
use crate::json::{members_value, push_member, Json, JsonValue};
use crate::media::{
    bool_str, copy_optional_text, optional_bool, optional_bool_described, optional_text,
    optional_text_described, push_optional_text, read_optional_bool, read_optional_text,
    read_required_i64, read_required_text, required_i64, required_text, text_or_null,
    PlayInfoData, PlayInfoDataView,
};
use crate::text::{integer_text, push_integer, push_quoted, quoted, str_eq};

verus! {

/// The service that a preset belongs to.
#[derive(Clone, Copy, Debug, PartialEq, Eq, Structural)]
pub enum ChannelType {
    VTuner,
    XMLY,
    DoubanFM,
    Spotify,
    Kaishu,
    Deezer,
    Tidal,
    Napster,
}

impl DeepView for ChannelType {
    type V = ChannelType;

    open spec fn deep_view(&self) -> ChannelType {
        *self
    }
}

impl ChannelType {
    /// The name of the service on the wire.
    pub open spec fn name(self) -> Seq<char> {
        match self {
            ChannelType::VTuner => "vtuner"@,
            ChannelType::XMLY => "xmly"@,
            ChannelType::DoubanFM => "doubanfm"@,
            ChannelType::Spotify => "spotify"@,
            ChannelType::Kaishu => "kaishu"@,
            ChannelType::Deezer => "deezer"@,
            ChannelType::Tidal => "tidal"@,
            ChannelType::Napster => "napster"@,
        }
    }

    /// The service that is called `name` on the wire.
    pub open spec fn named(name: Seq<char>) -> Option<ChannelType> {
        if name == "vtuner"@ {
            Some(ChannelType::VTuner)
        } else if name == "xmly"@ {
            Some(ChannelType::XMLY)
        } else if name == "doubanfm"@ {
            Some(ChannelType::DoubanFM)
        } else if name == "spotify"@ {
            Some(ChannelType::Spotify)
        } else if name == "kaishu"@ {
            Some(ChannelType::Kaishu)
        } else if name == "deezer"@ {
            Some(ChannelType::Deezer)
        } else if name == "tidal"@ {
            Some(ChannelType::Tidal)
        } else if name == "napster"@ {
            Some(ChannelType::Napster)
        } else {
            None
        }
    }

    /// The name of the service on the wire.
    pub fn as_str(self) -> (s: &'static str)
        ensures
            s@ == self.name(),
    {
        match self {
            ChannelType::VTuner => "vtuner",
            ChannelType::XMLY => "xmly",
            ChannelType::DoubanFM => "doubanfm",
            ChannelType::Spotify => "spotify",
            ChannelType::Kaishu => "kaishu",
            ChannelType::Deezer => "deezer",
            ChannelType::Tidal => "tidal",
            ChannelType::Napster => "napster",
        }
    }

    /// The service that is called `name` on the wire.
    pub fn from_name(name: &str) -> (r: Option<ChannelType>)
        ensures
            r == Self::named(name@),
    {
        if str_eq(name, "vtuner") {
            Some(ChannelType::VTuner)
        } else if str_eq(name, "xmly") {
            Some(ChannelType::XMLY)
        } else if str_eq(name, "doubanfm") {
            Some(ChannelType::DoubanFM)
        } else if str_eq(name, "spotify") {
            Some(ChannelType::Spotify)
        } else if str_eq(name, "kaishu") {
            Some(ChannelType::Kaishu)
        } else if str_eq(name, "deezer") {
            Some(ChannelType::Deezer)
        } else if str_eq(name, "tidal") {
            Some(ChannelType::Tidal)
        } else if str_eq(name, "napster") {
            Some(ChannelType::Napster)
        } else {
            None
        }
    }
}

/// Each service is found again by its name.
pub proof fn lemma_named_of_name(t: ChannelType)
    ensures
        ChannelType::named(t.name()) == Some(t),
{
    reveal_strlit("vtuner");
    reveal_strlit("xmly");
    reveal_strlit("doubanfm");
    reveal_strlit("spotify");
    reveal_strlit("kaishu");
    reveal_strlit("deezer");
    reveal_strlit("tidal");
    reveal_strlit("napster");
    assert("vtuner"@[0] == 'v' && "vtuner"@.len() == 6);
    assert("xmly"@.len() == 4);
    assert("doubanfm"@.len() == 8);
    assert("spotify"@[0] == 's' && "spotify"@.len() == 7);
    assert("kaishu"@[0] == 'k' && "kaishu"@.len() == 6);
    assert("deezer"@[0] == 'd' && "deezer"@.len() == 6);
    assert("tidal"@.len() == 5);
    assert("napster"@[0] == 'n' && "napster"@.len() == 7);
}

/// One preset.
#[derive(Debug, PartialEq, Eq)]
pub struct ChannelObject {
    pub is_playing: Option<bool>,
    pub channel_id: i64,
    pub channel_type: ChannelType,
    pub channel_name: String,
    pub channel_identity: Option<String>,
    pub station_url: Option<String>,
    pub picture_url: Option<String>,
    pub username: Option<String>,
    pub password: Option<String>,
    pub play_token: Option<String>,
}

/// The mathematical content of a [`ChannelObject`].
pub ghost struct ChannelObjectView {
    pub is_playing: Option<bool>,
    pub channel_id: i64,
    pub channel_type: ChannelType,
    pub channel_name: Seq<char>,
    pub channel_identity: Option<Seq<char>>,
    pub station_url: Option<Seq<char>>,
    pub picture_url: Option<Seq<char>>,
    pub username: Option<Seq<char>>,
    pub password: Option<Seq<char>>,
    pub play_token: Option<Seq<char>>,
}

impl View for ChannelObject {
    type V = ChannelObjectView;

    open spec fn view(&self) -> ChannelObjectView {
        ChannelObjectView {
            is_playing: self.is_playing,
            channel_id: self.channel_id,
            channel_type: self.channel_type,
            channel_name: self.channel_name@,
            channel_identity: self.channel_identity.deep_view(),
            station_url: self.station_url.deep_view(),
            picture_url: self.picture_url.deep_view(),
            username: self.username.deep_view(),
            password: self.password.deep_view(),
            play_token: self.play_token.deep_view(),
        }
    }
}

impl DeepView for ChannelObject {
    type V = ChannelObjectView;

    open spec fn deep_view(&self) -> ChannelObjectView {
        self@
    }
}

impl ChannelObjectView {
    /// The document that carries this preset.
    pub open spec fn json(self) -> JsonValue {
        JsonValue::Object(
            seq![
                (
                    "is_playing"@,
                    match self.is_playing {
                        Some(b) => JsonValue::Bool(b),
                        None => JsonValue::Null,
                    },
                ),
                ("channel_id"@, JsonValue::Int(self.channel_id)),
                ("channel_type"@, JsonValue::Str(self.channel_type.name())),
                ("channel_name"@, JsonValue::Str(self.channel_name)),
                ("channel_identity"@, text_or_null(self.channel_identity)),
                ("station_url"@, text_or_null(self.station_url)),
                ("picture_url"@, text_or_null(self.picture_url)),
                ("username"@, text_or_null(self.username)),
                ("password"@, text_or_null(self.password)),
                ("play_token"@, text_or_null(self.play_token)),
            ],
        )
    }

    /// The service that the document `j` names; an error where it names
    /// none that is known.
    pub open spec fn channel_type_of(j: JsonValue) -> Result<ChannelType, DecodeError> {
        match required_text(j, "channel_type"@) {
            Ok(name) => match ChannelType::named(name) {
                Some(t) => Ok(t),
                None => Err(DecodeError::InvalidShape),
            },
            Err(e) => Err(e),
        }
    }

    /// Every member of `j` that a preset knows has the shape it should.
    pub open spec fn fits(j: JsonValue) -> bool {
        &&& optional_bool(j, "is_playing"@) is Ok
        &&& required_i64(j, "channel_id"@) is Ok
        &&& Self::channel_type_of(j) is Ok
        &&& required_text(j, "channel_name"@) is Ok
        &&& optional_text(j, "channel_identity"@) is Ok
        &&& optional_text(j, "station_url"@) is Ok
        &&& optional_text(j, "picture_url"@) is Ok
        &&& optional_text(j, "username"@) is Ok
        &&& optional_text(j, "password"@) is Ok
        &&& optional_text(j, "play_token"@) is Ok
    }

    /// The preset that the document `j` carries.
    pub open spec fn of_json(j: JsonValue) -> Result<ChannelObjectView, DecodeError> {
        if Self::fits(j) {
            Ok(
                ChannelObjectView {
                    is_playing: optional_bool(j, "is_playing"@)->Ok_0,
                    channel_id: required_i64(j, "channel_id"@)->Ok_0,
                    channel_type: Self::channel_type_of(j)->Ok_0,
                    channel_name: required_text(j, "channel_name"@)->Ok_0,
                    channel_identity: optional_text(j, "channel_identity"@)->Ok_0,
                    station_url: optional_text(j, "station_url"@)->Ok_0,
                    picture_url: optional_text(j, "picture_url"@)->Ok_0,
                    username: optional_text(j, "username"@)->Ok_0,
                    password: optional_text(j, "password"@)->Ok_0,
                    play_token: optional_text(j, "play_token"@)->Ok_0,
                },
            )
        } else {
            Err(DecodeError::InvalidShape)
        }
    }

    /// What plays once this preset is started: its name as title and
    /// subtitle, its service as type, its identity and its token.
    pub open spec fn play_info(self) -> PlayInfoDataView {
        PlayInfoDataView {
            is_from_channel: false,
            play_album: None,
            play_album_uri: None,
            play_artist: None,
            play_attribution: None,
            play_identity: self.channel_identity,
            play_object: None,
            play_pic: None,
            play_preset_available: None,
            play_subtitle: Some(self.channel_name),
            play_title: Some(self.channel_name),
            play_type: Some(self.channel_type.name()),
            play_username: None,
            play_token: self.play_token,
        }
    }
}

/// The presets that the document `j` carries: `j` is an array, and each of
/// its items carries one.
pub open spec fn channels_of_json(j: JsonValue) -> Result<Seq<ChannelObjectView>, DecodeError> {
    match j {
        JsonValue::Array(items) => if forall|i: int|
            0 <= i < items.len() ==> ChannelObjectView::of_json(#[trigger] items[i]) is Ok {
            Ok(Seq::new(items.len(), |i: int| ChannelObjectView::of_json(items[i])->Ok_0))
        } else {
            Err(DecodeError::InvalidShape)
        },
        _ => Err(DecodeError::InvalidShape),
    }
}

impl Clone for ChannelObject {
    fn clone(&self) -> (c: ChannelObject)
        ensures
            c@ == self@,
    {
        ChannelObject {
            is_playing: self.is_playing,
            channel_id: self.channel_id,
            channel_type: self.channel_type,
            channel_name: self.channel_name.clone(),
            channel_identity: copy_optional_text(&self.channel_identity),
            station_url: copy_optional_text(&self.station_url),
            picture_url: copy_optional_text(&self.picture_url),
            username: copy_optional_text(&self.username),
            password: copy_optional_text(&self.password),
            play_token: copy_optional_text(&self.play_token),
        }
    }
}

impl ChannelObject {
    /// Reads a preset from a document.
    pub fn from_json(j: &Json) -> (r: Result<ChannelObject, DecodeError>)
        ensures
            match r {
                Ok(c) => ChannelObjectView::of_json(j@) == Ok::<ChannelObjectView, DecodeError>(
                    c@,
                ),
                Err(e) => ChannelObjectView::of_json(j@) == Err::<ChannelObjectView, DecodeError>(
                    e,
                ),
            },
    {
        let is_playing = match read_optional_bool(j, "is_playing") {
            Ok(v) => v,
            Err(_) => return Err(DecodeError::InvalidShape),
        };
        let channel_id = match read_required_i64(j, "channel_id") {
            Ok(v) => v,
            Err(_) => return Err(DecodeError::InvalidShape),
        };
        let service = match read_required_text(j, "channel_type") {
            Ok(v) => v,
            Err(_) => return Err(DecodeError::InvalidShape),
        };
        let channel_type = match ChannelType::from_name(service.as_str()) {
            Some(t) => t,
            None => return Err(DecodeError::InvalidShape),
        };
        let channel_name = match read_required_text(j, "channel_name") {
            Ok(v) => v,
            Err(_) => return Err(DecodeError::InvalidShape),
        };
        let channel_identity = match read_optional_text(j, "channel_identity") {
            Ok(v) => v,
            Err(_) => return Err(DecodeError::InvalidShape),
        };
        let station_url = match read_optional_text(j, "station_url") {
            Ok(v) => v,
            Err(_) => return Err(DecodeError::InvalidShape),
        };
        let picture_url = match read_optional_text(j, "picture_url") {
            Ok(v) => v,
            Err(_) => return Err(DecodeError::InvalidShape),
        };
        let username = match read_optional_text(j, "username") {
            Ok(v) => v,
            Err(_) => return Err(DecodeError::InvalidShape),
        };
        let password = match read_optional_text(j, "password") {
            Ok(v) => v,
            Err(_) => return Err(DecodeError::InvalidShape),
        };
        let play_token = match read_optional_text(j, "play_token") {
            Ok(v) => v,
            Err(_) => return Err(DecodeError::InvalidShape),
        };
        Ok(
            ChannelObject {
                is_playing,
                channel_id,
                channel_type,
                channel_name,
                channel_identity,
                station_url,
                picture_url,
                username,
                password,
                play_token,
            },
        )
    }

    /// The document that carries this preset.
    pub fn to_json(&self) -> (j: Json)
        ensures
            j@ == self@.json(),
    {
        let mut members: Vec<(String, Json)> = Vec::new();
        assert(members_value(members@) =~= Seq::empty());
        let playing = match self.is_playing {
            Some(b) => Json::Bool(b),
            None => Json::Null,
        };
        push_member(&mut members, "is_playing", playing);
        push_member(&mut members, "channel_id", Json::Int(self.channel_id));
        push_member(
            &mut members,
            "channel_type",
            Json::Str(self.channel_type.as_str().to_owned()),
        );
        push_member(&mut members, "channel_name", Json::Str(self.channel_name.clone()));
        push_member(&mut members, "channel_identity", Json::text_or_null(&self.channel_identity));
        push_member(&mut members, "station_url", Json::text_or_null(&self.station_url));
        push_member(&mut members, "picture_url", Json::text_or_null(&self.picture_url));
        push_member(&mut members, "username", Json::text_or_null(&self.username));
        push_member(&mut members, "password", Json::text_or_null(&self.password));
        push_member(&mut members, "play_token", Json::text_or_null(&self.play_token));
        assert(members_value(members@) =~= self@.json()->Object_0);
        Json::object(members)
    }

    /// What plays once this preset is started.
    pub fn play_info_data(&self) -> (d: PlayInfoData)
        ensures
            d@ == self@.play_info(),
    {
        PlayInfoData {
            is_from_channel: false,
            play_album: None,
            play_album_uri: None,
            play_artist: None,
            play_attribution: None,
            play_identity: copy_optional_text(&self.channel_identity),
            play_object: None,
            play_pic: None,
            play_preset_available: None,
            play_subtitle: Some(self.channel_name.clone()),
            play_title: Some(self.channel_name.clone()),
            play_type: Some(self.channel_type.as_str().to_owned()),
            play_username: None,
            play_token: copy_optional_text(&self.play_token),
        }
    }
}

/// Reads the presets that a document carries.
pub fn channels_from_json(j: &Json) -> (r: Result<Vec<ChannelObject>, DecodeError>)
    ensures
        match r {
            Ok(v) => channels_of_json(j@) == Ok::<Seq<ChannelObjectView>, DecodeError>(
                v.deep_view(),
            ),
            Err(e) => channels_of_json(j@) == Err::<Seq<ChannelObjectView>, DecodeError>(e),
        },
{
    match j {
        Json::Array(items) => {
            proof {
                crate::json::lemma_json_value(*j);
            }
            let ghost values = j@->Array_0;
            let mut out: Vec<ChannelObject> = Vec::new();
            let mut i: usize = 0;
            while i < items.len()
                invariant
                    i <= items.len(),
                    j@ == JsonValue::Array(values),
                    values.len() == items@.len(),
                    forall|k: int| 0 <= k < items@.len() ==> #[trigger] values[k] == items@[k]@,
                    out@.len() == i,
                    forall|k: int|
                        0 <= k < i ==> ChannelObjectView::of_json(#[trigger] values[k]) == Ok::<
                            ChannelObjectView,
                            DecodeError,
                        >(out@[k]@),
                decreases items.len() - i,
            {
                match ChannelObject::from_json(&items[i]) {
                    Ok(c) => {
                        out.push(c);
                    },
                    Err(_) => {
                        assert(!(ChannelObjectView::of_json(values[i as int]) is Ok));
                        return Err(DecodeError::InvalidShape);
                    },
                }
                i += 1;
            }
            assert(channels_of_json(j@) is Ok);
            assert forall|k: int| 0 <= k < out@.len() implies #[trigger] out.deep_view()[k]
                == channels_of_json(j@)->Ok_0[k] by {
                assert(ChannelObjectView::of_json(values[k]) is Ok);
            }
            assert(out.deep_view() =~= channels_of_json(j@)->Ok_0);
            Ok(out)
        },
        _ => Err(DecodeError::InvalidShape),
    }
}

/// The document of a preset can be written.
pub proof fn lemma_channel_json_writable(c: ChannelObjectView)
    ensures
        c.json().writable(),
{
    reveal_strlit("is_playing");
    reveal_strlit("channel_id");
    reveal_strlit("channel_type");
    reveal_strlit("channel_name");
    reveal_strlit("channel_identity");
    reveal_strlit("station_url");
    reveal_strlit("picture_url");
    reveal_strlit("username");
    reveal_strlit("password");
    reveal_strlit("play_token");
    let members = c.json()->Object_0;
    assert(members.len() == 10);
    assert forall|i: int, j: int| 0 <= i < j < members.len() implies (#[trigger] members[i]).0 != (
    #[trigger] members[j]).0 by {
        let a = members[i].0;
        let b = members[j].0;
        if a.len() == b.len() {
            assert(a[0] != b[0] || a[8] != b[8]);
        }
    }
    assert forall|i: int| 0 <= i < members.len() implies (#[trigger] members[i]).1.writable() by {}
}

impl ChannelType {
    /// The name of the variant.
    pub open spec fn variant_text(self) -> Seq<char> {
        match self {
            ChannelType::VTuner => "VTuner"@,
            ChannelType::XMLY => "XMLY"@,
            ChannelType::DoubanFM => "DoubanFM"@,
            ChannelType::Spotify => "Spotify"@,
            ChannelType::Kaishu => "Kaishu"@,
            ChannelType::Deezer => "Deezer"@,
            ChannelType::Tidal => "Tidal"@,
            ChannelType::Napster => "Napster"@,
        }
    }

    /// The name of the variant.
    pub fn variant_str(self) -> (s: &'static str)
        ensures
            s@ == self.variant_text(),
    {
        match self {
            ChannelType::VTuner => "VTuner",
            ChannelType::XMLY => "XMLY",
            ChannelType::DoubanFM => "DoubanFM",
            ChannelType::Spotify => "Spotify",
            ChannelType::Kaishu => "Kaishu",
            ChannelType::Deezer => "Deezer",
            ChannelType::Tidal => "Tidal",
            ChannelType::Napster => "Napster",
        }
    }
}

impl ChannelObjectView {
    /// `acc` followed by the display form of this preset.
    pub open spec fn described(self, acc: Seq<char>) -> Seq<char> {
        let t = optional_bool_described(acc + "ChannelObject { is_playing: "@, self.is_playing);
        let t = t + ", channel_id: "@ + integer_text(self.channel_id as int);
        let t = t + ", channel_type: "@ + self.channel_type.variant_text();
        let t = t + ", channel_name: "@ + quoted(self.channel_name);
        let t = optional_text_described(t + ", channel_identity: "@, self.channel_identity);
        let t = optional_text_described(t + ", station_url: "@, self.station_url);
        let t = optional_text_described(t + ", picture_url: "@, self.picture_url);
        let t = optional_text_described(t + ", username: "@, self.username);
        let t = optional_text_described(t + ", password: "@, self.password);
        let t = optional_text_described(t + ", play_token: "@, self.play_token);
        t + " }"@
    }
}

/// `acc` followed by the display forms of the first `n` of `list`, with
/// `, ` between them.
pub open spec fn first_channels_described(
    acc: Seq<char>,
    list: Seq<ChannelObjectView>,
    n: nat,
) -> Seq<char>
    decreases n,
{
    if n == 0 {
        acc
    } else {
        let t = first_channels_described(acc, list, (n - 1) as nat);
        let t = if n > 1 {
            t + ", "@
        } else {
            t
        };
        list[n - 1].described(t)
    }
}

/// `acc` followed by the display form of a list of presets.
pub open spec fn channels_described(acc: Seq<char>, list: Seq<ChannelObjectView>) -> Seq<char> {
    first_channels_described(acc + "["@, list, list.len()) + "]"@
}

impl ChannelObject {
    /// Appends the display form of this preset.
    pub fn describe(&self, out: &mut String)
        ensures
            final(out)@ == self@.described(old(out)@),
    {
        out.append("ChannelObject { is_playing: ");
        match self.is_playing {
            Some(b) => {
                out.append("Some(");
                out.append(bool_str(b));
                out.append(")");
            },
            None => {
                out.append("None");
            },
        }
        out.append(", channel_id: ");
        push_integer(out, self.channel_id);
        out.append(", channel_type: ");
        out.append(self.channel_type.variant_str());
        out.append(", channel_name: ");
        push_quoted(out, self.channel_name.as_str());
        out.append(", channel_identity: ");
        push_optional_text(out, &self.channel_identity);
        out.append(", station_url: ");
        push_optional_text(out, &self.station_url);
        out.append(", picture_url: ");
        push_optional_text(out, &self.picture_url);
        out.append(", username: ");
        push_optional_text(out, &self.username);
        out.append(", password: ");
        push_optional_text(out, &self.password);
        out.append(", play_token: ");
        push_optional_text(out, &self.play_token);
        out.append(" }");
    }
}

/// Appends the display form of a list of presets.
pub fn describe_channels(list: &Vec<ChannelObject>, out: &mut String)
    ensures
        final(out)@ == channels_described(old(out)@, list.deep_view()),
{
    out.append("[");
    let mut i: usize = 0;
    while i < list.len()
        invariant
            i <= list.len(),
            out@ == first_channels_described(old(out)@ + "["@, list.deep_view(), i as nat),
        decreases list.len() - i,
    {
        if i > 0 {
            out.append(", ");
        }
        assert(list.deep_view()[i as int] == list@[i as int]@);
        list[i].describe(out);
        i += 1;
    }
    assert(list.deep_view().len() == list@.len());
    out.append("]");
}

/// In the members of the document of a preset, each name of a member finds
/// the member's value.
proof fn lemma_channel_members(c: ChannelObjectView, i: int)
    requires
        0 <= i < 10,
    ensures
        c.json().get(c.json()->Object_0[i].0) == Some(c.json()->Object_0[i].1),
{
    lemma_channel_json_writable(c);
    crate::json::lemma_member_of_distinct(c.json()->Object_0, i);
}

/// Reading the document of a preset gives the preset.
pub proof fn lemma_channel_json_round_trip(c: ChannelObjectView)
    ensures
        ChannelObjectView::of_json(c.json()) == Ok::<ChannelObjectView, DecodeError>(c),
{
    let j = c.json();
    let m = j->Object_0;
    assert(m.len() == 10);
    lemma_channel_members(c, 0);
    lemma_channel_members(c, 1);
    lemma_channel_members(c, 2);
    lemma_channel_members(c, 3);
    lemma_channel_members(c, 4);
    lemma_channel_members(c, 5);
    lemma_channel_members(c, 6);
    lemma_channel_members(c, 7);
    lemma_channel_members(c, 8);
    lemma_channel_members(c, 9);
    assert(m[0].0 == "is_playing"@);
    assert(m[1].0 == "channel_id"@);
    assert(m[2].0 == "channel_type"@);
    assert(m[3].0 == "channel_name"@);
    assert(m[4].0 == "channel_identity"@);
    assert(m[5].0 == "station_url"@);
    assert(m[6].0 == "picture_url"@);
    assert(m[7].0 == "username"@);
    assert(m[8].0 == "password"@);
    assert(m[9].0 == "play_token"@);
    lemma_named_of_name(c.channel_type);
    assert(ChannelObjectView::fits(j));
}

} // verus!
