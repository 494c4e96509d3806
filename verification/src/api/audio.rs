//! The audio endpoints' own logic: the channel a request names.
use vstd::prelude::*;
use crate::api::chat::bad_request;
use crate::api::errors::{validation, ErrorReply};
use crate::text::{chars_of, lit};

verus! {

broadcast use vstd::string::group_string_axioms;

/// An audio channel: background music or ambience.
#[derive(Debug, Clone, Copy, PartialEq, Eq, Structural)]
pub enum AudioChannel {
    Bgm,
    Ambient,
}

/// A settings change of one channel (its `type` field on the wire).
pub struct SettingsBody<P> {
    pub channel: String,
    pub settings: P,
}

/// A new playlist of one channel (its `type` field on the wire).
pub struct PlaylistBody<T> {
    pub channel: String,
    pub tracks: Vec<T>,
}

/// The channel a name denotes: `bgm` or `ambient`.
pub open spec fn channel_of(name: Seq<char>) -> Option<AudioChannel> {
    if name == "bgm"@ {
        Some(AudioChannel::Bgm)
    } else if name == "ambient"@ {
        Some(AudioChannel::Ambient)
    } else {
        None
    }
}

/// The channel a request names (see `channel_of`); any other name is refused.
pub fn audio_channel(name: &str) -> (r: Result<AudioChannel, ErrorReply>)
    ensures
        match channel_of(name@) {
            Some(c) => r == Ok::<AudioChannel, ErrorReply>(c),
            None => r matches Err(e) && bad_request(e, "无效的音频通道"@),
        },
{
    let c = chars_of(name);
    if crate::json::eq_chars(&c, &lit("bgm")) {
        Ok(AudioChannel::Bgm)
    } else if crate::json::eq_chars(&c, &lit("ambient")) {
        Ok(AudioChannel::Ambient)
    } else {
        Err(validation("无效的音频通道"))
    }
}

} // verus!
