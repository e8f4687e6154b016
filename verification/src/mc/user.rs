use crate::mc::util::Codec;
use crate::text::{uuid_string, uuid_text};
use iso8601_timestamp::Timestamp;
use vstd::prelude::*;

verus! {

/// The identifier of a user: the 128-bit value of its UUID.
#[derive(Clone, Copy, Debug, PartialEq, Eq, Structural)]
pub struct UserID(pub u128);

impl UserID {
    /// The identifier as the service writes it.
    pub fn to_string(&self) -> (s: String)
        ensures
            s@ == uuid_text(self.0),
    {
        uuid_string(self.0)
    }
}

/// What a user may change of the account's information.
#[derive(Clone, Debug, PartialEq)]
pub struct EditableUserInfo {
    pub birthday: Option<Timestamp>,
    pub google_maps_place_id: Option<String>,
    pub first_name: Option<String>,
    pub last_name: Option<String>,
    pub pronouns: Option<String>,
}

/// The attributes of a user; most say which emails the user wants.
#[derive(Clone, Debug, PartialEq)]
pub struct Attributes {
    pub events: bool,
    pub gold_perks: bool,
    pub merch: Option<bool>,
    pub news: Option<bool>,
    pub relics: Option<bool>,
}

/// The settings of a user.
#[derive(Clone, Debug, PartialEq)]
pub struct Settings {
    pub auto_enable_streamer_mode: Option<bool>,
    pub block_unlicensable_tracks: Option<bool>,
    pub hide_unlicensable_tracks: Option<bool>,
    pub streamer_mode: Option<bool>,
    pub playlist_public_default: bool,
    pub preferred_format: String,
    pub say_song: Option<bool>,
    pub auto_say_song: Option<bool>,
}

/// What a user may change of the settings.
///
/// `auto_say_song` needs `say_song`, and both need a connected Twitch account.
#[derive(Clone, Debug, PartialEq)]
pub struct EditableSettings {
    pub playlist_public_default: Option<bool>,
    pub preferred_format: Option<Codec>,
    pub say_song: Option<bool>,
    pub auto_say_song: Option<bool>,
}

/// The answer that carries the code of the streaming widget.
#[derive(Clone, Debug, PartialEq)]
pub struct PlayerCode {
    pub player_code: String,
}

/// The identifier of a shop code: the 128-bit value of its UUID.
#[derive(Clone, Copy, Debug, PartialEq, Eq, Structural)]
pub struct ShopCodeID(pub u128);

impl ShopCodeID {
    /// The identifier as the service writes it.
    pub fn to_string(&self) -> (s: String)
        ensures
            s@ == uuid_text(self.0),
    {
        uuid_string(self.0)
    }
}

/// A discount code for the shop.
#[derive(Clone, Debug, PartialEq)]
pub struct ShopCode {
    pub id: ShopCodeID,
    pub code: String,
    pub create_date: Timestamp,
    pub expire_date: Timestamp,
    pub reward_description: String,
    pub updated_at: Timestamp,
    pub user_id: UserID,
    pub value: String,
    pub value_type: String,
}

/// The body of the request that sets a new email address.
#[derive(Clone, Debug, PartialEq)]
pub struct NewEmail {
    pub new_email: String,
}

/// The body of the request that sets a new password.
#[derive(Clone, Debug, PartialEq)]
pub struct NewPassword {
    pub old_password: String,
    pub new_password: String,
}

/// The subjects on which a user can be notified.
#[derive(Clone, Copy, Debug, PartialEq, Eq, Structural)]
pub enum NotificationInterests {
    News,
    Events,
    Merch,
    GoldPerks,
    Relics,
}

} // verus!
