use crate::client::endpoints::{parameters_queries, queries_of, EndpointUser, TargetAPI};
use crate::client::request::{
    member, Expect, ExpectView, Field, FieldView, Method, Post, Request, RequestParameters,
};
use crate::client::SignedIn;
use crate::mc::user::{
    EditableSettings, EditableUserInfo, NewEmail, NewPassword, NotificationInterests,
};
use crate::mc::util::{ClaimVideoId, LicenseID};
use crate::text::{join3, uuid_text};
use vstd::prelude::*;

verus! {

impl EndpointUser<'_, SignedIn> {
    /// Asks for the user's settings and information; the answer holds them
    /// as `Settings` and `User`.
    pub fn get_info(&self) -> (request: Request)
        ensures
            request@ == self.client@.request(
                Method::Get,
                TargetAPI::Player,
                "/me"@,
                Seq::empty(),
                ExpectView::Members(
                    FieldView { key: "Settings"@, item: "user settings"@ },
                    FieldView { key: "User"@, item: "user information"@ },
                ),
            ),
    {
        let mut request = self.client.get(TargetAPI::Player, "/me", None);
        request.expect = Expect::Members(
            Field { key: "Settings", item: "user settings" },
            Field { key: "User", item: "user information" },
        );
        request
    }

    /// Changes what can be changed of the user's information.
    pub fn set_info(&self, user_info: EditableUserInfo) -> (post: Post<EditableUserInfo>)
        ensures
            post.request@ == self.client@.request(
                Method::Post,
                TargetAPI::Player,
                "/me"@,
                Seq::empty(),
                ExpectView::Nothing,
            ),
            post.data == Some(user_info),
    {
        self.client.post_empty_response(TargetAPI::Player, "/me", None, Some(user_info))
    }

    /// Changes what can be changed of the user's settings.
    pub fn set_settings(&self, user_info: EditableSettings) -> (post: Post<EditableSettings>)
        ensures
            post.request@ == self.client@.request(
                Method::Post,
                TargetAPI::Player,
                "/me/settings"@,
                Seq::empty(),
                ExpectView::Nothing,
            ),
            post.data == Some(user_info),
    {
        self.client.post_empty_response(TargetAPI::Player, "/me/settings", None, Some(user_info))
    }

    /// Asks for the code of the streaming widget.
    pub fn get_player_code(&self) -> (request: Request)
        ensures
            request@ == self.client@.request(
                Method::Get,
                TargetAPI::Player,
                "/me/player-code"@,
                Seq::empty(),
                ExpectView::Json,
            ),
    {
        self.client.get(TargetAPI::Player, "/me/player-code", None)
    }

    /// Has a new code of the streaming widget made.
    pub fn generate_player_code(&self) -> (post: Post<()>)
        ensures
            post.request@ == self.client@.request(
                Method::Post,
                TargetAPI::Player,
                "/me/player-code"@,
                Seq::empty(),
                ExpectView::Nothing,
            ),
            post.data is None,
    {
        self.client.post_empty_response(TargetAPI::Player, "/me/player-code", None, None)
    }

    /// Sets a new email address for the account and for signing in.
    pub fn set_email(&self, new_email: String) -> (post: Post<NewEmail>)
        ensures
            post.request@ == self.client@.request(
                Method::Post,
                TargetAPI::Player,
                "/me/email"@,
                Seq::empty(),
                ExpectView::Nothing,
            ),
            post.data == Some(NewEmail { new_email }),
    {
        self.client.post_empty_response(
            TargetAPI::Player,
            "/me/email",
            None,
            Some(NewEmail { new_email }),
        )
    }

    /// Sets a new password.
    pub fn set_password(&self, old_password: String, new_password: String) -> (post: Post<
        NewPassword,
    >)
        ensures
            post.request@ == self.client@.request(
                Method::Post,
                TargetAPI::Player,
                "/me/password"@,
                Seq::empty(),
                ExpectView::Nothing,
            ),
            post.data == Some(NewPassword { old_password, new_password }),
    {
        self.client.post_empty_response(
            TargetAPI::Player,
            "/me/password",
            None,
            Some(NewPassword { old_password, new_password }),
        )
    }

    /// Turns on the second factor by one-time code.
    pub fn enable_2fa_totp(&self) -> (post: Post<()>)
        ensures
            post.request@ == self.client@.request(
                Method::Post,
                TargetAPI::Player,
                "/me/two-factor/enable-totp"@,
                Seq::empty(),
                ExpectView::Nothing,
            ),
            post.data is None,
    {
        self.client.post_empty_response(TargetAPI::Player, "/me/two-factor/enable-totp", None, None)
    }

    /// Turns off the second factor by one-time code.
    pub fn disable_2fa_totp(&self) -> (post: Post<()>)
        ensures
            post.request@ == self.client@.request(
                Method::Post,
                TargetAPI::Player,
                "/me/two-factor/disable-totp"@,
                Seq::empty(),
                ExpectView::Nothing,
            ),
            post.data is None,
    {
        self.client.post_empty_response(
            TargetAPI::Player,
            "/me/two-factor/disable-totp",
            None,
            None,
        )
    }

    /// Turns on the second factor by confirmation email.
    pub fn enable_2fa_email(&self) -> (post: Post<()>)
        ensures
            post.request@ == self.client@.request(
                Method::Post,
                TargetAPI::Player,
                "/me/two-factor/enable-email"@,
                Seq::empty(),
                ExpectView::Nothing,
            ),
            post.data is None,
    {
        self.client.post_empty_response(
            TargetAPI::Player,
            "/me/two-factor/enable-email",
            None,
            None,
        )
    }

    /// Turns off the second factor by confirmation email.
    pub fn disable_2fa_email(&self) -> (post: Post<()>)
        ensures
            post.request@ == self.client@.request(
                Method::Post,
                TargetAPI::Player,
                "/me/two-factor/disable-email"@,
                Seq::empty(),
                ExpectView::Nothing,
            ),
            post.data is None,
    {
        self.client.post_empty_response(
            TargetAPI::Player,
            "/me/two-factor/disable-email",
            None,
            None,
        )
    }

    /// Asks for the QR code of the one-time-code secret, as a PNG image.
    pub fn get_totp_qr_code_image(&self) -> (request: Request)
        ensures
            request@ == self.client@.request(
                Method::Get,
                TargetAPI::Player,
                "/me/two-factor/totp-qr"@,
                Seq::empty(),
                ExpectView::Bytes,
            ),
    {
        self.client.get_reader(TargetAPI::Player, "/me/two-factor/totp-qr", None)
    }

    /// Sets the subjects on which the user wants emails.
    pub fn set_notification_interests(&self, interests: Vec<NotificationInterests>) -> (post: Post<
        Vec<NotificationInterests>,
    >)
        ensures
            post.request@ == self.client@.request(
                Method::Post,
                TargetAPI::Player,
                "/me/notifications"@,
                Seq::empty(),
                ExpectView::Nothing,
            ),
            post.data == Some(interests),
    {
        self.client.post_empty_response(TargetAPI::Player, "/me/notifications", None, Some(interests))
    }

    /// Asks for the creator licenses of the account, narrowed by the
    /// parameters; the answer holds them as `Licenses`.
    pub fn get_licenses(&self, parameters: Option<RequestParameters>) -> (request: Request)
        ensures
            request@ == self.client@.request(
                Method::Get,
                TargetAPI::Player,
                "/self/licenses"@,
                parameters_queries(parameters),
                member("Licenses"@, "licenses"@),
            ),
    {
        let mut request = self.client.get(
            TargetAPI::Player,
            "/self/licenses",
            queries_of(parameters),
        );
        request.expect = Expect::Member(Field { key: "Licenses", item: "licenses" });
        request
    }

    /// Deletes a creator license of the account.
    pub fn remove_license(&self, license_id: LicenseID) -> (post: Post<()>)
        ensures
            post.request@ == self.client@.request(
                Method::Post,
                TargetAPI::Player,
                "/self/license/"@ + uuid_text(license_id.0) + "/delete"@,
                Seq::empty(),
                ExpectView::Nothing,
            ),
            post.data is None,
    {
        let path = join3("/self/license/", license_id.to_string().as_str(), "/delete");
        self.client.post_empty_response(TargetAPI::Player, path.as_str(), None, None)
    }

    /// Withdraws the copyright claims on a video.
    pub fn remove_video_claim(&self, video_id: String) -> (post: Post<ClaimVideoId>)
        ensures
            post.request@ == self.client@.request(
                Method::Post,
                TargetAPI::Player,
                "/me/remove-claims"@,
                Seq::empty(),
                ExpectView::Nothing,
            ),
            post.data == Some(ClaimVideoId { video_id }),
    {
        self.client.post_empty_response(
            TargetAPI::Player,
            "/me/remove-claims",
            None,
            Some(ClaimVideoId { video_id }),
        )
    }

    /// Has a discount code for the shop made; the answer holds it as
    /// `ShopCode`.
    ///
    /// A code is meant to serve for 30 days: keep it, rather than ask for a
    /// new one each time.
    pub fn generate_shop_discount_code(&self) -> (post: Post<()>)
        ensures
            post.request@ == self.client@.request(
                Method::Post,
                TargetAPI::Player,
                "/me/benefits/shop-code"@,
                Seq::empty(),
                member("ShopCode"@, "shop code"@),
            ),
            post.data is None,
    {
        let mut post = self.client.post(TargetAPI::Player, "/me/benefits/shop-code", None, None);
        post.request.expect = Expect::Member(Field { key: "ShopCode", item: "shop code" });
        post
    }
}

} // verus!
