//! The URL of a REST repository, with the credentials that may be written
//! into it. The URL handling itself is done by `reqwest::Url`.
use reqwest::Url;
use vstd::prelude::*;
use vstd::utf8::encode_utf8;

verus! {

/// Declares `reqwest::Url` (the `url` crate's `Url`) to Verus as an opaque type.
#[verifier::external_type_specification]
#[verifier::external_body]
pub struct ExUrl(Url);

/// The serialization of the URL that `Url::parse` makes of `input`, or `None`
/// where it refuses `input`.
pub uninterp spec fn parsed_url(input: Seq<char>) -> Option<Seq<char>>;

/// What `Url::username` gives for the URL with this serialization.
pub uninterp spec fn username_of_url(serialization: Seq<char>) -> Seq<char>;

/// What `Url::password` gives for the URL with this serialization.
pub uninterp spec fn password_of_url(serialization: Seq<char>) -> Option<Seq<char>>;

/// The serialization after `Url::set_username(username)` on the URL with this
/// serialization, or `None` where that call returns `Err`.
pub uninterp spec fn url_with_username(serialization: Seq<char>, username: Seq<char>) -> Option<
    Seq<char>,
>;

/// The serialization after `Url::set_password(Some(password))` on the URL with
/// this serialization, or `None` where that call returns `Err`.
pub uninterp spec fn url_with_password(serialization: Seq<char>, password: Seq<char>) -> Option<
    Seq<char>,
>;

/// Whether writing `text` (percent-encoded, at most three bytes for each of
/// its bytes) into the URL with this serialization, with the one or two
/// separators that come with it, keeps the text within the `u32::MAX` bytes
/// that the URL's offsets can address.
pub open spec fn url_edit_fits(serialization: Seq<char>, text: Seq<char>) -> bool {
    byte_length(serialization) + 3 * byte_length(text) + 2 <= u32::MAX
}

/// The length in bytes of the UTF-8 encoding of a text, as `str::len` gives it.
pub open spec fn byte_length(text: Seq<char>) -> usize {
    encode_utf8(text).len() as usize
}

/// A parsed URL together with its serialization. A `Url` is determined by its
/// serialization (its equality compares nothing else), so the view is that text.
pub struct RestUrl {
    url: Url,
    serialization: String,
}

impl View for RestUrl {
    type V = Seq<char>;

    closed spec fn view(&self) -> Seq<char> {
        self.serialization@
    }
}

/// Parses `input` with `Url::parse`. The result is tied to `input` by the name
/// `parsed_url`; what that parser accepts and how it normalizes is not stated.
#[verifier::external_body]
pub(crate) fn parse_url(input: &str) -> (url: Option<RestUrl>)
    ensures
        match url {
            Some(u) => parsed_url(input@) == Some(u@),
            None => parsed_url(input@) is None,
        },
{
    match Url::parse(input) {
        Ok(url) => {
            let serialization = url.to_string();
            Some(RestUrl { url, serialization })
        },
        Err(_) => None,
    }
}

impl RestUrl {
    /// Whether `text` can be written into the URL as its user name or password
    /// within the bound of `url_edit_fits`.
    pub fn edit_fits(&self, text: &str) -> (fits: bool)
        ensures
            fits == url_edit_fits(self@, text@),
    {
        let own: usize = self.serialization.as_str().len();
        let added: usize = text.len();
        assert(own == byte_length(self@));
        assert(added == byte_length(text@));
        (own as u128) + (added as u128) * 3 + 2 <= 0xFFFF_FFFFu128
    }

    /// The serialization of the URL, as `Display` of `Url` writes it.
    pub fn as_str(&self) -> (text: &str)
        ensures
            text@ == self@,
    {
        self.serialization.as_str()
    }

    /// `Url::username`: the percent-encoded user name, empty where there is none.
    #[verifier::external_body]
    pub(crate) fn username(&self) -> (name: String)
        ensures
            name@ == username_of_url(self@),
    {
        self.url.username().to_string()
    }

    /// `Url::password`: the percent-encoded password, if the URL holds one.
    #[verifier::external_body]
    pub(crate) fn password(&self) -> (password: Option<String>)
        ensures
            match password {
                Some(p) => password_of_url(self@) == Some(p@),
                None => password_of_url(self@) is None,
            },
    {
        match self.url.password() {
            Some(p) => Some(p.to_string()),
            None => None,
        }
    }

    /// `Url::set_username`. Its documentation says that where it returns `Err`
    /// the URL is left as it was; what it writes otherwise is named by
    /// `url_with_username`. It panics where the new text would exceed `u32::MAX`
    /// bytes; the requirement keeps the old text and the percent-encoded name
    /// (at most three bytes for each of its bytes) within that.
    #[verifier::external_body]
    pub(crate) fn set_username(&mut self, username: &str) -> (accepted: bool)
        requires
            url_edit_fits(old(self)@, username@),
        ensures
            accepted == url_with_username(old(self)@, username@) is Some,
            accepted ==> final(self)@ == url_with_username(old(self)@, username@)->0,
            !accepted ==> final(self)@ == old(self)@,
    {
        match self.url.set_username(username) {
            Ok(()) => {
                self.serialization = self.url.to_string();
                true
            },
            Err(()) => false,
        }
    }

    /// `Url::set_password(Some(password))`. Where it returns `Err` the URL is
    /// left as it was; what it writes otherwise is named by `url_with_password`.
    /// It panics where the new text would exceed `u32::MAX` bytes, which the
    /// requirement rules out as for `set_username`.
    #[verifier::external_body]
    pub(crate) fn set_password(&mut self, password: &str) -> (accepted: bool)
        requires
            url_edit_fits(old(self)@, password@),
        ensures
            accepted == url_with_password(old(self)@, password@) is Some,
            accepted ==> final(self)@ == url_with_password(old(self)@, password@)->0,
            !accepted ==> final(self)@ == old(self)@,
    {
        match self.url.set_password(Some(password)) {
            Ok(()) => {
                self.serialization = self.url.to_string();
                true
            },
            Err(()) => false,
        }
    }
}

} // verus!
