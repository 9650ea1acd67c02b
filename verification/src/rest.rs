//! The REST half of the client: everything that happens before a realtime connection exists.
//!
//! A call is described here, as plain values, and carried out at the edge; what came back is
//! judged here again.

use vstd::prelude::*;

use crate::codec::{b64, base64_text};
use crate::text::{begins, chars_of, join, slice_of, starts_with, text_of};
use crate::wire::{Id, Timestamp};

verus! {

/// A REST failure, already reduced to something worth showing a person.
pub enum RestError {
    /// The server cannot be reached.
    Transport,
    /// The server answered with its error envelope. The message is its own public sentence.
    ///
    /// `captcha` is the replacement challenge the refusal carries, when it carries one.
    Server {
        code: u32,
        symbol: String,
        message: String,
        captcha: Option<Box<CaptchaChallenge>>,
    },
    /// The answer was not in the expected form.
    Malformed,
    /// The server address is not a URL this client can use.
    BadUrl,
}

impl RestError {
    /// The sentence this failure is reported with.
    pub open spec fn says(self) -> Seq<char> {
        match self {
            RestError::Transport => "cannot reach the server"@,
            RestError::Server { message, .. } => message@,
            RestError::Malformed => "the server's answer was not in the expected form"@,
            RestError::BadUrl => "that server address is not a valid URL"@,
        }
    }

    /// The sentence this failure is reported with.
    pub fn message(&self) -> (text: String)
        ensures
            text@ == self.says(),
    {
        match self {
            RestError::Transport => "cannot reach the server".to_owned(),
            RestError::Server { message, .. } => message.clone(),
            RestError::Malformed => "the server's answer was not in the expected form".to_owned(),
            RestError::BadUrl => "that server address is not a valid URL".to_owned(),
        }
    }
}

/// The systems a device can be described as running.
#[derive(Debug, Clone, Copy, PartialEq, Eq, Structural)]
pub enum Os {
    Linux,
    MacOs,
    Windows,
    Other,
}

/// The name a system is described by.
pub open spec fn os_label(os: Os) -> Seq<char> {
    match os {
        Os::Linux => "Linux"@,
        Os::MacOs => "macOS"@,
        Os::Windows => "Windows"@,
        Os::Other => "Desktop"@,
    }
}

/// The name a system is described by.
pub fn os_name(os: Os) -> (name: &'static str)
    ensures
        name@ == os_label(os),
{
    match os {
        Os::Linux => "Linux",
        Os::MacOs => "macOS",
        Os::Windows => "Windows",
        Os::Other => "Desktop",
    }
}

/// A device as described to the server at sign-in.
///
/// The id is absent on a first registration and present afterwards, so that the server reuses the
/// same device rather than issuing a new one on every launch.
pub struct DeviceRequest {
    pub device_id: Option<Id>,
    pub platform: String,
    pub display_name: String,
    pub app_version: String,
    pub os_version: Option<String>,
    pub device_model: Option<String>,
}

impl DeviceRequest {
    /// Describes this machine, honestly but minimally: the system's name, and nothing that only
    /// serves to tell one machine from another.
    pub fn describe(device_id: Option<Id>, os: Os, app_version: &str) -> (device: Self)
        ensures
            device.device_id == device_id,
            device.platform@ == "desktop"@,
            device.display_name@ == "Migo Desktop ("@ + os_label(os) + ")"@,
            device.app_version@ == app_version@,
            device.os_version matches Some(version) && version@ == os_label(os),
            device.device_model is None,
    {
        let named: String = join("Migo Desktop (", os_name(os));
        DeviceRequest {
            device_id,
            platform: "desktop".to_owned(),
            display_name: join(named.as_str(), ")"),
            app_version: app_version.to_owned(),
            os_version: Some(os_name(os).to_owned()),
            device_model: None,
        }
    }
}

/// The proof a register or sign-in body carries: the id the server issued, and what the user read
/// off the picture. It has no printed form.
pub struct CaptchaProof<'a> {
    pub challenge_id: &'a str,
    pub answer: &'a str,
}

/// A captcha challenge as the server issues it: a picture, and the id that answers it.
pub struct CaptchaChallenge {
    /// The id to echo back when this challenge is answered.
    pub challenge_id: String,
    /// The picture: standard base64 of a PNG.
    pub image_png_base64: String,
    /// The rendering, echoed so that a refresh can ask for the same kind again.
    pub mode: String,
    /// How long the challenge stays answerable; the server is the arbiter.
    pub ttl_seconds: u32,
}

/// A session, as the server issues it. Its tokens are credentials; it has no printed form.
pub struct Grant {
    pub account_id: Id,
    pub device_id: Id,
    pub session_id: Id,
    pub access_token: String,
    pub refresh_token: String,
}

/// The error envelope's body.
pub struct ErrorBody {
    pub code: u32,
    pub symbol: String,
    pub message: String,
    /// The fresh challenge a captcha-gated refusal carries.
    pub captcha: Option<CaptchaChallenge>,
}

/// One session of the signed-in account.
pub struct SessionSummary {
    pub session_id: Id,
    /// The short form of the id.
    pub short_id: String,
    pub device: Option<DeviceSummary>,
    pub created_at: Option<Timestamp>,
    pub last_active_at: Option<Timestamp>,
    pub current: bool,
}

/// The device half of a session row.
pub struct DeviceSummary {
    pub platform: Option<String>,
    pub display_name: Option<String>,
}

/// A challenge for one of the identity ceremonies: the bytes to sign, base64, and its id.
pub struct IdentityChallenge {
    pub payload: String,
    pub challenge_id: Id,
}

/// One device of the account.
pub struct AccountDevice {
    pub device_id: Id,
    /// The short form of the id.
    pub short_id: String,
    pub display_name: String,
    pub platform: String,
    /// `active`, `pending`, or `revoked`.
    pub status: String,
    pub created_at_ms: i64,
    pub last_seen_at_ms: i64,
    /// Whether the device can take part in the login ceremony.
    pub has_credential: bool,
    pub is_current: bool,
}

/// The answer to a device revoke: how many sessions ended with the device.
#[derive(Debug, Clone, Copy)]
pub struct DeviceRevoked {
    pub revoked: u64,
}

/// One registered wallet: address and metadata only.
pub struct RegisteredWallet {
    pub wallet_id: Id,
    /// Canonical lowercase hex, no prefix.
    pub address: String,
    pub label: Option<String>,
    pub derivation_index: i32,
    pub status: String,
}

/// One appointed global admin.
pub struct AdminView {
    pub account_id: Id,
    pub username: String,
    pub granted_by: Id,
    pub granted_at_ms: i64,
}

/// What the caller may open of the admin surface.
#[derive(Debug, Clone, Copy, PartialEq, Eq, Structural)]
pub struct AdminStanding {
    pub owner: bool,
    pub admin: bool,
}

#[derive(Debug, Clone, Copy, PartialEq, Eq, Structural)]
pub enum Method {
    Get,
    Post,
    Put,
    Delete,
}

/// The body a call carries.
#[allow(inconsistent_fields)]
pub enum Payload {
    /// No body at all.
    Absent,
    /// A body that says nothing.
    Null,
    Captcha { mode: Option<String> },
    Register {
        username: String,
        passphrase: String,
        locale: String,
        device: DeviceRequest,
        captcha: Option<(String, String)>,
        identity_public_key: Option<String>,
    },
    Login {
        identifier: String,
        passphrase: String,
        device: DeviceRequest,
        captcha: Option<(String, String)>,
    },
    Refresh { refresh_token: String, device_id: Id },
    Logout { session_id: Id },
    IdentityChallenge {
        purpose: String,
        identifier: Option<String>,
        device_id: Option<Id>,
        account_id: Option<Id>,
        device: Option<DeviceRequest>,
    },
    IdentityLogin { challenge_id: Id, identity_signature: String, device_signature: String },
    AddDevice {
        challenge_id: Id,
        identity_signature: String,
        device_public_key: String,
        device_signature: String,
    },
    PublishKey { identity_public_key: String, device_public_key: Option<String> },
    Wallet {
        address: String,
        chain_type: String,
        label: Option<String>,
        derivation_index: i32,
    },
    Passphrase { current_passphrase: String, new_passphrase: String },
    Contact { email_or_phone: String },
    GrantAdmin { username: String },
}

/// One call, ready to be carried out.
pub struct RestCall {
    pub method: Method,
    /// The whole address the call goes to.
    pub url: String,
    /// The bearer token, for a call that is authenticated.
    pub token: Option<String>,
    pub body: Payload,
}

/// Whether a call goes this way: method, path under a base, and token.
pub open spec fn goes(
    call: RestCall,
    base: Seq<char>,
    method: Method,
    path: Seq<char>,
    token: Option<Seq<char>>,
) -> bool {
    &&& call.method == method
    &&& call.url@ == base + path
    &&& match (call.token, token) {
        (Some(held), Some(wanted)) => held@ == wanted,
        (None, None) => true,
        _ => false,
    }
}

/// An address without the slashes at its end.
pub open spec fn unslashed(url: Seq<char>) -> Seq<char>
    decreases url.len(),
{
    if url.len() > 0 && url.last() == '/' {
        unslashed(url.drop_last())
    } else {
        url
    }
}

/// Whether an address is one this client can use.
pub open spec fn usable(base: Seq<char>) -> bool {
    begins(base, "http://"@) || begins(base, "https://"@)
}

/// Whether some base64 can be made of some bytes at all.
pub open spec fn encodable(bytes: Seq<u8>) -> bool {
    4 * ((bytes.len() + 2) / 3) <= isize::MAX
}

/// An optional text, and the characters it should hold.
pub open spec fn same_option(text: Option<String>, wanted: Option<Seq<char>>) -> bool {
    match (text, wanted) {
        (Some(held), Some(chars)) => held@ == chars,
        (None, None) => true,
        _ => false,
    }
}

pub open spec fn option_view(text: Option<&str>) -> Option<Seq<char>> {
    match text {
        Some(held) => Some(held@),
        None => None,
    }
}

fn owned(text: Option<&str>) -> (r: Option<String>)
    ensures
        same_option(r, option_view(text)),
{
    match text {
        Some(held) => Some(held.to_owned()),
        None => None,
    }
}

fn owned_proof(given: &Option<CaptchaProof<'_>>) -> (r: Option<(String, String)>)
    ensures
        proves(r, *given),
{
    match given {
        Some(held) => Some((held.challenge_id.to_owned(), held.answer.to_owned())),
        None => None,
    }
}

/// Whether a body carries a proof as it was given.
pub open spec fn proves(body: Option<(String, String)>, given: Option<CaptchaProof<'_>>) -> bool {
    match (body, given) {
        (Some((id, answer)), Some(held)) => id@ == held.challenge_id@ && answer@ == held.answer@,
        (None, None) => true,
        _ => false,
    }
}

/// A client bound to one server.
pub struct Rest {
    base: String,
}

impl Rest {
    /// The address every call goes under.
    pub closed spec fn at(&self) -> Seq<char> {
        self.base@
    }

    /// Builds a client for an address, e.g. `https://migo.example` or `http://127.0.0.1:8080`.
    pub fn new(base_url: &str) -> (r: Result<Self, RestError>)
        ensures
            usable(unslashed(base_url@)) <==> r is Ok,
            r matches Ok(rest) ==> rest.at() == unslashed(base_url@),
            r matches Err(error) ==> error == RestError::BadUrl,
    {
        let chars: Vec<char> = chars_of(base_url);
        let mut to: usize = chars.len();
        assert(chars@.take(chars@.len() as int) =~= chars@);
        while to > 0 && chars[to - 1] == '/'
            invariant
                to <= chars@.len(),
                unslashed(chars@) == unslashed(chars@.take(to as int)),
            decreases to,
        {
            assert(chars@.take(to as int).drop_last() =~= chars@.take(to - 1));
            to = to - 1;
        }
        let base: Vec<char> = slice_of(&chars, 0, to);
        assert(base@ =~= unslashed(chars@));
        if starts_with(&base, &chars_of("http://")) || starts_with(&base, &chars_of("https://")) {
            Ok(Rest { base: text_of(&base) })
        } else {
            Err(RestError::BadUrl)
        }
    }

    /// The server this client talks to.
    pub fn base(&self) -> (base: &str)
        ensures
            base@ == self.at(),
    {
        self.base.as_str()
    }

    /// The gateway URL of this server: the same host, `ws` or `wss`, path `/ws`.
    pub fn gateway_url(&self) -> (url: String)
        ensures
            url@ == socket_url(self.at()),
    {
        proof {
            reveal_strlit("https://");
            reveal_strlit("http://");
        }
        let chars: Vec<char> = chars_of(self.base.as_str());
        let secure: Vec<char> = chars_of("https://");
        let plain: Vec<char> = chars_of("http://");
        let (scheme, from): (&str, usize) = if starts_with(&chars, &secure) {
            ("wss://", 8)
        } else if starts_with(&chars, &plain) {
            ("ws://", 7)
        } else {
            ("wss://", 0)
        };
        let host: String = text_of(&slice_of(&chars, from, chars.len()));
        assert(chars@.subrange(0, chars@.len() as int) =~= chars@);
        let address: String = join(scheme, host.as_str());
        join(address.as_str(), "/ws")
    }

    fn call(
        &self,
        method: Method,
        path: &str,
        token: Option<&str>,
        body: Payload,
    ) -> (call: RestCall)
        ensures
            goes(call, self.at(), method, path@, option_view(token)),
            call.body == body,
    {
        RestCall { method, url: join(self.base.as_str(), path), token: owned(token), body }
    }

    /// Asks for a captcha challenge; no mode asks for the server's default rendering.
    pub fn request_captcha(&self, mode: Option<&str>) -> (call: RestCall)
        ensures
            goes(call, self.at(), Method::Post, "/v1/auth/captcha"@, None),
            call.body matches Payload::Captcha { mode: sent } && same_option(
                sent,
                option_view(mode),
            ),
    {
        self.call(Method::Post, "/v1/auth/captcha", None, Payload::Captcha { mode: owned(mode) })
    }

    /// Creates an account and a first device.
    ///
    /// The identity key makes a retry idempotent: one that carries the same key reconciles into
    /// the account the first attempt already made.
    pub fn register(
        &self,
        username: &str,
        passphrase: &str,
        device: DeviceRequest,
        captcha: Option<CaptchaProof<'_>>,
        identity_public_key: Option<&Vec<u8>>,
    ) -> (call: RestCall)
        requires
            identity_public_key matches Some(key) ==> encodable(key@),
        ensures
            goes(call, self.at(), Method::Post, "/v1/auth/register"@, None),
            call.body matches Payload::Register {
                username: name,
                passphrase: secret,
                locale,
                device: described,
                captcha: carried,
                identity_public_key: key,
            } && name@ == username@ && secret@ == passphrase@ && locale@ == "en"@ && described
                == device && proves(carried, captcha) && same_option(
                key,
                match identity_public_key {
                    Some(bytes) => Some(base64_text(bytes@)),
                    None => None,
                },
            ),
    {
        let body = Payload::Register {
            username: username.to_owned(),
            passphrase: passphrase.to_owned(),
            locale: "en".to_owned(),
            device,
            captcha: owned_proof(&captcha),
            identity_public_key: match identity_public_key {
                Some(key) => Some(b64(key.as_slice())),
                None => None,
            },
        };
        self.call(Method::Post, "/v1/auth/register", None, body)
    }

    /// Signs in an existing account.
    pub fn login(
        &self,
        identifier: &str,
        passphrase: &str,
        device: DeviceRequest,
        captcha: Option<CaptchaProof<'_>>,
    ) -> (call: RestCall)
        ensures
            goes(call, self.at(), Method::Post, "/v1/auth/login"@, None),
            call.body matches Payload::Login {
                identifier: name,
                passphrase: secret,
                device: described,
                captcha: carried,
            } && name@ == identifier@ && secret@ == passphrase@ && described == device && proves(
                carried,
                captcha,
            ),
    {
        let body = Payload::Login {
            identifier: identifier.to_owned(),
            passphrase: passphrase.to_owned(),
            device,
            captcha: owned_proof(&captcha),
        };
        self.call(Method::Post, "/v1/auth/login", None, body)
    }

    /// Exchanges a saved refresh token for a fresh pair.
    pub fn refresh(&self, refresh_token: &str, device_id: Id) -> (call: RestCall)
        ensures
            goes(call, self.at(), Method::Post, "/v1/auth/refresh"@, None),
            call.body matches Payload::Refresh { refresh_token: token, device_id: device } && token@
                == refresh_token@ && device == device_id,
    {
        let body = Payload::Refresh { refresh_token: refresh_token.to_owned(), device_id };
        self.call(Method::Post, "/v1/auth/refresh", None, body)
    }

    /// Ends a session server-side.
    pub fn logout(&self, access_token: &str, session_id: Id) -> (call: RestCall)
        ensures
            goes(call, self.at(), Method::Post, "/v1/auth/logout"@, Some(access_token@)),
            call.body == (Payload::Logout { session_id }),
    {
        self.call(
            Method::Post,
            "/v1/auth/logout",
            Some(access_token),
            Payload::Logout { session_id },
        )
    }

    /// Lists every session of the signed-in account.
    pub fn sessions(&self, access_token: &str) -> (call: RestCall)
        ensures
            goes(call, self.at(), Method::Get, "/v1/auth/sessions"@, Some(access_token@)),
            call.body == Payload::Absent,
    {
        self.call(Method::Get, "/v1/auth/sessions", Some(access_token), Payload::Absent)
    }

    /// Ends one session of the signed-in account, named by the text of its id.
    pub fn revoke_session(&self, access_token: &str, session: &str) -> (call: RestCall)
        ensures
            goes(
                call,
                self.at(),
                Method::Delete,
                "/v1/auth/sessions/"@ + session@,
                Some(access_token@),
            ),
            call.body == Payload::Absent,
    {
        let path: String = join("/v1/auth/sessions/", session);
        self.call(Method::Delete, path.as_str(), Some(access_token), Payload::Absent)
    }

    /// Asks for the login ceremony's payload: the account, and the device that will co-sign.
    pub fn identity_login_challenge(&self, identifier: &str, device_id: Id) -> (call: RestCall)
        ensures
            goes(call, self.at(), Method::Post, "/v1/auth/identity/challenge"@, None),
            call.body matches Payload::IdentityChallenge {
                purpose,
                identifier: Some(name),
                device_id: Some(device),
                account_id: None,
                device: None,
            } && purpose@ == "login"@ && name@ == identifier@ && device == device_id,
    {
        let body = Payload::IdentityChallenge {
            purpose: "login".to_owned(),
            identifier: Some(identifier.to_owned()),
            device_id: Some(device_id),
            account_id: None,
            device: None,
        };
        self.call(Method::Post, "/v1/auth/identity/challenge", None, body)
    }

    /// Asks for the add-device ceremony's payload.
    pub fn identity_add_device_challenge(
        &self,
        account_id: Id,
        device: DeviceRequest,
    ) -> (call: RestCall)
        ensures
            goes(call, self.at(), Method::Post, "/v1/auth/identity/challenge"@, None),
            call.body matches Payload::IdentityChallenge {
                purpose,
                identifier: None,
                device_id: None,
                account_id: Some(account),
                device: Some(described),
            } && purpose@ == "add-device"@ && account == account_id && described == device,
    {
        let body = Payload::IdentityChallenge {
            purpose: "add-device".to_owned(),
            identifier: None,
            device_id: None,
            account_id: Some(account_id),
            device: Some(device),
        };
        self.call(Method::Post, "/v1/auth/identity/challenge", None, body)
    }

    /// Answers a login challenge with the account's signature and the device's.
    pub fn identity_login(
        &self,
        challenge_id: Id,
        identity_signature: &Vec<u8>,
        device_signature: &Vec<u8>,
    ) -> (call: RestCall)
        requires
            encodable(identity_signature@),
            encodable(device_signature@),
        ensures
            goes(call, self.at(), Method::Post, "/v1/auth/identity/login"@, None),
            call.body matches Payload::IdentityLogin {
                challenge_id: id,
                identity_signature: account,
                device_signature: device,
            } && id == challenge_id && account@ == base64_text(identity_signature@) && device@
                == base64_text(device_signature@),
    {
        let body = Payload::IdentityLogin {
            challenge_id,
            identity_signature: b64(identity_signature.as_slice()),
            device_signature: b64(device_signature.as_slice()),
        };
        self.call(Method::Post, "/v1/auth/identity/login", None, body)
    }

    /// Answers an add-device challenge: the account's signature, the new device's key, and the new
    /// device's signature over the same payload.
    pub fn identity_add_device(
        &self,
        challenge_id: Id,
        identity_signature: &Vec<u8>,
        device_public_key: &Vec<u8>,
        device_signature: &Vec<u8>,
    ) -> (call: RestCall)
        requires
            encodable(identity_signature@),
            encodable(device_public_key@),
            encodable(device_signature@),
        ensures
            goes(call, self.at(), Method::Post, "/v1/auth/identity/add-device"@, None),
            call.body matches Payload::AddDevice {
                challenge_id: id,
                identity_signature: account,
                device_public_key: key,
                device_signature: device,
            } && id == challenge_id && account@ == base64_text(identity_signature@) && key@
                == base64_text(device_public_key@) && device@ == base64_text(device_signature@),
    {
        let body = Payload::AddDevice {
            challenge_id,
            identity_signature: b64(identity_signature.as_slice()),
            device_public_key: b64(device_public_key.as_slice()),
            device_signature: b64(device_signature.as_slice()),
        };
        self.call(Method::Post, "/v1/auth/identity/add-device", None, body)
    }

    /// Publishes the caller's identity key, and optionally its device key.
    pub fn publish_identity_key(
        &self,
        access_token: &str,
        identity_public_key: &Vec<u8>,
        device_public_key: Option<&Vec<u8>>,
    ) -> (call: RestCall)
        requires
            encodable(identity_public_key@),
            device_public_key matches Some(key) ==> encodable(key@),
        ensures
            goes(call, self.at(), Method::Post, "/v1/auth/identity/key"@, Some(access_token@)),
            call.body matches Payload::PublishKey {
                identity_public_key: identity,
                device_public_key: device,
            } && identity@ == base64_text(identity_public_key@) && same_option(
                device,
                match device_public_key {
                    Some(bytes) => Some(base64_text(bytes@)),
                    None => None,
                },
            ),
    {
        let body = Payload::PublishKey {
            identity_public_key: b64(identity_public_key.as_slice()),
            device_public_key: match device_public_key {
                Some(key) => Some(b64(key.as_slice())),
                None => None,
            },
        };
        self.call(Method::Post, "/v1/auth/identity/key", Some(access_token), body)
    }

    /// The caller's own devices.
    pub fn devices(&self, access_token: &str) -> (call: RestCall)
        ensures
            goes(call, self.at(), Method::Get, "/v1/devices"@, Some(access_token@)),
            call.body == Payload::Null,
    {
        self.call(Method::Get, "/v1/devices", Some(access_token), Payload::Null)
    }

    /// The caller's registered wallet addresses.
    pub fn wallets(&self, access_token: &str) -> (call: RestCall)
        ensures
            goes(call, self.at(), Method::Get, "/v1/wallets"@, Some(access_token@)),
            call.body == Payload::Null,
    {
        self.call(Method::Get, "/v1/wallets", Some(access_token), Payload::Null)
    }

    /// Registers, or idempotently re-registers, a wallet address.
    pub fn register_wallet(
        &self,
        access_token: &str,
        address: &str,
        derivation_index: i32,
        label: Option<&str>,
    ) -> (call: RestCall)
        ensures
            goes(call, self.at(), Method::Put, "/v1/wallets"@, Some(access_token@)),
            call.body matches Payload::Wallet {
                address: sent,
                chain_type,
                label: named,
                derivation_index: index,
            } && sent@ == address@ && chain_type@ == "evm"@ && same_option(
                named,
                option_view(label),
            ) && index == derivation_index,
    {
        let body = Payload::Wallet {
            address: address.to_owned(),
            chain_type: "evm".to_owned(),
            label: owned(label),
            derivation_index,
        };
        self.call(Method::Put, "/v1/wallets", Some(access_token), body)
    }

    /// Archives one of the caller's wallets, named by the text of its id.
    pub fn archive_wallet(&self, access_token: &str, wallet: &str) -> (call: RestCall)
        ensures
            goes(
                call,
                self.at(),
                Method::Post,
                "/v1/wallets/"@ + wallet@,
                Some(access_token@),
            ),
            call.body == Payload::Null,
    {
        let path: String = join("/v1/wallets/", wallet);
        self.call(Method::Post, path.as_str(), Some(access_token), Payload::Null)
    }

    /// Removes one of the caller's devices, named by the text of its id.
    pub fn revoke_device(&self, access_token: &str, device: &str) -> (call: RestCall)
        ensures
            goes(
                call,
                self.at(),
                Method::Post,
                "/v1/devices/"@ + device@ + "/revoke"@,
                Some(access_token@),
            ),
            call.body == Payload::Null,
    {
        let named: String = join("/v1/devices/", device);
        let path: String = join(named.as_str(), "/revoke");
        self.call(Method::Post, path.as_str(), Some(access_token), Payload::Null)
    }

    /// Changes the account's sign-in passphrase.
    pub fn change_passphrase(
        &self,
        access_token: &str,
        current_passphrase: &str,
        new_passphrase: &str,
    ) -> (call: RestCall)
        ensures
            goes(call, self.at(), Method::Post, "/v1/auth/passphrase"@, Some(access_token@)),
            call.body matches Payload::Passphrase { current_passphrase: current, new_passphrase: next }
                && current@ == current_passphrase@ && next@ == new_passphrase@,
    {
        let body = Payload::Passphrase {
            current_passphrase: current_passphrase.to_owned(),
            new_passphrase: new_passphrase.to_owned(),
        };
        self.call(Method::Post, "/v1/auth/passphrase", Some(access_token), body)
    }

    /// Records, or replaces, the caller's recoverable contact.
    pub fn set_contact(&self, access_token: &str, email_or_phone: &str) -> (call: RestCall)
        ensures
            goes(call, self.at(), Method::Put, "/v1/auth/contact"@, Some(access_token@)),
            call.body matches Payload::Contact { email_or_phone: sent } && sent@
                == email_or_phone@,
    {
        let body = Payload::Contact { email_or_phone: email_or_phone.to_owned() };
        self.call(Method::Put, "/v1/auth/contact", Some(access_token), body)
    }

    /// What the caller may open of the admin surface.
    pub fn admin_standing(&self, access_token: &str) -> (call: RestCall)
        ensures
            goes(call, self.at(), Method::Get, "/v1/admins/whoami"@, Some(access_token@)),
            call.body == Payload::Null,
    {
        self.call(Method::Get, "/v1/admins/whoami", Some(access_token), Payload::Null)
    }

    /// Every global admin.
    pub fn global_admins(&self, access_token: &str) -> (call: RestCall)
        ensures
            goes(call, self.at(), Method::Get, "/v1/admins"@, Some(access_token@)),
            call.body == Payload::Null,
    {
        self.call(Method::Get, "/v1/admins", Some(access_token), Payload::Null)
    }

    /// Appoints a global admin by username.
    pub fn grant_global_admin(&self, access_token: &str, username: &str) -> (call: RestCall)
        ensures
            goes(call, self.at(), Method::Put, "/v1/admins"@, Some(access_token@)),
            call.body matches Payload::GrantAdmin { username: name } && name@ == username@,
    {
        let body = Payload::GrantAdmin { username: username.to_owned() };
        self.call(Method::Put, "/v1/admins", Some(access_token), body)
    }

    /// Revokes a global admin, named by the text of its account id.
    pub fn revoke_global_admin(&self, access_token: &str, account: &str) -> (call: RestCall)
        ensures
            goes(
                call,
                self.at(),
                Method::Delete,
                "/v1/admins/"@ + account@,
                Some(access_token@),
            ),
            call.body == Payload::Null,
    {
        let path: String = join("/v1/admins/", account);
        self.call(Method::Delete, path.as_str(), Some(access_token), Payload::Null)
    }
}

/// The gateway address of a server: `wss` for `https`, `ws` for `http`, and `wss` before an
/// address with neither.
pub open spec fn socket_url(base: Seq<char>) -> Seq<char> {
    if begins(base, "https://"@) {
        "wss://"@ + base.subrange(8, base.len() as int) + "/ws"@
    } else if begins(base, "http://"@) {
        "ws://"@ + base.subrange(7, base.len() as int) + "/ws"@
    } else {
        "wss://"@ + base + "/ws"@
    }
}

/// Whether a status is a success.
pub open spec fn success(status: u16) -> bool {
    200 <= status < 300
}

/// Turns a response that is no success into the best error it can.
///
/// A well-formed envelope gives the server's own sentence. Anything else, such as a proxy's own
/// error page or a body that was cut off, is an answer in the wrong form, whatever its status.
pub fn failure(envelope: Option<ErrorBody>) -> (error: RestError)
    ensures
        match envelope {
            Some(body) => error matches RestError::Server { code, symbol, message, captcha } && code
                == body.code && symbol == body.symbol && message == body.message && captcha is Some
                == body.captcha is Some && (captcha matches Some(held) ==> body.captcha == Some(
                *held,
            )),
            None => error == RestError::Malformed,
        },
{
    match envelope {
        Some(body) => RestError::Server {
            code: body.code,
            symbol: body.symbol,
            message: body.message,
            captcha: match body.captcha {
                Some(challenge) => Some(Box::new(challenge)),
                None => None,
            },
        },
        None => RestError::Malformed,
    }
}

/// What came back of a call: nothing at all, or a status with what its body decoded as.
pub enum Reply<T> {
    /// No response arrived.
    Lost,
    /// A success; `None` where its body did not decode.
    Success(Option<T>),
    /// Any other status, with the error envelope if there was one.
    Failure(Option<ErrorBody>),
}

/// The outcome of a call that is answered with a body.
pub fn outcome<T>(reply: Reply<T>) -> (r: Result<T, RestError>)
    ensures
        match reply {
            Reply::Lost => r == Err::<T, RestError>(RestError::Transport),
            Reply::Success(Some(body)) => r == Ok::<T, RestError>(body),
            Reply::Success(None) => r == Err::<T, RestError>(RestError::Malformed),
            Reply::Failure(None) => r == Err::<T, RestError>(RestError::Malformed),
            Reply::Failure(Some(body)) => r matches Err(
                RestError::Server { code, symbol, message, captcha },
            ) && code == body.code && symbol == body.symbol && message == body.message && captcha is Some
                == body.captcha is Some && (captcha matches Some(held) ==> body.captcha == Some(
                *held,
            )),
        },
{
    match reply {
        Reply::Lost => Err(RestError::Transport),
        Reply::Success(Some(body)) => Ok(body),
        Reply::Success(None) => Err(RestError::Malformed),
        Reply::Failure(envelope) => Err(failure(envelope)),
    }
}

/// The API and the gateway of one client point at the same host: the gateway's address is the
/// base's with its scheme changed and `/ws` added.
pub proof fn law_the_gateway_is_the_same_host(host: Seq<char>)
    ensures
        socket_url("https://"@ + host) == "wss://"@ + host + "/ws"@,
        socket_url("http://"@ + host) == "ws://"@ + host + "/ws"@,
{
    reveal_strlit("https://");
    reveal_strlit("http://");
    let secure = "https://"@ + host;
    let plain = "http://"@ + host;
    assert(secure.take(8) =~= "https://"@);
    assert(secure.subrange(8, secure.len() as int) =~= host);
    assert(plain.take(7) =~= "http://"@);
    assert(plain.subrange(7, plain.len() as int) =~= host);
    assert(plain[4] == ':' && "https://"@[4] == 's');
    assert(!begins(plain, "https://"@)) by {
        if plain.len() >= 8 {
            assert(plain.take(8)[4] == ':');
        }
    }
}

/// A failure is reported in its own words: the server's where it spoke.
pub proof fn law_a_rest_failure_speaks_for_itself(error: RestError)
    ensures
        error is Server ==> error.says() == error->message@,
        error == RestError::Transport ==> error.says() == "cannot reach the server"@,
        error == RestError::Malformed ==> error.says()
            == "the server's answer was not in the expected form"@,
        error == RestError::BadUrl ==> error.says() == "that server address is not a valid URL"@,
{
}

/// A call goes by its own method to its own path of its own server, with the token it was given and
/// no other.
pub proof fn law_a_call_goes_where_it_says(
    call: RestCall,
    base: Seq<char>,
    method: Method,
    path: Seq<char>,
    token: Option<Seq<char>>,
)
    requires
        goes(call, base, method, path, token),
    ensures
        call.method == method,
        call.url@ == base + path,
        call.token is Some <==> token is Some,
        token is Some ==> call.token.unwrap()@ == token.unwrap(),
{
}

/// An address loses the slashes at its end and nothing else, and one without them is left whole.
pub proof fn law_an_address_loses_only_its_slashes(url: Seq<char>, i: int)
    ensures
        unslashed(url).len() <= url.len(),
        unslashed(url) == url.take(unslashed(url).len() as int),
        unslashed(url).len() <= i < url.len() ==> url[i] == '/',
        unslashed(url).len() > 0 ==> unslashed(url).last() != '/',
        url.len() > 0 && url.last() != '/' ==> unslashed(url) == url,
    decreases url.len(),
{
    if url.len() > 0 && url.last() == '/' {
        law_an_address_loses_only_its_slashes(url.drop_last(), i);
        let n = unslashed(url).len() as int;
        assert(url.take(n) =~= url.drop_last().take(n));
        if n <= i < url.len() - 1 {
            assert(url.drop_last()[i] == url[i]);
        }
    } else {
        assert(url.take(url.len() as int) =~= url);
    }
}

/// An address can be used where it names one of the two schemes, and not otherwise.
pub proof fn law_which_addresses_can_be_used(base: Seq<char>)
    ensures
        usable(base) <==> (base.len() >= 7 && base.take(7) == "http://"@) || (base.len() >= 8
            && base.take(8) == "https://"@),
{
    reveal_strlit("http://");
    reveal_strlit("https://");
    assert("http://"@.len() == 7);
    assert("https://"@.len() == 8);
}

/// A proof of a captcha is sent as it was given, or not at all.
pub proof fn law_a_captcha_proof_is_sent_as_given(
    body: Option<(String, String)>,
    given: Option<CaptchaProof<'_>>,
)
    requires
        proves(body, given),
    ensures
        body is Some <==> given is Some,
        given is Some ==> body.unwrap().0@ == given.unwrap().challenge_id@ && body.unwrap().1@
            == given.unwrap().answer@,
{
}

/// An answer is a success by the statuses that are, and by no other.
pub proof fn law_which_statuses_succeed(status: u16)
    ensures
        success(200),
        success(204),
        !success(199),
        !success(300),
        success(status) <==> 200 <= status <= 299,
{
}

/// The name of a system is its own.
pub proof fn law_a_system_goes_by_its_own_name(os: Os)
    ensures
        os_label(Os::Linux) == "Linux"@,
        os_label(Os::MacOs) == "macOS"@,
        os_label(Os::Windows) == "Windows"@,
        os_label(Os::Other) == "Desktop"@,
{
}

/// A call goes by its own method, to its path behind the server's address, and bears a token
/// exactly where one is wanted: that one.
pub proof fn law_a_call_bears_its_own_token(
    call: RestCall,
    base: Seq<char>,
    method: Method,
    path: Seq<char>,
    token: Option<Seq<char>>,
)
    requires
        goes(call, base, method, path, token),
    ensures
        call.method == method,
        call.url@.len() == base.len() + path.len(),
        call.url@.take(base.len() as int) == base,
        call.url@.skip(base.len() as int) == path,
        call.token is Some <==> token is Some,
        token is Some ==> call.token.unwrap()@ == token.unwrap(),
{
    assert(call.url@.take(base.len() as int) =~= base);
    assert(call.url@.skip(base.len() as int) =~= path);
}

/// An optional text is there exactly where it should be, and holds what it should.
pub proof fn law_an_optional_text_is_carried(
    text: Option<String>,
    wanted: Option<Seq<char>>,
    held: Option<&str>,
)
    ensures
        same_option(text, wanted) ==> (text is Some <==> wanted is Some),
        same_option(text, wanted) && text is Some ==> text.unwrap()@ == wanted.unwrap(),
        text is None && wanted is None ==> same_option(text, wanted),
        option_view(held) is Some <==> held is Some,
        held is Some ==> option_view(held) == Some(held.unwrap()@),
{
}

} // verus!
