//! Validation of an upgrade request and staging of the answer.

use crate::ws::ascii::{ascii, ascii_bytes, bytes_equal, lower, lower_equal};
use crate::ws::config::{Role, WebSocketConfig};
use crate::ws::header::{
    byte_strings, first_value, lemma_values_of_replaced, lemma_without_commutes,
    lemma_without_idempotent, lemma_without_push, replaced, values_of, without, Fields, Headers,
};
use crate::ws::key::{accept_token, is_base64, is_valid_key, lemma_base64_is_field_value, sign};
use salvo_core::http::header::{CONNECTION, UPGRADE};
use salvo_core::http::headers::{Connection, HeaderMapExt};
use salvo_core::http::{HeaderMap, HeaderValue};
use vstd::prelude::*;

verus! {

/// Status of a response that switches protocols.
pub const SWITCHING_PROTOCOLS: u16 = 101;

/// Status a rejected handshake is answered with.
pub const BAD_REQUEST: u16 = 400;

/// Name of the `Connection` header.
pub open spec fn connection_name() -> Seq<u8> {
    ascii("connection"@)
}

/// Name of the `Upgrade` header.
pub open spec fn upgrade_name() -> Seq<u8> {
    ascii("upgrade"@)
}

/// Name of the `Sec-WebSocket-Version` header.
pub open spec fn version_name() -> Seq<u8> {
    ascii("sec-websocket-version"@)
}

/// Name of the `Sec-WebSocket-Key` header.
pub open spec fn key_name() -> Seq<u8> {
    ascii("sec-websocket-key"@)
}

/// Name of the `Sec-WebSocket-Accept` header.
pub open spec fn accept_name() -> Seq<u8> {
    ascii("sec-websocket-accept"@)
}

/// The connection option, and `Connection` value, of an upgrade.
pub open spec fn upgrade_token() -> Seq<u8> {
    ascii("upgrade"@)
}

/// The protocol asked for, and answered, in `Upgrade`.
pub open spec fn websocket_token() -> Seq<u8> {
    ascii("websocket"@)
}

/// The one protocol version accepted.
pub open spec fn version_token() -> Seq<u8> {
    ascii("13"@)
}

/// Whether the values of a request's `Connection` header, in order, name
/// the `upgrade` option: what `typed_get::<Connection>()` followed by
/// `Connection::contains(UPGRADE)` of the `headers` crate finds.
pub uninterp spec fn connection_has_upgrade(values: Seq<Seq<u8>>) -> bool;

/// Why a request is not upgraded.
#[derive(Clone, Copy, Debug, PartialEq, Eq)]
pub enum Rejection {
    /// `Connection` does not name the `upgrade` option.
    MissingConnectionUpgrade,
    /// `Upgrade` is absent or is not `websocket`.
    UpgradeNotWebsocket,
    /// `Sec-WebSocket-Version` is absent or is not `13`.
    VersionNot13,
    /// `Sec-WebSocket-Key` is absent or malformed.
    MissingKey,
    /// The headers are in order but the transport offers no upgrade.
    NoUpgradeState,
}

impl Rejection {
    /// The summary a rejection is reported with.
    pub open spec fn spec_summary(self) -> Seq<char> {
        match self {
            Rejection::MissingConnectionUpgrade => "missing connection upgrade"@,
            Rejection::UpgradeNotWebsocket => "missing upgrade header or it is not equal websocket"@,
            Rejection::VersionNot13 => "websocket version is not equal 13"@,
            Rejection::MissingKey => "sec_websocket_key is not exist in request headers"@,
            Rejection::NoUpgradeState => "ws couldn't be upgraded since no upgrade state was present"@,
        }
    }

    /// The summary a rejection is reported with.
    pub fn summary(&self) -> (text: &'static str)
        ensures
            text@ == self.spec_summary(),
    {
        match self {
            Rejection::MissingConnectionUpgrade => "missing connection upgrade",
            Rejection::UpgradeNotWebsocket => "missing upgrade header or it is not equal websocket",
            Rejection::VersionNot13 => "websocket version is not equal 13",
            Rejection::MissingKey => "sec_websocket_key is not exist in request headers",
            Rejection::NoUpgradeState => "ws couldn't be upgraded since no upgrade state was present",
        }
    }

    /// The status a rejection is answered with: always 400.
    pub fn status_code(&self) -> (code: u16)
        ensures
            code == BAD_REQUEST,
    {
        BAD_REQUEST
    }

    /// Whether the request's headers were at fault, as opposed to the
    /// transport.
    pub fn is_header_fault(&self) -> (fault: bool)
        ensures
            fault == (*self != Rejection::NoUpgradeState),
    {
        match self {
            Rejection::NoUpgradeState => false,
            _ => true,
        }
    }
}

/// Connection header did not include 'upgrade'.
#[derive(Clone, Copy, Debug, PartialEq, Eq)]
pub struct MissingConnectionUpgrade;

impl MissingConnectionUpgrade {
    /// The text this error is shown with.
    pub fn message(&self) -> (text: &'static str)
        ensures
            text@ == "Connection header did not include 'upgrade'"@,
    {
        "Connection header did not include 'upgrade'"
    }
}

/// What the handshake reads of a request.
#[derive(Clone, Debug, PartialEq, Eq)]
pub struct Request {
    /// The header fields received.
    pub headers: Headers,
    /// Whether the transport holds a pending upgrade for this request.
    pub upgradable: bool,
}

/// What the handshake writes of a response.
#[derive(Clone, Debug, PartialEq, Eq)]
pub struct Response {
    /// The status, once one is set.
    pub status_code: Option<u16>,
    /// The header fields to send.
    pub headers: Headers,
}

/// An accepted handshake that waits for the transport to hand over the raw
/// stream. The connection is then run in `role` with `config`.
#[derive(Clone, Copy, Debug, PartialEq, Eq)]
pub struct PendingUpgrade {
    /// The side the connection is run from.
    pub role: Role,
    /// The limits set on the handler, if any were.
    pub config: Option<WebSocketConfig>,
}

/// Whether an `Upgrade` value asks for `websocket`, in any ASCII case.
pub open spec fn asks_websocket(value: Option<Seq<u8>>) -> bool {
    value matches Some(bytes) && lower(bytes) == websocket_token()
}

/// Whether a `Sec-WebSocket-Version` value is `13`.
pub open spec fn asks_version_13(value: Option<Seq<u8>>) -> bool {
    value == Some(version_token())
}

/// Whether a `Sec-WebSocket-Key` value is present and well formed.
pub open spec fn offers_key(value: Option<Seq<u8>>) -> bool {
    value matches Some(bytes) && is_base64(bytes)
}

/// Whether the first `Upgrade` value of a request asks for `websocket`.
pub open spec fn wants_websocket(fields: Fields) -> bool {
    asks_websocket(first_value(fields, upgrade_name()))
}

/// Whether the first `Sec-WebSocket-Version` value of a request is `13`.
pub open spec fn wants_version_13(fields: Fields) -> bool {
    asks_version_13(first_value(fields, version_name()))
}

/// Whether the first `Sec-WebSocket-Key` value of a request is a well formed
/// key.
pub open spec fn brings_key(fields: Fields) -> bool {
    offers_key(first_value(fields, key_name()))
}

/// The first check a request fails, in the order the checks are made, given
/// whether its `Connection` header names the upgrade option.
pub open spec fn header_rejection(fields: Fields, connection_upgrade: bool) -> Option<Rejection> {
    if !connection_upgrade {
        Some(Rejection::MissingConnectionUpgrade)
    } else if !wants_websocket(fields) {
        Some(Rejection::UpgradeNotWebsocket)
    } else if !wants_version_13(fields) {
        Some(Rejection::VersionNot13)
    } else if !brings_key(fields) {
        Some(Rejection::MissingKey)
    } else {
        None
    }
}

/// The header fields of a response once the switch is staged on it.
pub open spec fn switched(fields: Fields, accept: Seq<u8>) -> Fields {
    replaced(
        replaced(replaced(fields, connection_name(), upgrade_token()), upgrade_name(), websocket_token()),
        accept_name(),
        accept,
    )
}

/// The three header names that a switch sets differ from one another.
pub proof fn lemma_switch_names_differ()
    ensures
        connection_name() != upgrade_name(),
        connection_name() != accept_name(),
        upgrade_name() != accept_name(),
{
    reveal_strlit("connection");
    reveal_strlit("upgrade");
    reveal_strlit("sec-websocket-accept");
    assert(connection_name().len() == 10);
    assert(upgrade_name().len() == 7);
    assert(accept_name().len() == 20);
}

/// What a lookup finds once the switch is staged: `upgrade` under
/// `Connection`, `websocket` under `Upgrade`, the token under
/// `Sec-WebSocket-Accept`, and under any other name what was there before.
pub proof fn lemma_switched_values(fields: Fields, accept: Seq<u8>, name: Seq<u8>)
    ensures
        values_of(switched(fields, accept), name) == if name == connection_name() {
            seq![upgrade_token()]
        } else if name == upgrade_name() {
            seq![websocket_token()]
        } else if name == accept_name() {
            seq![accept]
        } else {
            values_of(fields, name)
        },
{
    lemma_switch_names_differ();
    let first = replaced(fields, connection_name(), upgrade_token());
    let second = replaced(first, upgrade_name(), websocket_token());
    lemma_values_of_replaced(fields, connection_name(), upgrade_token(), name);
    lemma_values_of_replaced(first, upgrade_name(), websocket_token(), name);
    lemma_values_of_replaced(second, accept_name(), accept, name);
}

/// The fields a switch leaves alone: those under none of its three names.
pub open spec fn untouched(fields: Fields) -> Fields {
    without(without(without(fields, connection_name()), upgrade_name()), accept_name())
}

/// A staged switch is the fields it leaves alone, followed by its three.
pub proof fn lemma_switched_form(fields: Fields, accept: Seq<u8>)
    ensures
        switched(fields, accept) == untouched(fields).push(
            (connection_name(), upgrade_token()),
        ).push((upgrade_name(), websocket_token())).push((accept_name(), accept)),
{
    lemma_switch_names_differ();
    let connection = (connection_name(), upgrade_token());
    let upgrade = (upgrade_name(), websocket_token());
    let first = without(fields, connection_name());
    let second = without(first, upgrade_name());
    lemma_without_push(first, connection, upgrade_name());
    lemma_without_push(second, connection, accept_name());
    lemma_without_push(second.push(connection), upgrade, accept_name());
}

/// Staging the switch on a response that already carries it changes nothing.
pub proof fn lemma_switched_idempotent(fields: Fields, accept: Seq<u8>)
    ensures
        switched(switched(fields, accept), accept) == switched(fields, accept),
{
    lemma_switch_names_differ();
    let connection = (connection_name(), upgrade_token());
    let upgrade = (upgrade_name(), websocket_token());
    let token = (accept_name(), accept);
    let first = without(fields, connection_name());
    let second = without(first, upgrade_name());
    let kept = untouched(fields);
    let staged = kept.push(connection).push(upgrade).push(token);
    lemma_switched_form(fields, accept);
    lemma_switched_form(staged, accept);
    // `kept` holds none of the three names.
    assert(without(kept, accept_name()) == kept) by {
        lemma_without_idempotent(second, accept_name());
    }
    assert(without(kept, upgrade_name()) == kept) by {
        lemma_without_commutes(second, accept_name(), upgrade_name());
        lemma_without_idempotent(first, upgrade_name());
    }
    assert(without(kept, connection_name()) == kept) by {
        lemma_without_commutes(second, accept_name(), connection_name());
        lemma_without_commutes(first, upgrade_name(), connection_name());
        lemma_without_idempotent(fields, connection_name());
    }
    assert(without(staged, connection_name()) == kept.push(upgrade).push(token)) by {
        lemma_without_push(kept, connection, connection_name());
        lemma_without_push(kept.push(connection), upgrade, connection_name());
        lemma_without_push(kept.push(connection).push(upgrade), token, connection_name());
        lemma_without_push(kept, upgrade, connection_name());
        lemma_without_push(kept.push(upgrade), token, connection_name());
    }
    assert(without(kept.push(upgrade).push(token), upgrade_name()) == kept.push(token)) by {
        lemma_without_push(kept, upgrade, upgrade_name());
        lemma_without_push(kept.push(upgrade), token, upgrade_name());
    }
    assert(without(kept.push(token), accept_name()) == kept) by {
        lemma_without_push(kept, token, accept_name());
    }
    assert(untouched(staged) == kept);
}

/// Reads the values as a `Connection` header and asks whether it names the
/// `upgrade` option, through `typed_get::<Connection>()` and
/// `Connection::contains(UPGRADE)` of the `headers` crate. The contract
/// names the answer, and claims that without any value it is no. A value
/// that `HeaderValue::from_bytes` refuses makes the answer no.
#[verifier::external_body]
fn connection_upgrade(values: &Vec<Vec<u8>>) -> (found: bool)
    ensures
        found == connection_has_upgrade(byte_strings(values@)),
        values@.len() == 0 ==> !found,
{
    let mut headers = HeaderMap::new();
    for value in values {
        match HeaderValue::from_bytes(value) {
            Ok(value) => headers.append(CONNECTION, value),
            Err(_) => return false,
        };
    }
    headers.typed_get::<Connection>().map(|conn| conn.contains(UPGRADE)).unwrap_or(false)
}

fn connection_bytes() -> (name: &'static [u8])
    ensures
        name@ == connection_name(),
        lower(name@) == name@,
{
    proof {
        reveal_strlit("connection");
        assert(lower(ascii("connection"@)) =~= ascii("connection"@));
    }
    ascii_bytes("connection")
}

fn upgrade_bytes() -> (name: &'static [u8])
    ensures
        name@ == upgrade_name(),
        name@ == upgrade_token(),
        lower(name@) == name@,
{
    proof {
        reveal_strlit("upgrade");
        assert(lower(ascii("upgrade"@)) =~= ascii("upgrade"@));
    }
    ascii_bytes("upgrade")
}

fn version_bytes() -> (name: &'static [u8])
    ensures
        name@ == version_name(),
        lower(name@) == name@,
{
    proof {
        reveal_strlit("sec-websocket-version");
        assert(lower(ascii("sec-websocket-version"@)) =~= ascii("sec-websocket-version"@));
    }
    ascii_bytes("sec-websocket-version")
}

fn key_bytes() -> (name: &'static [u8])
    ensures
        name@ == key_name(),
        lower(name@) == name@,
{
    proof {
        reveal_strlit("sec-websocket-key");
        assert(lower(ascii("sec-websocket-key"@)) =~= ascii("sec-websocket-key"@));
    }
    ascii_bytes("sec-websocket-key")
}

fn accept_bytes() -> (name: &'static [u8])
    ensures
        name@ == accept_name(),
        lower(name@) == name@,
{
    proof {
        reveal_strlit("sec-websocket-accept");
        assert(lower(ascii("sec-websocket-accept"@)) =~= ascii("sec-websocket-accept"@));
    }
    ascii_bytes("sec-websocket-accept")
}

fn websocket_bytes() -> (token: &'static [u8])
    ensures
        token@ == websocket_token(),
{
    proof {
        reveal_strlit("websocket");
    }
    ascii_bytes("websocket")
}

fn thirteen_bytes() -> (token: &'static [u8])
    ensures
        token@ == version_token(),
{
    proof {
        reveal_strlit("13");
    }
    ascii_bytes("13")
}

/// Checks the headers of a request in order, given whether its `Connection`
/// header names the upgrade option, and hands back the handshake key.
pub fn check_headers(headers: &Headers, connection_upgrade: bool) -> (outcome: Result<
    &Vec<u8>,
    Rejection,
>)
    ensures
        match header_rejection(headers@, connection_upgrade) {
            Some(reason) => outcome == Err::<&Vec<u8>, Rejection>(reason),
            None => outcome matches Ok(key) && first_value(headers@, key_name()) == Some(key@),
        },
{
    if !connection_upgrade {
        return Err(Rejection::MissingConnectionUpgrade);
    }
    let matched = match headers.get(upgrade_bytes()) {
        Some(value) => lower_equal(value.as_slice(), websocket_bytes()),
        None => false,
    };
    if !matched {
        return Err(Rejection::UpgradeNotWebsocket);
    }
    let matched = match headers.get(version_bytes()) {
        Some(value) => bytes_equal(value.as_slice(), thirteen_bytes()),
        None => false,
    };
    if !matched {
        return Err(Rejection::VersionNot13);
    }
    match headers.get(key_bytes()) {
        Some(key) => {
            if is_valid_key(key.as_slice()) {
                Ok(key)
            } else {
                Err(Rejection::MissingKey)
            }
        },
        None => Err(Rejection::MissingKey),
    }
}

/// Stages the switch on a response: status 101, `Connection: upgrade`,
/// `Upgrade: websocket` and the accept token. No other header is touched.
pub fn switch_protocols(res: &mut Response, accept: &[u8])
    ensures
        final(res).status_code == Some(SWITCHING_PROTOCOLS),
        final(res).headers@ == switched(old(res).headers@, accept@),
{
    res.status_code = Some(SWITCHING_PROTOCOLS);
    res.headers.insert(connection_bytes(), upgrade_bytes());
    res.headers.insert(upgrade_bytes(), websocket_bytes());
    res.headers.insert(accept_bytes(), accept);
}

/// Whether the `Connection` header of a request names the upgrade option.
pub open spec fn offers_upgrade(fields: Fields) -> bool {
    connection_has_upgrade(values_of(fields, connection_name()))
}

/// The outcome of a handshake: what `handle` answers for a handler with
/// `config`, on a request with `fields` whose transport is `upgradable`.
pub open spec fn handshake_outcome(
    config: Option<WebSocketConfig>,
    fields: Fields,
    upgradable: bool,
) -> Result<PendingUpgrade, Rejection> {
    match header_rejection(fields, offers_upgrade(fields)) {
        Some(reason) => Err(reason),
        None => if upgradable {
            Ok(PendingUpgrade { role: Role::Server, config })
        } else {
            Err(Rejection::NoUpgradeState)
        },
    }
}

/// Whether a handshake was refused for `reason`.
pub open spec fn refused(outcome: Result<PendingUpgrade, Rejection>, reason: Rejection) -> bool {
    outcome == Err::<PendingUpgrade, Rejection>(reason)
}

/// Whether a handshake gets as far as staging the switch on the response.
pub open spec fn passes_headers(fields: Fields) -> bool {
    header_rejection(fields, offers_upgrade(fields)) is None
}

/// Upgrades requests to WebSocket connections.
///
/// A request must ask for the upgrade with `Connection: upgrade`,
/// `Upgrade: websocket`, `Sec-WebSocket-Version: 13` and a
/// `Sec-WebSocket-Key`. It is answered with status 101, `Connection:
/// upgrade`, `Upgrade: websocket` and the `Sec-WebSocket-Accept` token of
/// its key.
#[derive(Clone, Copy, Debug)]
pub struct WsHandler {
    config: Option<WebSocketConfig>,
}

impl Default for WsHandler {
    fn default() -> (handler: WsHandler)
        ensures
            handler.spec_config() is None,
    {
        WsHandler::new()
    }
}

impl WsHandler {
    /// The limits chosen so far; `None` leaves all of them to the framer.
    pub closed spec fn spec_config(&self) -> Option<WebSocketConfig> {
        self.config
    }

    /// The limits a builder call starts from.
    pub open spec fn base(config: Option<WebSocketConfig>) -> WebSocketConfig {
        match config {
            Some(chosen) => chosen,
            None => WebSocketConfig::spec_default(),
        }
    }

    /// A handler that leaves every limit to the framer.
    pub fn new() -> (handler: WsHandler)
        ensures
            handler.spec_config() is None,
    {
        WsHandler { config: None }
    }

    /// A handler with the given limits.
    pub fn with_config(config: WebSocketConfig) -> (handler: WsHandler)
        ensures
            handler.spec_config() == Some(config),
    {
        WsHandler { config: Some(config) }
    }

    /// The limits chosen so far.
    #[verifier::when_used_as_spec(spec_config)]
    pub fn config(&self) -> (config: Option<WebSocketConfig>)
        ensures
            config == self.spec_config(),
    {
        self.config
    }

    fn chosen(&self) -> (config: WebSocketConfig)
        ensures
            config == Self::base(self.spec_config()),
    {
        match self.config {
            Some(chosen) => chosen,
            None => WebSocketConfig::default(),
        }
    }

    /// Sets how many outbound messages may be queued. The other limits
    /// stay, or take their defaults where none were chosen yet.
    pub fn max_send_queue(self, max: usize) -> (handler: WsHandler)
        ensures
            handler.spec_config() == Some(
                WebSocketConfig { max_send_queue: Some(max), ..Self::base(self.spec_config()) },
            ),
    {
        let mut config = self.chosen();
        config.max_send_queue = Some(max);
        WsHandler { config: Some(config) }
    }

    /// Sets the largest message accepted (64 MiB by default). The other
    /// limits stay, or take their defaults where none were chosen yet.
    pub fn max_message_size(self, max: usize) -> (handler: WsHandler)
        ensures
            handler.spec_config() == Some(
                WebSocketConfig { max_message_size: Some(max), ..Self::base(self.spec_config()) },
            ),
    {
        let mut config = self.chosen();
        config.max_message_size = Some(max);
        WsHandler { config: Some(config) }
    }

    /// Sets the largest frame accepted (16 MiB by default). The other
    /// limits stay, or take their defaults where none were chosen yet.
    pub fn max_frame_size(self, max: usize) -> (handler: WsHandler)
        ensures
            handler.spec_config() == Some(
                WebSocketConfig { max_frame_size: Some(max), ..Self::base(self.spec_config()) },
            ),
    {
        let mut config = self.chosen();
        config.max_frame_size = Some(max);
        WsHandler { config: Some(config) }
    }

    /// Handles an upgrade request.
    ///
    /// The headers are checked in order and the first failure is the answer;
    /// request and response are then as they were. Once the headers pass,
    /// the switch is staged on the response, and the pending upgrade of the
    /// transport is taken from the request. Without one the answer is
    /// `NoUpgradeState`, with the switch already staged.
    pub fn handle(&self, req: &mut Request, res: &mut Response) -> (outcome: Result<
        PendingUpgrade,
        Rejection,
    >)
        ensures
            outcome == handshake_outcome(self.spec_config(), old(req).headers@, old(req).upgradable),
            !passes_headers(old(req).headers@) ==> {
                &&& *final(res) == *old(res)
                &&& *final(req) == *old(req)
            },
            passes_headers(old(req).headers@) ==> {
                let key = first_value(old(req).headers@, key_name())->0;
                &&& final(res).status_code == Some(SWITCHING_PROTOCOLS)
                &&& final(res).headers@ == switched(old(res).headers@, accept_token(key))
                &&& final(req).headers == old(req).headers
                &&& !final(req).upgradable
            },
            ({
                let fields = old(req).headers@;
                &&& !offers_upgrade(fields) ==> {
                    &&& refused(outcome, Rejection::MissingConnectionUpgrade)
                    &&& *final(res) == *old(res)
                }
                &&& values_of(fields, connection_name()).len() == 0 ==> {
                    &&& refused(outcome, Rejection::MissingConnectionUpgrade)
                    &&& *final(res) == *old(res)
                }
                &&& offers_upgrade(fields) && !wants_websocket(fields) ==> refused(
                    outcome,
                    Rejection::UpgradeNotWebsocket,
                )
                &&& offers_upgrade(fields) && wants_websocket(fields) && !wants_version_13(fields)
                    ==> refused(outcome, Rejection::VersionNot13)
                &&& offers_upgrade(fields) && wants_websocket(fields) && wants_version_13(fields)
                    && !brings_key(fields) ==> refused(outcome, Rejection::MissingKey)
            }),
    {
        let values = req.headers.get_all(connection_bytes());
        let found = connection_upgrade(&values);
        let accept = match check_headers(&req.headers, found) {
            Ok(key) => {
                proof {
                    lemma_base64_is_field_value(key@);
                }
                sign(key.as_slice()).unwrap()
            },
            Err(reason) => {
                return Err(reason);
            },
        };
        switch_protocols(res, accept.as_slice());
        if req.upgradable {
            req.upgradable = false;
            Ok(PendingUpgrade { role: Role::Server, config: self.config })
        } else {
            Err(Rejection::NoUpgradeState)
        }
    }
}

} // verus!
