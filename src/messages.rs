//! The messages of the gateway protocol, as values. Turning them into JSON
//! text and back is the transport's business; these types are what the
//! gateway's logic reads and writes.

use vstd::prelude::*;

use crate::amount::Amount;
use crate::session::opt_text;
use crate::text::text_eq;

verus! {

/// A wallet as clients see it.
#[derive(Clone, Debug)]
pub struct AddressJson {
    pub address: String,
    pub balance: Amount,
    pub total_in: Amount,
    pub total_out: Amount,
    pub first_seen: String,
}

/// The kind of a ledger transaction.
#[derive(Clone, Copy, Debug, PartialEq, Eq, Structural)]
pub enum TransactionType {
    Unknown,
    Mined,
    NamePurchase,
    NameARecord,
    NameTransfer,
    Transfer,
}

/// The wire name of a transaction kind.
pub open spec fn transaction_type_name(t: TransactionType) -> Seq<char> {
    match t {
        TransactionType::Unknown => "unknown"@,
        TransactionType::Mined => "mined"@,
        TransactionType::NamePurchase => "name_purchase"@,
        TransactionType::NameARecord => "name_a_record"@,
        TransactionType::NameTransfer => "name_transfer"@,
        TransactionType::Transfer => "transfer"@,
    }
}

/// The kind of a recorded transaction, told from its sender, its
/// recipient and whether it names a name: no sender means mined; a name
/// with recipient `name` is a purchase, with recipient `metadata` a record
/// change, otherwise a name transfer; anything else is a plain transfer.
pub open spec fn identified(from: Option<Seq<char>>, to: Option<Seq<char>>, has_name: bool) -> TransactionType {
    if from is None {
        TransactionType::Mined
    } else if has_name {
        match to {
            Some(t) => if t == "name"@ {
                TransactionType::NamePurchase
            } else if t == "metadata"@ {
                TransactionType::NameARecord
            } else {
                TransactionType::NameTransfer
            },
            None => TransactionType::NameTransfer,
        }
    } else {
        TransactionType::Transfer
    }
}

impl TransactionType {
    /// The kind of a transaction with sender `from`, recipient `to` and
    /// name `name`.
    pub fn identify(from: &Option<String>, to: &Option<String>, name: &Option<String>) -> (r:
        TransactionType)
        ensures
            r == identified(opt_text(*from), opt_text(*to), name is Some),
    {
        if from.is_none() {
            return TransactionType::Mined;
        }
        if name.is_some() {
            match to {
                Some(t) => {
                    if text_eq(t.as_str(), "name") {
                        TransactionType::NamePurchase
                    } else if text_eq(t.as_str(), "metadata") {
                        TransactionType::NameARecord
                    } else {
                        TransactionType::NameTransfer
                    }
                },
                None => TransactionType::NameTransfer,
            }
        } else {
            TransactionType::Transfer
        }
    }

    /// The wire name of this kind.
    pub fn as_str(&self) -> (r: &'static str)
        ensures
            r@ == transaction_type_name(*self),
    {
        match self {
            TransactionType::Unknown => "unknown",
            TransactionType::Mined => "mined",
            TransactionType::NamePurchase => "name_purchase",
            TransactionType::NameARecord => "name_a_record",
            TransactionType::NameTransfer => "name_transfer",
            TransactionType::Transfer => "transfer",
        }
    }
}

/// A ledger transaction as clients see it.
#[derive(Clone, Debug)]
pub struct TransactionJson {
    pub id: Option<String>,
    pub from: String,
    pub to: String,
    pub value: Amount,
    pub time: String,
    pub name: Option<String>,
    pub metadata: Option<String>,
    pub sent_metaname: Option<String>,
    pub sent_name: Option<String>,
    pub transaction_type: TransactionType,
}

/// A registered name as clients see it.
#[derive(Clone, Debug)]
pub struct NameJson {
    pub name: String,
    pub owner: String,
    pub registered: String,
    pub updated: Option<String>,
    pub a: Option<String>,
}

/// A mined block as clients see it.
#[derive(Clone, Debug)]
pub struct BlockJson {
    pub height: u64,
    pub address: String,
    pub hash: String,
    pub value: Amount,
    pub time: String,
}

/// The software that serves the gateway.
#[derive(Clone, Debug)]
pub struct PackageInfo {
    pub name: String,
    pub version: String,
    pub author: String,
    pub license: String,
    pub repository: String,
}

/// The ledger's constants, as announced to clients.
#[derive(Clone, Debug)]
pub struct Constants {
    pub wallet_version: u8,
    pub nonce_max_size: u64,
    pub name_cost: u64,
    pub min_work: u64,
    pub max_work: u64,
    pub work_factor: u64,
    pub seconds_per_block: u64,
}

/// The currency's names, as announced to clients.
#[derive(Clone, Debug)]
pub struct CurrencyInfo {
    pub address_prefix: String,
    pub name_suffix: String,
    pub currency_name: String,
    pub currency_symbol: String,
}

/// The server metadata sent in the greeting of every session.
#[derive(Clone, Debug)]
pub struct DetailedMotd {
    pub server_time: String,
    pub motd: String,
    pub set: Option<String>,
    pub motd_set: Option<String>,
    pub public_url: String,
    pub public_ws_url: String,
    pub mining_enabled: bool,
    pub transactions_enabled: bool,
    pub debug_mode: bool,
    pub work: u64,
    pub last_block: Option<BlockJson>,
    pub package: PackageInfo,
    pub constants: Constants,
    pub currency: CurrencyInfo,
    pub notice: String,
}

/// The payload of a successful response, by command.
#[derive(Clone, Debug)]
pub enum WebSocketMessageResponse {
    Address { address: AddressJson },
    Login { is_guest: bool, address: Option<AddressJson> },
    Logout { is_guest: bool },
    Me { is_guest: bool, address: Option<AddressJson> },
    Subscribe { subscription_level: Vec<String> },
    Unsubscribe { subscription_level: Vec<String> },
    GetSubscriptionLevel { subscription_level: Vec<String> },
    GetValidSubscriptionLevels { valid_subscription_levels: Vec<String> },
    MakeTransaction { transaction: TransactionJson },
}

/// A ledger mutation pushed to subscribed sessions.
#[derive(Clone, Debug)]
pub enum WebSocketEvent {
    Transaction { transaction: TransactionJson },
    Name { name: NameJson },
    Block { block: BlockJson },
}

/// What a server frame carries, by its `type`.
#[derive(Clone, Debug)]
pub enum WebSocketMessageInner {
    Hello { motd: DetailedMotd },
    Keepalive { server_time: String },
    Response { responding_to: String, data: WebSocketMessageResponse },
    Error { error: String, message: String },
    Event { event: WebSocketEvent },
}

/// A frame sent by the server: its outcome flag, the correlation id of the
/// request it answers, and its body.
#[derive(Clone, Debug)]
pub struct WebSocketMessage {
    pub ok: Option<bool>,
    pub id: Option<usize>,
    pub body: WebSocketMessageInner,
}

/// `m` is an error frame answering request `id`, with code `code` and the
/// human-readable text `message`.
pub open spec fn is_error_frame(
    m: WebSocketMessage,
    id: Option<usize>,
    code: Seq<char>,
    message: Seq<char>,
) -> bool {
    &&& m.ok == Some(false)
    &&& m.id == id
    &&& m.body matches WebSocketMessageInner::Error { error, message: text } && error@ == code
        && text@ == message
}

/// `m` is a successful response to a `responding_to` request `id`,
/// carrying `data`.
pub open spec fn is_response_frame(
    m: WebSocketMessage,
    id: Option<usize>,
    responding_to: Seq<char>,
    data: WebSocketMessageResponse,
) -> bool {
    &&& m.ok == Some(true)
    &&& m.id == id
    &&& m.body matches WebSocketMessageInner::Response { responding_to: r, data: d } && r@
        == responding_to && d == data
}

/// An error frame answering request `id`.
pub fn error_frame(id: Option<usize>, code: &str, message: String) -> (r: WebSocketMessage)
    ensures
        is_error_frame(r, id, code@, message@),
        r.body matches WebSocketMessageInner::Error { message: m, .. } && m == message,
{
    WebSocketMessage {
        ok: Some(false),
        id,
        body: WebSocketMessageInner::Error { error: crate::text::owned(code), message },
    }
}

/// A successful response to a `responding_to` request `id`.
pub fn response_frame(id: Option<usize>, responding_to: &str, data: WebSocketMessageResponse) -> (r:
    WebSocketMessage)
    ensures
        is_response_frame(r, id, responding_to@, data),
{
    WebSocketMessage {
        ok: Some(true),
        id,
        body: WebSocketMessageInner::Response {
            responding_to: crate::text::owned(responding_to),
            data,
        },
    }
}

} // verus!
