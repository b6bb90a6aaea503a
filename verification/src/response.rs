//! Commands for the host, audit attributes, and the response that carries
//! both.
use vstd::prelude::*;
use vstd::string::*;
use crate::coin::{Coin, CoinView};
use crate::msg::ExecuteMsg;

verus! {

/// One instruction for the host. The host executes the commands of a
/// response in the order in which they are listed.
#[derive(Debug)]
#[allow(inconsistent_fields)]
pub enum Command {
    /// Move `amount` tokens on the ledger `token` to `recipient`; `payload`
    /// is the encoded transfer that the ledger receives.
    TransferToken { token: String, recipient: String, amount: u128, payload: Vec<u8> },
    /// Pay `amount` out of the contract's own balance.
    TransferNative { recipient: String, amount: Coin },
    /// Delegate `amount` to `validator`.
    DelegateStake { validator: String, amount: Coin },
    /// Undelegate `amount` from `validator`.
    UndelegateStake { validator: String, amount: Coin },
    /// Claim the staking rewards held by `validator`.
    ClaimReward { validator: String },
    /// Swap `source_coin` into `target_denomination`.
    SwapDenomination { source_coin: Coin, target_denomination: String },
    /// Call the contract at `contract`, which is this contract itself, with
    /// `payload` and no funds.
    SelfInvoke { contract: String, payload: ExecuteMsg },
}

/// What a [`Command`] stands for in contracts.
#[allow(inconsistent_fields)]
pub ghost enum CommandView {
    TransferToken { token: Seq<char>, recipient: Seq<char>, amount: u128, payload: Seq<u8> },
    TransferNative { recipient: Seq<char>, amount: CoinView },
    DelegateStake { validator: Seq<char>, amount: CoinView },
    UndelegateStake { validator: Seq<char>, amount: CoinView },
    ClaimReward { validator: Seq<char> },
    SwapDenomination { source_coin: CoinView, target_denomination: Seq<char> },
    SelfInvoke { contract: Seq<char>, payload: ExecuteMsg },
}

impl View for Command {
    type V = CommandView;

    open spec fn view(&self) -> CommandView {
        match *self {
            Command::TransferToken { token, recipient, amount, payload } => CommandView::TransferToken {
                token: token@,
                recipient: recipient@,
                amount,
                payload: payload@,
            },
            Command::TransferNative { recipient, amount } => CommandView::TransferNative {
                recipient: recipient@,
                amount: amount@,
            },
            Command::DelegateStake { validator, amount } => CommandView::DelegateStake {
                validator: validator@,
                amount: amount@,
            },
            Command::UndelegateStake { validator, amount } => CommandView::UndelegateStake {
                validator: validator@,
                amount: amount@,
            },
            Command::ClaimReward { validator } => CommandView::ClaimReward { validator: validator@ },
            Command::SwapDenomination { source_coin, target_denomination } => CommandView::SwapDenomination {
                source_coin: source_coin@,
                target_denomination: target_denomination@,
            },
            Command::SelfInvoke { contract, payload } => CommandView::SelfInvoke {
                contract: contract@,
                payload,
            },
        }
    }
}

/// A key and a value for the audit log.
#[derive(Debug)]
pub struct Attribute {
    pub key: String,
    pub value: String,
}

/// What an [`Attribute`] stands for in contracts.
pub ghost struct AttributeView {
    pub key: Seq<char>,
    pub value: Seq<char>,
}

impl View for Attribute {
    type V = AttributeView;

    open spec fn view(&self) -> AttributeView {
        AttributeView { key: self.key@, value: self.value@ }
    }
}

/// An attribute from a literal key and an owned value.
pub fn attr(key: &str, value: String) -> (a: Attribute)
    ensures
        a@ == (AttributeView { key: key@, value: value@ }),
{
    Attribute { key: String::from_str(key), value }
}

/// The outcome of a successful call: the commands for the host, in the order
/// of their execution, and the audit attributes.
#[derive(Debug)]
pub struct Response {
    pub messages: Vec<Command>,
    pub attributes: Vec<Attribute>,
}

/// What a [`Response`] stands for in contracts.
pub ghost struct ResponseView {
    pub messages: Seq<CommandView>,
    pub attributes: Seq<AttributeView>,
}

/// The views of a list of commands, in order.
pub open spec fn commands_view(commands: Seq<Command>) -> Seq<CommandView> {
    commands.map_values(|c: Command| c@)
}

/// The views of a list of attributes, in order.
pub open spec fn attributes_view(attributes: Seq<Attribute>) -> Seq<AttributeView> {
    attributes.map_values(|a: Attribute| a@)
}

impl View for Response {
    type V = ResponseView;

    open spec fn view(&self) -> ResponseView {
        ResponseView {
            messages: commands_view(self.messages@),
            attributes: attributes_view(self.attributes@),
        }
    }
}

impl Response {
    /// A response without commands or attributes.
    pub fn new() -> (r: Response)
        ensures
            r@.messages == Seq::<CommandView>::empty(),
            r@.attributes == Seq::<AttributeView>::empty(),
    {
        let r = Response { messages: Vec::new(), attributes: Vec::new() };
        assert(r@.messages =~= Seq::<CommandView>::empty());
        assert(r@.attributes =~= Seq::<AttributeView>::empty());
        r
    }

    /// Appends one command after those already listed.
    pub fn add_message(self, command: Command) -> (r: Response)
        ensures
            r@.messages == self@.messages.push(command@),
            r@.attributes == self@.attributes,
    {
        let mut r = self;
        r.messages.push(command);
        assert(r@.messages =~= self@.messages.push(command@));
        r
    }

    /// Appends one attribute after those already listed.
    pub fn add_attribute(self, key: &str, value: String) -> (r: Response)
        ensures
            r@.messages == self@.messages,
            r@.attributes == self@.attributes.push(AttributeView { key: key@, value: value@ }),
    {
        let mut r = self;
        r.attributes.push(attr(key, value));
        assert(r@.attributes =~= self@.attributes.push(AttributeView { key: key@, value: value@ }));
        r
    }
}

} // verus!
