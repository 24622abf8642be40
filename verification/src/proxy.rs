//! Dispatch of the two namespaces: which JSON-RPC methods go on to the node, which are
//! turned down, and which first ask the contract whitelist.

use crate::address::{address_from_text, Address};
use crate::calldata::CallRequest;
use crate::whitelist::{permits_anonymous, permits_identified, ContractWhitelist};
use vstd::prelude::*;
use vstd::string::StrSliceExecFns;

verus! {

/// The JSON-RPC error code of a call that policy forbids.
pub const FORBIDDEN_CODE: i32 = 403;

/// The JSON-RPC error code of a call that failed at the node.
pub const INTERNAL_ERROR_CODE: i32 = -32603;

/// Why the proxy answers a call with an error.
#[derive(Debug, Clone, Copy, PartialEq, Eq, Structural)]
pub enum RpcFailure {
    /// Policy forbids the call. The caller learns no more than that.
    Forbidden,
    /// The node failed to answer. The cause stays with the proxy.
    Internal,
}

impl RpcFailure {
    /// The JSON-RPC error code that the caller sees.
    pub open spec fn code_of(self) -> int {
        match self {
            RpcFailure::Forbidden => 403,
            RpcFailure::Internal => -32603,
        }
    }

    /// The JSON-RPC error code that the caller sees.
    pub fn code(&self) -> (code: i32)
        ensures
            code == self.code_of(),
    {
        match self {
            RpcFailure::Forbidden => FORBIDDEN_CODE,
            RpcFailure::Internal => INTERNAL_ERROR_CODE,
        }
    }
}

/// A method of the public or of the private namespace.
#[derive(Debug, Clone, Copy, PartialEq, Eq)]
pub enum EthMethod {
    GetBlockNumber,
    ChainId,
    Call,
    EstimateGas,
    GasPrice,
    NewFilter,
    NewBlockFilter,
    UninstallFilter,
    NewPendingTransactionFilter,
    GetLogs,
    GetFilterLogs,
    GetFilterChanges,
    GetBalance,
    GetBlockByNumber { full_transactions: bool },
    GetBlockByHash { full_transactions: bool },
    GetBlockTransactionCountByNumber,
    GetBlockReceipts,
    GetBlockTransactionCountByHash,
    GetCode,
    GetStorageAt,
    GetTransactionCount,
    GetTransactionByHash,
    GetTransactionByBlockHashAndIndex,
    GetTransactionByBlockNumberAndIndex,
    GetTransactionReceipt,
    ProtocolVersion,
    SendRawTransaction,
    Syncing,
    Accounts,
    Coinbase,
    Compilers,
    Hashrate,
    GetUncleCountByBlockHash,
    GetUncleCountByBlockNumber,
    Mining,
    FeeHistory,
    PrivateGetBlockNumber,
    PrivateGetBalance,
    PrivateCall,
}

/// What the proxy does with a call of a method.
#[derive(Debug, Clone, Copy, PartialEq, Eq, Structural)]
pub enum GateAction {
    /// Hand the call to the node and return its answer.
    Forward,
    /// Hand the call to the node if the anonymous policy permits it.
    ForwardIfPermitted,
    /// Hand the call to the node if the policy permits it for the caller.
    ForwardIfAuthorized,
    /// Hand the call to the node and return the block without its
    /// transactions.
    ForwardWithoutTransactions,
    /// Answer without asking the node.
    Answer,
    /// Turn the call down as forbidden.
    Deny,
}

impl EthMethod {
    /// Whether the method belongs to the private namespace.
    pub open spec fn is_private(self) -> bool {
        self is PrivateGetBlockNumber || self is PrivateGetBalance || self is PrivateCall
    }

    /// Whether the method returns a block.
    pub open spec fn returns_block(self) -> bool {
        self is GetBlockByNumber || self is GetBlockByHash
    }

    /// Whether the method runs a contract call and so falls under the
    /// anonymous policy.
    pub open spec fn runs_contract_call(self) -> bool {
        self is Call || self is EstimateGas
    }

    /// Whether the method enumerates or filters chain-wide data, lists
    /// accounts or balances, or reads contract storage.
    pub open spec fn inspects_state(self) -> bool {
        match self {
            EthMethod::NewFilter
            | EthMethod::NewBlockFilter
            | EthMethod::UninstallFilter
            | EthMethod::NewPendingTransactionFilter
            | EthMethod::GetLogs
            | EthMethod::GetFilterLogs
            | EthMethod::GetFilterChanges
            | EthMethod::GetBalance
            | EthMethod::GetBlockReceipts
            | EthMethod::GetStorageAt
            | EthMethod::GetTransactionByBlockHashAndIndex
            | EthMethod::GetTransactionByBlockNumberAndIndex
            | EthMethod::Accounts
            | EthMethod::Mining => true,
            _ => false,
        }
    }

    /// What the proxy does with a call of the method.
    pub open spec fn action(self) -> GateAction {
        match self {
            EthMethod::GetBlockByNumber { full_transactions }
            | EthMethod::GetBlockByHash { full_transactions } => if full_transactions {
                GateAction::Deny
            } else {
                GateAction::ForwardWithoutTransactions
            },
            EthMethod::PrivateCall => GateAction::ForwardIfAuthorized,
            EthMethod::PrivateGetBlockNumber => GateAction::Answer,
            _ => if self.inspects_state() {
                GateAction::Deny
            } else if self.runs_contract_call() {
                GateAction::ForwardIfPermitted
            } else {
                GateAction::Forward
            },
        }
    }
}

/// Decides what the proxy does with a call of a method.
///
/// A block is never returned with its transactions: a request for full
/// transactions is turned down, and any other block goes back stripped.
pub fn gate(method: EthMethod) -> (action: GateAction)
    ensures
        action == method.action(),
        method.returns_block() ==> action == GateAction::Deny || action
            == GateAction::ForwardWithoutTransactions,
        !method.returns_block() ==> action != GateAction::ForwardWithoutTransactions,
        method.inspects_state() ==> action == GateAction::Deny,
        method.runs_contract_call() ==> action == GateAction::ForwardIfPermitted,
{
    match method {
        EthMethod::GetBlockNumber => GateAction::Forward,
        EthMethod::ChainId => GateAction::Forward,
        EthMethod::Call => GateAction::ForwardIfPermitted,
        EthMethod::EstimateGas => GateAction::ForwardIfPermitted,
        EthMethod::GasPrice => GateAction::Forward,
        EthMethod::NewFilter => GateAction::Deny,
        EthMethod::NewBlockFilter => GateAction::Deny,
        EthMethod::UninstallFilter => GateAction::Deny,
        EthMethod::NewPendingTransactionFilter => GateAction::Deny,
        EthMethod::GetLogs => GateAction::Deny,
        EthMethod::GetFilterLogs => GateAction::Deny,
        EthMethod::GetFilterChanges => GateAction::Deny,
        EthMethod::GetBalance => GateAction::Deny,
        EthMethod::GetBlockByNumber { full_transactions } => {
            if full_transactions {
                GateAction::Deny
            } else {
                GateAction::ForwardWithoutTransactions
            }
        },
        EthMethod::GetBlockByHash { full_transactions } => {
            if full_transactions {
                GateAction::Deny
            } else {
                GateAction::ForwardWithoutTransactions
            }
        },
        EthMethod::GetBlockTransactionCountByNumber => GateAction::Forward,
        EthMethod::GetBlockReceipts => GateAction::Deny,
        EthMethod::GetBlockTransactionCountByHash => GateAction::Forward,
        EthMethod::GetCode => GateAction::Forward,
        EthMethod::GetStorageAt => GateAction::Deny,
        EthMethod::GetTransactionCount => GateAction::Forward,
        EthMethod::GetTransactionByHash => GateAction::Forward,
        EthMethod::GetTransactionByBlockHashAndIndex => GateAction::Deny,
        EthMethod::GetTransactionByBlockNumberAndIndex => GateAction::Deny,
        EthMethod::GetTransactionReceipt => GateAction::Forward,
        EthMethod::ProtocolVersion => GateAction::Forward,
        EthMethod::SendRawTransaction => GateAction::Forward,
        EthMethod::Syncing => GateAction::Forward,
        EthMethod::Accounts => GateAction::Deny,
        EthMethod::Coinbase => GateAction::Forward,
        EthMethod::Compilers => GateAction::Forward,
        EthMethod::Hashrate => GateAction::Forward,
        EthMethod::GetUncleCountByBlockHash => GateAction::Forward,
        EthMethod::GetUncleCountByBlockNumber => GateAction::Forward,
        EthMethod::Mining => GateAction::Deny,
        EthMethod::FeeHistory => GateAction::Forward,
        EthMethod::PrivateGetBlockNumber => GateAction::Answer,
        EthMethod::PrivateGetBalance => GateAction::Forward,
        EthMethod::PrivateCall => GateAction::ForwardIfAuthorized,
    }
}

/// Turns the node's answer into the proxy's: a result goes back as it is, and
/// any failure goes back as an internal error that says nothing of its cause.
pub fn upstream_reply<T, E>(outcome: Result<T, E>) -> (reply: Result<T, RpcFailure>)
    ensures
        outcome matches Ok(value) ==> reply == Ok::<T, RpcFailure>(value),
        outcome is Err ==> reply == Err::<T, RpcFailure>(RpcFailure::Internal),
{
    match outcome {
        Ok(value) => Ok(value),
        Err(_) => Err(RpcFailure::Internal),
    }
}

/// Empties the transaction list of a block that is about to be returned.
pub fn strip_transactions<T>(transactions: &mut Vec<T>)
    ensures
        final(transactions)@.len() == 0,
{
    transactions.clear();
}

/// The part of a credential that names the caller: the credential without its
/// trailing `:`, if it has one.
pub open spec fn identity_text(credentials: Seq<char>) -> Seq<char> {
    if credentials.len() > 0 && credentials.last() == ':' {
        credentials.drop_last()
    } else {
        credentials
    }
}

/// The address that a credential names, if it names one.
pub open spec fn identity_of(credentials: Seq<char>) -> Option<Seq<u8>> {
    address_from_text(identity_text(credentials))
}

/// What the policy says of a call by a caller whose credential names
/// `identity`, or no address at all. A caller without an address has what
/// anyone has.
pub open spec fn permits_caller(
    rules: Map<Seq<u8>, crate::config::EntryModel>,
    to: Option<Seq<u8>>,
    data: Option<Seq<u8>>,
    identity: Option<Seq<u8>>,
) -> bool {
    match identity {
        Some(identity) => permits_identified(rules, to, data, identity),
        None => permits_anonymous(rules, to, data),
    }
}

/// Takes the part of a credential that names the caller.
pub fn identity_part(credentials: &str) -> (part: &str)
    ensures
        part@ == identity_text(credentials@),
{
    let len = credentials.unicode_len();
    if len > 0 && credentials.get_char(len - 1) == ':' {
        credentials.substring_char(0, len - 1)
    } else {
        credentials
    }
}

/// Reads the address that a credential names.
pub fn caller_identity(credentials: &str) -> (identity: Option<Address>)
    ensures
        identity matches Some(address) ==> identity_of(credentials@) == Some(address@),
        identity is None ==> identity_of(credentials@) is None,
{
    Address::parse(identity_part(credentials))
}

/// The bytes of an optional address.
pub open spec fn option_address(address: Option<Address>) -> Option<Seq<u8>> {
    match address {
        Some(address) => Some(address@),
        None => None,
    }
}

/// Decides a call for a caller whose credential named `identity`, or no
/// address.
pub fn allow_call_as(whitelist: &ContractWhitelist, identity: &Option<Address>, req: &CallRequest)
    -> (allowed: bool)
    ensures
        allowed == permits_caller(
            whitelist@,
            req.target(),
            req.payload(),
            option_address(*identity),
        ),
        permits_anonymous(whitelist@, req.target(), req.payload()) ==> allowed,
        req.to is None ==> !allowed,
{
    match identity {
        Some(address) => whitelist.allow_authorized_call(req, address),
        None => whitelist.allow_unauthorized_call(req),
    }
}

/// Whether a method belongs to the private namespace.
pub fn is_private(method: EthMethod) -> (private: bool)
    ensures
        private == method.is_private(),
{
    match method {
        EthMethod::PrivateGetBlockNumber | EthMethod::PrivateGetBalance | EthMethod::PrivateCall => {
            true
        },
        _ => false,
    }
}

/// What becomes of a call once the policy has spoken: a method that is turned
/// down, or that falls under a call policy which does not permit the call, is
/// forbidden; any other goes on with its action.
pub open spec fn verdict_of(action: GateAction, permitted: bool) -> Result<GateAction, RpcFailure> {
    match action {
        GateAction::Deny => Err(RpcFailure::Forbidden),
        GateAction::ForwardIfPermitted | GateAction::ForwardIfAuthorized => if permitted {
            Ok(action)
        } else {
            Err(RpcFailure::Forbidden)
        },
        _ => Ok(action),
    }
}

/// What the public namespace does with a call of `method`, which carries the
/// contract call `req` if it is a method that runs one. A method of the other
/// namespace is forbidden, and so is a contract call that is missing.
pub open spec fn public_verdict(
    rules: Map<Seq<u8>, crate::config::EntryModel>,
    method: EthMethod,
    req: Option<&CallRequest>,
) -> Result<GateAction, RpcFailure> {
    if method.is_private() {
        Err(RpcFailure::Forbidden)
    } else {
        verdict_of(
            method.action(),
            match req {
                Some(call) => permits_anonymous(rules, call.target(), call.payload()),
                None => false,
            },
        )
    }
}

/// What the private namespace does with a call of `method` by a caller with
/// `credentials`, which carries the contract call `req` if it is a method that
/// runs one. A method of the other namespace is forbidden, and so is a
/// contract call that is missing.
pub open spec fn private_verdict(
    rules: Map<Seq<u8>, crate::config::EntryModel>,
    method: EthMethod,
    credentials: Seq<char>,
    req: Option<&CallRequest>,
) -> Result<GateAction, RpcFailure> {
    if method.is_private() {
        verdict_of(
            method.action(),
            match req {
                Some(call) => permits_caller(
                    rules,
                    call.target(),
                    call.payload(),
                    identity_of(credentials),
                ),
                None => false,
            },
        )
    } else {
        Err(RpcFailure::Forbidden)
    }
}

/// The handler of the public namespace.
#[derive(Clone)]
pub struct Proxy {
    /// Where the node listens.
    pub sequencer_url: String,
    /// The contracts that may be called.
    pub whitelist: ContractWhitelist,
}

impl Proxy {
    /// Whether to let this call by an anonymous caller go through.
    pub fn allow_unauthorized_call(&self, req: &CallRequest) -> (allowed: bool)
        ensures
            allowed == permits_anonymous(self.whitelist@, req.target(), req.payload()),
            req.to is None ==> !allowed,
    {
        self.whitelist.allow_unauthorized_call(req)
    }

    /// Decides a call of `method` in the public namespace: the action to take,
    /// or that the call is forbidden. `req` is the contract call that the method
    /// runs, if it runs one.
    pub fn decide(&self, method: EthMethod, req: Option<&CallRequest>) -> (verdict: Result<
        GateAction,
        RpcFailure,
    >)
        ensures
            verdict == public_verdict(self.whitelist@, method, req),
            verdict matches Ok(action) ==> action == method.action() && action != GateAction::Deny,
            verdict matches Err(failure) ==> failure == RpcFailure::Forbidden,
            method.runs_contract_call() ==> (verdict is Ok <==> (req matches Some(call)
                && permits_anonymous(self.whitelist@, call.target(), call.payload()))),
    {
        if is_private(method) {
            return Err(RpcFailure::Forbidden);
        }
        let action = gate(method);
        match action {
            GateAction::Deny => Err(RpcFailure::Forbidden),
            GateAction::ForwardIfPermitted | GateAction::ForwardIfAuthorized => {
                match req {
                    Some(call) => {
                        if self.allow_unauthorized_call(call) {
                            Ok(action)
                        } else {
                            Err(RpcFailure::Forbidden)
                        }
                    },
                    None => Err(RpcFailure::Forbidden),
                }
            },
            _ => Ok(action),
        }
    }
}

/// The handler of the private namespace.
pub struct PrivateProxy {
    /// Where the node listens.
    pub sequencer_url: String,
    /// The contracts that may be called.
    pub whitelist: ContractWhitelist,
}

impl PrivateProxy {
    /// Whether to let this call by the caller with these credentials go
    /// through.
    ///
    /// The credentials name the caller by an address, with an optional `:`
    /// behind it. Credentials that name no address give the caller what anyone
    /// has, and no more.
    pub fn allow_authorized_call(&self, credentials: &String, req: &CallRequest) -> (allowed: bool)
        ensures
            allowed == permits_caller(
                self.whitelist@,
                req.target(),
                req.payload(),
                identity_of(credentials@),
            ),
            permits_anonymous(self.whitelist@, req.target(), req.payload()) ==> allowed,
            req.to is None ==> !allowed,
    {
        let identity = caller_identity(credentials.as_str());
        allow_call_as(&self.whitelist, &identity, req)
    }

    /// Decides a call of `method` in the private namespace by a caller with
    /// `credentials`: the action to take, or that the call is forbidden. `req`
    /// is the contract call that the method runs, if it runs one.
    pub fn decide(&self, method: EthMethod, credentials: &String, req: Option<&CallRequest>) -> (verdict:
        Result<GateAction, RpcFailure>)
        ensures
            verdict == private_verdict(self.whitelist@, method, credentials@, req),
            verdict matches Ok(action) ==> action == method.action() && action != GateAction::Deny,
            verdict matches Err(failure) ==> failure == RpcFailure::Forbidden,
            method is PrivateCall ==> (verdict is Ok <==> (req matches Some(call)
                && permits_caller(
                self.whitelist@,
                call.target(),
                call.payload(),
                identity_of(credentials@),
            ))),
    {
        if !is_private(method) {
            return Err(RpcFailure::Forbidden);
        }
        let action = gate(method);
        match action {
            GateAction::Deny => Err(RpcFailure::Forbidden),
            GateAction::ForwardIfPermitted | GateAction::ForwardIfAuthorized => {
                match req {
                    Some(call) => {
                        if self.allow_authorized_call(credentials, call) {
                            Ok(action)
                        } else {
                            Err(RpcFailure::Forbidden)
                        }
                    },
                    None => Err(RpcFailure::Forbidden),
                }
            },
            _ => Ok(action),
        }
    }
}

} // verus!
