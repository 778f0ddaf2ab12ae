use vstd::prelude::*;

verus! {

/// The failure kinds that a call into this library can surface.
///
/// Every error is returned to the caller as the call's failure result;
/// none is fatal and none is recovered locally, except that the wallet
/// balance aggregation reports per-subnet backend failures alongside the
/// successful entries instead of failing the whole call.
#[derive(Debug)]
pub enum RpcError {
    /// A subnet identifier, address or amount was malformed.
    ParseError,
    /// The dispatcher knows no handler under the requested method name.
    MethodNotSupported,
    /// The request payload could not be decoded into the handler's
    /// typed request.
    InvalidParams,
    /// The named subnet is the root and has no parent chain.
    NoParentFound,
    /// The parent of the named subnet is not present in the
    /// configuration snapshot.
    ParentSubnetNotFound,
    /// The named subnet itself is not present in the configuration
    /// snapshot.
    SubnetNotFound,
    /// The resolved connection is bound to a different subnet entry than
    /// the request expects.
    SubnetMismatch,
    /// The request named no sender and the subnet entry lists no account
    /// to fall back on.
    NoDefaultAccount,
    /// The amount field was negative or not a finite number.
    InvalidAmount,
    /// An opaque failure reported by a backend chain client.
    BackendError(String),
}

impl RpcError {
    /// A short human-readable message for the transport layer.
    pub fn describe(&self) -> (r: String)
        ensures
            match self {
                RpcError::ParseError => r@ == "malformed input"@,
                RpcError::MethodNotSupported => r@ == "method not supported"@,
                RpcError::InvalidParams => r@ == "invalid params"@,
                RpcError::NoParentFound => r@ == "no parent found"@,
                RpcError::ParentSubnetNotFound => r@ == "target parent subnet not found"@,
                RpcError::SubnetNotFound => r@ == "target subnet not found"@,
                RpcError::SubnetMismatch => r@ == "subnet mismatch"@,
                RpcError::NoDefaultAccount => r@ == "no default account"@,
                RpcError::InvalidAmount => r@ == "invalid amount"@,
                RpcError::BackendError(m) => r@ == m@,
            },
    {
        match self {
            RpcError::ParseError => "malformed input".to_owned(),
            RpcError::MethodNotSupported => "method not supported".to_owned(),
            RpcError::InvalidParams => "invalid params".to_owned(),
            RpcError::NoParentFound => "no parent found".to_owned(),
            RpcError::ParentSubnetNotFound => "target parent subnet not found".to_owned(),
            RpcError::SubnetNotFound => "target subnet not found".to_owned(),
            RpcError::SubnetMismatch => "subnet mismatch".to_owned(),
            RpcError::NoDefaultAccount => "no default account".to_owned(),
            RpcError::InvalidAmount => "invalid amount".to_owned(),
            RpcError::BackendError(m) => m.clone(),
        }
    }
}

} // verus!
