use vstd::prelude::*;
use vstd::slice::slice_to_vec;
use crate::errors::BridgeError;
use crate::state::TokenConfig;

verus! {

/// The one release a checked payload is entitled to, fully parameterized for
/// the custody subsystem that carries it out.
#[derive(Debug)]
pub enum ReleaseAction {
    /// Issue `amount` of new supply of `mint` to `recipient`, signed by the
    /// token's derived authority.
    Mint { authority: Vec<u8>, mint: Vec<u8>, recipient: Vec<u8>, amount: u64 },
    /// Move `amount` out of the custodial `pool` to `recipient`, signed by
    /// the token's derived authority.
    Transfer { authority: Vec<u8>, pool: Vec<u8>, recipient: Vec<u8>, amount: u64 },
}

/// The key of an optional account, where one was supplied.
pub open spec fn pool_view(pool: Option<Vec<u8>>) -> Option<Seq<u8>> {
    match pool {
        Some(p) => Some(p@),
        None => None,
    }
}

/// `action` is the release that `config` prescribes for this mint,
/// recipient, pool and amount: the mint path exactly for a mintable token,
/// the transfer path out of the supplied pool exactly otherwise.
pub open spec fn action_selected(
    action: ReleaseAction,
    config: TokenConfig,
    mint: Seq<u8>,
    recipient: Seq<u8>,
    pool: Option<Seq<u8>>,
    amount: u64,
) -> bool {
    match action {
        ReleaseAction::Mint { authority: a, mint: m, recipient: r, amount: x } => {
            &&& config.is_mintable
            &&& a@ == config.authority@
            &&& m@ == mint
            &&& r@ == recipient
            &&& x == amount
        },
        ReleaseAction::Transfer { authority: a, pool: p, recipient: r, amount: x } => {
            &&& !config.is_mintable
            &&& a@ == config.authority@
            &&& pool matches Some(supplied) && p@ == supplied
            &&& r@ == recipient
            &&& x == amount
        },
    }
}

/// Resolves the token's registered release mode into the one action to take.
/// A mintable token never needs the custodial pool; a non-mintable token
/// fails with `MissingCustodialAccount` exactly when no pool was supplied.
pub fn select_release(
    config: &TokenConfig,
    mint: &Vec<u8>,
    recipient: &Vec<u8>,
    pool: &Option<Vec<u8>>,
    amount: u64,
) -> (r: Result<ReleaseAction, BridgeError>)
    ensures
        r is Ok <==> (config.is_mintable || pool is Some),
        r matches Ok(action) ==> action_selected(
            action,
            *config,
            mint@,
            recipient@,
            pool_view(*pool),
            amount,
        ),
        r is Err ==> r == Err::<ReleaseAction, BridgeError>(BridgeError::MissingCustodialAccount),
{
    if config.is_mintable {
        Ok(ReleaseAction::Mint {
            authority: slice_to_vec(config.authority.as_slice()),
            mint: slice_to_vec(mint.as_slice()),
            recipient: slice_to_vec(recipient.as_slice()),
            amount,
        })
    } else {
        match pool {
            Some(pool_account) => Ok(ReleaseAction::Transfer {
                authority: slice_to_vec(config.authority.as_slice()),
                pool: slice_to_vec(pool_account.as_slice()),
                recipient: slice_to_vec(recipient.as_slice()),
                amount,
            }),
            None => Err(BridgeError::MissingCustodialAccount),
        }
    }
}

} // verus!
