//! Identities and the official-wallet registry.
//!
//! An [`Identity`] is an opaque, comparable account handle: the engine
//! never interprets its internal structure, it only compares handles for
//! equality. The four official wallets (Treasury, Market, Seed, Loan) are
//! immutable configuration carried explicitly into every call that needs
//! wallet classification.

use vstd::prelude::*;

verus! {

/// An opaque, comparable account handle (for instance a 256-bit public
/// key, stored as four 64-bit words). The engine compares handles for
/// equality and nothing else.
#[derive(Clone, Copy, Debug, PartialEq, Eq, Structural)]
pub struct Identity {
    pub w0: u64,
    pub w1: u64,
    pub w2: u64,
    pub w3: u64,
}

/// The role an identity plays in the deployment, or `Unclassified` when
/// it matches none of the configured official wallets.
#[derive(Clone, Copy, Debug, PartialEq, Eq, Structural)]
pub enum WalletRole {
    Treasury,
    Market,
    Seed,
    Loan,
    Unclassified,
}

/// The four configured official wallets of a deployment. Immutable
/// configuration: exactly one identity per role.
#[derive(Clone, Copy, Debug, PartialEq, Eq, Structural)]
pub struct OfficialWallets {
    pub treasury: Identity,
    pub market: Identity,
    pub seed: Identity,
    pub loan: Identity,
}

impl OfficialWallets {
    /// A valid configuration assigns each role a distinct identity, so
    /// that classification can never be ambiguous.
    pub open spec fn wf(self) -> bool {
        &&& self.treasury != self.market
        &&& self.treasury != self.seed
        &&& self.treasury != self.loan
        &&& self.market != self.seed
        &&& self.market != self.loan
        &&& self.seed != self.loan
    }

    /// Builds a configuration, rejecting one that assigns two roles the
    /// same identity. A duplicate is a configuration error caught at
    /// setup time, not a runtime error.
    pub fn new(
        treasury: Identity,
        market: Identity,
        seed: Identity,
        loan: Identity,
    ) -> (r: Option<OfficialWallets>)
        ensures
            ({
                let w = OfficialWallets { treasury, market, seed, loan };
                if w.wf() {
                    r == Some(w)
                } else {
                    r == None::<OfficialWallets>
                }
            }),
    {
        let w = OfficialWallets { treasury, market, seed, loan };
        if treasury != market && treasury != seed && treasury != loan && market != seed
            && market != loan && seed != loan {
            Some(w)
        } else {
            None
        }
    }
}

/// The role that `identity` plays under configuration `wallets`: roles
/// are checked in the fixed order Treasury, Market, Seed, Loan.
pub open spec fn spec_classify(identity: Identity, wallets: OfficialWallets) -> WalletRole {
    if identity == wallets.treasury {
        WalletRole::Treasury
    } else if identity == wallets.market {
        WalletRole::Market
    } else if identity == wallets.seed {
        WalletRole::Seed
    } else if identity == wallets.loan {
        WalletRole::Loan
    } else {
        WalletRole::Unclassified
    }
}

/// Whether `identity` is one of the four official wallets.
pub open spec fn spec_is_official(identity: Identity, wallets: OfficialWallets) -> bool {
    ||| identity == wallets.treasury
    ||| identity == wallets.market
    ||| identity == wallets.seed
    ||| identity == wallets.loan
}

/// Classifies an identity as one of the four official roles, or
/// `Unclassified` when it matches none. Pure: the result is a function
/// of the identity and the configuration alone.
pub fn classify(identity: &Identity, wallets: &OfficialWallets) -> (r: WalletRole)
    ensures
        r == spec_classify(*identity, *wallets),
{
    if *identity == wallets.treasury {
        WalletRole::Treasury
    } else if *identity == wallets.market {
        WalletRole::Market
    } else if *identity == wallets.seed {
        WalletRole::Seed
    } else if *identity == wallets.loan {
        WalletRole::Loan
    } else {
        WalletRole::Unclassified
    }
}

/// Whether a wallet is one of the four configured official wallets.
pub fn is_official_wallet(wallet: &Identity, official_wallets: &OfficialWallets) -> (r: bool)
    ensures
        r == spec_is_official(*wallet, *official_wallets),
{
    *wallet == official_wallets.treasury || *wallet == official_wallets.market || *wallet
        == official_wallets.seed || *wallet == official_wallets.loan
}

/// Classification is idempotent: any two classifications of the same
/// identity under an unchanged configuration yield the same role. Since
/// [`classify`] ensures its result equals `spec_classify` of its inputs,
/// repeated calls can never disagree.
pub proof fn lemma_classify_idempotent(
    identity: Identity,
    wallets: OfficialWallets,
    r1: WalletRole,
    r2: WalletRole,
)
    requires
        r1 == spec_classify(identity, wallets),
        r2 == spec_classify(identity, wallets),
    ensures
        r1 == r2,
{
}

/// An identity is official exactly when it classifies to a proper role.
pub proof fn lemma_official_iff_classified(identity: Identity, wallets: OfficialWallets)
    ensures
        spec_is_official(identity, wallets) <==> spec_classify(identity, wallets)
            != WalletRole::Unclassified,
{
}

} // verus!
