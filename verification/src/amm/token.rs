use vstd::prelude::*;

verus! {

/// The token accounts that a pool handler moves tokens between.
#[derive(Debug, Clone, Copy, PartialEq, Eq, Structural)]
pub enum PoolAccount {
    /// The user's associated token account for mint X.
    UserX,
    /// The user's associated token account for mint Y.
    UserY,
    /// The pool's vault for mint X, owned by the config PDA.
    VaultX,
    /// The pool's vault for mint Y, owned by the config PDA.
    VaultY,
    /// The user's associated token account for the LP mint.
    UserLp,
}

/// Who signs a token instruction.
#[derive(Debug, Clone, Copy, PartialEq, Eq, Structural)]
pub enum Authority {
    /// The user, who signs the transaction.
    User,
    /// The config PDA, which signs with its seeds `["config", seed, bump]`.
    Config,
}

/// A call into the SPL token program that a handler asks to be made.
#[derive(Debug, Clone, Copy, PartialEq, Eq, Structural)]
pub enum TokenInstruction {
    /// Move `amount` tokens from `from` to `to`, signed by `authority`.
    Transfer { from: PoolAccount, to: PoolAccount, authority: Authority, amount: u64 },
    /// Mint `amount` LP tokens into `to`; the config PDA signs as mint authority.
    MintTo { to: PoolAccount, amount: u64 },
    /// Burn `amount` LP tokens from `from`, signed by `authority`.
    Burn { from: PoolAccount, authority: Authority, amount: u64 },
}

/// The owner of each token account: the user for its own accounts, the
/// config PDA for the vaults.
pub open spec fn owner_of(account: PoolAccount) -> Authority {
    match account {
        PoolAccount::VaultX | PoolAccount::VaultY => Authority::Config,
        _ => Authority::User,
    }
}

/// The balances that the pool's token instructions move.
pub struct Ledger {
    pub user_x: int,
    pub user_y: int,
    pub vault_x: int,
    pub vault_y: int,
    pub user_lp: int,
    pub lp_supply: int,
}

impl Ledger {
    /// The balance of one account.
    pub open spec fn balance(self, account: PoolAccount) -> int {
        match account {
            PoolAccount::UserX => self.user_x,
            PoolAccount::UserY => self.user_y,
            PoolAccount::VaultX => self.vault_x,
            PoolAccount::VaultY => self.vault_y,
            PoolAccount::UserLp => self.user_lp,
        }
    }

    /// The ledger with the balance of one account replaced.
    pub open spec fn with_balance(self, account: PoolAccount, value: int) -> Ledger {
        match account {
            PoolAccount::UserX => Ledger { user_x: value, ..self },
            PoolAccount::UserY => Ledger { user_y: value, ..self },
            PoolAccount::VaultX => Ledger { vault_x: value, ..self },
            PoolAccount::VaultY => Ledger { vault_y: value, ..self },
            PoolAccount::UserLp => Ledger { user_lp: value, ..self },
        }
    }

    /// Whether two accounts hold the same token: a transfer between accounts
    /// of different mints is refused by the token program.
    pub open spec fn same_mint(a: PoolAccount, b: PoolAccount) -> bool {
        match (a, b) {
            (PoolAccount::UserX, PoolAccount::VaultX) | (PoolAccount::VaultX, PoolAccount::UserX) => true,
            (PoolAccount::UserY, PoolAccount::VaultY) | (PoolAccount::VaultY, PoolAccount::UserY) => true,
            _ => false,
        }
    }

    /// The effect of one token instruction, or `None` where the token
    /// program refuses it (wrong signer, wrong mint, too few tokens, or a
    /// balance that would overflow).
    pub open spec fn step(self, ix: TokenInstruction) -> Option<Ledger> {
        match ix {
            TokenInstruction::Transfer { from, to, authority, amount } => {
                if authority == owner_of(from) && Self::same_mint(from, to)
                    && amount <= self.balance(from) && self.balance(to) + amount <= u64::MAX {
                    Some(self.with_balance(from, self.balance(from) - amount).with_balance(
                        to,
                        self.balance(to) + amount,
                    ))
                } else {
                    None
                }
            },
            TokenInstruction::MintTo { to, amount } => {
                if to == PoolAccount::UserLp && self.lp_supply + amount <= u64::MAX {
                    Some(Ledger { user_lp: self.user_lp + amount, lp_supply: self.lp_supply + amount, ..self })
                } else {
                    None
                }
            },
            TokenInstruction::Burn { from, authority, amount } => {
                if from == PoolAccount::UserLp && authority == owner_of(from) && amount <= self.user_lp {
                    Some(Ledger { user_lp: self.user_lp - amount, lp_supply: self.lp_supply - amount, ..self })
                } else {
                    None
                }
            },
        }
    }

    /// The effect of a sequence of token instructions performed in order:
    /// `None` as soon as one is refused, since the whole transaction then fails.
    pub open spec fn run(self, ixs: Seq<TokenInstruction>) -> Option<Ledger>
        decreases ixs.len(),
    {
        if ixs.len() == 0 {
            Some(self)
        } else {
            match self.step(ixs[0]) {
                Some(next) => next.run(ixs.drop_first()),
                None => None,
            }
        }
    }
}

} // verus!
