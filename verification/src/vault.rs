//! The country vaults: which countries have one, and what may be paid into
//! and out of it.

use crate::session::GeoTrustMatch;
use vstd::prelude::*;

verus! {

/// Length in bytes of a country code.
pub const COUNTRY_CODE_LEN: usize = 2;

/// A registered country. Code and name are held as the bytes of their text.
#[derive(Clone, Debug)]
pub struct CountryInfo {
    pub code: Vec<u8>,
    pub name: Vec<u8>,
    pub enabled: bool,
    pub created_at: u64,
}

/// Why an operation on a vault was refused.
#[derive(Clone, Copy, Debug, PartialEq, Eq, Structural)]
pub enum VaultError {
    /// The amount is zero or negative.
    AmountNotPositive,
    /// The country code is not two bytes long.
    CodeLength,
    /// The country is not registered.
    NotRegistered,
    /// The country is registered already.
    AlreadyRegistered,
    /// The vault of the country is disabled.
    Disabled,
    /// The country code is of the wrong length, not registered, or disabled.
    InvalidCountry,
    /// The payer holds fewer tokens than the amount.
    InsufficientTokenBalance,
    /// The vault holds less for the payer than the amount.
    InsufficientBalance,
    /// A balance does not fit 128 bits.
    BalanceOverflow,
}

/// Whether payments may go through the vault of a country: its code is two
/// bytes long, and the country is registered and enabled.
pub open spec fn country_usable(country_code: Seq<u8>, country: Option<CountryInfo>) -> bool {
    country_code.len() == COUNTRY_CODE_LEN && country is Some && country->0.enabled
}

/// Why a deposit is refused before any token moves, or `None` where it is in
/// order. The conditions are examined in this order.
pub open spec fn deposit_defect(
    amount: i128,
    country_code: Seq<u8>,
    country: Option<CountryInfo>,
    token_balance: i128,
) -> Option<VaultError> {
    if amount <= 0 {
        Some(VaultError::AmountNotPositive)
    } else if country_code.len() != COUNTRY_CODE_LEN {
        Some(VaultError::CodeLength)
    } else if country is None {
        Some(VaultError::NotRegistered)
    } else if !country->0.enabled {
        Some(VaultError::Disabled)
    } else if token_balance < amount {
        Some(VaultError::InsufficientTokenBalance)
    } else {
        None
    }
}

/// Why a payment is refused before any token moves, or `None` where it is in
/// order. The conditions are examined in this order.
pub open spec fn payment_defect(
    amount: i128,
    country_code: Seq<u8>,
    country: Option<CountryInfo>,
    balance: i128,
) -> Option<VaultError> {
    if !country_usable(country_code, country) {
        Some(VaultError::InvalidCountry)
    } else if amount <= 0 {
        Some(VaultError::AmountNotPositive)
    } else if balance < amount {
        Some(VaultError::InsufficientBalance)
    } else {
        None
    }
}

/// The sum of the first `n` balances.
pub open spec fn balance_sum(balances: Seq<i128>, n: nat) -> int
    decreases n,
{
    if n == 0 {
        0
    } else {
        balance_sum(balances, (n - 1) as nat) + balances[n - 1]
    }
}

/// Whether the sums of the first `n` balances all fit 128 bits, one after the
/// other.
pub open spec fn sums_fit(balances: Seq<i128>, n: nat) -> bool {
    forall|k: nat| k <= n ==> i128::MIN <= #[trigger] balance_sum(balances, k) <= i128::MAX
}

impl GeoTrustMatch {
    /// Decides whether payments may go through the vault of a country.
    pub fn validate_country_code(country_code: &Vec<u8>, country: &Option<CountryInfo>) -> (ok:
        bool)
        ensures
            ok == country_usable(country_code@, *country),
    {
        if country_code.len() != COUNTRY_CODE_LEN {
            return false;
        }
        match country {
            Some(info) => info.enabled,
            None => false,
        }
    }

    /// Registers a country at the time `now`, with its vault enabled. A code
    /// that is not two bytes long is refused, and so is a country that is
    /// registered already.
    pub fn register_country(
        country_code: Vec<u8>,
        country_name: Vec<u8>,
        already_registered: bool,
        now: u64,
    ) -> (res: Result<CountryInfo, VaultError>)
        ensures
            country_code@.len() != COUNTRY_CODE_LEN ==> res matches Err(VaultError::CodeLength),
            country_code@.len() == COUNTRY_CODE_LEN && already_registered ==> res matches Err(
                VaultError::AlreadyRegistered,
            ),
            country_code@.len() == COUNTRY_CODE_LEN && !already_registered ==> (res matches Ok(info)
                && info == (CountryInfo {
                code: country_code,
                name: country_name,
                enabled: true,
                created_at: now,
            })),
    {
        if country_code.len() != COUNTRY_CODE_LEN {
            return Err(VaultError::CodeLength);
        }
        if already_registered {
            return Err(VaultError::AlreadyRegistered);
        }
        Ok(CountryInfo { code: country_code, name: country_name, enabled: true, created_at: now })
    }

    /// Enables or disables the vault of a registered country.
    pub fn set_country_enabled(country: Option<CountryInfo>, enabled: bool) -> (res: Result<
        CountryInfo,
        VaultError,
    >)
        ensures
            country is None ==> res matches Err(VaultError::NotRegistered),
            country is Some ==> (res matches Ok(info) && info == (CountryInfo {
                enabled,
                ..country->0
            })),
    {
        match country {
            Some(mut info) => {
                info.enabled = enabled;
                Ok(info)
            },
            None => Err(VaultError::NotRegistered),
        }
    }

    /// Examines a deposit of `amount` tokens into the vault of a country
    /// before any token moves: the amount must be positive, the country
    /// registered under a code of two bytes and enabled, and the payer must
    /// hold the tokens.
    pub fn deposit(
        amount: i128,
        country_code: &Vec<u8>,
        country: &Option<CountryInfo>,
        token_balance: i128,
    ) -> (res: Result<(), VaultError>)
        ensures
            res == match deposit_defect(amount, country_code@, *country, token_balance) {
                Some(e) => Err::<(), VaultError>(e),
                None => Ok(()),
            },
    {
        if amount <= 0 {
            return Err(VaultError::AmountNotPositive);
        }
        if country_code.len() != COUNTRY_CODE_LEN {
            return Err(VaultError::CodeLength);
        }
        match country {
            Some(info) => {
                if !info.enabled {
                    return Err(VaultError::Disabled);
                }
            },
            None => {
                return Err(VaultError::NotRegistered);
            },
        }
        if token_balance < amount {
            return Err(VaultError::InsufficientTokenBalance);
        }
        Ok(())
    }

    /// Examines a payment of `amount` tokens out of the vault of a country
    /// before any token moves: the country must be usable, the amount
    /// positive, and the vault must hold the amount for the payer.
    pub fn execute_payment(
        amount: i128,
        country_code: &Vec<u8>,
        country: &Option<CountryInfo>,
        balance: i128,
    ) -> (res: Result<(), VaultError>)
        ensures
            res == match payment_defect(amount, country_code@, *country, balance) {
                Some(e) => Err::<(), VaultError>(e),
                None => Ok(()),
            },
    {
        if !Self::validate_country_code(country_code, country) {
            return Err(VaultError::InvalidCountry);
        }
        if amount <= 0 {
            return Err(VaultError::AmountNotPositive);
        }
        if balance < amount {
            return Err(VaultError::InsufficientBalance);
        }
        Ok(())
    }

    /// The balance after `amount` was paid in, where it fits 128 bits.
    pub fn credit(balance: i128, amount: i128) -> (res: Result<i128, VaultError>)
        ensures
            i128::MIN <= balance + amount <= i128::MAX ==> res == Ok::<i128, VaultError>(
                (balance + amount) as i128,
            ),
            !(i128::MIN <= balance + amount <= i128::MAX) ==> res == Err::<i128, VaultError>(
                VaultError::BalanceOverflow,
            ),
    {
        match balance.checked_add(amount) {
            Some(sum) => Ok(sum),
            None => Err(VaultError::BalanceOverflow),
        }
    }

    /// The balance after `amount` was paid out, where it fits 128 bits.
    pub fn debit(balance: i128, amount: i128) -> (res: Result<i128, VaultError>)
        ensures
            i128::MIN <= balance - amount <= i128::MAX ==> res == Ok::<i128, VaultError>(
                (balance - amount) as i128,
            ),
            !(i128::MIN <= balance - amount <= i128::MAX) ==> res == Err::<i128, VaultError>(
                VaultError::BalanceOverflow,
            ),
    {
        match balance.checked_sub(amount) {
            Some(rest) => Ok(rest),
            None => Err(VaultError::BalanceOverflow),
        }
    }

    /// The sum of the balances that a payer holds over all countries, added
    /// up in order. It fails where a sum on the way does not fit 128 bits.
    pub fn get_total_balance(balances: &Vec<i128>) -> (res: Result<i128, VaultError>)
        ensures
            sums_fit(balances@, balances@.len()) ==> res == Ok::<i128, VaultError>(
                balance_sum(balances@, balances@.len()) as i128,
            ),
            !sums_fit(balances@, balances@.len()) ==> res == Err::<i128, VaultError>(
                VaultError::BalanceOverflow,
            ),
    {
        let mut total: i128 = 0;
        let mut i: usize = 0;
        while i < balances.len()
            invariant
                i <= balances@.len(),
                total == balance_sum(balances@, i as nat),
                sums_fit(balances@, i as nat),
            decreases balances@.len() - i,
        {
            total = match total.checked_add(balances[i]) {
                Some(sum) => sum,
                None => {
                    assert(!(i128::MIN <= balance_sum(balances@, (i + 1) as nat) <= i128::MAX));
                    return Err(VaultError::BalanceOverflow);
                },
            };
            i = i + 1;
        }
        Ok(total)
    }
}

} // verus!
