//! The account-addressed store every record lives in.
//!
//! Each record sits at a ledger identity rather than behind a language-level
//! reference, so the store is an explicit map from identity to account, and
//! every component takes it as an explicit dependency.  An account pairs the
//! owning program, a native-unit balance, and typed data.

use vstd::prelude::*;
use vstd::arithmetic::mul::lemma_mul_upper_bound;
use crate::ids::AccountId;
use crate::state::{
    AcceptedBet, Bet, BettingMarket, OraclePrice, OracleProduct, TokenAccount,
    ACCEPTED_RECORD_LEN, BET_RECORD_LEN, MARKET_RECORD_LEN, ORACLE_PRICE_LEN, ORACLE_PRODUCT_LEN,
    TOKEN_ACCOUNT_LEN,
};

verus! {

/// What an account's storage holds.
#[derive(Clone, Copy, Debug, PartialEq, Eq, Structural)]
pub enum AccountData {
    /// Allocated, zeroed storage of the given size; a record not yet written,
    /// or a plain wallet with no data.
    Empty { size: u64 },
    /// A market configuration record.
    Market(BettingMarket),
    /// An open-bet record.
    BetState(Bet),
    /// An accepted-fill record.
    AcceptedState(AcceptedBet),
    /// A fungible-asset holding.
    Token(TokenAccount),
    /// An oracle product account, as the narrow view the protocol reads.
    OracleProduct(OracleProduct),
    /// An oracle price account, as the narrow view the protocol reads.
    OraclePrice(OraclePrice),
}

/// One ledger account: the program that owns it, its native-unit balance,
/// and its storage.
#[derive(Clone, Copy, Debug, PartialEq, Eq, Structural)]
pub struct Account {
    /// The program allowed to mutate the account.
    pub owner: AccountId,
    /// Native units held.
    pub lamports: u64,
    /// The storage contents.
    pub data: AccountData,
}

/// The well-known program identities a deployment runs under.
#[derive(Clone, Copy, Debug, PartialEq, Eq, Structural)]
pub struct Env {
    /// This protocol's own program identity.
    pub program_id: AccountId,
    /// The host's native-transfer program.
    pub system_program_id: AccountId,
    /// The host's fungible-asset program.
    pub token_program_id: AccountId,
    /// The host's rent-schedule account.
    pub rent_sysvar_id: AccountId,
    /// The host's clock account.
    pub clock_sysvar_id: AccountId,
}

/// The rent schedule: state accounts must hold this many native units per
/// byte of storage to be exempt from eviction.
#[derive(Clone, Copy, Debug, PartialEq, Eq, Structural)]
pub struct Rent {
    /// Native units owed per byte of account storage.
    pub lamports_per_byte: u64,
}

/// The byte size of an account's storage, fixed per record kind.
pub open spec fn data_size_spec(d: AccountData) -> int {
    match d {
        AccountData::Empty { size } => size as int,
        AccountData::Market(_) => MARKET_RECORD_LEN as int,
        AccountData::BetState(_) => BET_RECORD_LEN as int,
        AccountData::AcceptedState(_) => ACCEPTED_RECORD_LEN as int,
        AccountData::Token(_) => TOKEN_ACCOUNT_LEN as int,
        AccountData::OracleProduct(_) => ORACLE_PRODUCT_LEN as int,
        AccountData::OraclePrice(_) => ORACLE_PRICE_LEN as int,
    }
}

/// True when the account holds enough balance to be exempt from rent
/// eviction for its storage size.
pub open spec fn rent_exempt_spec(rent: Rent, a: Account) -> bool {
    a.lamports >= data_size_spec(a.data) * rent.lamports_per_byte
}

impl Rent {
    /// Decides rent exemption for an account.
    pub fn is_exempt(&self, a: &Account) -> (r: bool)
        ensures
            r == rent_exempt_spec(*self, *a),
    {
        let size: u64 = match &a.data {
            AccountData::Empty { size } => *size,
            AccountData::Market(_) => MARKET_RECORD_LEN,
            AccountData::BetState(_) => BET_RECORD_LEN,
            AccountData::AcceptedState(_) => ACCEPTED_RECORD_LEN,
            AccountData::Token(_) => TOKEN_ACCOUNT_LEN,
            AccountData::OracleProduct(_) => ORACLE_PRODUCT_LEN,
            AccountData::OraclePrice(_) => ORACLE_PRICE_LEN,
        };
        proof {
            lemma_mul_upper_bound(size as int, u64::MAX as int, self.lamports_per_byte as int, u64::MAX as int);
        }
        (a.lamports as u128) >= (size as u128) * (self.lamports_per_byte as u128)
    }
}

/// The map a sequence of keyed entries denotes; later entries override
/// earlier ones, though the store never holds a key twice.
pub open spec fn entries_map(s: Seq<(AccountId, Account)>) -> Map<AccountId, Account>
    decreases s.len(),
{
    if s.len() == 0 {
        Map::empty()
    } else {
        entries_map(s.drop_last()).insert(s.last().0, s.last().1)
    }
}

/// No key occurs twice.
pub open spec fn uniq_keys(s: Seq<(AccountId, Account)>) -> bool {
    forall|i: int, j: int| 0 <= i < j < s.len() ==> (#[trigger] s[i]).0 != (#[trigger] s[j]).0
}

proof fn lemma_entries_map_get(s: Seq<(AccountId, Account)>, i: int)
    requires
        uniq_keys(s),
        0 <= i < s.len(),
    ensures
        entries_map(s).contains_key(s[i].0),
        entries_map(s)[s[i].0] == s[i].1,
    decreases s.len(),
{
    if i + 1 < s.len() {
        lemma_entries_map_get(s.drop_last(), i);
    }
}

proof fn lemma_entries_map_absent(s: Seq<(AccountId, Account)>, k: AccountId)
    requires
        forall|i: int| 0 <= i < s.len() ==> (#[trigger] s[i]).0 != k,
    ensures
        !entries_map(s).contains_key(k),
    decreases s.len(),
{
    if s.len() > 0 {
        lemma_entries_map_absent(s.drop_last(), k);
    }
}

proof fn lemma_entries_map_update(s: Seq<(AccountId, Account)>, i: int, e: (AccountId, Account))
    requires
        uniq_keys(s),
        0 <= i < s.len(),
        s[i].0 == e.0,
    ensures
        entries_map(s.update(i, e)) == entries_map(s).insert(e.0, e.1),
    decreases s.len(),
{
    let su = s.update(i, e);
    if i + 1 == s.len() {
        assert(su.drop_last() =~= s.drop_last());
        assert(entries_map(su) =~= entries_map(s).insert(e.0, e.1));
    } else {
        assert(su.drop_last() =~= s.drop_last().update(i, e));
        lemma_entries_map_update(s.drop_last(), i, e);
        assert(s.last().0 != e.0);
        assert(entries_map(su) =~= entries_map(s).insert(e.0, e.1));
    }
}

/// The explicit store keyed by account identity.
pub struct Ledger {
    entries: Vec<(AccountId, Account)>,
}

impl View for Ledger {
    type V = Map<AccountId, Account>;

    closed spec fn view(&self) -> Map<AccountId, Account> {
        entries_map(self.entries@)
    }
}

impl Ledger {
    /// Validity of the store: no account identity occurs twice.
    pub closed spec fn wf(self) -> bool {
        uniq_keys(self.entries@)
    }

    /// An empty store.
    pub fn new() -> (r: Ledger)
        ensures
            r.wf(),
            r@ == Map::<AccountId, Account>::empty(),
    {
        Ledger { entries: Vec::new() }
    }

    /// Reads the account at `id`, if one exists.
    pub fn get(&self, id: &AccountId) -> (r: Option<Account>)
        requires
            self.wf(),
        ensures
            match r {
                Some(a) => self@.contains_key(*id) && self@[*id] == a,
                None => !self@.contains_key(*id),
            },
    {
        let n = self.entries.len();
        let mut i: usize = 0;
        while i < n
            invariant
                self.wf(),
                n == self.entries@.len(),
                0 <= i <= n,
                forall|j: int| 0 <= j < i ==> (#[trigger] self.entries@[j]).0 != *id,
            decreases n - i,
        {
            let e = self.entries[i];
            if e.0 == *id {
                proof {
                    lemma_entries_map_get(self.entries@, i as int);
                }
                return Some(e.1);
            }
            i = i + 1;
        }
        proof {
            lemma_entries_map_absent(self.entries@, *id);
        }
        None
    }

    /// Writes the account at `id`, replacing any previous contents.
    pub fn put(&mut self, id: AccountId, a: Account)
        requires
            old(self).wf(),
        ensures
            final(self).wf(),
            final(self)@ == old(self)@.insert(id, a),
    {
        let n = self.entries.len();
        let mut i: usize = 0;
        while i < n
            invariant
                self == old(self),
                self.wf(),
                n == self.entries@.len(),
                0 <= i <= n,
                forall|j: int| 0 <= j < i ==> (#[trigger] self.entries@[j]).0 != id,
            decreases n - i,
        {
            let e = self.entries[i];
            if e.0 == id {
                proof {
                    lemma_entries_map_update(self.entries@, i as int, (id, a));
                }
                self.entries.set(i, (id, a));
                return;
            }
            i = i + 1;
        }
        self.entries.push((id, a));
        proof {
            assert(self.entries@.drop_last() =~= old(self).entries@);
        }
    }

    /// An identical copy of the store.
    pub fn duplicate(&self) -> (r: Ledger)
        requires
            self.wf(),
        ensures
            r.wf(),
            r@ == self@,
    {
        let n = self.entries.len();
        let mut out: Vec<(AccountId, Account)> = Vec::new();
        let mut i: usize = 0;
        while i < n
            invariant
                n == self.entries@.len(),
                0 <= i <= n,
                out@ =~= self.entries@.take(i as int),
            decreases n - i,
        {
            out.push(self.entries[i]);
            i = i + 1;
        }
        proof {
            assert(out@ =~= self.entries@);
        }
        Ledger { entries: out }
    }
}

} // verus!
