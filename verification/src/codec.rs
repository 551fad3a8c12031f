//! The fixed-width byte format of the ledger-resident records and of the
//! transition payloads.
//!
//! Every layout is the concatenation of its fields' fixed-width
//! encodings: booleans one byte (zero or one), 64-bit integers eight
//! little-endian bytes, identities 32 bytes, and optional fields a
//! one-byte presence flag followed by a full-width payload (all zero when
//! absent, so records are canonical).  A record is rejected with
//! `DataTypeMismatch` when the underlying storage is smaller than the
//! computed total size, before any field is read.

use vstd::prelude::*;
use vstd::bytes::{
    lemma_auto_spec_u64_to_from_le_bytes, spec_u64_from_le_bytes, spec_u64_to_le_bytes,
    u64_from_le_bytes, u64_to_le_bytes,
};
use vstd::slice::{slice_index_get, slice_subrange};
use crate::error::BetError;
use crate::ids::AccountId;
use crate::state::{
    AcceptedBet, Bet, BettingMarket, CancelCondition, Direction, ACCEPTED_RECORD_LEN,
    BET_RECORD_LEN, MARKET_RECORD_LEN,
};

verus! {

/// Eight little-endian bytes of an unsigned 64-bit field.
pub open spec fn enc_u64(x: u64) -> Seq<u8> {
    spec_u64_to_le_bytes(x)
}

/// Eight little-endian bytes of a signed 64-bit field, two's complement.
pub open spec fn enc_i64(x: i64) -> Seq<u8> {
    spec_u64_to_le_bytes(x as u64)
}

/// One byte: one for true, zero for false.
pub open spec fn enc_bool(b: bool) -> Seq<u8> {
    seq![if b { 1u8 } else { 0u8 }]
}

/// 32 bytes of an identity: its four words, little-endian each.
pub open spec fn enc_id(a: AccountId) -> Seq<u8> {
    enc_u64(a.w0) + enc_u64(a.w1) + enc_u64(a.w2) + enc_u64(a.w3)
}

/// The all-zero identity, the canonical payload of an absent optional
/// identity field.
pub open spec fn zero_id() -> AccountId {
    AccountId { w0: 0, w1: 0, w2: 0, w3: 0 }
}

/// 33 bytes: a presence flag, then the identity or the all-zero padding.
pub open spec fn enc_opt_id(o: Option<AccountId>) -> Seq<u8> {
    match o {
        Some(a) => seq![1u8] + enc_id(a),
        None => seq![0u8] + enc_id(zero_id()),
    }
}

/// The unsigned 64-bit field at byte offset `off`.
pub open spec fn dec_u64(s: Seq<u8>, off: int) -> u64 {
    spec_u64_from_le_bytes(s.subrange(off, off + 8))
}

/// The signed 64-bit field at byte offset `off`.
pub open spec fn dec_i64(s: Seq<u8>, off: int) -> i64 {
    dec_u64(s, off) as i64
}

/// The identity at byte offset `off`.
pub open spec fn dec_id(s: Seq<u8>, off: int) -> AccountId {
    AccountId {
        w0: dec_u64(s, off),
        w1: dec_u64(s, off + 8),
        w2: dec_u64(s, off + 16),
        w3: dec_u64(s, off + 24),
    }
}

/// The lengths of the primitive encodings.
pub proof fn lemma_enc_lens()
    ensures
        forall|x: u64| (#[trigger] enc_u64(x)).len() == 8,
        forall|x: i64| (#[trigger] enc_i64(x)).len() == 8,
        forall|b: bool| (#[trigger] enc_bool(b)).len() == 1,
        forall|a: AccountId| (#[trigger] enc_id(a)).len() == 32,
        forall|o: Option<AccountId>| (#[trigger] enc_opt_id(o)).len() == 33,
{
    lemma_auto_spec_u64_to_from_le_bytes();
    assert forall|a: AccountId| (#[trigger] enc_id(a)).len() == 32 by {
        lemma_auto_spec_u64_to_from_le_bytes();
    }
    assert forall|o: Option<AccountId>| (#[trigger] enc_opt_id(o)).len() == 33 by {
        lemma_auto_spec_u64_to_from_le_bytes();
    }
}

/// Round trips of the primitive encodings: decoding at the start of an
/// encoding recovers the encoded value.
pub proof fn lemma_prim_roundtrip()
    ensures
        forall|x: u64| #[trigger] spec_u64_from_le_bytes(spec_u64_to_le_bytes(x)) == x,
        forall|x: i64| #[trigger] spec_u64_from_le_bytes(spec_u64_to_le_bytes(x as u64)) as i64
            == x,
{
    lemma_auto_spec_u64_to_from_le_bytes();
    assert forall|x: i64| #[trigger] spec_u64_from_le_bytes(spec_u64_to_le_bytes(x as u64)) as i64
        == x by {
        lemma_auto_spec_u64_to_from_le_bytes();
        assert((x as u64) as i64 == x) by (bit_vector);
    }
}

/// Appends the encoding of an unsigned 64-bit field.
pub(crate) fn push_u64(v: &mut Vec<u8>, x: u64)
    ensures
        final(v)@ == old(v)@ + enc_u64(x),
{
    let mut b = u64_to_le_bytes(x);
    v.append(&mut b);
}

/// Appends the encoding of a signed 64-bit field.
pub(crate) fn push_i64(v: &mut Vec<u8>, x: i64)
    ensures
        final(v)@ == old(v)@ + enc_i64(x),
{
    push_u64(v, x as u64);
}

/// Appends a boolean byte.
pub(crate) fn push_bool(v: &mut Vec<u8>, b: bool)
    ensures
        final(v)@ == old(v)@ + enc_bool(b),
{
    v.push(if b { 1 } else { 0 });
    proof {
        assert(v@ =~= old(v)@ + enc_bool(b));
    }
}

/// Appends the encoding of an identity.
pub(crate) fn push_id(v: &mut Vec<u8>, a: &AccountId)
    ensures
        final(v)@ == old(v)@ + enc_id(*a),
{
    push_u64(v, a.w0);
    push_u64(v, a.w1);
    push_u64(v, a.w2);
    push_u64(v, a.w3);
    proof {
        assert(v@ =~= old(v)@ + enc_id(*a));
    }
}

/// Appends the encoding of an optional identity.
pub(crate) fn push_opt_id(v: &mut Vec<u8>, o: &Option<AccountId>)
    ensures
        final(v)@ == old(v)@ + enc_opt_id(*o),
{
    match o {
        Some(a) => {
            push_bool(v, true);
            push_id(v, a);
        },
        None => {
            push_bool(v, false);
            let z = AccountId { w0: 0, w1: 0, w2: 0, w3: 0 };
            push_id(v, &z);
        },
    }
    proof {
        assert(v@ =~= old(v)@ + enc_opt_id(*o));
    }
}

/// Reads the unsigned 64-bit field at `off`.
pub(crate) fn read_u64(data: &[u8], off: usize) -> (r: u64)
    requires
        off + 8 <= data@.len(),
    ensures
        r == dec_u64(data@, off as int),
{
    let _n = data.len();
    u64_from_le_bytes(slice_subrange(data, off, off + 8))
}

/// Reads the signed 64-bit field at `off`.
pub(crate) fn read_i64(data: &[u8], off: usize) -> (r: i64)
    requires
        off + 8 <= data@.len(),
    ensures
        r == dec_i64(data@, off as int),
{
    read_u64(data, off) as i64
}

/// Reads the identity at `off`.
pub(crate) fn read_id(data: &[u8], off: usize) -> (r: AccountId)
    requires
        off + 32 <= data@.len(),
    ensures
        r == dec_id(data@, off as int),
{
    let _n = data.len();
    AccountId {
        w0: read_u64(data, off),
        w1: read_u64(data, off + 8),
        w2: read_u64(data, off + 16),
        w3: read_u64(data, off + 24),
    }
}

/// Reads the byte at `off`.
pub(crate) fn read_u8(data: &[u8], off: usize) -> (r: u8)
    requires
        off < data@.len(),
    ensures
        r == data@[off as int],
{
    *slice_index_get(data, off)
}

/// The market record the bytes hold, or `DataTypeMismatch` when the
/// storage is undersized or not a canonical market record.  Field
/// offsets: owner 0, fee destination 32, payment-mode byte 64, optional
/// asset identity 65, oracle program 98.
pub open spec fn dec_market(s: Seq<u8>) -> Result<BettingMarket, BetError> {
    if s.len() < MARKET_RECORD_LEN {
        Err(BetError::DataTypeMismatch)
    } else {
        let sol = s[64];
        let mflag = s[65];
        if !(sol == 0 || sol == 1) {
            Err(BetError::DataTypeMismatch)
        } else if !(mflag == 0 || mflag == 1) {
            Err(BetError::DataTypeMismatch)
        } else if mflag == 0 && dec_id(s, 66) != zero_id() {
            Err(BetError::DataTypeMismatch)
        } else {
            Ok(
                BettingMarket {
                    owner: dec_id(s, 0),
                    fee_commission_account: dec_id(s, 32),
                    sol_payment: sol == 1,
                    payment_mint: if mflag == 1 {
                        Some(dec_id(s, 66))
                    } else {
                        None
                    },
                    pyth_program_id: dec_id(s, 98),
                },
            )
        }
    }
}

/// The byte encoding of a market record.
pub open spec fn enc_market(r: BettingMarket) -> Seq<u8> {
    enc_id(r.owner) + enc_id(r.fee_commission_account) + enc_bool(r.sol_payment) + enc_opt_id(
        r.payment_mint,
    ) + enc_id(r.pyth_program_id)
}

/// Decoding an encoded market record recovers it exactly.
pub proof fn lemma_market_roundtrip(r: BettingMarket)
    ensures
        enc_market(r).len() == MARKET_RECORD_LEN,
        dec_market(enc_market(r)) == Ok::<BettingMarket, BetError>(r),
{
    lemma_enc_lens();
    lemma_prim_roundtrip();
    let s = enc_market(r);
    assert(s.subrange(0, 8) =~= enc_u64(r.owner.w0));
    assert(s.subrange(8, 16) =~= enc_u64(r.owner.w1));
    assert(s.subrange(16, 24) =~= enc_u64(r.owner.w2));
    assert(s.subrange(24, 32) =~= enc_u64(r.owner.w3));
    assert(s.subrange(32, 40) =~= enc_u64(r.fee_commission_account.w0));
    assert(s.subrange(40, 48) =~= enc_u64(r.fee_commission_account.w1));
    assert(s.subrange(48, 56) =~= enc_u64(r.fee_commission_account.w2));
    assert(s.subrange(56, 64) =~= enc_u64(r.fee_commission_account.w3));
    let mint = match r.payment_mint {
        Some(a) => a,
        None => zero_id(),
    };
    assert(s.subrange(66, 74) =~= enc_u64(mint.w0));
    assert(s.subrange(74, 82) =~= enc_u64(mint.w1));
    assert(s.subrange(82, 90) =~= enc_u64(mint.w2));
    assert(s.subrange(90, 98) =~= enc_u64(mint.w3));
    assert(s.subrange(98, 106) =~= enc_u64(r.pyth_program_id.w0));
    assert(s.subrange(106, 114) =~= enc_u64(r.pyth_program_id.w1));
    assert(s.subrange(114, 122) =~= enc_u64(r.pyth_program_id.w2));
    assert(s.subrange(122, 130) =~= enc_u64(r.pyth_program_id.w3));
}

/// One byte: zero for `Above`, one for `Below`.
pub open spec fn enc_dir(d: Direction) -> Seq<u8> {
    match d {
        Direction::Above => seq![0u8],
        Direction::Below => seq![1u8],
    }
}

/// 24 bytes: the price floor, the price ceiling, and the deadline.
pub open spec fn enc_cc(c: CancelCondition) -> Seq<u8> {
    enc_i64(c.below_price) + enc_i64(c.above_price) + enc_i64(c.time)
}

/// Nine bytes: a presence flag, then the value or all-zero padding.
pub open spec fn enc_opt_i64(o: Option<i64>) -> Seq<u8> {
    match o {
        Some(x) => seq![1u8] + enc_i64(x),
        None => seq![0u8] + enc_i64(0),
    }
}

/// The cancel condition at byte offset `off`.
pub open spec fn dec_cc(s: Seq<u8>, off: int) -> CancelCondition {
    CancelCondition {
        below_price: dec_i64(s, off),
        above_price: dec_i64(s, off + 8),
        time: dec_i64(s, off + 16),
    }
}

/// Appends the direction byte.
pub(crate) fn push_dir(v: &mut Vec<u8>, d: Direction)
    ensures
        final(v)@ == old(v)@ + enc_dir(d),
{
    match d {
        Direction::Above => v.push(0),
        Direction::Below => v.push(1),
    }
    proof {
        assert(v@ =~= old(v)@ + enc_dir(d));
    }
}

/// Appends the encoding of a cancel condition.
pub(crate) fn push_cc(v: &mut Vec<u8>, c: &CancelCondition)
    ensures
        final(v)@ == old(v)@ + enc_cc(*c),
{
    push_i64(v, c.below_price);
    push_i64(v, c.above_price);
    push_i64(v, c.time);
    proof {
        assert(v@ =~= old(v)@ + enc_cc(*c));
    }
}

/// Appends the encoding of an optional signed 64-bit field.
pub(crate) fn push_opt_i64(v: &mut Vec<u8>, o: &Option<i64>)
    ensures
        final(v)@ == old(v)@ + enc_opt_i64(*o),
{
    match o {
        Some(x) => {
            push_bool(v, true);
            push_i64(v, *x);
        },
        None => {
            push_bool(v, false);
            push_i64(v, 0);
        },
    }
    proof {
        assert(v@ =~= old(v)@ + enc_opt_i64(*o));
    }
}

/// Reads the cancel condition at `off`.
pub(crate) fn read_cc(data: &[u8], off: usize) -> (r: CancelCondition)
    requires
        off + 24 <= data@.len(),
    ensures
        r == dec_cc(data@, off as int),
{
    let _n = data.len();
    CancelCondition {
        below_price: read_i64(data, off),
        above_price: read_i64(data, off + 8),
        time: read_i64(data, off + 16),
    }
}

/// The bet record the bytes hold, or `DataTypeMismatch` when the storage
/// is undersized or not a canonical bet record.  Field offsets: the
/// initialization byte 0, then the market, creator, payment and escrow
/// identities at 1, 33, 65 and 97, odds 129, stake 137, the oracle pair
/// at 145 and 177, expiration 209, direction byte 217, target price 218,
/// starting price 226, cancel condition 234, optional variable odds 258,
/// total accepted 267, cancelled byte 275.
pub open spec fn dec_bet(s: Seq<u8>) -> Result<Bet, BetError> {
    if s.len() < BET_RECORD_LEN {
        Err(BetError::DataTypeMismatch)
    } else {
        let init = s[0];
        let dir = s[217];
        let vflag = s[258];
        let cancelled = s[275];
        if !(init == 0 || init == 1) {
            Err(BetError::DataTypeMismatch)
        } else if !(dir == 0 || dir == 1) {
            Err(BetError::DataTypeMismatch)
        } else if !(vflag == 0 || vflag == 1) {
            Err(BetError::DataTypeMismatch)
        } else if !(cancelled == 0 || cancelled == 1) {
            Err(BetError::DataTypeMismatch)
        } else if vflag == 0 && dec_i64(s, 259) != 0i64 {
            Err(BetError::DataTypeMismatch)
        } else {
            Ok(
                Bet {
                    is_initialized: init == 1,
                    betting_market: dec_id(s, 1),
                    creator_main_account: dec_id(s, 33),
                    creator_payment_account: dec_id(s, 65),
                    bet_escrow_account: dec_id(s, 97),
                    odds: dec_i64(s, 129),
                    bet_size: dec_u64(s, 137),
                    pyth_oracle_product_account: dec_id(s, 145),
                    pyth_oracle_price_account: dec_id(s, 177),
                    expiration_time: dec_i64(s, 209),
                    bet_direction: if dir == 0 {
                        Direction::Above
                    } else {
                        Direction::Below
                    },
                    bet_price: dec_i64(s, 218),
                    start_price: dec_i64(s, 226),
                    cancel_condition: dec_cc(s, 234),
                    variable_odds: if vflag == 1 {
                        Some(dec_i64(s, 259))
                    } else {
                        None
                    },
                    total_amount_accepted: dec_u64(s, 267),
                    cancelled: cancelled == 1,
                },
            )
        }
    }
}

/// The byte encoding of a bet record.
pub open spec fn enc_bet(b: Bet) -> Seq<u8> {
    enc_bool(b.is_initialized) + enc_id(b.betting_market) + enc_id(b.creator_main_account)
        + enc_id(b.creator_payment_account) + enc_id(b.bet_escrow_account) + enc_i64(b.odds)
        + enc_u64(b.bet_size) + enc_id(b.pyth_oracle_product_account) + enc_id(
        b.pyth_oracle_price_account,
    ) + enc_i64(b.expiration_time) + enc_dir(b.bet_direction) + enc_i64(b.bet_price) + enc_i64(
        b.start_price,
    ) + enc_cc(b.cancel_condition) + enc_opt_i64(b.variable_odds) + enc_u64(
        b.total_amount_accepted,
    ) + enc_bool(b.cancelled)
}

/// Decoding an encoded bet record recovers it exactly.
#[verifier::spinoff_prover]
#[verifier::rlimit(60)]
pub proof fn lemma_bet_roundtrip(b: Bet)
    ensures
        enc_bet(b).len() == BET_RECORD_LEN,
        dec_bet(enc_bet(b)) == Ok::<Bet, BetError>(b),
{
    lemma_enc_lens();
    lemma_prim_roundtrip();
    let s = enc_bet(b);
    assert(s.subrange(1, 9) =~= enc_u64(b.betting_market.w0));
    assert(s.subrange(9, 17) =~= enc_u64(b.betting_market.w1));
    assert(s.subrange(17, 25) =~= enc_u64(b.betting_market.w2));
    assert(s.subrange(25, 33) =~= enc_u64(b.betting_market.w3));
    assert(s.subrange(33, 41) =~= enc_u64(b.creator_main_account.w0));
    assert(s.subrange(41, 49) =~= enc_u64(b.creator_main_account.w1));
    assert(s.subrange(49, 57) =~= enc_u64(b.creator_main_account.w2));
    assert(s.subrange(57, 65) =~= enc_u64(b.creator_main_account.w3));
    assert(s.subrange(65, 73) =~= enc_u64(b.creator_payment_account.w0));
    assert(s.subrange(73, 81) =~= enc_u64(b.creator_payment_account.w1));
    assert(s.subrange(81, 89) =~= enc_u64(b.creator_payment_account.w2));
    assert(s.subrange(89, 97) =~= enc_u64(b.creator_payment_account.w3));
    assert(s.subrange(97, 105) =~= enc_u64(b.bet_escrow_account.w0));
    assert(s.subrange(105, 113) =~= enc_u64(b.bet_escrow_account.w1));
    assert(s.subrange(113, 121) =~= enc_u64(b.bet_escrow_account.w2));
    assert(s.subrange(121, 129) =~= enc_u64(b.bet_escrow_account.w3));
    assert(s.subrange(129, 137) =~= enc_i64(b.odds));
    assert(s.subrange(137, 145) =~= enc_u64(b.bet_size));
    assert(s.subrange(145, 153) =~= enc_u64(b.pyth_oracle_product_account.w0));
    assert(s.subrange(153, 161) =~= enc_u64(b.pyth_oracle_product_account.w1));
    assert(s.subrange(161, 169) =~= enc_u64(b.pyth_oracle_product_account.w2));
    assert(s.subrange(169, 177) =~= enc_u64(b.pyth_oracle_product_account.w3));
    assert(s.subrange(177, 185) =~= enc_u64(b.pyth_oracle_price_account.w0));
    assert(s.subrange(185, 193) =~= enc_u64(b.pyth_oracle_price_account.w1));
    assert(s.subrange(193, 201) =~= enc_u64(b.pyth_oracle_price_account.w2));
    assert(s.subrange(201, 209) =~= enc_u64(b.pyth_oracle_price_account.w3));
    assert(s.subrange(209, 217) =~= enc_i64(b.expiration_time));
    assert(s.subrange(218, 226) =~= enc_i64(b.bet_price));
    assert(s.subrange(226, 234) =~= enc_i64(b.start_price));
    assert(s.subrange(234, 242) =~= enc_i64(b.cancel_condition.below_price));
    assert(s.subrange(242, 250) =~= enc_i64(b.cancel_condition.above_price));
    assert(s.subrange(250, 258) =~= enc_i64(b.cancel_condition.time));
    let vo = match b.variable_odds {
        Some(x) => x,
        None => 0i64,
    };
    assert(s.subrange(259, 267) =~= enc_i64(vo));
    assert(s.subrange(267, 275) =~= enc_u64(b.total_amount_accepted));
}

impl Bet {
    /// Encodes the record into its fixed-width byte layout.
    pub fn to_bytes(&self) -> (v: Vec<u8>)
        ensures
            v@ == enc_bet(*self),
    {
        let mut v: Vec<u8> = Vec::new();
        push_bool(&mut v, self.is_initialized);
        push_id(&mut v, &self.betting_market);
        push_id(&mut v, &self.creator_main_account);
        push_id(&mut v, &self.creator_payment_account);
        push_id(&mut v, &self.bet_escrow_account);
        push_i64(&mut v, self.odds);
        push_u64(&mut v, self.bet_size);
        push_id(&mut v, &self.pyth_oracle_product_account);
        push_id(&mut v, &self.pyth_oracle_price_account);
        push_i64(&mut v, self.expiration_time);
        push_dir(&mut v, self.bet_direction);
        push_i64(&mut v, self.bet_price);
        push_i64(&mut v, self.start_price);
        push_cc(&mut v, &self.cancel_condition);
        push_opt_i64(&mut v, &self.variable_odds);
        push_u64(&mut v, self.total_amount_accepted);
        push_bool(&mut v, self.cancelled);
        proof {
            assert(v@ =~= enc_bet(*self));
        }
        v
    }

    /// Reads a bet record out of account storage, rejecting undersized
    /// or non-canonical storage with `DataTypeMismatch`.
    pub fn from_account_info(data: &[u8]) -> (r: Result<Bet, BetError>)
        ensures
            r == dec_bet(data@),
    {
        if data.len() < BET_RECORD_LEN as usize {
            return Err(BetError::DataTypeMismatch);
        }
        let init = read_u8(data, 0);
        let dir = read_u8(data, 217);
        let vflag = read_u8(data, 258);
        let cancelled = read_u8(data, 275);
        if !(init == 0 || init == 1) {
            return Err(BetError::DataTypeMismatch);
        }
        if !(dir == 0 || dir == 1) {
            return Err(BetError::DataTypeMismatch);
        }
        if !(vflag == 0 || vflag == 1) {
            return Err(BetError::DataTypeMismatch);
        }
        if !(cancelled == 0 || cancelled == 1) {
            return Err(BetError::DataTypeMismatch);
        }
        let vo = read_i64(data, 259);
        if vflag == 0 && vo != 0 {
            return Err(BetError::DataTypeMismatch);
        }
        Ok(
            Bet {
                is_initialized: init == 1,
                betting_market: read_id(data, 1),
                creator_main_account: read_id(data, 33),
                creator_payment_account: read_id(data, 65),
                bet_escrow_account: read_id(data, 97),
                odds: read_i64(data, 129),
                bet_size: read_u64(data, 137),
                pyth_oracle_product_account: read_id(data, 145),
                pyth_oracle_price_account: read_id(data, 177),
                expiration_time: read_i64(data, 209),
                bet_direction: if dir == 0 {
                    Direction::Above
                } else {
                    Direction::Below
                },
                bet_price: read_i64(data, 218),
                start_price: read_i64(data, 226),
                cancel_condition: read_cc(data, 234),
                variable_odds: if vflag == 1 {
                    Some(vo)
                } else {
                    None
                },
                total_amount_accepted: read_u64(data, 267),
                cancelled: cancelled == 1,
            },
        )
    }
}

/// The accepted-fill record the bytes hold, or `DataTypeMismatch` when
/// the storage is undersized or not a canonical fill record.  Field
/// offsets: the parent bet, escrow, acceptor and payout identities at 0,
/// 32, 64 and 96, odds 128, stake 136, finalized byte 144.
pub open spec fn dec_accepted(s: Seq<u8>) -> Result<AcceptedBet, BetError> {
    if s.len() < ACCEPTED_RECORD_LEN {
        Err(BetError::DataTypeMismatch)
    } else {
        let fin = s[144];
        if !(fin == 0 || fin == 1) {
            Err(BetError::DataTypeMismatch)
        } else {
            Ok(
                AcceptedBet {
                    bet: dec_id(s, 0),
                    accepted_bet_escrow_account: dec_id(s, 32),
                    acceptor_main_account: dec_id(s, 64),
                    acceptor_payment_account: dec_id(s, 96),
                    odds: dec_i64(s, 128),
                    bet_size: dec_u64(s, 136),
                    finalized: fin == 1,
                },
            )
        }
    }
}

/// The byte encoding of an accepted-fill record.
pub open spec fn enc_accepted(a: AcceptedBet) -> Seq<u8> {
    enc_id(a.bet) + enc_id(a.accepted_bet_escrow_account) + enc_id(a.acceptor_main_account)
        + enc_id(a.acceptor_payment_account) + enc_i64(a.odds) + enc_u64(a.bet_size) + enc_bool(
        a.finalized,
    )
}

/// Decoding an encoded accepted-fill record recovers it exactly.
#[verifier::spinoff_prover]
pub proof fn lemma_accepted_roundtrip(a: AcceptedBet)
    ensures
        enc_accepted(a).len() == ACCEPTED_RECORD_LEN,
        dec_accepted(enc_accepted(a)) == Ok::<AcceptedBet, BetError>(a),
{
    lemma_enc_lens();
    lemma_prim_roundtrip();
    let s = enc_accepted(a);
    assert(s.subrange(0, 8) =~= enc_u64(a.bet.w0));
    assert(s.subrange(8, 16) =~= enc_u64(a.bet.w1));
    assert(s.subrange(16, 24) =~= enc_u64(a.bet.w2));
    assert(s.subrange(24, 32) =~= enc_u64(a.bet.w3));
    assert(s.subrange(32, 40) =~= enc_u64(a.accepted_bet_escrow_account.w0));
    assert(s.subrange(40, 48) =~= enc_u64(a.accepted_bet_escrow_account.w1));
    assert(s.subrange(48, 56) =~= enc_u64(a.accepted_bet_escrow_account.w2));
    assert(s.subrange(56, 64) =~= enc_u64(a.accepted_bet_escrow_account.w3));
    assert(s.subrange(64, 72) =~= enc_u64(a.acceptor_main_account.w0));
    assert(s.subrange(72, 80) =~= enc_u64(a.acceptor_main_account.w1));
    assert(s.subrange(80, 88) =~= enc_u64(a.acceptor_main_account.w2));
    assert(s.subrange(88, 96) =~= enc_u64(a.acceptor_main_account.w3));
    assert(s.subrange(96, 104) =~= enc_u64(a.acceptor_payment_account.w0));
    assert(s.subrange(104, 112) =~= enc_u64(a.acceptor_payment_account.w1));
    assert(s.subrange(112, 120) =~= enc_u64(a.acceptor_payment_account.w2));
    assert(s.subrange(120, 128) =~= enc_u64(a.acceptor_payment_account.w3));
    assert(s.subrange(128, 136) =~= enc_i64(a.odds));
    assert(s.subrange(136, 144) =~= enc_u64(a.bet_size));
}

impl AcceptedBet {
    /// Encodes the record into its fixed-width byte layout.
    pub fn to_bytes(&self) -> (v: Vec<u8>)
        ensures
            v@ == enc_accepted(*self),
    {
        let mut v: Vec<u8> = Vec::new();
        push_id(&mut v, &self.bet);
        push_id(&mut v, &self.accepted_bet_escrow_account);
        push_id(&mut v, &self.acceptor_main_account);
        push_id(&mut v, &self.acceptor_payment_account);
        push_i64(&mut v, self.odds);
        push_u64(&mut v, self.bet_size);
        push_bool(&mut v, self.finalized);
        proof {
            assert(v@ =~= enc_accepted(*self));
        }
        v
    }

    /// Reads an accepted-fill record out of account storage, rejecting
    /// undersized or non-canonical storage with `DataTypeMismatch`.
    pub fn from_account_info(data: &[u8]) -> (r: Result<AcceptedBet, BetError>)
        ensures
            r == dec_accepted(data@),
    {
        if data.len() < ACCEPTED_RECORD_LEN as usize {
            return Err(BetError::DataTypeMismatch);
        }
        let fin = read_u8(data, 144);
        if !(fin == 0 || fin == 1) {
            return Err(BetError::DataTypeMismatch);
        }
        Ok(
            AcceptedBet {
                bet: read_id(data, 0),
                accepted_bet_escrow_account: read_id(data, 32),
                acceptor_main_account: read_id(data, 64),
                acceptor_payment_account: read_id(data, 96),
                odds: read_i64(data, 128),
                bet_size: read_u64(data, 136),
                finalized: fin == 1,
            },
        )
    }
}

impl BettingMarket {
    /// Encodes the record into its fixed-width byte layout.
    pub fn to_bytes(&self) -> (v: Vec<u8>)
        ensures
            v@ == enc_market(*self),
    {
        let mut v: Vec<u8> = Vec::new();
        push_id(&mut v, &self.owner);
        push_id(&mut v, &self.fee_commission_account);
        push_bool(&mut v, self.sol_payment);
        push_opt_id(&mut v, &self.payment_mint);
        push_id(&mut v, &self.pyth_program_id);
        proof {
            assert(v@ =~= enc_market(*self));
        }
        v
    }

    /// Reads a market record out of account storage, rejecting
    /// undersized or non-canonical storage with `DataTypeMismatch`.
    pub fn from_account_info(data: &[u8]) -> (r: Result<BettingMarket, BetError>)
        ensures
            r == dec_market(data@),
    {
        if data.len() < MARKET_RECORD_LEN as usize {
            return Err(BetError::DataTypeMismatch);
        }
        let sol = read_u8(data, 64);
        let mflag = read_u8(data, 65);
        if !(sol == 0 || sol == 1) {
            return Err(BetError::DataTypeMismatch);
        }
        if !(mflag == 0 || mflag == 1) {
            return Err(BetError::DataTypeMismatch);
        }
        let mint = read_id(data, 66);
        let z = AccountId { w0: 0, w1: 0, w2: 0, w3: 0 };
        if mflag == 0 && !(mint == z) {
            return Err(BetError::DataTypeMismatch);
        }
        Ok(
            BettingMarket {
                owner: read_id(data, 0),
                fee_commission_account: read_id(data, 32),
                sol_payment: sol == 1,
                payment_mint: if mflag == 1 {
                    Some(mint)
                } else {
                    None
                },
                pyth_program_id: read_id(data, 98),
            },
        )
    }
}

} // verus!
