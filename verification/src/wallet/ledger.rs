//! The ledger: one table from address to balance. Amounts and balances are
//! counts of whole units. Crediting a wallet is the only way value enters the
//! table; a transfer moves value and creates none.

use crate::decimal::{append_bytes, decimal_digits, decimal_text};
use crate::digest::{hex_encode, hex_lower, is_lower_hex, keccak256, keccak256_digest};
use crate::error::LedgerError;
use vstd::hash_map::StringHashMap;
use vstd::prelude::*;
use vstd::string::*;
use vstd::utf8::encode_utf8;

verus! {

/// What `address` holds in `table`: nothing, if the table has no entry for it.
pub open spec fn balance(table: Map<Seq<char>, nat>, address: Seq<char>) -> nat {
    if table.contains_key(address) {
        table[address]
    } else {
        0
    }
}

/// The sum of all balances of a finite table.
pub open spec fn total(table: Map<Seq<char>, nat>) -> nat
    decreases table.dom().len(),
    when table.dom().finite()
{
    if table.dom().len() == 0 {
        0
    } else {
        let address = table.dom().choose();
        table[address] + total(table.remove(address))
    }
}

/// Whether a transfer of `amount` out of `from` goes through.
pub open spec fn transfer_allowed(table: Map<Seq<char>, nat>, from: Seq<char>, amount: nat) -> bool {
    amount > 0 && balance(table, from) >= amount
}

/// The table after `amount` has moved from `from` to `to`. A transfer to
/// oneself leaves the table as it is.
pub open spec fn after_transfer(
    table: Map<Seq<char>, nat>,
    from: Seq<char>,
    to: Seq<char>,
    amount: nat,
) -> Map<Seq<char>, nat> {
    if from == to {
        table
    } else {
        table.insert(from, (balance(table, from) - amount) as nat).insert(
            to,
            balance(table, to) + amount,
        )
    }
}

/// The error that refuses a transfer which is not allowed.
pub open spec fn refusal(amount: nat) -> LedgerError {
    if amount == 0 {
        LedgerError::InvalidAmount
    } else {
        LedgerError::InsufficientBalance
    }
}

/// The receipt of a transfer: the Keccak-256 digest, in hexadecimal, of the
/// sender's address, the receiver's address and the amount in decimal, one
/// after the other as UTF-8.
pub open spec fn receipt_text(from: Seq<char>, to: Seq<char>, amount: nat) -> Seq<char> {
    hex_lower(keccak256(encode_utf8(from) + encode_utf8(to) + decimal_text(amount)))
}

/// Sixty-four lower-case hexadecimal digits.
pub open spec fn is_receipt(text: Seq<char>) -> bool {
    text.len() == 64 && forall|i: int| 0 <= i < 64 ==> is_lower_hex(#[trigger] text[i])
}

/// Any one entry can be taken out of the sum first.
pub proof fn lemma_total_remove(table: Map<Seq<char>, nat>, address: Seq<char>)
    requires
        table.dom().finite(),
        table.contains_key(address),
    ensures
        total(table) == table[address] + total(table.remove(address)),
    decreases table.dom().len(),
{
    let first = table.dom().choose();
    if first != address {
        lemma_total_remove(table.remove(first), address);
        lemma_total_remove(table.remove(address), first);
        assert(table.remove(first).remove(address) =~= table.remove(address).remove(first));
    }
}

/// Writing one balance changes the sum by the difference to what stood there.
pub proof fn lemma_total_insert(table: Map<Seq<char>, nat>, address: Seq<char>, amount: nat)
    requires
        table.dom().finite(),
    ensures
        total(table.insert(address, amount)) == total(table) - balance(table, address) + amount,
{
    let written = table.insert(address, amount);
    lemma_total_remove(written, address);
    assert(written.remove(address) =~= table.remove(address));
    if table.contains_key(address) {
        lemma_total_remove(table, address);
    } else {
        assert(table.remove(address) =~= table);
    }
}

/// Two different accounts together hold no more than the whole table.
pub proof fn lemma_pair_within_total(table: Map<Seq<char>, nat>, a: Seq<char>, b: Seq<char>)
    requires
        table.dom().finite(),
        a != b,
    ensures
        balance(table, a) + balance(table, b) <= total(table),
{
    if table.contains_key(a) {
        lemma_total_remove(table, a);
        if table.contains_key(b) {
            lemma_total_remove(table.remove(a), b);
        }
    } else if table.contains_key(b) {
        lemma_total_remove(table, b);
    }
}

/// A transfer that goes through conserves value: what sender and receiver
/// hold together is what they held before, nobody else's balance changes,
/// and so the sum of all balances stays. No account leaves the table.
pub proof fn lemma_transfer_conserves(
    table: Map<Seq<char>, nat>,
    from: Seq<char>,
    to: Seq<char>,
    amount: nat,
)
    requires
        table.dom().finite(),
        transfer_allowed(table, from, amount),
    ensures
        ({
            let after = after_transfer(table, from, to, amount);
            &&& after.dom().finite()
            &&& table.dom().subset_of(after.dom())
            &&& balance(after, from) + balance(after, to) == balance(table, from) + balance(
                table,
                to,
            )
            &&& from != to ==> balance(after, from) == balance(table, from) - amount
            &&& from != to ==> balance(after, to) == balance(table, to) + amount
            &&& forall|other: Seq<char>|
                other != from && other != to ==> balance(after, other) == #[trigger] balance(
                    table,
                    other,
                )
            &&& total(after) == total(table)
        }),
{
    if from != to {
        let debited = table.insert(from, (balance(table, from) - amount) as nat);
        lemma_total_insert(table, from, (balance(table, from) - amount) as nat);
        lemma_total_insert(debited, to, balance(table, to) + amount);
    }
}

/// What one attempt to move `amount` from `from` to `to` leaves behind: the
/// table after the transfer where it goes through, the same table where not.
pub open spec fn after_attempt(
    table: Map<Seq<char>, nat>,
    from: Seq<char>,
    to: Seq<char>,
    amount: nat,
) -> Map<Seq<char>, nat> {
    if transfer_allowed(table, from, amount) {
        after_transfer(table, from, to, amount)
    } else {
        table
    }
}

/// The table after one attempt out of `from` for each of `receivers`, one
/// after the other.
pub open spec fn after_attempts(
    table: Map<Seq<char>, nat>,
    from: Seq<char>,
    receivers: Seq<Seq<char>>,
    amount: nat,
) -> Map<Seq<char>, nat>
    decreases receivers.len(),
{
    if receivers.len() == 0 {
        table
    } else {
        after_attempts(
            after_attempt(table, from, receivers.first(), amount),
            from,
            receivers.drop_first(),
            amount,
        )
    }
}

/// How many of those attempts go through.
pub open spec fn successes(
    table: Map<Seq<char>, nat>,
    from: Seq<char>,
    receivers: Seq<Seq<char>>,
    amount: nat,
) -> nat
    decreases receivers.len(),
{
    if receivers.len() == 0 {
        0
    } else {
        let rest = successes(
            after_attempt(table, from, receivers.first(), amount),
            from,
            receivers.drop_first(),
            amount,
        );
        if transfer_allowed(table, from, amount) {
            rest + 1
        } else {
            rest
        }
    }
}

/// Attempts of one amount out of one account, to receivers other than that
/// account and in any number, go through as often as the amount fits into the
/// balance and no more, and each of the others is refused for an insufficient
/// balance; the account is left with the rest, never with less than nothing.
pub proof fn lemma_attempts_drain(
    table: Map<Seq<char>, nat>,
    from: Seq<char>,
    receivers: Seq<Seq<char>>,
    amount: nat,
)
    requires
        amount > 0,
        forall|i: int| 0 <= i < receivers.len() ==> receivers[i] != from,
    ensures
        successes(table, from, receivers, amount) == if receivers.len() <= balance(table, from)
            / amount {
            receivers.len()
        } else {
            balance(table, from) / amount
        },
        balance(after_attempts(table, from, receivers, amount), from) == balance(table, from)
            - successes(table, from, receivers, amount) * amount,
        refusal(amount) == LedgerError::InsufficientBalance,
    decreases receivers.len(),
{
    let held = balance(table, from);
    if receivers.len() > 0 {
        let next = after_attempt(table, from, receivers.first(), amount);
        let rest = receivers.drop_first();
        lemma_attempts_drain(next, from, rest, amount);
        let later = successes(next, from, rest, amount);
        if transfer_allowed(table, from, amount) {
            assert((held - amount) / (amount as int) == held / amount - 1) by (nonlinear_arith)
                requires
                    amount > 0,
                    held >= amount,
            ;
            assert((later + 1) * amount == later * amount + amount) by (nonlinear_arith);
        } else {
            assert(held / amount == 0) by (nonlinear_arith)
                requires
                    amount > 0,
                    held < amount,
            ;
        }
    }
}

/// The balances of all accounts, and their sum. Every change takes the
/// ledger by `&mut`, so changes come one at a time and nobody sees half of
/// one; who shares a ledger between tasks keeps it behind one lock.
pub struct Ledger {
    balances: StringHashMap<u128>,
    supply: u128,
}

impl View for Ledger {
    type V = Map<Seq<char>, nat>;

    closed spec fn view(&self) -> Map<Seq<char>, nat> {
        Map::new(
            |address: Seq<char>| self.balances@.contains_key(address),
            |address: Seq<char>| self.balances@[address] as nat,
        )
    }
}

impl Ledger {
    /// The ledger's invariant: finitely many accounts, and a sum of balances
    /// that the ledger keeps count of.
    pub closed spec fn wf(&self) -> bool {
        &&& self@.dom().finite()
        &&& total(self@) == self.supply
    }

    /// A well-formed ledger has finitely many accounts, and the sum of their
    /// balances fits the widest integer.
    pub proof fn lemma_wf(&self)
        requires
            self.wf(),
        ensures
            self@.dom().finite(),
            total(self@) <= u128::MAX,
    {
    }

    /// A ledger without accounts.
    pub fn new() -> (ledger: Ledger)
        ensures
            ledger.wf(),
            ledger@ == Map::<Seq<char>, nat>::empty(),
    {
        Ledger { balances: StringHashMap::new(), supply: 0 }
    }

    /// The sum of all balances.
    pub fn total_supply(&self) -> (supply: u128)
        requires
            self.wf(),
        ensures
            supply == total(self@),
    {
        self.supply
    }
}

/// The balance of `address`; an address without an entry holds nothing.
pub fn get_balance(ledger: &Ledger, address: &str) -> (amount: u128)
    ensures
        amount == balance(ledger@, address@),
        !ledger@.contains_key(address@) ==> amount == 0,
{
    match ledger.balances.get(address) {
        Some(held) => *held,
        None => 0,
    }
}

/// Sets the balance of `address` to `amount`, whether or not it had one. The
/// sum of all balances has to stay within the widest integer.
pub fn credit_initial(ledger: &mut Ledger, address: &str, amount: u64)
    requires
        old(ledger).wf(),
        total(old(ledger)@) - balance(old(ledger)@, address@) + amount <= u128::MAX,
    ensures
        final(ledger).wf(),
        final(ledger)@ == old(ledger)@.insert(address@, amount as nat),
{
    let before = get_balance(ledger, address);
    proof {
        lemma_total_insert(ledger@, address@, amount as nat);
        if ledger@.contains_key(address@) {
            lemma_total_remove(ledger@, address@);
        }
    }
    ledger.supply = ledger.supply - before + amount as u128;
    ledger.balances.insert(String::from_str(address), amount as u128);
    assert(ledger@ =~= old(ledger)@.insert(address@, amount as nat));
}

/// The receipt of a transfer of `amount` from `from` to `to`.
pub fn transfer_receipt(from: &str, to: &str, amount: u64) -> (receipt: String)
    ensures
        receipt@ == receipt_text(from@, to@, amount as nat),
        is_receipt(receipt@),
{
    let mut preimage: Vec<u8> = Vec::new();
    append_bytes(&mut preimage, from.as_bytes());
    append_bytes(&mut preimage, to.as_bytes());
    let digits = decimal_digits(amount);
    append_bytes(&mut preimage, digits.as_slice());
    let digest = keccak256_digest(preimage.as_slice());
    hex_encode(digest.as_slice())
}

/// Moves `amount` from `from` to `to` and returns the receipt, or refuses and
/// changes nothing: a zero amount is invalid, and a sender that holds less
/// than the amount has an insufficient balance.
pub fn transfer(ledger: &mut Ledger, from: &str, to: &str, amount: u64) -> (outcome: Result<
    String,
    LedgerError,
>)
    requires
        old(ledger).wf(),
    ensures
        final(ledger).wf(),
        outcome is Ok <==> transfer_allowed(old(ledger)@, from@, amount as nat),
        final(ledger)@ == after_attempt(old(ledger)@, from@, to@, amount as nat),
        total(final(ledger)@) == total(old(ledger)@),
        balance(final(ledger)@, from@) + balance(final(ledger)@, to@) == balance(
            old(ledger)@,
            from@,
        ) + balance(old(ledger)@, to@),
        match outcome {
            Ok(receipt) => {
                &&& final(ledger)@ == after_transfer(old(ledger)@, from@, to@, amount as nat)
                &&& receipt@ == receipt_text(from@, to@, amount as nat)
                &&& is_receipt(receipt@)
            },
            Err(error) => {
                &&& final(ledger)@ == old(ledger)@
                &&& error == refusal(amount as nat)
            },
        },
{
    if amount == 0 {
        return Err(LedgerError::InvalidAmount);
    }
    let available = get_balance(ledger, from);
    if available < amount as u128 {
        return Err(LedgerError::InsufficientBalance);
    }
    let sender = String::from_str(from);
    let receiver = String::from_str(to);
    if sender != receiver {
        let held = get_balance(ledger, to);
        proof {
            lemma_pair_within_total(ledger@, from@, to@);
            lemma_transfer_conserves(ledger@, from@, to@, amount as nat);
        }
        ledger.balances.insert(sender, available - amount as u128);
        ledger.balances.insert(receiver, held + amount as u128);
        assert(ledger@ =~= after_transfer(old(ledger)@, from@, to@, amount as nat));
    }
    Ok(transfer_receipt(from, to, amount))
}

} // verus!
