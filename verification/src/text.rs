//! The text keys under which payments and balances are stored.

use vstd::prelude::*;
use crate::address::Address;

verus! {

/// The character of a digit below sixteen, in lower case.
pub open spec fn hex_digit(d: nat) -> char {
    if d < 10 {
        (48 + d) as char
    } else {
        (87 + d) as char
    }
}

/// Lower-case hexadecimal text of a sequence of bytes, two characters a byte,
/// the high half of each byte first.
pub open spec fn hex_lower(bytes: Seq<u8>) -> Seq<char>
    decreases bytes.len(),
{
    if bytes.len() == 0 {
        Seq::empty()
    } else {
        hex_lower(bytes.drop_last()) + seq![
            hex_digit((bytes.last() / 16) as nat),
            hex_digit((bytes.last() % 16) as nat),
        ]
    }
}

/// The debugging text of an address: `Account(AccountHash(<hex>))` for an
/// account and `Contract(ContractPackageHash(<hex>))` for a contract.
pub open spec fn address_debug_text(addr: Address) -> Seq<char> {
    match addr {
        Address::Account(h) => "Account(AccountHash("@ + hex_lower(h@) + "))"@,
        Address::Contract(h) => "Contract(ContractPackageHash("@ + hex_lower(h@) + "))"@,
    }
}

/// The character of a decimal digit.
pub open spec fn decimal_digit(d: nat) -> char {
    (48 + d) as char
}

/// Decimal text of a natural number, without leading zeros.
pub open spec fn decimal_text(n: nat) -> Seq<char>
    decreases n,
{
    if n < 10 {
        seq![decimal_digit(n)]
    } else {
        decimal_text(n / 10).push(decimal_digit(n % 10))
    }
}

/// The key of a payment: the payer's debugging text, a colon, and the time in decimal.
pub open spec fn payment_key_text(payer: Address, timestamp: u64) -> Seq<char> {
    address_debug_text(payer) + ":"@ + decimal_text(timestamp as nat)
}

/// The key of a balance: the merchant's identifier, a colon, and the token's address.
pub open spec fn balance_key_text(merchant_id: Seq<char>, token_address: Seq<char>) -> Seq<char> {
    merchant_id + ":"@ + token_address
}

/// Decimal text has at least one character, and two or more from ten on.
pub proof fn lemma_decimal_text_len(n: nat)
    ensures
        decimal_text(n).len() >= 1,
        n >= 10 ==> decimal_text(n).len() >= 2,
    decreases n,
{
    if n >= 10 {
        lemma_decimal_text_len(n / 10);
    }
}

/// Two numbers with the same decimal text are the same number.
pub proof fn lemma_decimal_text_injective(n: nat, m: nat)
    requires
        decimal_text(n) == decimal_text(m),
    ensures
        n == m,
    decreases n,
{
    lemma_decimal_text_len(n);
    lemma_decimal_text_len(m);
    if n < 10 && m < 10 {
        assert(decimal_text(n)[0] == decimal_digit(n));
        assert(decimal_text(m)[0] == decimal_digit(m));
        assert((48 + n) as char == (48 + m) as char);
    } else if n >= 10 && m >= 10 {
        let dn = decimal_text(n);
        let dm = decimal_text(m);
        assert(dn.last() == decimal_digit(n % 10));
        assert(dm.last() == decimal_digit(m % 10));
        assert((48 + n % 10) as char == (48 + m % 10) as char);
        assert(dn.drop_last() =~= decimal_text(n / 10));
        assert(dm.drop_last() =~= decimal_text(m / 10));
        lemma_decimal_text_injective(n / 10, m / 10);
    }
}

/// Hexadecimal text has two characters a byte.
pub proof fn lemma_hex_lower_len(bytes: Seq<u8>)
    ensures
        hex_lower(bytes).len() == 2 * bytes.len(),
    decreases bytes.len(),
{
    if bytes.len() > 0 {
        lemma_hex_lower_len(bytes.drop_last());
    }
}

/// Distinct digits below sixteen have distinct characters.
proof fn lemma_hex_digit_injective(d1: nat, d2: nat)
    requires
        d1 < 16,
        d2 < 16,
        hex_digit(d1) == hex_digit(d2),
    ensures
        d1 == d2,
{
    if d1 < 10 && d2 < 10 {
        assert((48 + d1) as char == (48 + d2) as char);
    } else if d1 >= 10 && d2 >= 10 {
        assert((87 + d1) as char == (87 + d2) as char);
    } else if d1 < 10 {
        assert((48 + d1) as char == (87 + d2) as char);
        assert(((48 + d1) as char) as int == 48 + d1);
        assert(((87 + d2) as char) as int == 87 + d2);
    } else {
        assert((87 + d1) as char == (48 + d2) as char);
        assert(((87 + d1) as char) as int == 87 + d1);
        assert(((48 + d2) as char) as int == 48 + d2);
    }
}

/// Byte sequences of one length with the same hexadecimal text are the same.
pub proof fn lemma_hex_lower_injective(a: Seq<u8>, b: Seq<u8>)
    requires
        a.len() == b.len(),
        hex_lower(a) == hex_lower(b),
    ensures
        a == b,
    decreases a.len(),
{
    if a.len() > 0 {
        let ha = hex_lower(a);
        let hb = hex_lower(b);
        lemma_hex_lower_len(a.drop_last());
        lemma_hex_lower_len(b.drop_last());
        let n = ha.len() - 2;
        assert(ha[n] == hex_digit((a.last() / 16) as nat));
        assert(hb[n] == hex_digit((b.last() / 16) as nat));
        assert(ha[n + 1] == hex_digit((a.last() % 16) as nat));
        assert(hb[n + 1] == hex_digit((b.last() % 16) as nat));
        lemma_hex_digit_injective((a.last() / 16) as nat, (b.last() / 16) as nat);
        lemma_hex_digit_injective((a.last() % 16) as nat, (b.last() % 16) as nat);
        assert(a.last() == b.last());
        assert(ha.take(n) =~= hex_lower(a.drop_last()));
        assert(hb.take(n) =~= hex_lower(b.drop_last()));
        lemma_hex_lower_injective(a.drop_last(), b.drop_last());
        assert(a =~= a.drop_last().push(a.last()));
        assert(b =~= b.drop_last().push(b.last()));
    }
}

/// An address is known from its debugging text followed by a colon.
proof fn lemma_address_debug_prefix(p1: Address, p2: Address, rest1: Seq<char>, rest2: Seq<char>)
    requires
        address_debug_text(p1) + ":"@ + rest1 == address_debug_text(p2) + ":"@ + rest2,
    ensures
        p1 == p2,
        rest1 == rest2,
{
    broadcast use vstd::array::group_array_axioms;
    reveal_strlit("Account(AccountHash(");
    reveal_strlit("Contract(ContractPackageHash(");
    reveal_strlit("))");
    reveal_strlit(":");
    let k1 = address_debug_text(p1) + ":"@ + rest1;
    let k2 = address_debug_text(p2) + ":"@ + rest2;
    let ha = match p1 {
        Address::Account(h) => h,
        Address::Contract(h) => h,
    };
    let hb = match p2 {
        Address::Account(h) => h,
        Address::Contract(h) => h,
    };
    lemma_hex_lower_len(ha@);
    lemma_hex_lower_len(hb@);
    assert(k1[0] == k2[0]);
    let start: int = if p1 is Account { 20 } else { 29 };
    match p1 {
        Address::Account(_) => {
            assert(k1[0] == 'A');
            assert(p2 is Account);
        },
        Address::Contract(_) => {
            assert(k1[0] == 'C');
            assert(p2 is Contract);
        },
    }
    assert(k1.subrange(start, start + 64) =~= hex_lower(ha@));
    assert(k2.subrange(start, start + 64) =~= hex_lower(hb@));
    lemma_hex_lower_injective(ha@, hb@);
    assert(ha =~= hb);
    assert(k1.skip(start + 67) =~= rest1);
    assert(k2.skip(start + 67) =~= rest2);
}

/// Two payments have the same key only when they have the same payer and the
/// same time: the key of a payment is unique to its payer and time.
pub proof fn lemma_payment_key_injective(p1: Address, t1: u64, p2: Address, t2: u64)
    requires
        payment_key_text(p1, t1) == payment_key_text(p2, t2),
    ensures
        p1 == p2,
        t1 == t2,
{
    lemma_address_debug_prefix(p1, p2, decimal_text(t1 as nat), decimal_text(t2 as nat));
    lemma_decimal_text_injective(t1 as nat, t2 as nat);
}

/// Appends one character (`String::push`).
#[verifier::external_body]
fn push_char(s: &mut String, c: char)
    ensures
        final(s)@ == old(s)@.push(c),
{
    s.push(c);
}

/// Formats an address with the `Debug` implementation of `odra_core::Address`,
/// which is derived and prints the hash with `Debug` of casper-types'
/// `AccountHash` or `ContractPackageHash`, each of which writes its name and the
/// hash in lower-case base16 in brackets.
#[verifier::external_body]
fn address_debug(addr: &Address) -> (text: String)
    ensures
        text@ == address_debug_text(*addr),
{
    let outside = match addr {
        Address::Account(h) => odra_core::prelude::Address::Account(
            odra_core::casper_types::account::AccountHash::new(*h),
        ),
        Address::Contract(h) => odra_core::prelude::Address::Contract(
            odra_core::casper_types::contracts::ContractPackageHash::new(*h),
        ),
    };
    format!("{:?}", outside)
}

/// Appends the decimal text of `n`.
fn append_decimal(s: &mut String, n: u64)
    ensures
        final(s)@ == old(s)@ + decimal_text(n as nat),
    decreases n,
{
    if n >= 10 {
        append_decimal(s, n / 10);
    }
    let d: u8 = (n % 10) as u8;
    push_char(s, (48u8 + d) as char);
    assert(old(s)@ + decimal_text(n as nat) =~= old(s)@ + (if n >= 10 { decimal_text((n / 10) as nat) } else { Seq::empty() }).push(decimal_digit((n % 10) as nat)));
}

/// The key under which a payment by `payer` at `timestamp` is stored.
pub fn payment_key(payer: &Address, timestamp: u64) -> (key: String)
    ensures
        key@ == payment_key_text(*payer, timestamp),
{
    let mut key = address_debug(payer);
    key.append(":");
    append_decimal(&mut key, timestamp);
    key
}

/// The key under which a merchant's balance of a token is stored.
pub fn balance_key(merchant_id: &String, token_address: &String) -> (key: String)
    ensures
        key@ == balance_key_text(merchant_id@, token_address@),
{
    let mut key = merchant_id.clone();
    key.append(":");
    key.append(token_address.as_str());
    key
}

} // verus!
