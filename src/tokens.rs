use vstd::prelude::*;

use crate::state::{ContractInfo, ContractInfoModel};
use vstd::string::StringSliceAdditionalSpecFns;
use vstd::utf8::encode_utf8;

verus! {

/// An instruction for the token contract to mint `amount` to `recipient`.
/// The ledger only builds it; the host executes it.
#[derive(Clone, Debug, PartialEq)]
pub struct MintInstruction {
    /// Address of the token contract that is to execute the mint.
    pub contract_addr: String,
    /// Code hash that the host presents when calling the token contract.
    pub callback_code_hash: String,
    /// Canonical address that receives the minted tokens.
    pub recipient: Vec<u8>,
    pub amount: u128,
}

/// What a mint instruction says, as plain values.
pub struct MintModel {
    pub contract_addr: Seq<char>,
    pub callback_code_hash: Seq<char>,
    pub recipient: Seq<u8>,
    pub amount: nat,
}

impl View for MintInstruction {
    type V = MintModel;

    open spec fn view(&self) -> MintModel {
        MintModel {
            contract_addr: self.contract_addr@,
            callback_code_hash: self.callback_code_hash@,
            recipient: self.recipient@,
            amount: self.amount as nat,
        }
    }
}

/// The instruction that mints `amount` to `recipient` through `token_contract`.
pub open spec fn mint_spec(token_contract: ContractInfoModel, amount: nat, recipient: Seq<u8>) -> MintModel {
    MintModel {
        contract_addr: token_contract.address,
        callback_code_hash: token_contract.code_hash,
        recipient,
        amount,
    }
}

/// A copy of a byte vector.
pub(crate) fn copy_bytes(v: &Vec<u8>) -> (r: Vec<u8>)
    ensures
        r@ == v@,
{
    let mut r: Vec<u8> = Vec::new();
    let mut i: usize = 0;
    while i < v.len()
        invariant
            i <= v@.len(),
            r@ == v@.subrange(0, i as int),
        decreases v@.len() - i,
    {
        r.push(v[i]);
        i = i + 1;
        assert(r@ =~= v@.subrange(0, i as int));
    }
    assert(r@ =~= v@);
    r
}

/// Builds the instruction that mints `amount` to `recipient` through
/// `token_contract`.
pub fn mint(token_contract: &ContractInfo, amount: u128, recipient: &Vec<u8>) -> (r: MintInstruction)
    ensures
        r@ == mint_spec(token_contract@, amount as nat, recipient@),
{
    MintInstruction {
        contract_addr: token_contract.address.clone(),
        callback_code_hash: token_contract.code_hash.clone(),
        recipient: copy_bytes(recipient),
        amount,
    }
}


/// The decimal digits of `n` in ASCII, most significant first, with no
/// leading zero.
pub open spec fn decimal(n: nat) -> Seq<u8>
    decreases n,
{
    if n < 10 {
        seq![(48 + n) as u8]
    } else {
        decimal(n / 10).push((48 + n % 10) as u8)
    }
}

/// The body of the mint call that the token contract receives: a JSON object
/// naming the recipient's address and the amount in decimal.
pub open spec fn mint_msg_spec(account: Seq<char>, amount: nat) -> Seq<u8> {
    encode_utf8("{\"mint\": {\"address\":\""@) + encode_utf8(account) + encode_utf8(
        "\", \"amount\":\""@,
    ) + decimal(amount) + encode_utf8("\"} }"@)
}

fn push_decimal(out: &mut Vec<u8>, n: u128)
    ensures
        final(out)@ == old(out)@ + decimal(n as nat),
    decreases n,
{
    if n >= 10 {
        push_decimal(out, n / 10);
    }
    let digit: u8 = (n % 10) as u8;
    out.push(48u8 + digit);
    assert(final(out)@ =~= old(out)@ + decimal(n as nat));
}

fn push_str(out: &mut Vec<u8>, s: &str)
    ensures
        final(out)@ == old(out)@ + s.spec_bytes(),
{
    let bytes = s.as_bytes();
    let mut i: usize = 0;
    while i < bytes.len()
        invariant
            i <= bytes@.len(),
            bytes@ == s.spec_bytes(),
            out@ == old(out)@ + bytes@.subrange(0, i as int),
        decreases bytes@.len() - i,
    {
        out.push(bytes[i]);
        i = i + 1;
        assert(out@ =~= old(out)@ + bytes@.subrange(0, i as int));
    }
    assert(bytes@.subrange(0, i as int) =~= bytes@);
}

/// The body of the mint call that pays `amount` to the human-readable address
/// `account`.
pub fn mint_msg(account: &str, amount: u128) -> (r: Vec<u8>)
    ensures
        r@ == mint_msg_spec(account@, amount as nat),
{
    let mut r: Vec<u8> = Vec::new();
    push_str(&mut r, "{\"mint\": {\"address\":\"");
    push_str(&mut r, account);
    push_str(&mut r, "\", \"amount\":\"");
    push_decimal(&mut r, amount);
    push_str(&mut r, "\"} }");
    assert(r@ =~= mint_msg_spec(account@, amount as nat));
    r
}

} // verus!
