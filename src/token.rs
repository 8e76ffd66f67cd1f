use vstd::prelude::*;
use crate::address::Address;
use crate::records::ErrorCode;
use crate::registry::PurchaseQuote;
use spl_token::solana_program::instruction::Instruction;
use spl_token::solana_program::program_error::ProgramError;
use spl_token::solana_program::pubkey::Pubkey;

verus! {

#[verifier::external_type_specification]
#[verifier::external_body]
pub struct ExInstruction(Instruction);

#[verifier::external_type_specification]
#[verifier::external_body]
pub struct ExProgramError(ProgramError);

/// The address of the token program, `TokenkegQfeZyiNwAJbNbGKPFXCWuBvf9Ss623VQ5DA`.
pub open spec fn token_program_id() -> Seq<u8> {
    seq![
        6u8, 221, 246, 225, 215, 101, 161, 147, 217, 203, 225, 70, 206, 235, 121, 172, 28, 180,
        133, 237, 95, 91, 55, 145, 58, 140, 245, 133, 126, 255, 0, 169,
    ]
}

/// Relies on spl_token::instruction::transfer: it builds the token program's
/// Transfer instruction for `amount`, signed by `authority` alone, and fails
/// exactly when `token_program` is not the token program's address.
#[verifier::external_body]
fn transfer_instruction(
    token_program: &Address,
    source: &Address,
    destination: &Address,
    authority: &Address,
    amount: u64,
) -> (r: Result<Instruction, ProgramError>)
    ensures
        r is Ok <==> token_program.bytes@ == token_program_id(),
{
    spl_token::instruction::transfer(
        &Pubkey::new_from_array(token_program.bytes),
        &Pubkey::new_from_array(source.bytes),
        &Pubkey::new_from_array(destination.bytes),
        &Pubkey::new_from_array(authority.bytes),
        &[],
        amount,
    )
}

/// The token accounts a purchase moves funds between.
pub struct TokenAccounts {
    pub token_program: Address,
    pub buyer_token: Address,
    pub seller_token: Address,
    pub treasury_token: Address,
}

/// The token transfers that pay for a quoted purchase, signed by `buyer`: the
/// seller's share to the seller's token account and, when the fee is not
/// zero, the fee to the treasury. Fails with `TransferFailed` when the token
/// program address is not the token program's.
pub fn purchase_transfers(quote: &PurchaseQuote, accounts: &TokenAccounts, buyer: &Address) -> (r:
    Result<Vec<Instruction>, ErrorCode>)
    ensures
        r is Ok <==> accounts.token_program.bytes@ == token_program_id(),
        r is Err ==> r == Err::<Vec<Instruction>, ErrorCode>(ErrorCode::TransferFailed),
        r matches Ok(v) ==> v@.len() == if quote.fee > 0 {
            2int
        } else {
            1int
        },
{
    let mut transfers: Vec<Instruction> = Vec::new();
    match transfer_instruction(
        &accounts.token_program,
        &accounts.buyer_token,
        &accounts.seller_token,
        buyer,
        quote.seller_amount,
    ) {
        Ok(ix) => transfers.push(ix),
        Err(_) => return Err(ErrorCode::TransferFailed),
    }
    if quote.fee > 0 {
        match transfer_instruction(
            &accounts.token_program,
            &accounts.buyer_token,
            &accounts.treasury_token,
            buyer,
            quote.fee,
        ) {
            Ok(ix) => transfers.push(ix),
            Err(_) => return Err(ErrorCode::TransferFailed),
        }
    }
    Ok(transfers)
}

} // verus!
