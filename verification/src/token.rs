//! Token accounts and the mint: which account receives a recipient's payment,
//! and how many decimal places the asset has.

use vstd::prelude::*;
use crate::address::{Address, MINT_ADDRESS, mint_address, lemma_address_view_injective};
use crate::error::BazaarError;
use crate::pda::{program_address, seeds_view, try_find_program_address};

verus! {

/// Bytes of the address of the associated-token-account program.
pub const ASSOCIATED_TOKEN_PROGRAM_ID: [u8; 32] = [
    140, 151, 37, 143, 78, 36, 137, 241, 187, 61, 16, 41, 20, 142, 13, 131,
    11, 90, 19, 153, 218, 255, 16, 132, 4, 142, 123, 216, 219, 233, 248, 89,
];

/// The token account that belongs to `wallet` for `mint` under
/// `token_program`: the address derived from these three, in the order wallet,
/// token program, mint, under the associated-token-account program.
pub open spec fn associated_token_address(
    wallet: Seq<u8>,
    mint: Seq<u8>,
    token_program: Seq<u8>,
) -> Option<Seq<u8>> {
    match program_address(seq![wallet, token_program, mint], ASSOCIATED_TOKEN_PROGRAM_ID@) {
        Some(found) => Some(found.0),
        None => None,
    }
}

/// Derives the token account of `wallet` for `mint` under `token_program`.
pub fn find_associated_token_address(
    wallet: &Address,
    mint: &Address,
    token_program: &Address,
) -> (derived: Option<Address>)
    ensures
        match derived {
            Some(address) => associated_token_address(wallet@, mint@, token_program@) == Some(
                address@,
            ),
            None => associated_token_address(wallet@, mint@, token_program@) is None,
        },
{
    let seeds: [&[u8]; 3] = [
        wallet.bytes.as_slice(),
        token_program.bytes.as_slice(),
        mint.bytes.as_slice(),
    ];
    let program = Address { bytes: ASSOCIATED_TOKEN_PROGRAM_ID };
    let found = try_find_program_address(seeds.as_slice(), &program);
    proof {
        assert(seeds_view(seeds@) =~= seq![wallet@, token_program@, mint@]);
    }
    match found {
        Some((address, _)) => Some(address),
        None => None,
    }
}

/// What the check of a destination account answers: the account passes when it
/// is the one derived for the recipient, and is refused otherwise, also where
/// no account can be derived at all.
pub open spec fn token_account_check(expected: Option<Seq<u8>>, ata: Seq<u8>) -> Result<
    (),
    BazaarError,
> {
    if expected == Some(ata) {
        Ok(())
    } else {
        Err(BazaarError::InvalidTokenAccount)
    }
}

/// Compares a destination account with the account that was derived for its
/// recipient.
pub fn verify_token_account(expected: Option<Address>, ata: &Address) -> (checked: Result<
    (),
    BazaarError,
>)
    ensures
        checked == token_account_check(
            match expected {
                Some(address) => Some(address@),
                None => None,
            },
            ata@,
        ),
{
    match expected {
        Some(address) => {
            if address == *ata {
                proof {
                    lemma_address_view_injective(address, *ata);
                }
                Ok(())
            } else {
                proof {
                    lemma_address_view_injective(address, *ata);
                }
                Err(BazaarError::InvalidTokenAccount)
            }
        },
        None => Err(BazaarError::InvalidTokenAccount),
    }
}

/// What [`check_ata_address`] answers for a wallet, a destination account and
/// a token program.
pub open spec fn ata_check(wallet: Seq<u8>, ata: Seq<u8>, token_program: Seq<u8>) -> Result<
    (),
    BazaarError,
> {
    token_account_check(associated_token_address(wallet, MINT_ADDRESS@, token_program), ata)
}

/// Checks that `ata` is the token account of `wallet` for the mint under
/// `token_program`, so that funds cannot be sent to an account that does not
/// belong to the stated recipient.
pub fn check_ata_address(wallet: &Address, ata: &Address, token_program: &Address) -> (checked:
    Result<(), BazaarError>)
    ensures
        checked == ata_check(wallet@, ata@, token_program@),
{
    let mint = mint_address();
    let expected = find_associated_token_address(wallet, &mint, token_program);
    verify_token_account(expected, ata)
}

/// What the settlement reads of a mint: the number of decimal places of the
/// asset.
#[derive(Clone, Copy, Debug, PartialEq, Eq, Structural)]
pub struct Mint {
    pub decimals: u8,
}

/// Length of the data of a mint account.
pub const MINT_LEN: usize = 82;

/// Whether the four bytes at `at` are the tag of an optional key: 0 or 1 as a
/// little-endian 32-bit number.
pub open spec fn optional_key_tag(data: Seq<u8>, at: int) -> bool {
    &&& data[at] == 0 || data[at] == 1
    &&& data[at + 1] == 0
    &&& data[at + 2] == 0
    &&& data[at + 3] == 0
}

/// Whether `data` has the layout of a mint account: 82 bytes, which hold an
/// optional mint authority (tag in bytes 0 to 3), the supply, the decimals in
/// byte 44, the initialized flag in byte 45 (0 or 1) and an optional freeze
/// authority (tag in bytes 46 to 49).
pub open spec fn mint_layout(data: Seq<u8>) -> bool {
    &&& data.len() == MINT_LEN
    &&& optional_key_tag(data, 0)
    &&& data[45] == 0 || data[45] == 1
    &&& optional_key_tag(data, 46)
}

/// What reading a mint account's data gives: the decimals of an initialized
/// mint, or the reason why there are none.
pub open spec fn mint_details(data: Seq<u8>) -> Result<Mint, BazaarError> {
    if !mint_layout(data) {
        Err(BazaarError::InvalidMintData)
    } else if data[45] == 0 {
        Err(BazaarError::UninitializedMint)
    } else {
        Ok(Mint { decimals: data[44] })
    }
}

/// Reads the details of the mint from the data of its account.
///
/// Calls `Mint::try_deserialize` of `anchor_spl::token`, which unpacks the data
/// with `spl_token`'s `Mint::unpack`; nothing of this function is proved.  The
/// contract claims what that function's source shows: data of another length
/// than 82, or with a tag or a flag that is neither 0 nor 1, is invalid account
/// data; a well-formed mint whose flag is 0 is uninitialized; of any other the
/// decimals are byte 44.
#[verifier::external_body]
pub fn get_mint_details(mint_data: &[u8]) -> (mint: Result<Mint, BazaarError>)
    ensures
        mint == mint_details(mint_data@),
{
    let mut buf: &[u8] = mint_data;
    let uninitialized = anchor_lang::error::Error::from(
        anchor_lang::prelude::ProgramError::UninitializedAccount,
    );
    match <anchor_spl::token::Mint as anchor_lang::AccountDeserialize>::try_deserialize(&mut buf) {
        Ok(mint) => Ok(Mint { decimals: mint.decimals }),
        Err(e) if e == uninitialized => Err(BazaarError::UninitializedMint),
        Err(_) => Err(BazaarError::InvalidMintData),
    }
}

} // verus!
