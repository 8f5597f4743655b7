//! Decodes one instruction from its wire fields: addresses in base58, the
//! data in base64.

use vstd::prelude::*;
use crate::codec::{base64_decode, base64_decoded, DecodeError};
use crate::collect::{collected, lemma_collected_failure_stays, lemma_collected_next};
use crate::instruction::{
    account_views, AccountMeta, AccountMetaView, Instruction, InstructionView,
};
use crate::pubkey::{parsed_pubkey, ParsePubkeyError, Pubkey};

verus! {

/// An account of an instruction as the service writes it.
#[derive(Clone, Debug)]
pub struct AccountMetaFields {
    pub pubkey: String,
    pub is_signer: bool,
    pub is_writable: bool,
}

/// An instruction as the service writes it.
#[derive(Clone, Debug)]
pub struct InstructionFields {
    pub accounts: Vec<AccountMetaFields>,
    pub data: String,
    pub program_id: String,
}

/// Why an instruction could not be decoded: the field, and the cause.
#[derive(Clone, Copy, Debug, PartialEq, Eq, Structural)]
pub enum InstructionError {
    /// The program id is no address.
    ProgramId(ParsePubkeyError),
    /// The key of an account is no address.
    Pubkey(ParsePubkeyError),
    /// The data is no base64.
    Data(DecodeError),
}

impl InstructionError {
    /// The message of the error: what names the field, then the message of
    /// the cause.
    pub open spec fn text(self) -> Seq<char> {
        match self {
            InstructionError::ProgramId(e) => "Error parsing programId: "@ + e.text(),
            InstructionError::Pubkey(e) => "Error parsing pubkey: "@ + e.text(),
            InstructionError::Data(e) => "Error decoding data: "@ + e.text(),
        }
    }

    /// The message of the error.
    pub fn to_string(&self) -> (s: String)
        ensures
            s@ == self.text(),
    {
        match self {
            InstructionError::ProgramId(e) => {
                String::from_str("Error parsing programId: ").concat(e.to_string().as_str())
            },
            InstructionError::Pubkey(e) => {
                String::from_str("Error parsing pubkey: ").concat(e.to_string().as_str())
            },
            InstructionError::Data(e) => {
                String::from_str("Error decoding data: ").concat(e.to_string().as_str())
            },
        }
    }
}

/// The account that the fields stand for, or why the key is no address.
pub open spec fn account_of(fields: AccountMetaFields) -> Result<AccountMetaView, ParsePubkeyError> {
    match parsed_pubkey(fields.pubkey@) {
        Ok(key) => Ok(
            AccountMetaView {
                pubkey: key,
                is_signer: fields.is_signer,
                is_writable: fields.is_writable,
            },
        ),
        Err(e) => Err(e),
    }
}

/// What decoding each account gives.
pub open spec fn accounts_each(fields: Seq<AccountMetaFields>) -> Seq<
    Result<AccountMetaView, ParsePubkeyError>,
> {
    fields.map_values(|f: AccountMetaFields| account_of(f))
}

/// The accounts that the fields stand for, where every key is an address;
/// else the error of the first key that is none.
pub open spec fn accounts_of(fields: Seq<AccountMetaFields>) -> Result<
    Seq<AccountMetaView>,
    ParsePubkeyError,
> {
    collected(accounts_each(fields))
}

/// What decoding a whole instruction gives. The program id is looked at
/// first, then the accounts, then the data: the first that fails is reported.
pub open spec fn instruction_of(fields: InstructionFields) -> Result<
    InstructionView,
    InstructionError,
> {
    match parsed_pubkey(fields.program_id@) {
        Err(e) => Err(InstructionError::ProgramId(e)),
        Ok(program_id) => match accounts_of(fields.accounts@) {
            Err(e) => Err(InstructionError::Pubkey(e)),
            Ok(accounts) => match base64_decoded(fields.data@) {
                Err(e) => Err(InstructionError::Data(e)),
                Ok(data) => Ok(InstructionView { program_id, accounts, data }),
            },
        },
    }
}

/// Parses the key of each account, in order: all the accounts, or the error
/// of the first key that is no address.
pub fn parse_accounts(fields: &Vec<AccountMetaFields>) -> (r: Result<
    Vec<AccountMeta>,
    ParsePubkeyError,
>)
    ensures
        match accounts_of(fields@) {
            Ok(accounts) => r matches Ok(parsed) && account_views(parsed@) == accounts,
            Err(e) => r == Err::<Vec<AccountMeta>, ParsePubkeyError>(e),
        },
{
    let ghost results = accounts_each(fields@);
    let mut parsed: Vec<AccountMeta> = Vec::new();
    let mut i: usize = 0;
    assert(account_views(parsed@) =~= Seq::<AccountMetaView>::empty());
    while i < fields.len()
        invariant
            0 <= i <= fields@.len(),
            results == accounts_each(fields@),
            collected(results.take(i as int)) == Ok::<Seq<AccountMetaView>, ParsePubkeyError>(
                account_views(parsed@),
            ),
        decreases fields@.len() - i,
    {
        proof {
            lemma_collected_next(results, i as int);
        }
        let account = &fields[i];
        match Pubkey::from_str(account.pubkey.as_str()) {
            Ok(pubkey) => {
                let meta = AccountMeta {
                    pubkey,
                    is_signer: account.is_signer,
                    is_writable: account.is_writable,
                };
                assert(account_views(parsed@.push(meta)) =~= account_views(parsed@).push(meta@));
                parsed.push(meta);
            },
            Err(e) => {
                proof {
                    lemma_collected_failure_stays(results, i + 1);
                }
                return Err(e);
            },
        }
        i = i + 1;
    }
    assert(results.take(i as int) =~= results);
    Ok(parsed)
}

/// Puts an instruction together from its three decoded parts. Where more
/// than one part failed, the program id's error comes before that of the
/// accounts, and that before the data's.
pub fn from_parts(
    program_id: Result<Pubkey, ParsePubkeyError>,
    accounts: Result<Vec<AccountMeta>, ParsePubkeyError>,
    data: Result<Vec<u8>, DecodeError>,
) -> (r: Result<Instruction, InstructionError>)
    ensures
        r == match program_id {
            Err(e) => Err::<Instruction, InstructionError>(InstructionError::ProgramId(e)),
            Ok(program_id) => match accounts {
                Err(e) => Err(InstructionError::Pubkey(e)),
                Ok(accounts) => match data {
                    Err(e) => Err(InstructionError::Data(e)),
                    Ok(data) => Ok(Instruction { program_id, accounts, data }),
                },
            },
        },
{
    let program_id = match program_id {
        Ok(key) => key,
        Err(e) => {
            return Err(InstructionError::ProgramId(e));
        },
    };
    let accounts = match accounts {
        Ok(metas) => metas,
        Err(e) => {
            return Err(InstructionError::Pubkey(e));
        },
    };
    match data {
        Ok(data) => Ok(Instruction { program_id, accounts, data }),
        Err(e) => Err(InstructionError::Data(e)),
    }
}

/// Decodes an instruction from its wire fields, as `instruction_of` says.
pub fn deserialize(fields: &InstructionFields) -> (r: Result<Instruction, InstructionError>)
    ensures
        match instruction_of(*fields) {
            Ok(instruction) => r matches Ok(decoded) && decoded@ == instruction,
            Err(e) => r == Err::<Instruction, InstructionError>(e),
        },
{
    let program_id = Pubkey::from_str(fields.program_id.as_str());
    let accounts = parse_accounts(&fields.accounts);
    let data = base64_decode(fields.data.as_str());
    from_parts(program_id, accounts, data)
}

} // verus!
