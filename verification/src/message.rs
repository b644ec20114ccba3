//! A message board: a user account counts the messages its owner posts;
//! each message lives in an account of its own that only its author may
//! rewrite.
use vstd::prelude::*;
use vstd::string::StringSliceAdditionalSpecFns;

use crate::address::Address;

verus! {

/// A user account: its owner and how many messages it has posted.
pub struct UserAccount {
    pub authority: Address,
    pub total_messages: u32,
}

/// A message and its author.
pub struct Message {
    pub authority: Address,
    pub message: String,
}

/// The program's errors.
#[derive(Clone, Copy, Debug, PartialEq, Eq, Structural)]
pub enum Errors {
    OnlyAuthorised,
}

/// The bytes a message account takes: discriminator, author, the string's
/// length prefix and its UTF-8 bytes.
pub fn get_message_size(message: &str) -> (r: usize)
    requires
        8 + 32 + 4 + message.spec_bytes().len() <= usize::MAX,
    ensures
        r == 8 + 32 + 4 + message.spec_bytes().len(),
{
    8 + 32 + 4 + message.len()
}

/// Makes `signer` the owner of a fresh user account with no messages.
pub fn create_account(user_account: &mut UserAccount, signer: Address)
    ensures
        final(user_account).authority == signer,
        final(user_account).total_messages == 0,
{
    user_account.authority = signer;
    user_account.total_messages = 0;
}

/// Posts a message: only the owner of the user account may, and the
/// account's count goes up by one.
pub fn create_message(
    user_account: &mut UserAccount,
    message_account: &mut Message,
    signer: Address,
    message: String,
) -> (r: Result<(), Errors>)
    requires
        old(user_account).authority == signer ==> old(user_account).total_messages < u32::MAX,
    ensures
        r is Ok <==> old(user_account).authority == signer,
        r is Err ==> r == Err::<(), Errors>(Errors::OnlyAuthorised) && *final(user_account)
            == *old(user_account) && *final(message_account) == *old(message_account),
        r is Ok ==> {
            &&& final(user_account).authority == old(user_account).authority
            &&& final(user_account).total_messages == old(user_account).total_messages + 1
            &&& final(message_account).authority == signer
            &&& final(message_account).message@ == message@
        },
{
    if !user_account.authority.equals(&signer) {
        return Err(Errors::OnlyAuthorised);
    }
    user_account.total_messages = user_account.total_messages + 1;
    message_account.authority = signer;
    message_account.message = message;
    Ok(())
}

/// Lets the author rewrite a message; answers the message it replaced.
pub fn change_message(message_account: &mut Message, authority: Address, new_message: String) -> (r:
    Result<String, Errors>)
    ensures
        r is Ok <==> old(message_account).authority == authority,
        r is Err ==> r == Err::<String, Errors>(Errors::OnlyAuthorised) && *final(message_account)
            == *old(message_account),
        r matches Ok(previous) ==> {
            &&& previous@ == old(message_account).message@
            &&& final(message_account).message@ == new_message@
            &&& final(message_account).authority == old(message_account).authority
        },
{
    if !message_account.authority.equals(&authority) {
        return Err(Errors::OnlyAuthorised);
    }
    let old_message = message_account.message.clone();
    message_account.message = new_message;
    Ok(old_message)
}

} // verus!
