use vstd::prelude::*;

verus! {

/// The error type of the program framework's handlers, carried through opaque.
#[verifier::external_type_specification]
#[verifier::external_body]
pub struct ExAnchorError(anchor_lang::error::Error);

/// The accounts of the `initialize` instruction: it takes none.
#[derive(Clone, Copy, Debug, PartialEq, Eq)]
pub struct Initialize {}

/// The handler of the stub program's one instruction. It checks nothing and
/// always succeeds.
pub fn initialize(_accounts: &Initialize) -> (r: Result<(), anchor_lang::error::Error>)
    ensures
        r is Ok,
{
    Ok(())
}

} // verus!
