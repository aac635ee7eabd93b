//! The command table: a pure, total lookup from an external numeric command
//! code to the protocol's typed command enumeration. Codes outside the known
//! set resolve to `None`; the caller rejects them before any I/O happens.

use vstd::prelude::*;

use mavlink::dialects::common::MavCmd;

verus! {

#[verifier::external_type_specification]
#[verifier::external_body]
pub struct ExMavCmd(MavCmd);

/// The dialect's command table: the typed command that the protocol assigns
/// to a numeric command code, and `None` for codes outside the known set.
pub uninterp spec fn cmd_for_code(code: u16) -> Option<MavCmd>;

/// A code is known exactly when the command table has an entry for it.
pub open spec fn known_code(code: u16) -> bool {
    cmd_for_code(code) is Some
}

/// Relies on the `num_traits::FromPrimitive` implementation that the dialect
/// derives for `MavCmd`: `from_u16` returns the enum value whose numeric
/// entry equals `code`, and `None` when no entry has that value. The result
/// is a pure function of `code` alone.
#[verifier::external_body]
fn lookup_command(code: u16) -> (r: Option<MavCmd>)
    ensures
        r == cmd_for_code(code),
{
    <MavCmd as num_traits::FromPrimitive>::from_u16(code)
}

/// Resolve an external numeric command code through the command table.
pub fn get_command_from_id(command_id: u16) -> (r: Option<MavCmd>)
    ensures
        r == cmd_for_code(command_id),
        r is Some <==> known_code(command_id),
{
    lookup_command(command_id)
}

} // verus!
