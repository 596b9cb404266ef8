use vstd::prelude::*;
use vstd::arithmetic::power::pow;

verus! {

/// A transaction message as read back from a built transaction: recent
/// blockhash, account keys, required signatures, signatures present, and the
/// compiled instructions as (program key index, account key indices, data).
pub type MessageRecord = ([u8; 32], Vec<[u8; 32]>, u8, usize, Vec<(u8, Vec<u8>, Vec<u8>)>);

/// One compiled instruction: its program and accounts as indices into the
/// message's account keys, and its data.
pub struct InstructionView {
    pub program: nat,
    pub accounts: Seq<nat>,
    pub data: Seq<u8>,
}

/// A transaction message in mathematical form.
pub struct MessageView {
    pub blockhash: Seq<u8>,
    pub account_keys: Seq<Seq<u8>>,
    pub num_required_signatures: nat,
    pub num_signatures: nat,
    pub instructions: Seq<InstructionView>,
}

pub open spec fn message_view(m: MessageRecord) -> MessageView {
    MessageView {
        blockhash: m.0@,
        account_keys: m.1@.map_values(|k: [u8; 32]| k@),
        num_required_signatures: m.2 as nat,
        num_signatures: m.3 as nat,
        instructions: m.4@.map_values(
            |c: (u8, Vec<u8>, Vec<u8>)|
                InstructionView {
                    program: c.0 as nat,
                    accounts: c.1@.map_values(|i: u8| i as nat),
                    data: c.2@,
                },
        ),
    }
}

/// The address of the network's system program: all zero bytes.
pub open spec fn system_program_id() -> Seq<u8> {
    Seq::new(32, |i: int| 0u8)
}

/// The eight little-endian bytes of `n`.
pub open spec fn le_bytes_u64(n: u64) -> Seq<u8> {
    Seq::new(8, |i: int| ((n as int / pow(256, i as nat)) % 256) as u8)
}

/// The data of a system-program transfer of `lamports`: the instruction's
/// tag `2` as a little-endian `u32`, then the amount as a little-endian `u64`.
pub open spec fn transfer_data(lamports: u64) -> Seq<u8> {
    seq![2u8, 0u8, 0u8, 0u8] + le_bytes_u64(lamports)
}

/// Index `i` of `keys` holds `key`.
pub open spec fn names(keys: Seq<Seq<u8>>, i: nat, key: Seq<u8>) -> bool {
    i < keys.len() && keys[i as int] == key
}

/// `m` holds exactly one instruction, a system-program transfer of `lamports`
/// from `from` to `to`; `from` pays the fee and is the one required and
/// present signature; the message is bound to `blockhash`.
pub open spec fn is_signed_transfer(
    m: MessageView,
    from: Seq<u8>,
    to: Seq<u8>,
    lamports: u64,
    blockhash: Seq<u8>,
) -> bool {
    &&& m.blockhash == blockhash
    &&& names(m.account_keys, 0, from)
    &&& m.num_required_signatures == 1
    &&& m.num_signatures == 1
    &&& m.instructions.len() == 1
    &&& names(m.account_keys, m.instructions[0].program, system_program_id())
    &&& m.instructions[0].accounts.len() == 2
    &&& names(m.account_keys, m.instructions[0].accounts[0], from)
    &&& names(m.account_keys, m.instructions[0].accounts[1], to)
    &&& m.instructions[0].data == transfer_data(lamports)
}

} // verus!
