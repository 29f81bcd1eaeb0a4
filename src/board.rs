//! A game board record: a derivation nonce and 1024 bytes of state.

use crate::account::{is_allocate, is_write, Action, AccountView, Context};
use crate::address::with_bump;
use crate::bytes::{le_bytes, push_u64, push_zeros, zeros};
use crate::error::LoadError;
use crate::loaders::{fresh_check, load_signer, load_uninitialized_pda, same_outcome, signer_check};
use vstd::prelude::*;

verus! {

/// Stored length of a board record.
pub const BOARD_LEN: usize = 1040;

/// The tag byte that leads a stored board.
pub const BOARD_TAG: u8 = 102;

/// A game board.
#[derive(Clone, Copy, Debug)]
pub struct Board {
    /// The nonce of the board's derivation path.
    pub bump: u64,
    /// The board's state.
    pub state: [u8; 1024],
}

/// The label of board paths: `board`.
pub open spec fn board_label() -> Seq<u8> {
    seq![98u8, 111, 97, 114, 100]
}

impl Board {
    /// The stored bytes of this record.
    pub open spec fn encoding(self) -> Seq<u8> {
        seq![BOARD_TAG] + zeros(7) + le_bytes(self.bump) + self.state@
    }

    /// A new board with nonce `bump` and all-zero state.
    pub fn new(bump: u8) -> (r: Board)
        ensures
            r.bump == bump as u64,
            r.state@ == zeros(1024),
    {
        let b = Board { bump: bump as u64, state: [0u8; 1024] };
        assert(b.state@ =~= zeros(1024));
        b
    }

    /// The stored bytes of this record.
    pub fn to_bytes(&self) -> (r: Vec<u8>)
        ensures
            r@ == self.encoding(),
    {
        let mut out: Vec<u8> = Vec::new();
        out.push(BOARD_TAG);
        push_zeros(&mut out, 7);
        push_u64(&mut out, self.bump);
        let ghost head = out@;
        let mut i: usize = 0;
        while i < 1024
            invariant
                i <= 1024,
                self.state@.len() == 1024,
                out@ == head + self.state@.subrange(0, i as int),
            decreases 1024 - i,
        {
            out.push(self.state[i]);
            i = i + 1;
            assert(out@ =~= head + self.state@.subrange(0, i as int));
        }
        assert(self.state@.subrange(0, 1024) =~= self.state@);
        assert(out@ =~= self.encoding());
        out
    }
}

fn board_path_seeds(authority: &[u8; 32]) -> (r: Vec<Vec<u8>>)
    ensures
        crate::address::seeds_view(r@) == seq![board_label(), authority@],
{
    let mut label: Vec<u8> = Vec::new();
    label.push(98u8);
    label.push(111u8);
    label.push(97u8);
    label.push(114u8);
    label.push(100u8);
    assert(label@ =~= board_label());
    let mut key: Vec<u8> = Vec::new();
    crate::bytes::push_key(&mut key, authority);
    assert(key@ =~= authority@);
    let mut v: Vec<Vec<u8>> = Vec::new();
    v.push(label);
    v.push(key);
    assert(crate::address::seeds_view(v@) =~= seq![board_label(), authority@]);
    v
}

/// The checks of starting a game, in order. Accounts: the player (signer and
/// payer), the board to create.
pub open spec fn new_game_check(ctx: Context, accounts: Seq<AccountView>, data: Seq<u8>) -> Result<(), LoadError> {
    if data.len() != 1 || accounts.len() < 2 {
        Err(LoadError::ShapeMismatch)
    } else if signer_check(accounts[0]) is Err {
        signer_check(accounts[0])
    } else {
        fresh_check(accounts[1], seq![board_label(), accounts[0].key@], data[0], ctx.program_id@)
    }
}

/// Starts a game: allocates the player's board at its derived address and
/// writes an all-zero state. A malformed payload or missing account is a
/// shape failure.
pub fn process_new_game(ctx: &Context, accounts: &[AccountView], data: &[u8]) -> (r: Result<Vec<Action>, LoadError>)
    ensures
        same_outcome(r, new_game_check(*ctx, accounts@, data@)),
        r matches Ok(plan) ==> {
            let seeds = with_bump(seq![board_label(), accounts@[0].key@], data@[0]);
            &&& plan@.len() == 2
            &&& is_allocate(plan@[0], 1, ctx.program_id@, BOARD_LEN, seeds)
            &&& is_write(plan@[1], 1, seq![BOARD_TAG] + zeros(7) + le_bytes(data@[0] as u64) + zeros(1024))
        },
{
    if data.len() != 1 || accounts.len() < 2 {
        return Err(LoadError::ShapeMismatch);
    }
    let bump = data[0];
    let signer = &accounts[0];
    load_signer(signer)?;
    load_uninitialized_pda(&accounts[1], board_path_seeds(&signer.key), bump, &ctx.program_id)?;
    let board = Board::new(bump);
    let bytes = board.to_bytes();
    let mut plan: Vec<Action> = Vec::new();
    plan.push(
        Action::Allocate {
            account: 1,
            owner: ctx.program_id,
            space: BOARD_LEN,
            seeds: crate::seeds::signer_seeds(board_path_seeds(&signer.key), bump),
        },
    );
    plan.push(Action::Write { account: 1, data: bytes });
    Ok(plan)
}

} // verus!
