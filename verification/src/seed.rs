//! Seeding the automaton from positions that a background producer sends
//! over a channel.

use crate::universe::{CellGrid, GridView, Species};
use crossbeam_channel::Receiver;
use vstd::prelude::*;

verus! {

/// A disc to paint: its centre, its radius and the species to fill it with.
#[derive(Clone, Copy, Debug, PartialEq, Eq, Structural)]
pub struct SeedPosition {
    pub x: i32,
    pub y: i32,
    pub size: i32,
    pub s: Species,
}

/// The receiving end of a channel of the crate `crossbeam_channel`.
#[verifier::external_type_specification]
#[verifier::external_body]
#[verifier::reject_recursive_types(T)]
pub struct ExReceiver<T>(crossbeam_channel::Receiver<T>);

/// The grid after the given discs were painted one after the other.
pub open spec fn painted_all(grid: GridView, positions: Seq<SeedPosition>) -> GridView
    decreases positions.len(),
{
    if positions.len() == 0 {
        grid
    } else {
        let last = positions.last();
        painted_all(grid, positions.drop_last()).painted(
            last.x as int,
            last.y as int,
            last.size as int,
            last.s,
        )
    }
}

/// Takes the messages that are ready out of the channel with
/// `crossbeam_channel::Receiver::try_iter`, which never waits for a message.
/// Which messages are ready depends on the senders, so nothing is claimed of
/// the result: callers are proved for whatever comes back.
#[verifier::external_body]
fn drain(receiver: &Receiver<SeedPosition>) -> (pending: Vec<SeedPosition>) {
    receiver.try_iter().collect()
}

/// Paints the given discs one after the other.
pub fn paint_positions(grid: &mut CellGrid, positions: &Vec<SeedPosition>)
    ensures
        final(grid)@ == painted_all(old(grid)@, positions@),
{
    let mut i: usize = 0;
    while i < positions.len()
        invariant
            i <= positions.len(),
            grid@ == painted_all(old(grid)@, positions@.take(i as int)),
        decreases positions.len() - i,
    {
        let position = positions[i];
        assert(positions@.take(i + 1).drop_last() =~= positions@.take(i as int));
        grid.paint(position.x, position.y, position.size, position.s);
        i += 1;
    }
    assert(positions@.take(i as int) =~= positions@);
}

/// Paints every disc that is waiting in the channel and returns the discs
/// painted, in the order in which they were painted. An empty channel is not
/// waited for.
pub fn apply_seed_positions(
    receiver: &Receiver<SeedPosition>,
    grid: &mut CellGrid,
) -> (applied: Vec<SeedPosition>)
    ensures
        final(grid)@ == painted_all(old(grid)@, applied@),
{
    let pending = drain(receiver);
    paint_positions(grid, &pending);
    pending
}

} // verus!
