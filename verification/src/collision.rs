//! The collision resolver: tests the player against every present in the
//! world and applies the outcome to the life-cycle state machine and the
//! inventory. Its outputs are the sole driver of health loss, present
//! collection and the win condition.

use vstd::prelude::*;

use crate::characters::inventory::Inventory;
use crate::characters::status::Status;
use crate::moveable::Position;
use crate::present::{Present, PresentType};

verus! {

/// Side length of the axis-aligned bounding box of every participant (player
/// and presents alike), in millipixels: all entities are 48 by 48 pixels.
pub const ENTITY_SIZE: i64 = 48_000;

/// Number of collected presents at which the player starts celebrating.
pub const PRESENTS_TO_WIN: u8 = 1;

/// Two axis-aligned bounding boxes of equal `ENTITY_SIZE` extent, centred on
/// `a` and `b`, overlap exactly when the centres are strictly closer than one
/// box side along both axes.
pub open spec fn overlaps_spec(a: Position, b: Position) -> bool {
    &&& -ENTITY_SIZE < a.x - b.x < ENTITY_SIZE
    &&& -ENTITY_SIZE < a.y - b.y < ENTITY_SIZE
}

/// Do the bounding boxes centred on the two positions overlap?
pub fn collide(a: &Position, b: &Position) -> (r: bool)
    requires
        a.wf(),
        b.wf(),
    ensures
        r == overlaps_spec(*a, *b),
{
    let dx = a.x - b.x;
    let dy = a.y - b.y;
    -ENTITY_SIZE < dx && dx < ENTITY_SIZE && -ENTITY_SIZE < dy && dy < ENTITY_SIZE
}

/// A present placed in the world.
#[derive(Clone, Copy, Debug, PartialEq, Eq, Structural)]
pub struct PlacedPresent {
    pub position: Position,
    pub present: Present,
}

/// The status after comparing the inventory against the win condition: the
/// moment the collected-present count reaches the win threshold the player
/// starts celebrating.
pub open spec fn win_check_spec(inv: Inventory, st: Status) -> Status {
    if inv.number_of_presents == PRESENTS_TO_WIN {
        st.spec_celebrate()
    } else {
        st
    }
}

/// Compare the number of presents in the inventory with the win condition and
/// set the player celebrating if the win condition is met.
pub fn check_and_update_win_condition(inventory: &Inventory, status: &mut Status)
    ensures
        *final(status) == win_check_spec(*inventory, *old(status)),
{
    if inventory.number_of_presents() == PRESENTS_TO_WIN {
        status.celebrate();
    }
}

/// The (status, inventory) outcome of resolving the player against one
/// present: nothing happens unless the bounding boxes overlap; a naughty
/// present removes its configured damage; a nice present is added to the
/// inventory, after which the win condition is checked.
pub open spec fn apply_present_spec(player: Position, p: PlacedPresent, st: Status, inv: Inventory) -> (
    Status,
    Inventory,
) {
    if !overlaps_spec(player, p.position) {
        (st, inv)
    } else {
        match p.present.present_type {
            PresentType::Naughty(health_to_remove) => (st.spec_remove_health(health_to_remove), inv),
            PresentType::Nice => {
                let inv2 = Inventory { number_of_presents: (inv.number_of_presents + 1) as u8 };
                (win_check_spec(inv2, st), inv2)
            },
        }
    }
}

/// The (status, inventory) outcome of resolving the player against every
/// present in order.
pub open spec fn sweep_presents_spec(
    player: Position,
    presents: Seq<PlacedPresent>,
    st: Status,
    inv: Inventory,
) -> (Status, Inventory)
    decreases presents.len(),
{
    if presents.len() == 0 {
        (st, inv)
    } else {
        let prev = sweep_presents_spec(player, presents.drop_last(), st, inv);
        apply_present_spec(player, presents.last(), prev.0, prev.1)
    }
}

/// How many presents of the sequence are nice ones that overlap the player:
/// exactly the number of presents the sweep adds to the inventory.
pub open spec fn nice_hits(player: Position, presents: Seq<PlacedPresent>) -> int
    decreases presents.len(),
{
    if presents.len() == 0 {
        0
    } else {
        nice_hits(player, presents.drop_last()) + if overlaps_spec(player, presents.last().position)
            && presents.last().present.present_type == PresentType::Nice {
            1int
        } else {
            0int
        }
    }
}

/// Resolving one more present extends the nice-hit count by one exactly when
/// that present is an overlapping nice one.
proof fn lemma_nice_hits_step(player: Position, presents: Seq<PlacedPresent>, j: int)
    requires
        0 <= j < presents.len(),
    ensures
        nice_hits(player, presents.take(j + 1)) == nice_hits(player, presents.take(j))
            + if overlaps_spec(player, presents[j].position)
                && presents[j].present.present_type == PresentType::Nice {
            1int
        } else {
            0int
        },
{
    assert(presents.take(j + 1).drop_last() =~= presents.take(j));
    assert(presents.take(j + 1).last() == presents[j]);
}

/// A prefix of the present list never scores more nice hits than the whole
/// list.
proof fn lemma_nice_hits_prefix_bound(player: Position, presents: Seq<PlacedPresent>, j: int)
    requires
        0 <= j <= presents.len(),
    ensures
        nice_hits(player, presents.take(j)) <= nice_hits(player, presents),
    decreases presents.len() - j,
{
    if j == presents.len() {
        assert(presents.take(j) =~= presents);
    } else {
        lemma_nice_hits_step(player, presents, j);
        lemma_nice_hits_prefix_bound(player, presents, j + 1);
    }
}

/// Resolving one more present folds that present's outcome over the sweep of
/// the prefix before it.
proof fn lemma_sweep_step(player: Position, presents: Seq<PlacedPresent>, j: int, st: Status, inv: Inventory)
    requires
        0 <= j < presents.len(),
    ensures
        sweep_presents_spec(player, presents.take(j + 1), st, inv) == apply_present_spec(
            player,
            presents[j],
            sweep_presents_spec(player, presents.take(j), st, inv).0,
            sweep_presents_spec(player, presents.take(j), st, inv).1,
        ),
{
    assert(presents.take(j + 1).drop_last() =~= presents.take(j));
    assert(presents.take(j + 1).last() == presents[j]);
}

/// Law: the sweep grows the inventory by exactly the number of overlapping
/// nice presents, provided that total fits the unsigned count.
pub proof fn lemma_sweep_inventory(player: Position, presents: Seq<PlacedPresent>, st: Status, inv: Inventory)
    requires
        inv.number_of_presents + nice_hits(player, presents) <= u8::MAX,
    ensures
        sweep_presents_spec(player, presents, st, inv).1.number_of_presents == inv.number_of_presents
            + nice_hits(player, presents),
    decreases presents.len(),
{
    if presents.len() > 0 {
        lemma_nice_hits_nonneg_last(player, presents);
        lemma_sweep_inventory(player, presents.drop_last(), st, inv);
    }
}

/// The contribution of the last present to the nice-hit count is zero or one.
proof fn lemma_nice_hits_nonneg_last(player: Position, presents: Seq<PlacedPresent>)
    requires
        presents.len() > 0,
    ensures
        nice_hits(player, presents.drop_last()) <= nice_hits(player, presents) <= nice_hits(
            player,
            presents.drop_last(),
        ) + 1,
{
}

/// Check the player against every present, in order. For each overlapping
/// present the outcome is applied immediately: a naughty present removes its
/// configured damage through the life-cycle state machine, a nice present is
/// added to the inventory and the win condition is checked. Returns, for each
/// present, whether it was consumed (and should be removed from the world).
pub fn hit_test_presents(
    player_position: &Position,
    status: &mut Status,
    inventory: &mut Inventory,
    presents: &Vec<PlacedPresent>,
) -> (consumed: Vec<bool>)
    requires
        player_position.wf(),
        forall|i: int| 0 <= i < presents@.len() ==> (#[trigger] presents@[i]).position.wf(),
        old(inventory).number_of_presents + nice_hits(*player_position, presents@) <= u8::MAX,
    ensures
        consumed@.len() == presents@.len(),
        forall|i: int|
            0 <= i < presents@.len() ==> #[trigger] consumed@[i] == overlaps_spec(
                *player_position,
                presents@[i].position,
            ),
        *final(status) == sweep_presents_spec(*player_position, presents@, *old(status), *old(inventory)).0,
        *final(inventory) == sweep_presents_spec(*player_position, presents@, *old(status), *old(inventory)).1,
{
    let ghost all = presents@;
    let mut consumed: Vec<bool> = Vec::new();
    let mut idx: usize = 0;

    while idx < presents.len()
        invariant
            idx <= all.len(),
            presents@ == all,
            consumed@.len() == idx,
            player_position.wf(),
            forall|i: int| 0 <= i < all.len() ==> (#[trigger] all[i]).position.wf(),
            forall|i: int|
                0 <= i < idx ==> #[trigger] consumed@[i] == overlaps_spec(*player_position, all[i].position),
            *status == sweep_presents_spec(*player_position, all.take(idx as int), *old(status), *old(inventory)).0,
            *inventory == sweep_presents_spec(
                *player_position,
                all.take(idx as int),
                *old(status),
                *old(inventory),
            ).1,
            inventory.number_of_presents == old(inventory).number_of_presents + nice_hits(
                *player_position,
                all.take(idx as int),
            ),
            old(inventory).number_of_presents + nice_hits(*player_position, all) <= u8::MAX,
        decreases all.len() - idx,
    {
        let p = &presents[idx];
        let hit = collide(player_position, &p.position);

        proof {
            lemma_sweep_step(*player_position, all, idx as int, *old(status), *old(inventory));
            lemma_nice_hits_step(*player_position, all, idx as int);
            lemma_nice_hits_prefix_bound(*player_position, all, idx as int + 1);
        }

        if hit {
            match p.present.present_type() {
                PresentType::Naughty(health_to_remove) => status.remove_health(health_to_remove),
                PresentType::Nice => {
                    // Add the present to the inventory and check for the win
                    // condition.
                    inventory.add_present();
                    check_and_update_win_condition(inventory, status);
                },
            }
        }

        consumed.push(hit);
        idx = idx + 1;
    }

    proof {
        assert(all.take(all.len() as int) =~= all);
    }

    consumed
}

} // verus!
