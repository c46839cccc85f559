//! The frame selector and movement integrator: the ping-pong step used by the
//! walk cycles, the one-shot step used by the celebration and death
//! sequences, and the per-tick update that drives a character's sprite frame,
//! playback flag, position and life-cycle state.

use vstd::prelude::*;

use crate::animation::PingPong;
use crate::animation::indices::{AnimationIndices, range_wf};
use crate::characters::{Character, CharacterState, Direction};
use crate::moveable::{
    CHARACTER_BOTTOM_BOUND, CHARACTER_LEFT_BOUND, CHARACTER_RIGHT_BOUND, CHARACTER_TOP_BOUND,
    Position, move_coord, moved_coord_spec,
};

verus! {

/// One step of the ping-pong (looping) playback over the inclusive range
/// `[start, end]`, from current frame `frame` with playback flag `flag`.
///
/// A frame outside the range means the character just turned to face this
/// family, so the range is re-entered at its start. At the top of the range a
/// forward-playing animation bounces to `end - 1` and reports `Pong`; at the
/// bottom a backward-playing animation bounces to `start + 1`. A plain step
/// reports `Ping` even when it moved backward: only the top bounce ever
/// reports `Pong`, so the flag is observed as `Pong` for exactly one tick.
/// This asymmetry is deliberate and load-bearing for the displayed animation.
pub open spec fn ping_pong_step(start: int, end: int, frame: int, flag: PingPong) -> (int, PingPong) {
    if frame < start || end < frame {
        (start, PingPong::Ping)
    } else if flag == PingPong::Ping && frame == end {
        (end - 1, PingPong::Pong)
    } else if flag == PingPong::Pong && frame == start {
        (start + 1, PingPong::Ping)
    } else if flag == PingPong::Ping {
        (frame + 1, PingPong::Ping)
    } else {
        (frame - 1, PingPong::Ping)
    }
}

/// One step of a one-shot playback over the inclusive range `[start, end]`.
/// The sequence starts at `start` whenever the current frame lies outside the
/// range, holds its last frame forever once it is reached, and otherwise
/// advances by one.
pub open spec fn one_shot_step(start: int, end: int, frame: int) -> int {
    if frame < start || end < frame {
        start
    } else if frame == end {
        end
    } else {
        frame + 1
    }
}

/// Based on the given inclusive range of frames, the current frame index and
/// the playback flag, determine the next frame of a looping (ping-pong)
/// animation. Returns the index of the next frame and whether the animation
/// is now playing forward or backward.
pub fn determine_frame_moving(start: usize, end: usize, sprite_index: usize, ping_pong: PingPong) -> (r: (
    usize,
    PingPong,
))
    requires
        range_wf(start, end),
    ensures
        r.0 == ping_pong_step(start as int, end as int, sprite_index as int, ping_pong).0,
        r.1 == ping_pong_step(start as int, end as int, sprite_index as int, ping_pong).1,
        sprite_index < start || end < sprite_index ==> r == (start, PingPong::Ping),
{
    // Were we previously facing in this direction?
    if sprite_index < start || end < sprite_index {
        // Re-enter the range at its start, playing forward.
        return (start, PingPong::Ping);
    }

    match ping_pong {
        PingPong::Ping => {
            // Reached the last frame: bounce and reverse the animation.
            if sprite_index == end {
                return (end - 1, PingPong::Pong);
            }
        },
        PingPong::Pong => {
            // Reached the first frame: bounce and play forward again.
            if sprite_index == start {
                return (start + 1, PingPong::Ping);
            }
        },
    }

    // Plain step to the neighbouring frame.
    match ping_pong {
        PingPong::Ping => (sprite_index + 1, PingPong::Ping),
        PingPong::Pong => (sprite_index - 1, PingPong::Ping),
    }
}

/// For a one-shot animation, determine which frame in the given inclusive
/// range to display next based on the given index. The playback flag is
/// reported as `Ping` for uniformity with the looping selector.
pub fn determine_frame_oneshot(start: usize, end: usize, sprite_index: usize) -> (r: (usize, PingPong))
    ensures
        r.0 == one_shot_step(start as int, end as int, sprite_index as int),
        r.1 == PingPong::Ping,
{
    // Have we started running this one-shot sequence?
    if sprite_index < start || end < sprite_index {
        // Start the sequence.
        return (start, PingPong::Ping);
    }

    // Reached the last frame: hold it by returning it again.
    if sprite_index == end {
        return (end, PingPong::Ping);
    }

    // Move to the next frame.
    (sprite_index + 1, PingPong::Ping)
}

/// A ping-pong step over a range of at least two frames always lands inside
/// the range: the displayed frame stays within its animation family.
pub proof fn lemma_ping_pong_step_in_range(start: int, end: int, frame: int, flag: PingPong)
    requires
        start < end,
    ensures
        start <= ping_pong_step(start, end, frame, flag).0 <= end,
{
}

/// A one-shot step over an ordered range always lands inside the range.
pub proof fn lemma_one_shot_step_in_range(start: int, end: int, frame: int)
    requires
        start <= end,
    ensures
        start <= one_shot_step(start, end, frame) <= end,
{
}

/// The (frame, flag) state after `n` ping-pong steps over `[start, end]`,
/// starting from the state `(frame, flag)`.
pub open spec fn ping_pong_iter(start: int, end: int, frame: int, flag: PingPong, n: nat) -> (int, PingPong)
    decreases n,
{
    if n == 0 {
        (frame, flag)
    } else {
        let prev = ping_pong_iter(start, end, frame, flag, (n - 1) as nat);
        ping_pong_step(start, end, prev.0, prev.1)
    }
}

/// Iterating `m + n` ping-pong steps is iterating `n` steps from the state
/// reached after `m` steps.
proof fn lemma_ping_pong_iter_add(start: int, end: int, frame: int, flag: PingPong, m: nat, n: nat)
    ensures
        ping_pong_iter(start, end, frame, flag, m + n) == ping_pong_iter(
            start,
            end,
            ping_pong_iter(start, end, frame, flag, m).0,
            ping_pong_iter(start, end, frame, flag, m).1,
            n,
        ),
    decreases n,
{
    if n > 0 {
        lemma_ping_pong_iter_add(start, end, frame, flag, m, (n - 1) as nat);
    }
}

/// Law (ping-pong bounce): over a range of two or three frames — every walk
/// cycle in this game has three — stepping repeatedly from the start walks up
/// to the end, bounces back down to the start, and repeats: the frame
/// sequence is periodic with period `2 * (end - start)`, and one full cycle
/// visits `start, start + 1, ..., end, end - 1, ..., start + 1` in order.
///
/// The premise `end - start <= 2` is needed: over a wider range the descent
/// stops one frame below the end, because a plain backward step reports
/// `Ping` (only the top bounce reports `Pong`; see `ping_pong_step`), so the
/// sequence never returns to `start`.
pub proof fn lemma_ping_pong_cycle(start: int, end: int, n: nat)
    requires
        start < end,
        end - start <= 2,
    ensures
        ping_pong_iter(start, end, start, PingPong::Ping, (n + 2 * (end - start)) as nat).0 == ping_pong_iter(
            start,
            end,
            start,
            PingPong::Ping,
            n,
        ).0,
        forall|k: int|
            0 <= k <= end - start ==> #[trigger] ping_pong_iter(start, end, start, PingPong::Ping, k as nat).0
                == start + k,
        forall|k: int|
            end - start <= k <= 2 * (end - start) ==> #[trigger] ping_pong_iter(
                start,
                end,
                start,
                PingPong::Ping,
                k as nat,
            ).0 == end - (k - (end - start)),
{
    let p = PingPong::Ping;
    assert(ping_pong_iter(start, end, start, p, 0) == (start, p));
    if end - start == 1 {
        assert(ping_pong_iter(start, end, start, p, 1) == (end, p));
        assert(ping_pong_iter(start, end, start, p, 2) == (start, PingPong::Pong));
        assert(ping_pong_iter(start, end, start, p, 3) == (end, p));
        if n == 0 {
            assert(ping_pong_iter(start, end, start, p, (n + 2) as nat).0 == start);
        } else {
            lemma_ping_pong_iter_add(start, end, start, p, 3, (n - 1) as nat);
            lemma_ping_pong_iter_add(start, end, start, p, 1, (n - 1) as nat);
        }
        assert forall|k: int| 0 <= k <= end - start implies #[trigger] ping_pong_iter(
            start,
            end,
            start,
            p,
            k as nat,
        ).0 == start + k by {
            if k != 0 {
                assert(k == 1);
            }
        }
        assert forall|k: int| end - start <= k <= 2 * (end - start) implies #[trigger] ping_pong_iter(
            start,
            end,
            start,
            p,
            k as nat,
        ).0 == end - (k - (end - start)) by {
            if k != 1 {
                assert(k == 2);
            }
        }
    } else {
        assert(end - start == 2);
        assert(ping_pong_iter(start, end, start, p, 1) == (start + 1, p));
        assert(ping_pong_iter(start, end, start, p, 2) == (end, p));
        assert(ping_pong_iter(start, end, start, p, 3) == (end - 1, PingPong::Pong));
        assert(ping_pong_iter(start, end, start, p, 4) == (start, p));
        lemma_ping_pong_iter_add(start, end, start, p, 4, n);
        assert forall|k: int| 0 <= k <= end - start implies #[trigger] ping_pong_iter(
            start,
            end,
            start,
            p,
            k as nat,
        ).0 == start + k by {
            if k != 0 && k != 1 {
                assert(k == 2);
            }
        }
        assert forall|k: int| end - start <= k <= 2 * (end - start) implies #[trigger] ping_pong_iter(
            start,
            end,
            start,
            p,
            k as nat,
        ).0 == end - (k - (end - start)) by {
            if k != 2 && k != 3 {
                assert(k == 4);
            }
        }
    }
}

/// The frame shown after `n` one-shot steps over `[start, end]`, starting
/// from `frame`.
pub open spec fn one_shot_iter(start: int, end: int, frame: int, n: nat) -> int
    decreases n,
{
    if n == 0 {
        frame
    } else {
        one_shot_step(start, end, one_shot_iter(start, end, frame, (n - 1) as nat))
    }
}

/// Law (one-shot idempotence): once a one-shot sequence has reached its last
/// frame, every further step keeps returning that frame — the sequence never
/// overruns its range.
pub proof fn lemma_one_shot_holds_end(start: int, end: int, n: nat)
    requires
        start <= end,
    ensures
        one_shot_iter(start, end, end, n) == end,
    decreases n,
{
    if n > 0 {
        lemma_one_shot_holds_end(start, end, (n - 1) as nat);
    }
}

/// The (frame, flag) pair the frame selector chooses for a character when the
/// animation timer is due. The life-cycle state picks the behaviour branch:
/// alive characters animate the family of their movement direction (with the
/// idle pose, one frame past the start of the moving-back range, when
/// static); celebrating and dead characters run their one-shot sequences.
pub open spec fn selected_frame_spec(c: Character) -> (int, PingPong) {
    match c.status.state {
        CharacterState::Alive => match c.direction {
            Direction::Static => (c.indices.back_start + 1, PingPong::Ping),
            Direction::Back => ping_pong_step(
                c.indices.back_start as int,
                c.indices.back_end as int,
                c.frame as int,
                c.ping_pong,
            ),
            Direction::Forward => ping_pong_step(
                c.indices.forward_start as int,
                c.indices.forward_end as int,
                c.frame as int,
                c.ping_pong,
            ),
            Direction::Left => ping_pong_step(
                c.indices.left_start as int,
                c.indices.left_end as int,
                c.frame as int,
                c.ping_pong,
            ),
            Direction::Right => ping_pong_step(
                c.indices.right_start as int,
                c.indices.right_end as int,
                c.frame as int,
                c.ping_pong,
            ),
        },
        CharacterState::Celebrating => (
            one_shot_step(c.indices.celebrate_start as int, c.indices.celebrate_end as int, c.frame as int),
            PingPong::Ping,
        ),
        CharacterState::Dead => (
            one_shot_step(c.indices.die_start as int, c.indices.die_end as int, c.frame as int),
            PingPong::Ping,
        ),
    }
}

/// The (x, y) position of a character after the movement integrator runs for
/// `elapsed_ms` milliseconds. Only a living, moving character moves, by a
/// constant-speed delta along the axis of its direction, clamped to the arena
/// bound of that axis.
pub open spec fn moved_position_spec(c: Character, elapsed_ms: int) -> (int, int) {
    if c.status.state == CharacterState::Alive {
        match c.direction {
            Direction::Static => (c.position.x as int, c.position.y as int),
            Direction::Back => (
                c.position.x as int,
                moved_coord_spec(
                    c.position.y as int,
                    false,
                    elapsed_ms,
                    CHARACTER_BOTTOM_BOUND as int,
                    CHARACTER_TOP_BOUND as int,
                ),
            ),
            Direction::Forward => (
                c.position.x as int,
                moved_coord_spec(
                    c.position.y as int,
                    true,
                    elapsed_ms,
                    CHARACTER_BOTTOM_BOUND as int,
                    CHARACTER_TOP_BOUND as int,
                ),
            ),
            Direction::Left => (
                moved_coord_spec(
                    c.position.x as int,
                    false,
                    elapsed_ms,
                    CHARACTER_LEFT_BOUND as int,
                    CHARACTER_RIGHT_BOUND as int,
                ),
                c.position.y as int,
            ),
            Direction::Right => (
                moved_coord_spec(
                    c.position.x as int,
                    true,
                    elapsed_ms,
                    CHARACTER_LEFT_BOUND as int,
                    CHARACTER_RIGHT_BOUND as int,
                ),
                c.position.y as int,
            ),
        }
    } else {
        (c.position.x as int, c.position.y as int)
    }
}

/// The life-cycle state after the frame selector ran: a celebration whose
/// one-shot sequence just reached its last frame ends this tick (back to
/// `Alive`); every other state is left for the collision resolver to change.
pub open spec fn post_state_spec(c: Character) -> CharacterState {
    match c.status.state {
        CharacterState::Celebrating => {
            if one_shot_step(c.indices.celebrate_start as int, c.indices.celebrate_end as int, c.frame as int)
                == c.indices.celebrate_end {
                CharacterState::Alive
            } else {
                CharacterState::Celebrating
            }
        },
        s => s,
    }
}

/// Handle moving towards the camera: update the position and determine the
/// next animation frame to draw.
pub fn handle_back(sprite_index: usize, ping_pong: PingPong, indices: &AnimationIndices, position: &mut Position, elapsed_ms: u32) -> (r: (
    usize,
    PingPong,
))
    requires
        indices.wf(),
        old(position).wf(),
    ensures
        final(position).x == old(position).x,
        final(position).y == moved_coord_spec(
            old(position).y as int,
            false,
            elapsed_ms as int,
            CHARACTER_BOTTOM_BOUND as int,
            CHARACTER_TOP_BOUND as int,
        ),
        final(position).wf(),
        r.0 == ping_pong_step(indices.back_start as int, indices.back_end as int, sprite_index as int, ping_pong).0,
        r.1 == ping_pong_step(indices.back_start as int, indices.back_end as int, sprite_index as int, ping_pong).1,
{
    position.y = move_coord(position.y, false, elapsed_ms, CHARACTER_BOTTOM_BOUND, CHARACTER_TOP_BOUND);

    determine_frame_moving(indices.back_start, indices.back_end, sprite_index, ping_pong)
}

/// Handle moving away from the camera: update the position and determine the
/// next animation frame to draw.
pub fn handle_forward(sprite_index: usize, ping_pong: PingPong, indices: &AnimationIndices, position: &mut Position, elapsed_ms: u32) -> (r: (
    usize,
    PingPong,
))
    requires
        indices.wf(),
        old(position).wf(),
    ensures
        final(position).x == old(position).x,
        final(position).y == moved_coord_spec(
            old(position).y as int,
            true,
            elapsed_ms as int,
            CHARACTER_BOTTOM_BOUND as int,
            CHARACTER_TOP_BOUND as int,
        ),
        final(position).wf(),
        r.0 == ping_pong_step(
            indices.forward_start as int,
            indices.forward_end as int,
            sprite_index as int,
            ping_pong,
        ).0,
        r.1 == ping_pong_step(
            indices.forward_start as int,
            indices.forward_end as int,
            sprite_index as int,
            ping_pong,
        ).1,
{
    position.y = move_coord(position.y, true, elapsed_ms, CHARACTER_BOTTOM_BOUND, CHARACTER_TOP_BOUND);

    determine_frame_moving(indices.forward_start, indices.forward_end, sprite_index, ping_pong)
}

/// Handle moving left: update the position and determine the next animation
/// frame to draw.
pub fn handle_left(sprite_index: usize, ping_pong: PingPong, indices: &AnimationIndices, position: &mut Position, elapsed_ms: u32) -> (r: (
    usize,
    PingPong,
))
    requires
        indices.wf(),
        old(position).wf(),
    ensures
        final(position).y == old(position).y,
        final(position).x == moved_coord_spec(
            old(position).x as int,
            false,
            elapsed_ms as int,
            CHARACTER_LEFT_BOUND as int,
            CHARACTER_RIGHT_BOUND as int,
        ),
        final(position).wf(),
        r.0 == ping_pong_step(indices.left_start as int, indices.left_end as int, sprite_index as int, ping_pong).0,
        r.1 == ping_pong_step(indices.left_start as int, indices.left_end as int, sprite_index as int, ping_pong).1,
{
    position.x = move_coord(position.x, false, elapsed_ms, CHARACTER_LEFT_BOUND, CHARACTER_RIGHT_BOUND);

    determine_frame_moving(indices.left_start, indices.left_end, sprite_index, ping_pong)
}

/// Handle moving right: update the position and determine the next animation
/// frame to draw.
pub fn handle_right(sprite_index: usize, ping_pong: PingPong, indices: &AnimationIndices, position: &mut Position, elapsed_ms: u32) -> (r: (
    usize,
    PingPong,
))
    requires
        indices.wf(),
        old(position).wf(),
    ensures
        final(position).y == old(position).y,
        final(position).x == moved_coord_spec(
            old(position).x as int,
            true,
            elapsed_ms as int,
            CHARACTER_LEFT_BOUND as int,
            CHARACTER_RIGHT_BOUND as int,
        ),
        final(position).wf(),
        r.0 == ping_pong_step(indices.right_start as int, indices.right_end as int, sprite_index as int, ping_pong).0,
        r.1 == ping_pong_step(indices.right_start as int, indices.right_end as int, sprite_index as int, ping_pong).1,
{
    position.x = move_coord(position.x, true, elapsed_ms, CHARACTER_LEFT_BOUND, CHARACTER_RIGHT_BOUND);

    determine_frame_moving(indices.right_start, indices.right_end, sprite_index, ping_pong)
}

/// Handle a character that has neither completed the level (`Celebrating`)
/// nor failed it (`Dead`): integrate movement along the direction's axis and
/// pick the next frame of that direction's walk cycle. A static character
/// shows the idle pose, one frame past the start of the moving-back range,
/// with the playback flag reset to `Ping`.
pub fn handle_status_alive(c: &mut Character, elapsed_ms: u32)
    requires
        old(c).wf(),
        old(c).status.state == CharacterState::Alive,
    ensures
        final(c).wf(),
        final(c).indices == old(c).indices,
        final(c).timer == old(c).timer,
        final(c).direction == old(c).direction,
        final(c).status == old(c).status,
        final(c).inventory == old(c).inventory,
        final(c).frame == selected_frame_spec(*old(c)).0,
        final(c).ping_pong == selected_frame_spec(*old(c)).1,
        final(c).position.x == moved_position_spec(*old(c), elapsed_ms as int).0,
        final(c).position.y == moved_position_spec(*old(c), elapsed_ms as int).1,
        old(c).direction == Direction::Static ==> final(c).frame == old(c).indices.back_start + 1
            && final(c).ping_pong == PingPong::Ping && final(c).position == old(c).position,
{
    // Which direction are we moving in?
    let r: (usize, PingPong) = match c.direction {
        // Not moving: draw the sprite facing the camera.
        Direction::Static => (c.indices.back_start + 1, PingPong::Ping),
        // We are moving.
        Direction::Back => handle_back(c.frame, c.ping_pong, &c.indices, &mut c.position, elapsed_ms),
        Direction::Forward => handle_forward(c.frame, c.ping_pong, &c.indices, &mut c.position, elapsed_ms),
        Direction::Left => handle_left(c.frame, c.ping_pong, &c.indices, &mut c.position, elapsed_ms),
        Direction::Right => handle_right(c.frame, c.ping_pong, &c.indices, &mut c.position, elapsed_ms),
    };
    c.frame = r.0;
    c.ping_pong = r.1;
}

/// One simulation tick of a character's animation and movement. The timer is
/// advanced by the elapsed wall-clock time; only when it becomes due does the
/// frame selector run, dispatching on the life-cycle state: alive characters
/// move and walk-cycle, celebrating characters play their one-shot sequence
/// once (ending the celebration on its last frame), dead characters play
/// theirs and then hold the final frame forever.
pub fn animate_sprite(c: &mut Character, elapsed_ms: u32)
    requires
        old(c).wf(),
    ensures
        final(c).wf(),
        final(c).indices == old(c).indices,
        final(c).direction == old(c).direction,
        final(c).inventory == old(c).inventory,
        final(c).status.health == old(c).status.health,
        final(c).timer.period_ms == old(c).timer.period_ms,
        old(c).timer.is_due(elapsed_ms) ==> final(c).timer.remaining_ms == old(c).timer.period_ms,
        !old(c).timer.is_due(elapsed_ms) ==> final(c).timer.remaining_ms == old(c).timer.remaining_ms
            - elapsed_ms,
        !old(c).timer.is_due(elapsed_ms) ==> final(c).frame == old(c).frame
            && final(c).ping_pong == old(c).ping_pong && final(c).position == old(c).position
            && final(c).status == old(c).status,
        old(c).timer.is_due(elapsed_ms) ==> final(c).frame == selected_frame_spec(*old(c)).0
            && final(c).ping_pong == selected_frame_spec(*old(c)).1
            && final(c).position.x == moved_position_spec(*old(c), elapsed_ms as int).0
            && final(c).position.y == moved_position_spec(*old(c), elapsed_ms as int).1
            && final(c).status.state == post_state_spec(*old(c)),
{
    // Time for the next frame?
    let due = c.timer.advance(elapsed_ms);
    if !due {
        return;
    }

    match c.status.state() {
        CharacterState::Alive => handle_status_alive(c, elapsed_ms),
        CharacterState::Celebrating => {
            // Run the celebration animation once.
            let r = determine_frame_oneshot(c.indices.celebrate_start, c.indices.celebrate_end, c.frame);
            c.frame = r.0;
            c.ping_pong = r.1;

            if c.frame == c.indices.celebrate_end {
                c.status.end_celebration();
            }
        },
        CharacterState::Dead => {
            // Run the death animation once; its last frame is held forever.
            let r = determine_frame_oneshot(c.indices.die_start, c.indices.die_end, c.frame);
            c.frame = r.0;
            c.ping_pong = r.1;
        },
    }
}

/// Law (arena clamp): a living character that already stands at the top bound
/// and moves forward stays exactly where it is for any elapsed time, while
/// the frame selection still advances normally through the moving-forward
/// walk cycle.
pub proof fn lemma_arena_clamp_at_top(c: Character, elapsed_ms: int)
    requires
        c.wf(),
        0 <= elapsed_ms,
        c.status.state == CharacterState::Alive,
        c.direction == Direction::Forward,
        c.position.y == CHARACTER_TOP_BOUND,
    ensures
        moved_position_spec(c, elapsed_ms) == (c.position.x as int, c.position.y as int),
        selected_frame_spec(c) == ping_pong_step(
            c.indices.forward_start as int,
            c.indices.forward_end as int,
            c.frame as int,
            c.ping_pong,
        ),
{
    crate::moveable::lemma_move_clamped_at_bound(
        c.position.y as int,
        true,
        elapsed_ms,
        CHARACTER_BOTTOM_BOUND as int,
        CHARACTER_TOP_BOUND as int,
    );
}

} // verus!
