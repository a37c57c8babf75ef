//! Mining: while the mouse button is held, the block under the crosshair
//! fills up with progress; once the tool's use time has passed on the same
//! block, the block is removed and one more block is carried, up to what the
//! backpack holds.
use vstd::prelude::*;
use crate::player::{Inventory, MineProgress, PROGRESS_FULL};

verus! {

/// Game time between `start` and `now`, nothing when the clock stands
/// before `start`.
pub open spec fn elapsed(now: u64, start: u64) -> nat {
    if now >= start {
        (now - start) as nat
    } else {
        0
    }
}

/// How far along a block is, in millionths, after `elapsed` nanoseconds with
/// a tool that needs `use_time` for a whole block: the elapsed share of the
/// use time, capped at a whole block. A tool that needs no time finishes as
/// soon as any time has passed.
pub open spec fn progress_after(elapsed: nat, use_time: nat) -> nat {
    if use_time == 0 {
        if elapsed == 0 {
            0
        } else {
            PROGRESS_FULL as nat
        }
    } else if elapsed >= use_time {
        PROGRESS_FULL as nat
    } else {
        elapsed * (PROGRESS_FULL as nat) / use_time
    }
}

/// One more block in the backpack, but never more than it holds.
pub open spec fn carry_one_more(carrying: i32, capacity: i32) -> i32 {
    if carrying + 1 > capacity {
        capacity
    } else {
        (carrying + 1) as i32
    }
}

/// What aiming at `hit` (the block under a camera's crosshair, if any) at
/// time `now` makes of the progress `p` and the load `carrying`, and which
/// block it removes. Aiming at nothing forgets the progress. A block other
/// than the one in progress starts from `now`. When the use time has passed
/// the block is removed, one more block is carried and the progress is
/// forgotten; otherwise the progress is the elapsed share.
pub open spec fn aim(
    p: MineProgress,
    carrying: i32,
    capacity: i32,
    use_time: u64,
    hit: Option<u64>,
    now: u64,
) -> (MineProgress, i32, Option<u64>) {
    match hit {
        None => (MineProgress::idle(), carrying, None),
        Some(v) => {
            let start = if p.block == Some(v) {
                p.start
            } else {
                now
            };
            let fraction = progress_after(elapsed(now, start), use_time as nat);
            if fraction == PROGRESS_FULL {
                (MineProgress::idle(), carry_one_more(carrying, capacity), Some(v))
            } else {
                (MineProgress { block: Some(v), start, progress: fraction as u32 }, carrying, None)
            }
        },
    }
}

/// `aim` for each camera's hit in turn, collecting the removed blocks.
pub open spec fn aim_all(
    p: MineProgress,
    carrying: i32,
    capacity: i32,
    use_time: u64,
    hits: Seq<Option<u64>>,
    now: u64,
) -> (MineProgress, i32, Seq<u64>)
    decreases hits.len(),
{
    if hits.len() == 0 {
        (p, carrying, Seq::empty())
    } else {
        let before = aim_all(p, carrying, capacity, use_time, hits.drop_last(), now);
        let step = aim(before.0, before.1, capacity, use_time, hits.last(), now);
        (
            step.0,
            step.1,
            match step.2 {
                Some(v) => before.2.push(v),
                None => before.2,
            },
        )
    }
}

/// The progress after one frame of the mining system: with the button down,
/// `aim_all` over the hits; with it up, forgotten if the button was down in
/// the frame before, else unchanged.
pub open spec fn frame_progress(
    was_down: bool,
    button_down: bool,
    p: MineProgress,
    inv: Inventory,
    hits: Seq<Option<u64>>,
    now: u64,
) -> MineProgress {
    if button_down {
        aim_all(p, inv.carrying, inv.backpack.capacity, inv.tool.use_time, hits, now).0
    } else if was_down {
        MineProgress::idle()
    } else {
        p
    }
}

/// The load after one frame of the mining system.
pub open spec fn frame_carrying(
    button_down: bool,
    p: MineProgress,
    inv: Inventory,
    hits: Seq<Option<u64>>,
    now: u64,
) -> i32 {
    if button_down {
        aim_all(p, inv.carrying, inv.backpack.capacity, inv.tool.use_time, hits, now).1
    } else {
        inv.carrying
    }
}

/// The blocks removed in one frame of the mining system.
pub open spec fn frame_mined(
    button_down: bool,
    p: MineProgress,
    inv: Inventory,
    hits: Seq<Option<u64>>,
    now: u64,
) -> Seq<u64> {
    if button_down {
        aim_all(p, inv.carrying, inv.backpack.capacity, inv.tool.use_time, hits, now).2
    } else {
        Seq::empty()
    }
}


proof fn lemma_progress_after_bounded(e: nat, u: nat)
    ensures
        progress_after(e, u) <= PROGRESS_FULL,
        u > 0 && e < u ==> progress_after(e, u) < PROGRESS_FULL,
{
    if u > 0 && e < u {
        let f = PROGRESS_FULL as int;
        assert((e as int) * f < (u as int) * f) by (nonlinear_arith)
            requires
                e < u,
                f > 0,
        ;
        vstd::arithmetic::div_mod::lemma_multiply_divide_lt((e as int) * f, u as int, f);
        assert((e as int) * f / (u as int) >= 0) by (nonlinear_arith)
            requires
                e >= 0,
                f > 0,
                u > 0,
        ;
    }
}

/// A frame never leaves the progress above a whole block, and whenever no
/// block is being mined the progress is entirely forgotten.
pub proof fn frame_keeps_progress_well_formed(
    was_down: bool,
    button_down: bool,
    p: MineProgress,
    inv: Inventory,
    hits: Seq<Option<u64>>,
    now: u64,
)
    requires
        p.well_formed(),
        p.block is None ==> p == MineProgress::idle(),
    ensures
        frame_progress(was_down, button_down, p, inv, hits, now).well_formed(),
        frame_progress(was_down, button_down, p, inv, hits, now).block is None ==> frame_progress(
            was_down,
            button_down,
            p,
            inv,
            hits,
            now,
        ) == MineProgress::idle(),
{
    aim_all_keeps_well_formed(p, inv.carrying, inv.backpack.capacity, inv.tool.use_time, hits, now);
}

proof fn aim_all_keeps_well_formed(
    p: MineProgress,
    carrying: i32,
    capacity: i32,
    use_time: u64,
    hits: Seq<Option<u64>>,
    now: u64,
)
    requires
        p.well_formed(),
        p.block is None ==> p == MineProgress::idle(),
    ensures
        aim_all(p, carrying, capacity, use_time, hits, now).0.well_formed(),
        aim_all(p, carrying, capacity, use_time, hits, now).0.block is None ==> aim_all(
            p,
            carrying,
            capacity,
            use_time,
            hits,
            now,
        ).0 == MineProgress::idle(),
    decreases hits.len(),
{
    if hits.len() > 0 {
        aim_all_keeps_well_formed(p, carrying, capacity, use_time, hits.drop_last(), now);
        let before = aim_all(p, carrying, capacity, use_time, hits.drop_last(), now);
        if let Some(v) = hits.last() {
            let start = if before.0.block == Some(v) {
                before.0.start
            } else {
                now
            };
            lemma_progress_after_bounded(elapsed(now, start), use_time as nat);
        }
    }
}

/// Mining never fills the backpack beyond what it holds, and never takes a
/// block out of it.
pub proof fn frame_never_overfills_backpack(
    button_down: bool,
    p: MineProgress,
    inv: Inventory,
    hits: Seq<Option<u64>>,
    now: u64,
)
    requires
        inv.carrying <= inv.backpack.capacity,
    ensures
        inv.carrying <= frame_carrying(button_down, p, inv, hits, now) <= inv.backpack.capacity,
{
    aim_all_never_overfills(p, inv.carrying, inv.backpack.capacity, inv.tool.use_time, hits, now);
}

proof fn aim_all_never_overfills(
    p: MineProgress,
    carrying: i32,
    capacity: i32,
    use_time: u64,
    hits: Seq<Option<u64>>,
    now: u64,
)
    requires
        carrying <= capacity,
    ensures
        carrying <= aim_all(p, carrying, capacity, use_time, hits, now).1 <= capacity,
    decreases hits.len(),
{
    if hits.len() > 0 {
        aim_all_never_overfills(p, carrying, capacity, use_time, hits.drop_last(), now);
    }
}

/// Only blocks under a crosshair are mined, at most one per camera, and each
/// mined block adds one to the load unless the backpack is full.
pub proof fn frame_mines_only_aimed_blocks(
    button_down: bool,
    p: MineProgress,
    inv: Inventory,
    hits: Seq<Option<u64>>,
    now: u64,
)
    ensures
        frame_mined(button_down, p, inv, hits, now).len() <= hits.len(),
        forall|i: int|
            0 <= i < frame_mined(button_down, p, inv, hits, now).len() ==> hits.contains(
                Some(#[trigger] frame_mined(button_down, p, inv, hits, now)[i]),
            ),
        inv.carrying + frame_mined(button_down, p, inv, hits, now).len() <= inv.backpack.capacity
            ==> frame_carrying(button_down, p, inv, hits, now) == inv.carrying + frame_mined(
            button_down,
            p,
            inv,
            hits,
            now,
        ).len(),
{
    aim_all_mines_only_aimed(p, inv.carrying, inv.backpack.capacity, inv.tool.use_time, hits, now);
}

proof fn aim_all_mines_only_aimed(
    p: MineProgress,
    carrying: i32,
    capacity: i32,
    use_time: u64,
    hits: Seq<Option<u64>>,
    now: u64,
)
    ensures
        aim_all(p, carrying, capacity, use_time, hits, now).2.len() <= hits.len(),
        forall|i: int|
            0 <= i < aim_all(p, carrying, capacity, use_time, hits, now).2.len() ==> hits.contains(
                Some(#[trigger] aim_all(p, carrying, capacity, use_time, hits, now).2[i]),
            ),
        carrying + aim_all(p, carrying, capacity, use_time, hits, now).2.len() <= capacity
            ==> aim_all(p, carrying, capacity, use_time, hits, now).1 == carrying + aim_all(
            p,
            carrying,
            capacity,
            use_time,
            hits,
            now,
        ).2.len(),
    decreases hits.len(),
{
    if hits.len() > 0 {
        let rest = hits.drop_last();
        aim_all_mines_only_aimed(p, carrying, capacity, use_time, rest, now);
        let before = aim_all(p, carrying, capacity, use_time, rest, now);
        let after = aim_all(p, carrying, capacity, use_time, hits, now);
        assert forall|i: int| 0 <= i < after.2.len() implies hits.contains(Some(#[trigger] after.2[i])) by {
            if i < before.2.len() {
                assert(after.2[i] == before.2[i]);
                let k = choose|k: int| 0 <= k < rest.len() && rest[k] == Some(before.2[i]);
                assert(hits[k] == rest[k]);
            } else {
                assert(hits[hits.len() - 1] == hits.last());
            }
        }
    }
}

/// Holding the button on the block in progress until the tool's use time
/// has passed since it was first aimed at mines it: it is removed, one more
/// block is carried (up to what the backpack holds) and the progress is
/// forgotten.
pub proof fn holding_for_use_time_mines_block(
    was_down: bool,
    p: MineProgress,
    inv: Inventory,
    v: u64,
    now: u64,
)
    requires
        p.block == Some(v),
        inv.tool.use_time > 0,
        now >= p.start + inv.tool.use_time,
    ensures
        frame_mined(true, p, inv, seq![Some(v)], now) == seq![v],
        frame_carrying(true, p, inv, seq![Some(v)], now) == carry_one_more(
            inv.carrying,
            inv.backpack.capacity,
        ),
        frame_carrying(true, p, inv, seq![Some(v)], now) == (if inv.carrying
            < inv.backpack.capacity {
            inv.carrying + 1
        } else {
            inv.backpack.capacity as int
        }),
        frame_progress(was_down, true, p, inv, seq![Some(v)], now) == MineProgress::idle(),
{
    reveal_with_fuel(aim_all, 2);
    let hits = seq![Some(v)];
    assert(hits.drop_last() =~= Seq::<Option<u64>>::empty());
    assert(seq![v] =~= Seq::<u64>::empty().push(v));
}

/// Before the tool's use time has passed since the block in progress was
/// first aimed at, holding the button on it mines nothing, leaves the load as
/// it was and keeps the start: the progress is the time spent on the block
/// since its start, as a share of the use time in millionths.
pub proof fn holding_short_of_use_time_keeps_mining(
    was_down: bool,
    p: MineProgress,
    inv: Inventory,
    v: u64,
    now: u64,
)
    requires
        p.block == Some(v),
        inv.tool.use_time > 0,
        p.start <= now < p.start + inv.tool.use_time,
    ensures
        frame_mined(true, p, inv, seq![Some(v)], now) == Seq::<u64>::empty(),
        frame_carrying(true, p, inv, seq![Some(v)], now) == inv.carrying,
        frame_progress(was_down, true, p, inv, seq![Some(v)], now) == (MineProgress {
            block: Some(v),
            start: p.start,
            progress: ((now - p.start) * (PROGRESS_FULL as int) / (inv.tool.use_time as int)) as u32,
        }),
        ((now - p.start) * (PROGRESS_FULL as int) / (inv.tool.use_time as int)) < PROGRESS_FULL,
{
    reveal_with_fuel(aim_all, 2);
    let hits = seq![Some(v)];
    assert(hits.drop_last() =~= Seq::<Option<u64>>::empty());
    lemma_progress_after_bounded(elapsed(now, p.start), inv.tool.use_time as nat);
}

/// A block that was not in progress is never mined in the frame it is first
/// aimed at (with a tool that takes any time): its progress starts at zero
/// from that moment.
pub proof fn new_target_starts_from_zero(
    was_down: bool,
    p: MineProgress,
    inv: Inventory,
    v: u64,
    now: u64,
)
    requires
        p.block != Some(v),
        inv.tool.use_time > 0,
    ensures
        frame_mined(true, p, inv, seq![Some(v)], now) == Seq::<u64>::empty(),
        frame_carrying(true, p, inv, seq![Some(v)], now) == inv.carrying,
        frame_progress(was_down, true, p, inv, seq![Some(v)], now) == (MineProgress {
            block: Some(v),
            start: now,
            progress: 0,
        }),
{
    reveal_with_fuel(aim_all, 2);
    let hits = seq![Some(v)];
    assert(hits.drop_last() =~= Seq::<Option<u64>>::empty());
}

/// Letting go of the button forgets the progress, mines nothing and leaves
/// the load as it was; a button that stays up changes nothing.
pub proof fn releasing_button_forgets_progress(
    was_down: bool,
    p: MineProgress,
    inv: Inventory,
    hits: Seq<Option<u64>>,
    now: u64,
)
    ensures
        was_down ==> frame_progress(was_down, false, p, inv, hits, now) == MineProgress::idle(),
        !was_down ==> frame_progress(was_down, false, p, inv, hits, now) == p,
        frame_mined(false, p, inv, hits, now) == Seq::<u64>::empty(),
        frame_carrying(false, p, inv, hits, now) == inv.carrying,
{
}

/// Looking at no block while holding the button forgets the progress.
pub proof fn aiming_at_nothing_forgets_progress(
    was_down: bool,
    p: MineProgress,
    inv: Inventory,
    now: u64,
)
    ensures
        frame_progress(was_down, true, p, inv, seq![None], now) == MineProgress::idle(),
        frame_mined(true, p, inv, seq![None], now) == Seq::<u64>::empty(),
        frame_carrying(true, p, inv, seq![None], now) == inv.carrying,
{
    reveal_with_fuel(aim_all, 2);
    let hits: Seq<Option<u64>> = seq![None];
    assert(hits.drop_last() =~= Seq::<Option<u64>>::empty());
}

/// While the same block stays under the crosshair, its progress grows with
/// time and never shrinks.
pub proof fn progress_grows_with_time(start: u64, now1: u64, now2: u64, use_time: u64)
    requires
        now1 <= now2,
    ensures
        progress_after(elapsed(now1, start), use_time as nat) <= progress_after(
            elapsed(now2, start),
            use_time as nat,
        ),
        progress_after(elapsed(now2, start), use_time as nat) <= PROGRESS_FULL,
{
    let e1 = elapsed(now1, start);
    let e2 = elapsed(now2, start);
    let f = PROGRESS_FULL as int;
    lemma_progress_after_bounded(e1, use_time as nat);
    lemma_progress_after_bounded(e2, use_time as nat);
    assert(e1 <= e2);
    if use_time > 0 && e2 < use_time {
        assert((e1 as int) * f <= (e2 as int) * f) by (nonlinear_arith)
            requires
                e1 <= e2,
                f > 0,
        ;
        vstd::arithmetic::div_mod::lemma_div_is_ordered(
            (e1 as int) * f,
            (e2 as int) * f,
            use_time as int,
        );
    }
}

/// The mining system; it remembers whether the mouse button was down in the
/// frame before.
pub struct MiningSystem {
    pub was_down: bool,
}

fn progress_fraction(elapsed: u64, use_time: u64) -> (r: u32)
    ensures
        r == progress_after(elapsed as nat, use_time as nat),
{
    if use_time == 0 {
        if elapsed == 0 {
            0
        } else {
            PROGRESS_FULL
        }
    } else if elapsed >= use_time {
        PROGRESS_FULL
    } else {
        assert((elapsed as u128) * (PROGRESS_FULL as u128) <= u64::MAX * 1_000_000) by (nonlinear_arith)
            requires
                elapsed <= u64::MAX,
                PROGRESS_FULL == 1_000_000,
        ;
        let scaled: u128 = (elapsed as u128) * (PROGRESS_FULL as u128);
        let r: u128 = scaled / (use_time as u128);
        assert(r < PROGRESS_FULL) by (nonlinear_arith)
            requires
                scaled == elapsed * PROGRESS_FULL,
                r == scaled / (use_time as u128),
                elapsed < use_time,
                use_time > 0,
        {
            assert(scaled < use_time * PROGRESS_FULL);
        }
        r as u32
    }
}

fn aim_at(
    progress: &mut MineProgress,
    carrying: &mut i32,
    capacity: i32,
    use_time: u64,
    hit: Option<u64>,
    now: u64,
) -> (mined: Option<u64>)
    ensures
        (*final(progress), *final(carrying), mined) == aim(
            *old(progress),
            *old(carrying),
            capacity,
            use_time,
            hit,
            now,
        ),
{
    match hit {
        None => {
            progress.reset();
            None
        },
        Some(v) => {
            let same = match progress.block {
                Some(b) => b == v,
                None => false,
            };
            if !same {
                progress.block = Some(v);
                progress.start = now;
                progress.progress = 0;
            }
            let elapsed: u64 = if now >= progress.start {
                now - progress.start
            } else {
                0
            };
            progress.progress = progress_fraction(elapsed, use_time);
            if progress.progress == PROGRESS_FULL {
                progress.reset();
                if *carrying >= capacity {
                    *carrying = capacity;
                } else {
                    *carrying = *carrying + 1;
                }
                Some(v)
            } else {
                None
            }
        },
    }
}

impl MiningSystem {
    /// A mining system that has seen no frame yet.
    pub fn new() -> (s: MiningSystem)
        ensures
            !s.was_down,
    {
        MiningSystem { was_down: false }
    }

    /// One frame of mining. `button_down` tells whether the mouse button is
    /// held, `hits` holds for each camera the block under its crosshair (if
    /// any), `now` is the game time in nanoseconds. Returns the blocks that
    /// were mined, which the caller removes from the world.
    pub fn run(
        &mut self,
        button_down: bool,
        hits: &Vec<Option<u64>>,
        now: u64,
        inventory: &mut Inventory,
        progress: &mut MineProgress,
    ) -> (mined: Vec<u64>)
        ensures
            final(self).was_down == button_down,
            *final(progress) == frame_progress(
                old(self).was_down,
                button_down,
                *old(progress),
                *old(inventory),
                hits@,
                now,
            ),
            final(inventory).carrying == frame_carrying(
                button_down,
                *old(progress),
                *old(inventory),
                hits@,
                now,
            ),
            mined@ == frame_mined(button_down, *old(progress), *old(inventory), hits@, now),
            final(inventory).tool == old(inventory).tool,
            final(inventory).backpack == old(inventory).backpack,
            final(inventory).money == old(inventory).money,
    {
        let mut mined: Vec<u64> = Vec::new();
        if button_down {
            let capacity = inventory.backpack.capacity;
            let use_time = inventory.tool.use_time;
            let mut i: usize = 0;
            while i < hits.len()
                invariant
                    i <= hits.len(),
                    capacity == old(inventory).backpack.capacity,
                    use_time == old(inventory).tool.use_time,
                    inventory.tool == old(inventory).tool,
                    inventory.backpack == old(inventory).backpack,
                    inventory.money == old(inventory).money,
                    (*progress, inventory.carrying, mined@) == aim_all(
                        *old(progress),
                        old(inventory).carrying,
                        capacity,
                        use_time,
                        hits@.take(i as int),
                        now,
                    ),
                decreases hits.len() - i,
            {
                assert(hits@.take(i + 1).drop_last() =~= hits@.take(i as int));
                let hit = hits[i];
                let got = aim_at(progress, &mut inventory.carrying, capacity, use_time, hit, now);
                match got {
                    Some(v) => mined.push(v),
                    None => {},
                }
                i = i + 1;
            }
            assert(hits@.take(hits.len() as int) =~= hits@);
        } else if self.was_down {
            progress.reset();
        }
        self.was_down = button_down;
        mined
    }
}

} // verus!
