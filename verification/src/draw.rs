use vstd::prelude::*;
use vstd::pervasive::VecAdditionalExecFns;
use crate::machine::{
    Chip8, Chip8Error, same_mem, same_regs, same_i, same_pc, same_delay, same_sound, same_stack,
    same_sp, same_keys, unchanged_state,
};

verus! {

/// Everything but the framebuffer is left alone.
pub open spec fn only_gfx_changes(pre: Chip8, post: Chip8) -> bool {
    &&& same_mem(pre, post)
    &&& same_regs(pre, post)
    &&& same_i(pre, post)
    &&& same_pc(pre, post)
    &&& same_delay(pre, post)
    &&& same_sound(pre, post)
    &&& same_stack(pre, post)
    &&& same_sp(pre, post)
    &&& same_keys(pre, post)
}

/// Everything but the framebuffer and the register file is left alone.
pub open spec fn only_gfx_and_regs_change(pre: Chip8, post: Chip8) -> bool {
    &&& same_mem(pre, post)
    &&& same_i(pre, post)
    &&& same_pc(pre, post)
    &&& same_delay(pre, post)
    &&& same_sound(pre, post)
    &&& same_stack(pre, post)
    &&& same_sp(pre, post)
    &&& same_keys(pre, post)
}

/// 00E0: clear the screen.
pub struct Cls;

impl Cls {
    /// Every one of the 2048 framebuffer cells is 0 afterwards, whatever
    /// the framebuffer held before.
    pub open spec fn sem(self, pre: Chip8, post: Chip8) -> bool {
        &&& only_gfx_changes(pre, post)
        &&& post.gfx@.len() == 2048
        &&& forall|t: int| 0 <= t < 2048 ==> post.gfx@[t] == 0
    }

    pub fn execute(&self, c: &mut Chip8) -> (r: Result<(), Chip8Error>)
        requires
            old(c).wf(),
        ensures
            final(c).wf(),
            r == Ok::<(), Chip8Error>(()),
            self.sem(*old(c), *final(c)),
    {
        let mut t: usize = 0;
        while t < 2048
            invariant
                old(c).wf(),
                t <= 2048,
                only_gfx_changes(*old(c), *c),
                c.gfx@.len() == 2048,
                forall|j: int| 0 <= j < t ==> c.gfx@[j] == 0,
            decreases 2048 - t,
        {
            c.gfx.set(t, 0);
            t = t + 1;
        }
        Ok(())
    }
}

/// Pixel `j` of a sprite (row `j / 8`, column `j % 8`): bit `7 - j % 8` of
/// the row byte at `i + j / 8`, bit 7 being the leftmost pixel.
pub open spec fn sprite_bit(mem: Seq<u8>, i: int, j: int) -> bool {
    mem[i + j / 8] & (0x80u8 >> ((j % 8) as u8)) != 0
}

/// Wraps a coordinate that is at most one screen past the edge back onto
/// the screen: the drawing policy is wraparound modulo the display size.
pub open spec fn wrap_coord(a: int, m: int) -> int {
    if a < m {
        a
    } else {
        a - m
    }
}

/// The framebuffer cell that pixel `j` of a sprite based at `(bx, by)`
/// lands on, with wraparound at both edges.
pub open spec fn cell_index(bx: int, by: int, j: int) -> int {
    wrap_coord(by + j / 8, 32) * 64 + wrap_coord(bx + j % 8, 64)
}

/// The framebuffer and collision flag after the first `j` pixels of the
/// sprite have been composited, in drawing order: each set sprite bit
/// toggles its cell, and the flag records whether any toggled cell was
/// already lit.
pub open spec fn draw_rec(g: Seq<u8>, mem: Seq<u8>, i: int, bx: int, by: int, j: int) -> (
    Seq<u8>,
    bool,
)
    decreases j,
{
    if j <= 0 {
        (g, false)
    } else {
        let prev = draw_rec(g, mem, i, bx, by, j - 1);
        if sprite_bit(mem, i, j - 1) {
            let cell = cell_index(bx, by, j - 1);
            (prev.0.update(cell, (1 - prev.0[cell]) as u8), prev.1 || prev.0[cell] == 1)
        } else {
            prev
        }
    }
}

/// Some set sprite bit among the first `k` pixels lands on cell `t`.
pub open spec fn toggled(mem: Seq<u8>, i: int, bx: int, by: int, k: int, t: int) -> bool {
    exists|j: int| 0 <= j < k && sprite_bit(mem, i, j) && cell_index(bx, by, j) == t
}

/// Some set sprite bit among the first `k` pixels lands on a cell that is
/// lit in `g`.
pub open spec fn collided(g: Seq<u8>, mem: Seq<u8>, i: int, bx: int, by: int, k: int) -> bool {
    exists|j: int| 0 <= j < k && sprite_bit(mem, i, j) && g[cell_index(bx, by, j)] == 1
}

/// Each sprite pixel lands on a framebuffer cell.
pub proof fn lemma_cell_index_bounds(bx: int, by: int, j: int)
    requires
        0 <= bx < 64,
        0 <= by < 32,
        0 <= j < 120,
    ensures
        0 <= cell_index(bx, by, j) < 2048,
{
    assert(j == 8 * (j / 8) + j % 8);
    assert(0 <= j % 8 < 8);
    assert(0 <= j / 8 < 15);
}

/// Distinct pixels of one sprite land on distinct framebuffer cells: the
/// eight columns are distinct modulo 64 and the at most fifteen rows are
/// distinct modulo 32.
pub proof fn lemma_cell_index_injective(bx: int, by: int, j1: int, j2: int)
    requires
        0 <= bx < 64,
        0 <= by < 32,
        0 <= j1 < 120,
        0 <= j2 < 120,
        j1 != j2,
    ensures
        cell_index(bx, by, j1) != cell_index(bx, by, j2),
{
    assert(j1 == 8 * (j1 / 8) + j1 % 8);
    assert(j2 == 8 * (j2 / 8) + j2 % 8);
    assert(0 <= j1 % 8 < 8 && 0 <= j1 / 8 < 15);
    assert(0 <= j2 % 8 < 8 && 0 <= j2 / 8 < 15);
}

/// Closed form of `draw_rec`: a cell ends up toggled exactly when some set
/// sprite bit lands on it (no cell is hit twice), and the collision flag is
/// set exactly when some set sprite bit lands on a cell lit beforehand.
pub proof fn lemma_draw_rec_closed(g: Seq<u8>, mem: Seq<u8>, i: int, bx: int, by: int, k: int)
    requires
        g.len() == 2048,
        forall|t: int| 0 <= t < 2048 ==> g[t] <= 1,
        0 <= bx < 64,
        0 <= by < 32,
        0 <= k <= 120,
    ensures
        draw_rec(g, mem, i, bx, by, k).0.len() == 2048,
        forall|t: int|
            0 <= t < 2048 ==> #[trigger] draw_rec(g, mem, i, bx, by, k).0[t] == if toggled(
                mem,
                i,
                bx,
                by,
                k,
                t,
            ) {
                (1 - g[t]) as u8
            } else {
                g[t]
            },
        draw_rec(g, mem, i, bx, by, k).1 == collided(g, mem, i, bx, by, k),
    decreases k,
{
    if k <= 0 {
        assert(!collided(g, mem, i, bx, by, k));
        assert(forall|t: int| 0 <= t < 2048 ==> !toggled(mem, i, bx, by, k, t));
    } else {
        lemma_draw_rec_closed(g, mem, i, bx, by, k - 1);
        let prev = draw_rec(g, mem, i, bx, by, k - 1);
        let cur = draw_rec(g, mem, i, bx, by, k);
        if sprite_bit(mem, i, k - 1) {
            let cell = cell_index(bx, by, k - 1);
            lemma_cell_index_bounds(bx, by, k - 1);
            assert(!toggled(mem, i, bx, by, k - 1, cell)) by {
                if toggled(mem, i, bx, by, k - 1, cell) {
                    let j = choose|j: int|
                        0 <= j < k - 1 && sprite_bit(mem, i, j) && cell_index(bx, by, j) == cell;
                    lemma_cell_index_injective(bx, by, j, k - 1);
                }
            }
            assert(prev.0[cell] == g[cell]);
            assert forall|t: int| 0 <= t < 2048 implies #[trigger] cur.0[t] == if toggled(
                mem,
                i,
                bx,
                by,
                k,
                t,
            ) {
                (1 - g[t]) as u8
            } else {
                g[t]
            } by {
                if t == cell {
                    assert(toggled(mem, i, bx, by, k, t));
                } else {
                    if toggled(mem, i, bx, by, k, t) {
                        let j = choose|j: int|
                            0 <= j < k && sprite_bit(mem, i, j) && cell_index(bx, by, j) == t;
                        assert(j != k - 1);
                        assert(toggled(mem, i, bx, by, k - 1, t));
                    }
                    if toggled(mem, i, bx, by, k - 1, t) {
                        assert(toggled(mem, i, bx, by, k, t));
                    }
                }
            }
            assert(cur.1 == collided(g, mem, i, bx, by, k)) by {
                if prev.1 {
                    let j = choose|j: int|
                        0 <= j < k - 1 && sprite_bit(mem, i, j) && g[cell_index(bx, by, j)] == 1;
                    assert(collided(g, mem, i, bx, by, k));
                }
                if prev.0[cell] == 1 {
                    assert(g[cell_index(bx, by, k - 1)] == 1);
                    assert(collided(g, mem, i, bx, by, k));
                }
                if collided(g, mem, i, bx, by, k) {
                    let j = choose|j: int|
                        0 <= j < k && sprite_bit(mem, i, j) && g[cell_index(bx, by, j)] == 1;
                    if j < k - 1 {
                        assert(collided(g, mem, i, bx, by, k - 1));
                    } else {
                        assert(g[cell] == 1);
                    }
                }
            }
        } else {
            assert forall|t: int| 0 <= t < 2048 implies #[trigger] cur.0[t] == if toggled(
                mem,
                i,
                bx,
                by,
                k,
                t,
            ) {
                (1 - g[t]) as u8
            } else {
                g[t]
            } by {
                if toggled(mem, i, bx, by, k, t) {
                    let j = choose|j: int|
                        0 <= j < k && sprite_bit(mem, i, j) && cell_index(bx, by, j) == t;
                    assert(j != k - 1);
                    assert(toggled(mem, i, bx, by, k - 1, t));
                }
                if toggled(mem, i, bx, by, k - 1, t) {
                    assert(toggled(mem, i, bx, by, k, t));
                }
            }
            assert(cur.1 == collided(g, mem, i, bx, by, k)) by {
                if collided(g, mem, i, bx, by, k) {
                    let j = choose|j: int|
                        0 <= j < k && sprite_bit(mem, i, j) && g[cell_index(bx, by, j)] == 1;
                    assert(j != k - 1);
                    assert(collided(g, mem, i, bx, by, k - 1));
                }
                if collided(g, mem, i, bx, by, k - 1) {
                    assert(collided(g, mem, i, bx, by, k));
                }
            }
        }
    }
}

/// The composited framebuffer still holds only 0 and 1.
pub proof fn lemma_draw_rec_cells(g: Seq<u8>, mem: Seq<u8>, i: int, bx: int, by: int, k: int)
    requires
        g.len() == 2048,
        forall|t: int| 0 <= t < 2048 ==> g[t] <= 1,
        0 <= bx < 64,
        0 <= by < 32,
        0 <= k <= 120,
    ensures
        forall|t: int| 0 <= t < 2048 ==> #[trigger] draw_rec(g, mem, i, bx, by, k).0[t] <= 1,
{
    lemma_draw_rec_closed(g, mem, i, bx, by, k);
}

/// Law: drawing one sprite at one position twice in succession restores
/// the framebuffer cell for cell (XOR compositing is self-inverse), and
/// when the first draw reported no collision and the sprite has at least
/// one set bit, the second draw reports one (it erases exactly the pixels
/// the first draw lit).
pub proof fn lemma_draw_twice(g: Seq<u8>, mem: Seq<u8>, i: int, bx: int, by: int, k: int)
    requires
        g.len() == 2048,
        forall|t: int| 0 <= t < 2048 ==> g[t] <= 1,
        0 <= bx < 64,
        0 <= by < 32,
        0 <= k <= 120,
    ensures
        draw_rec(draw_rec(g, mem, i, bx, by, k).0, mem, i, bx, by, k).0 == g,
        !draw_rec(g, mem, i, bx, by, k).1 && (exists|j: int|
            0 <= j < k && sprite_bit(mem, i, j)) ==> draw_rec(
            draw_rec(g, mem, i, bx, by, k).0,
            mem,
            i,
            bx,
            by,
            k,
        ).1,
{
    lemma_draw_rec_closed(g, mem, i, bx, by, k);
    let g1 = draw_rec(g, mem, i, bx, by, k).0;
    lemma_draw_rec_cells(g, mem, i, bx, by, k);
    lemma_draw_rec_closed(g1, mem, i, bx, by, k);
    let g2 = draw_rec(g1, mem, i, bx, by, k).0;
    assert forall|t: int| 0 <= t < 2048 implies g2[t] == g[t] by {
        if toggled(mem, i, bx, by, k, t) {
            assert(g1[t] == (1 - g[t]) as u8);
            assert(g2[t] == (1 - g1[t]) as u8);
        }
    }
    assert(g2 =~= g);
    if !draw_rec(g, mem, i, bx, by, k).1 && (exists|j: int| 0 <= j < k && sprite_bit(mem, i, j)) {
        let j0 = choose|j: int| 0 <= j < k && sprite_bit(mem, i, j);
        let t0 = cell_index(bx, by, j0);
        lemma_cell_index_bounds(bx, by, j0);
        assert(!collided(g, mem, i, bx, by, k));
        assert(g[t0] != 1);
        assert(toggled(mem, i, bx, by, k, t0));
        assert(g1[t0] == 1);
        assert(collided(g1, mem, i, bx, by, k));
    }
}

/// Dxyn: composite an 8-wide, n-tall sprite read from memory at the index
/// register onto the framebuffer at the coordinates in registers x and y,
/// by XOR.  Coordinates wrap modulo the display size, both for the base
/// and for pixels running past an edge.  The flag register is cleared
/// first and set to 1 exactly when a toggled cell was already lit.
pub struct DrwVxVyNibble {
    pub x: u8,
    pub y: u8,
    pub n: u8,
}

impl DrwVxVyNibble {
    pub open spec fn wf(self) -> bool {
        self.x < 16 && self.y < 16 && self.n < 16
    }

    pub open spec fn sem(self, pre: Chip8, post: Chip8) -> bool {
        let bx = pre.v@[self.x as int] as int % 64;
        let by = pre.v@[self.y as int] as int % 32;
        let res = draw_rec(pre.gfx@, pre.memory@, pre.i as int, bx, by, 8 * self.n as int);
        &&& only_gfx_and_regs_change(pre, post)
        &&& post.gfx@ == res.0
        &&& post.v@ == pre.v@.update(
            15,
            if res.1 {
                1u8
            } else {
                0u8
            },
        )
    }

    /// The n sprite rows must lie inside memory; otherwise the out-of-range
    /// failure is reported and the state is left untouched.
    pub open spec fn outcome(self, pre: Chip8, post: Chip8, r: Result<(), Chip8Error>) -> bool {
        if self.n == 0 || pre.i + self.n <= 4096 {
            &&& r == Ok::<(), Chip8Error>(())
            &&& self.sem(pre, post)
        } else {
            &&& r == Err::<(), Chip8Error>(Chip8Error::MemoryOutOfRange { address: pre.i })
            &&& unchanged_state(pre, post)
        }
    }

    pub fn execute(&self, c: &mut Chip8) -> (r: Result<(), Chip8Error>)
        requires
            old(c).wf(),
            self.wf(),
        ensures
            final(c).wf(),
            self.outcome(*old(c), *final(c), r),
    {
        let n = self.n as usize;
        if n > 0 && c.i as usize + n > 4096 {
            return Err(Chip8Error::MemoryOutOfRange { address: c.i });
        }
        let bx = c.v[self.x as usize] as usize % 64;
        let by = c.v[self.y as usize] as usize % 32;
        c.v.set(15, 0);
        let ghost pre = *old(c);
        let mut j: usize = 0;
        while j < 8 * n
            invariant
                pre == *old(c),
                pre.wf(),
                self.wf(),
                n == self.n,
                j <= 8 * n,
                n > 0 ==> pre.i + n <= 4096,
                bx == pre.v@[self.x as int] as int % 64,
                by == pre.v@[self.y as int] as int % 32,
                bx < 64,
                by < 32,
                only_gfx_and_regs_change(pre, *c),
                c.gfx@.len() == 2048,
                forall|t: int| 0 <= t < 2048 ==> c.gfx@[t] <= 1,
                ({
                    let res = draw_rec(pre.gfx@, pre.memory@, pre.i as int, bx as int, by as int, j as int);
                    c.gfx@ == res.0 && c.v@ == pre.v@.update(
                        15,
                        if res.1 {
                            1u8
                        } else {
                            0u8
                        },
                    )
                }),
            decreases 8 * n - j,
        {
            let ghost res_pre = draw_rec(pre.gfx@, pre.memory@, pre.i as int, bx as int, by as int, j as int);
            let row = j / 8;
            let col = j % 8;
            let byte = c.memory[c.i as usize + row];
            if byte & (0x80u8 >> col as u8) != 0 {
                let py = if by + row >= 32 {
                    by + row - 32
                } else {
                    by + row
                };
                let px = if bx + col >= 64 {
                    bx + col - 64
                } else {
                    bx + col
                };
                let idx = py * 64 + px;
                proof {
                    assert(idx == cell_index(bx as int, by as int, j as int));
                    assert(0 <= idx < 2048);
                }
                let cur = c.gfx[idx];
                if cur == 1 {
                    c.v.set(15, 1);
                }
                c.gfx.set(idx, cur ^ 1);
                proof {
                    assert(cur <= 1 ==> (cur ^ 1) == 1 - cur) by (bit_vector);
                    let res_post = draw_rec(
                        pre.gfx@,
                        pre.memory@,
                        pre.i as int,
                        bx as int,
                        by as int,
                        j + 1,
                    );
                    assert(res_post.0 == res_pre.0.update(idx as int, (1 - res_pre.0[idx as int]) as u8));
                    if cur == 1 {
                        assert(c.v@ =~= pre.v@.update(15, 1u8));
                    }
                }
            } else {
                proof {
                    assert(draw_rec(
                        pre.gfx@,
                        pre.memory@,
                        pre.i as int,
                        bx as int,
                        by as int,
                        j + 1,
                    ) == res_pre);
                }
            }
            j = j + 1;
        }
        Ok(())
    }
}

} // verus!
