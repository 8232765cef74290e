use vstd::prelude::*;

use vstd::arithmetic::div_mod::{lemma_fundamental_div_mod, lemma_fundamental_div_mod_converse};

use crate::semantics::{col_offset, row_offset, sprite_covers, sprite_pixel, MEMORY_SIZE, VIDEO_SIZE};

verus! {

/// Covered cells whose sprite pixel comes before row `i`, column `j` in
/// drawing order.
spec fn covered_before(
    memory: Seq<u8>,
    index: int,
    vx: u8,
    vy: u8,
    rows: u8,
    c: int,
    i: int,
    j: int,
) -> bool {
    &&& sprite_covers(memory, index, vx, vy, rows, c)
    &&& (row_offset(c, vy) < i || (row_offset(c, vy) == i && col_offset(c, vx) < j))
}

/// The cell on which sprite row `i`, column `j` lands has those offsets, and is
/// the only cell that has them.
proof fn lemma_offsets(vx: u8, vy: u8, i: int, j: int, t: int, c: int)
    requires
        0 <= i < 16,
        0 <= j < 8,
        t == ((vy + i) % 32) * 64 + (vx + j) % 64,
        0 <= c < VIDEO_SIZE,
    ensures
        0 <= t < VIDEO_SIZE,
        row_offset(t, vy) == i,
        col_offset(t, vx) == j,
        row_offset(c, vy) == i && col_offset(c, vx) == j ==> c == t,
{
    let cy = (vy + i) % 32;
    let cx = (vx + j) % 64;
    lemma_fundamental_div_mod_converse(t, 64, cy, cx);
    lemma_fundamental_div_mod(c, 64);
    assert((cy + 32 - vy % 32) % 32 == i);
    assert((cx + 64 - vx % 64) % 64 == j);
    if row_offset(c, vy) == i && col_offset(c, vx) == j {
        assert(c / 64 == cy);
        assert(c % 64 == cx);
    }
}

/// Whether a cell that was lit in `v0` is covered before row `i`, column `j`.
spec fn collided_before(
    memory: Seq<u8>,
    index: int,
    vx: u8,
    vy: u8,
    rows: u8,
    v0: Seq<bool>,
    i: int,
    j: int,
) -> bool {
    exists|c: int|
        0 <= c < VIDEO_SIZE && #[trigger] covered_before(memory, index, vx, vy, rows, c, i, j)
            && v0[c]
}

/// Whether any cell is covered before row `i`, column `j`.
spec fn changed_before(memory: Seq<u8>, index: int, vx: u8, vy: u8, rows: u8, i: int, j: int) -> bool {
    exists|c: int|
        0 <= c < VIDEO_SIZE && #[trigger] covered_before(memory, index, vx, vy, rows, c, i, j)
}

/// Drawing the pixel at row `i`, column `j` adds the cell `t` to the covered
/// cells where that pixel is set, and nothing else.
proof fn lemma_pixel_step(
    memory: Seq<u8>,
    index: int,
    vx: u8,
    vy: u8,
    rows: u8,
    v0: Seq<bool>,
    i: int,
    j: int,
    t: int,
)
    requires
        0 <= i < rows < 16,
        0 <= j < 8,
        t == ((vy + i) % 32) * 64 + (vx + j) % 64,
    ensures
        0 <= t < VIDEO_SIZE,
        !covered_before(memory, index, vx, vy, rows, t, i, j),
        sprite_covers(memory, index, vx, vy, rows, t) == sprite_pixel(memory[index + i], j),
        forall|c: int|
            0 <= c < VIDEO_SIZE ==> #[trigger] covered_before(memory, index, vx, vy, rows, c, i, j + 1)
                == (covered_before(memory, index, vx, vy, rows, c, i, j) || (c == t
                && sprite_covers(memory, index, vx, vy, rows, t))),
        collided_before(memory, index, vx, vy, rows, v0, i, j + 1) == (collided_before(
            memory,
            index,
            vx,
            vy,
            rows,
            v0,
            i,
            j,
        ) || (sprite_covers(memory, index, vx, vy, rows, t) && v0[t])),
        changed_before(memory, index, vx, vy, rows, i, j + 1) == (changed_before(
            memory,
            index,
            vx,
            vy,
            rows,
            i,
            j,
        ) || sprite_covers(memory, index, vx, vy, rows, t)),
{
    lemma_offsets(vx, vy, i, j, t, 0);
    assert forall|c: int| 0 <= c < VIDEO_SIZE implies #[trigger] covered_before(
        memory,
        index,
        vx,
        vy,
        rows,
        c,
        i,
        j + 1,
    ) == (covered_before(memory, index, vx, vy, rows, c, i, j) || (c == t && sprite_covers(
        memory,
        index,
        vx,
        vy,
        rows,
        t,
    ))) by {
        lemma_offsets(vx, vy, i, j, t, c);
    }
    if sprite_covers(memory, index, vx, vy, rows, t) {
        assert(covered_before(memory, index, vx, vy, rows, t, i, j + 1));
    }
    if collided_before(memory, index, vx, vy, rows, v0, i, j) {
        let c = choose|c: int|
            0 <= c < VIDEO_SIZE && #[trigger] covered_before(memory, index, vx, vy, rows, c, i, j)
                && v0[c];
        assert(covered_before(memory, index, vx, vy, rows, c, i, j + 1));
    }
    if changed_before(memory, index, vx, vy, rows, i, j) {
        let c = choose|c: int|
            0 <= c < VIDEO_SIZE && #[trigger] covered_before(memory, index, vx, vy, rows, c, i, j);
        assert(covered_before(memory, index, vx, vy, rows, c, i, j + 1));
    }
}

/// Finishing a row: the cells covered before the end of row `i` are those
/// covered before the start of row `i + 1`.
proof fn lemma_row_step(memory: Seq<u8>, index: int, vx: u8, vy: u8, rows: u8, v0: Seq<bool>, i: int)
    ensures
        forall|c: int|
            #[trigger] covered_before(memory, index, vx, vy, rows, c, i, 8) == covered_before(
                memory,
                index,
                vx,
                vy,
                rows,
                c,
                i + 1,
                0,
            ),
        collided_before(memory, index, vx, vy, rows, v0, i, 8) == collided_before(
            memory,
            index,
            vx,
            vy,
            rows,
            v0,
            i + 1,
            0,
        ),
        changed_before(memory, index, vx, vy, rows, i, 8) == changed_before(
            memory,
            index,
            vx,
            vy,
            rows,
            i + 1,
            0,
        ),
{
    assert forall|c: int| #[trigger]
        covered_before(memory, index, vx, vy, rows, c, i, 8) == covered_before(
            memory,
            index,
            vx,
            vy,
            rows,
            c,
            i + 1,
            0,
        ) by {}
    if collided_before(memory, index, vx, vy, rows, v0, i + 1, 0) {
        let c = choose|c: int|
            0 <= c < VIDEO_SIZE && #[trigger] covered_before(memory, index, vx, vy, rows, c, i + 1, 0)
                && v0[c];
        assert(covered_before(memory, index, vx, vy, rows, c, i, 8));
    }
    if changed_before(memory, index, vx, vy, rows, i + 1, 0) {
        let c = choose|c: int|
            0 <= c < VIDEO_SIZE && #[trigger] covered_before(memory, index, vx, vy, rows, c, i + 1, 0);
        assert(covered_before(memory, index, vx, vy, rows, c, i, 8));
    }
}

/// XORs `rows` sprite rows read from `memory` at `index` into `video`, with the
/// sprite's top-left corner at (`vx`, `vy`) and each pixel wrapped around the
/// edges. Returns whether a lit cell went dark, and whether any cell changed.
pub fn draw_sprite(
    video: &mut [bool; 2048],
    memory: &[u8; 4096],
    index: usize,
    vx: u8,
    vy: u8,
    rows: u8,
) -> (r: (bool, bool))
    requires
        index + rows <= MEMORY_SIZE,
        rows < 16,
    ensures
        final(video)@ == Seq::new(
            VIDEO_SIZE as nat,
            |c: int| old(video)@[c] != sprite_covers(memory@, index as int, vx, vy, rows, c),
        ),
        r.0 == exists|c: int|
            0 <= c < VIDEO_SIZE && #[trigger] sprite_covers(memory@, index as int, vx, vy, rows, c)
                && old(video)@[c],
        r.1 == exists|c: int|
            0 <= c < VIDEO_SIZE && #[trigger] sprite_covers(memory@, index as int, vx, vy, rows, c),
{
    let ghost v0 = video@;
    let ghost m = memory@;
    let ghost base = index as int;
    let mut collision = false;
    let mut changed = false;
    let mut i: u8 = 0;
    while i < rows
        invariant
            i <= rows < 16,
            index + rows <= MEMORY_SIZE,
            m == memory@,
            base == index,
            video@.len() == VIDEO_SIZE,
            v0.len() == VIDEO_SIZE,
            forall|c: int|
                0 <= c < VIDEO_SIZE ==> video@[c] == (v0[c] != #[trigger] covered_before(
                    m,
                    base,
                    vx,
                    vy,
                    rows,
                    c,
                    i as int,
                    0,
                )),
            collision == collided_before(m, base, vx, vy, rows, v0, i as int, 0),
            changed == changed_before(m, base, vx, vy, rows, i as int, 0),
        decreases rows - i,
    {
        let row = memory[index + i as usize];
        let mut j: u8 = 0;
        while j < 8
            invariant
                i < rows < 16,
                j <= 8,
                index + rows <= MEMORY_SIZE,
                m == memory@,
                base == index,
                row == m[base + i],
                video@.len() == VIDEO_SIZE,
                v0.len() == VIDEO_SIZE,
                forall|c: int|
                    0 <= c < VIDEO_SIZE ==> video@[c] == (v0[c] != #[trigger] covered_before(
                        m,
                        base,
                        vx,
                        vy,
                        rows,
                        c,
                        i as int,
                        j as int,
                    )),
                collision == collided_before(m, base, vx, vy, rows, v0, i as int, j as int),
                changed == changed_before(m, base, vx, vy, rows, i as int, j as int),
            decreases 8 - j,
        {
            let cx = (vx as usize + j as usize) % 64;
            let cy = (vy as usize + i as usize) % 32;
            let cell = cy * 64 + cx;
            let lit = row & (0x80u8 >> j) != 0;
            proof {
                lemma_pixel_step(m, base, vx, vy, rows, v0, i as int, j as int, cell as int);
                assert(sprite_pixel(row, j as int) == lit);
            }
            if lit {
                let was_lit = video[cell];
                collision = collision || was_lit;
                video[cell] = !was_lit;
                changed = true;
            }
            j += 1;
        }
        proof {
            lemma_row_step(m, base, vx, vy, rows, v0, i as int);
            assert forall|c: int| 0 <= c < VIDEO_SIZE implies video@[c] == (v0[c]
                != #[trigger] covered_before(m, base, vx, vy, rows, c, i + 1, 0)) by {
                assert(covered_before(m, base, vx, vy, rows, c, i as int, 8) == covered_before(
                    m,
                    base,
                    vx,
                    vy,
                    rows,
                    c,
                    i + 1,
                    0,
                ));
            }
        }
        i += 1;
    }
    proof {
        assert forall|c: int| 0 <= c < VIDEO_SIZE implies video@[c] == (v0[c]
            != #[trigger] sprite_covers(m, base, vx, vy, rows, c)) by {
            assert(covered_before(m, base, vx, vy, rows, c, rows as int, 0) == sprite_covers(
                m,
                base,
                vx,
                vy,
                rows,
                c,
            ));
        }
        assert(video@ =~= Seq::new(
            VIDEO_SIZE as nat,
            |c: int| v0[c] != sprite_covers(m, base, vx, vy, rows, c),
        ));
        if collision {
            let c = choose|c: int|
                0 <= c < VIDEO_SIZE && #[trigger] covered_before(m, base, vx, vy, rows, c, rows as int, 0)
                    && v0[c];
            assert(sprite_covers(m, base, vx, vy, rows, c));
        }
        if exists|c: int| 0 <= c < VIDEO_SIZE && #[trigger] sprite_covers(m, base, vx, vy, rows, c) && v0[c] {
            let c = choose|c: int| 0 <= c < VIDEO_SIZE && #[trigger] sprite_covers(m, base, vx, vy, rows, c) && v0[c];
            assert(covered_before(m, base, vx, vy, rows, c, rows as int, 0));
        }
        if changed {
            let c = choose|c: int|
                0 <= c < VIDEO_SIZE && #[trigger] covered_before(m, base, vx, vy, rows, c, rows as int, 0);
            assert(sprite_covers(m, base, vx, vy, rows, c));
        }
        if exists|c: int| 0 <= c < VIDEO_SIZE && #[trigger] sprite_covers(m, base, vx, vy, rows, c) {
            let c = choose|c: int| 0 <= c < VIDEO_SIZE && #[trigger] sprite_covers(m, base, vx, vy, rows, c);
            assert(covered_before(m, base, vx, vy, rows, c, rows as int, 0));
        }
    }
    (collision, changed)
}

} // verus!
