//! Sprites on the way to the screen.
//!
//! A sprite is up to 15 rows of 8 pixels.  Drawing it takes two steps, as on
//! the VIP.  The first shifts every row to its bit position within the
//! display's bytes, which gives two bytes per row, and keeps them in a work
//! area:
//!
//! ```text
//!  bit offset
//! -->|                       (work area)
//!    .xxxxx...  |            ....xxxx x.......
//!    x.....x..  |            ...x.... .x......
//!    x.x.x.x..  | rows  ==>  ...x.x.x .x......
//!    x.....x..  v            ...x.... .x......
//!    .x.x.x...  -            ....x.x. x.......
//! ```
//!
//! The second step, after the display interrupt, XORs the work area into the
//! display buffer, whose rows are 8 bytes apart.
use vstd::prelude::*;

verus! {

/// The bytes that the rows of `sprite` make when they are shifted `offset`
/// bits to the right: for each row the byte that holds its left part, then
/// the byte that holds what was carried over.
pub open spec fn shifted_rows(sprite: Seq<u8>, offset: u8) -> Seq<u8> {
    Seq::new(
        2 * sprite.len(),
        |k: int|
            if k % 2 == 0 {
                sprite[k / 2] >> offset
            } else if offset == 0 {
                0u8
            } else {
                sprite[k / 2] << ((8 - offset) as u8)
            },
    )
}

/// The place in the display buffer of byte `idx` of the work area, for a
/// sprite whose first byte goes to `origin`.
pub open spec fn target(origin: int, idx: int) -> int {
    origin + (idx / 2) * 8 + idx % 2
}

/// Whether byte `idx` of the work area is drawn at all.  A byte past the end
/// of a display buffer of `size` bytes is not: it fell off the bottom.
/// Neither is a right-hand byte whose place is the first byte of a row: its
/// left-hand byte was the last of the row above, so it fell off the right
/// edge.  A row of 64 pixels is 8 bytes.
pub open spec fn visible(origin: int, idx: int, size: int) -> bool {
    target(origin, idx) < size && !(idx % 2 == 1 && target(origin, idx) % 8 == 0)
}

/// The byte of the work area that goes to place `a` of the display buffer,
/// where one does.
pub open spec fn source(origin: int, a: int) -> int {
    2 * ((a - origin) / 8) + (a - origin) % 8
}

/// Whether the first `count` bytes of the work area hold one that is drawn
/// at place `a` of a display buffer of `size` bytes.
pub open spec fn painted(origin: int, a: int, count: int, size: int) -> bool {
    &&& origin <= a
    &&& (a - origin) % 8 < 2
    &&& source(origin, a) < count
    &&& visible(origin, source(origin, a), size)
}

/// The display buffer after the work area is drawn on it.
pub open spec fn blit(vram: Seq<u8>, work: Seq<u8>, origin: int) -> Seq<u8> {
    Seq::new(
        vram.len(),
        |a: int|
            if painted(origin, a, work.len() as int, vram.len() as int) {
                vram[a] ^ work[source(origin, a)]
            } else {
                vram[a]
            },
    )
}

/// Whether byte `idx` of the work area is drawn over a pixel that is already
/// set.
pub open spec fn collides(vram: Seq<u8>, work: Seq<u8>, origin: int, idx: int) -> bool {
    visible(origin, idx, vram.len() as int) && (vram[target(origin, idx)] & work[idx]) != 0
}

/// Whether drawing the work area clears a pixel.
pub open spec fn collision(vram: Seq<u8>, work: Seq<u8>, origin: int) -> bool {
    exists|idx: int| 0 <= idx < work.len() && #[trigger] collides(vram, work, origin, idx)
}

/// Whether byte `idx` of the work area is drawn and sets a pixel that was
/// clear.
pub open spec fn lights(vram: Seq<u8>, work: Seq<u8>, origin: int, idx: int) -> bool {
    visible(origin, idx, vram.len() as int) && (!vram[target(origin, idx)] & work[idx]) != 0
}

/// Whether drawing the work area sets a pixel that was clear.
pub open spec fn lights_pixel(vram: Seq<u8>, work: Seq<u8>, origin: int) -> bool {
    exists|idx: int| 0 <= idx < work.len() && #[trigger] lights(vram, work, origin, idx)
}

/// The machine cycles that drawing byte `idx` of the work area takes: 17 for
/// a left-hand byte and 8 for a right-hand one, 2 more where it collides,
/// and none where it is not drawn.
pub open spec fn byte_cost(vram: Seq<u8>, work: Seq<u8>, origin: int, idx: int) -> int {
    if !visible(origin, idx, vram.len() as int) {
        0
    } else {
        (if idx % 2 == 0 { 17int } else { 8int }) + (if collides(vram, work, origin, idx) {
            2int
        } else {
            0int
        })
    }
}

/// The machine cycles that drawing the first `count` bytes of the work area
/// takes.
pub open spec fn blit_cost(vram: Seq<u8>, work: Seq<u8>, origin: int, count: int) -> int
    decreases count,
{
    if count <= 0 {
        0
    } else {
        blit_cost(vram, work, origin, count - 1) + byte_cost(vram, work, origin, count - 1)
    }
}

/// The cost of drawing is bounded by the number of bytes drawn.
pub proof fn lemma_blit_cost_bounds(vram: Seq<u8>, work: Seq<u8>, origin: int, count: int)
    requires
        0 <= count,
    ensures
        0 <= blit_cost(vram, work, origin, count) <= 19 * count,
    decreases count,
{
    if count > 0 {
        lemma_blit_cost_bounds(vram, work, origin, count - 1);
    }
}

/// Shifts the rows of `sprite` by `offset` bits into the start of `work`.
pub fn shift_sprite(sprite: &[u8], offset: u8, work: &mut [u8])
    requires
        offset < 8,
        2 * sprite@.len() <= old(work)@.len(),
    ensures
        final(work)@ == shifted_rows(sprite@, offset) + old(work)@.subrange(
            2 * sprite@.len() as int,
            old(work)@.len() as int,
        ),
{
    let rows = sprite.len();
    let room = work.len();
    let mut idx: usize = 0;
    while idx < rows
        invariant
            idx <= rows,
            rows == sprite@.len(),
            offset < 8,
            2 * rows <= room,
            work@.len() == room,
            work@.len() == old(work)@.len(),
            forall|k: int| 0 <= k < 2 * idx ==> work@[k] == shifted_rows(sprite@, offset)[k],
            forall|k: int| 2 * idx <= k < work@.len() ==> work@[k] == old(work)@[k],
        decreases rows - idx,
    {
        let byte = sprite[idx];
        work[idx * 2] = byte >> offset;
        work[idx * 2 + 1] = if offset == 0 {
            0x0
        } else {
            byte << (8 - offset)
        };
        idx += 1;
    }
    assert(work@ =~= shifted_rows(sprite@, offset) + old(work)@.subrange(
        2 * sprite@.len() as int,
        old(work)@.len() as int,
    ));
}

/// XORs the work area into the display buffer, with its first byte at
/// `origin`.  Returns the collision flag, 1 where a pixel was cleared, and
/// the machine cycles that the drawing took.
pub fn blit_sprite(vram: &mut [u8], work: &[u8], origin: usize) -> (r: (u8, usize))
    requires
        old(vram)@.len() <= 0x10000,
        work@.len() <= 0x10000,
        origin <= 0x10000,
    ensures
        final(vram)@ == blit(old(vram)@, work@, origin as int),
        r.0 == if collision(old(vram)@, work@, origin as int) { 1u8 } else { 0u8 },
        r.1 == blit_cost(old(vram)@, work@, origin as int, work@.len() as int),
{
    let ghost before = vram@;
    let count = work.len();
    let size = vram.len();
    let mut collision_flag: u8 = 0;
    let mut dur: usize = 0;
    let mut idx: usize = 0;
    while idx < count
        invariant
            idx <= count,
            count == work@.len(),
            count <= 0x10000,
            origin <= 0x10000,
            size == before.len(),
            size <= 0x10000,
            vram@ == blit(before, work@.take(idx as int), origin as int),
            collision_flag == 0 || collision_flag == 1,
            collision_flag == 1 <==> exists|j: int|
                0 <= j < idx && #[trigger] collides(before, work@, origin as int, j),
            dur == blit_cost(before, work@, origin as int, idx as int),
            dur <= 19 * idx,
        decreases count - idx,
    {
        let byte = work[idx];
        let this_addr = origin + (idx / 2) * 0x8 + idx % 2;
        let ghost at = work@.take(idx as int);
        let ghost next = work@.take(idx + 1);
        assert(this_addr == target(origin as int, idx as int));
        assert(source(origin as int, this_addr as int) == idx);
        assert((this_addr & 0x7) == 0 <==> this_addr % 8 == 0) by (bit_vector);
        if this_addr >= size {
            // drawing off the bottom of the screen
            assert(!visible(origin as int, idx as int, size as int));
            assert(blit(before, next, origin as int) =~= blit(before, at, origin as int));
        } else if idx % 2 == 1 && (this_addr & 0x7) == 0 {
            // the right-hand byte hangs off the edge of the screen
            assert(!visible(origin as int, idx as int, size as int));
            assert(blit(before, next, origin as int) =~= blit(before, at, origin as int));
        } else {
            assert(visible(origin as int, idx as int, size as int));
            assert(!painted(origin as int, this_addr as int, idx as int, size as int));
            assert(vram@[this_addr as int] == before[this_addr as int]);
            let ghost drawn = vram@;
            if (vram[this_addr] & byte) != 0x0 {
                collision_flag = 1;
                dur += 2;
                assert(collides(before, work@, origin as int, idx as int));
            }
            vram[this_addr] ^= byte;
            dur += if idx % 2 == 0 {
                17
            } else {
                8
            };
            assert(vram@ =~= blit(before, next, origin as int)) by {
                assert forall|a: int| 0 <= a < size implies vram@[a] == blit(
                    before,
                    next,
                    origin as int,
                )[a] by {
                    if a != this_addr {
                        assert(source(origin as int, a) != idx || !(origin <= a && (a - origin) % 8
                            < 2));
                    }
                }
            }
        }
        idx += 1;
    }
    assert(work@.take(count as int) =~= work@);
    (collision_flag, dur)
}

proof fn lemma_shift_bits(row: u8, offset: u8)
    by (bit_vector)
    requires
        offset < 8,
    ensures
        ((row >> offset) as u16) * 0x100 + (if offset == 0 {
            0u8
        } else {
            row << ((8 - offset) as u8)
        }) as u16 == ((row as u16) << 8) >> (offset as u16),
{
}

/// Shifting loses nothing of a row: its two bytes in the work area, read as
/// one 16-bit word, are the row moved right by `offset` bits from the left
/// byte into the right one.
pub proof fn lemma_shift_keeps_the_row(sprite: Seq<u8>, offset: u8, row: int)
    requires
        offset < 8,
        0 <= row < sprite.len(),
    ensures
        shifted_rows(sprite, offset).len() == 2 * sprite.len(),
        shifted_rows(sprite, offset)[2 * row] * 0x100 + shifted_rows(sprite, offset)[2 * row + 1]
            == ((sprite[row] as u16) << 8) >> (offset as u16),
{
    lemma_shift_bits(sprite[row], offset);
}

proof fn lemma_xor_twice(v: u8, w: u8)
    by (bit_vector)
    ensures
        (v ^ w) ^ w == v,
        (((v ^ w) & w) != 0) == ((!v & w) != 0),
{
}

/// Drawing the same work area twice at the same place gives back the display
/// buffer as it was.  The second drawing collides exactly where the first
/// one set a pixel that had been clear: so it reports a collision for every
/// sprite with a visible pixel that lands on a clear one, and none for a
/// blank sprite or one that only erased.
pub proof fn lemma_draw_twice(vram: Seq<u8>, work: Seq<u8>, origin: int)
    requires
        0 <= origin,
    ensures
        blit(blit(vram, work, origin), work, origin) == vram,
        collision(blit(vram, work, origin), work, origin) <==> lights_pixel(vram, work, origin),
{
    let once = blit(vram, work, origin);
    let twice = blit(once, work, origin);
    assert forall|a: int| 0 <= a < vram.len() implies twice[a] == vram[a] by {
        if painted(origin, a, work.len() as int, vram.len() as int) {
            lemma_xor_twice(vram[a], work[source(origin, a)]);
        }
    }
    assert(twice =~= vram);
    assert forall|idx: int| 0 <= idx < work.len() implies (collides(once, work, origin, idx)
        <==> lights(vram, work, origin, idx)) by {
        if visible(origin, idx, vram.len() as int) {
            let a = target(origin, idx);
            assert(source(origin, a) == idx);
            assert(painted(origin, a, work.len() as int, vram.len() as int));
            lemma_xor_twice(vram[a], work[idx]);
        }
    }
    if collision(once, work, origin) {
        let idx = choose|idx: int|
            0 <= idx < work.len() && #[trigger] collides(once, work, origin, idx);
        assert(lights(vram, work, origin, idx));
    }
    if lights_pixel(vram, work, origin) {
        let idx = choose|idx: int|
            0 <= idx < work.len() && #[trigger] lights(vram, work, origin, idx);
        assert(collides(once, work, origin, idx));
    }
}

} // verus!
