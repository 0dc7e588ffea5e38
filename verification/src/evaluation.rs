use vstd::prelude::*;
use crate::oam::{covers, Oam};
use crate::sprite::Sprite;

verus! {

/// Whether entry `entry` of the sprite memory is a sprite that covers the scanline.
pub open spec fn in_view(mem: [u8; 256], entry: int, scanline: u8, big: bool) -> bool {
    covers(mem[4 * entry], scanline, big)
}

/// How many of the entries before `entry` cover the scanline.
pub open spec fn found_before(mem: [u8; 256], entry: int, scanline: u8, big: bool) -> int
    decreases entry,
{
    if entry <= 0 {
        0
    } else {
        found_before(mem, entry - 1, scanline, big) + if in_view(mem, entry - 1, scanline, big) {
            1int
        } else {
            0int
        }
    }
}

/// How many sprites the evaluator finds on a scanline: those that cover
/// it, and no more than eight.
pub open spec fn found(mem: [u8; 256], scanline: u8, big: bool) -> int {
    if found_before(mem, 64, scanline, big) < 8 {
        found_before(mem, 64, scanline, big)
    } else {
        8
    }
}

/// Whether the four bytes of entry `entry` stand in the secondary memory,
/// in the slot that the entry has among the sprites that cover the scanline.
pub open spec fn copied(smem: [u8; 32], mem: [u8; 256], entry: int, scanline: u8, big: bool) -> bool {
    let slot = found_before(mem, entry, scanline, big);
    &&& smem[4 * slot] == mem[4 * entry]
    &&& smem[4 * slot + 1] == mem[4 * entry + 1]
    &&& smem[4 * slot + 2] == mem[4 * entry + 2]
    &&& smem[4 * slot + 3] == mem[4 * entry + 3]
}

impl Oam {
    /// The evaluator after the dots `0..dots` of a visible scanline.
    pub open spec fn after_dots(self, dots: int, scanline: u8, big: bool) -> Oam
        decreases dots,
    {
        if dots <= 0 {
            self
        } else {
            self.after_dots(dots - 1, scanline, big).after_cycle(dots - 1, scanline, big)
        }
    }

    /// What holds of the evaluator between two entries' bytes, `pairs`
    /// pairs of dots into the evaluation of a scanline that began with the
    /// sprite memory `mem`.
    ///
    /// While it is looking, it stands in entry `mem_index / 4`, has copied as
    /// many bytes of that entry as it is into it, has found as many sprites as
    /// cover the scanline before that entry, and has copied each of them into
    /// its slot; a miss has cost it one pair of dots and a sprite four. When
    /// it is through, it has found them all; when the secondary memory is
    /// full, it has found the first eight.
    pub open spec fn evaluated(self, mem: [u8; 256], pairs: int, scanline: u8, big: bool) -> bool {
        let entry = self.mem_index as int / 4;
        let byte = self.mem_index as int % 4;
        let slot = self.smem_index as int / 4;
        &&& self.mem == mem
        &&& self.smem_index <= 32
        &&& self.zero_hit_next == ((self.mem_index > 0 || self.finished || self.smem_index == 32)
            && in_view(mem, 0, scanline, big))
        &&& self.smem_index == 32 ==> {
            &&& found_before(mem, 64, scanline, big) >= 8
            &&& forall|i: int|
                0 <= i < 64 && in_view(mem, i, scanline, big) && found_before(mem, i, scanline, big)
                    < 8 ==> #[trigger] copied(self.smem, mem, i, scanline, big)
        }
        &&& self.smem_index < 32 && self.finished ==> {
            &&& self.smem_index % 4 == 0
            &&& slot == found_before(mem, 64, scanline, big)
            &&& forall|i: int|
                0 <= i < 64 && in_view(mem, i, scanline, big) ==> #[trigger] copied(
                    self.smem,
                    mem,
                    i,
                    scanline,
                    big,
                )
        }
        &&& self.smem_index < 32 && !self.finished ==> {
            &&& self.smem_index % 4 == byte
            &&& slot == found_before(mem, entry, scanline, big)
            &&& pairs == entry + 3 * slot + byte
            &&& (byte > 0 ==> in_view(mem, entry, scanline, big))
            &&& (byte > 0 ==> self.smem[4 * slot] == mem[4 * entry])
            &&& (byte > 1 ==> self.smem[4 * slot + 1] == mem[4 * entry + 1])
            &&& (byte > 2 ==> self.smem[4 * slot + 2] == mem[4 * entry + 2])
            &&& forall|i: int|
                0 <= i < entry && in_view(mem, i, scanline, big) ==> #[trigger] copied(
                    self.smem,
                    mem,
                    i,
                    scanline,
                    big,
                )
        }
    }
}

/// The count of sprites found grows with the entries looked at, by one for
/// each entry that covers the scanline, and never beyond their number.
pub proof fn lemma_found_grows(mem: [u8; 256], first: int, second: int, scanline: u8, big: bool)
    requires
        0 <= first <= second,
    ensures
        0 <= found_before(mem, first, scanline, big) <= found_before(mem, second, scanline, big),
        found_before(mem, second, scanline, big) <= second,
        first < second && in_view(mem, first, scanline, big) ==> found_before(
            mem,
            first,
            scanline,
            big,
        ) < found_before(mem, second, scanline, big),
    decreases second,
{
    if first < second {
        lemma_found_grows(mem, first, second - 1, scanline, big);
    } else if second > 0 {
        lemma_found_grows(mem, first - 1, second - 1, scanline, big);
    }
}

/// Dot 0 and the 64 dots that clear the secondary memory leave the sprite
/// memory alone and the evaluator at the start of both memories.
pub proof fn lemma_cleared(oam: Oam, dots: int, scanline: u8, big: bool)
    requires
        1 <= dots <= 65,
    ensures
        oam.after_dots(dots, scanline, big).mem == oam.mem,
        oam.after_dots(dots, scanline, big).mem_index == 0,
        oam.after_dots(dots, scanline, big).smem_index == 0,
        !oam.after_dots(dots, scanline, big).finished,
        !oam.after_dots(dots, scanline, big).zero_hit_next,
    decreases dots,
{
    if dots > 1 {
        lemma_cleared(oam, dots - 1, scanline, big);
    } else {
        assert(oam.after_dots(0, scanline, big) == oam);
    }
}

/// One pair of dots of the evaluation, a read and what follows from it,
/// keeps what holds of the evaluator.
#[verifier::rlimit(50)]
pub proof fn lemma_pair(before: Oam, mem: [u8; 256], pairs: int, scanline: u8, big: bool)
    requires
        0 <= pairs < 96,
        before.evaluated(mem, pairs, scanline, big),
    ensures
        before.after_cycle(65 + 2 * pairs, scanline, big).after_cycle(
            66 + 2 * pairs,
            scanline,
            big,
        ).evaluated(mem, pairs + 1, scanline, big),
{
    let read = before.after_cycle(65 + 2 * pairs, scanline, big);
    let after = read.after_cycle(66 + 2 * pairs, scanline, big);
    let entry = before.mem_index as int / 4;
    let byte = before.mem_index as int % 4;
    let slot = before.smem_index as int / 4;
    assert(read == Oam { read: before.mem[before.mem_index as int], ..before });
    assert(after == read.after_evaluation(scanline, big));
    if before.smem_index < 32 && !before.finished {
        lemma_found_grows(mem, entry, 64, scanline, big);
        lemma_found_grows(mem, entry, entry + 1, scanline, big);
        lemma_found_grows(mem, entry + 1, 64, scanline, big);
        assert forall|i: int| 0 <= i < entry && in_view(mem, i, scanline, big) implies #[trigger] copied(
            after.smem,
            mem,
            i,
            scanline,
            big,
        ) by {
            lemma_found_grows(mem, i, entry, scanline, big);
            assert(copied(before.smem, mem, i, scanline, big));
        }
        if byte == 3 {
            assert(copied(after.smem, mem, entry, scanline, big));
            assert forall|i: int|
                0 <= i < 64 && in_view(mem, i, scanline, big) && found_before(mem, i, scanline, big)
                    < slot + 1 implies #[trigger] copied(after.smem, mem, i, scanline, big) by {
                if i > entry {
                    lemma_found_grows(mem, entry + 1, i, scanline, big);
                }
            }
        }
        if before.mem_index == 0 {
            assert(entry == 0 && byte == 0);
        }
    }
}

/// Throughout the evaluation the evaluator is as `evaluated` says.
pub proof fn lemma_evaluation(oam: Oam, pairs: int, scanline: u8, big: bool)
    requires
        0 <= pairs <= 96,
    ensures
        oam.after_dots(65 + 2 * pairs, scanline, big).evaluated(oam.mem, pairs, scanline, big),
    decreases pairs,
{
    if pairs == 0 {
        lemma_cleared(oam, 65, scanline, big);
    } else {
        lemma_evaluation(oam, pairs - 1, scanline, big);
        let before = oam.after_dots(65 + 2 * (pairs - 1), scanline, big);
        lemma_pair(before, oam.mem, pairs - 1, scanline, big);
        assert(oam.after_dots(65 + 2 * pairs, scanline, big) == oam.after_dots(
            64 + 2 * pairs,
            scanline,
            big,
        ).after_cycle(64 + 2 * pairs, scanline, big));
        assert(oam.after_dots(64 + 2 * pairs, scanline, big) == before.after_cycle(
            63 + 2 * pairs,
            scanline,
            big,
        ));
    }
}

/// The evaluator finds the sprites of a scanline. After dot 256 of a
/// visible scanline, whatever state the evaluator began the scanline in, the
/// secondary memory holds the sprites that cover the scanline, in the order
/// of the sprite memory and up to the eighth, four bytes each; the evaluator
/// knows whether sprite 0 is among them; and dot 257 counts them. The sprite
/// memory itself is as it was.
pub proof fn law_evaluation_finds_sprites(oam: Oam, scanline: u8, big: bool)
    ensures
        ({
            let done = oam.after_dots(257, scanline, big);
            let mem = oam.mem;
            &&& done.mem == mem
            &&& done.smem_index == 4 * found(mem, scanline, big)
            &&& done.zero_hit_next == in_view(mem, 0, scanline, big)
            &&& forall|i: int|
                0 <= i < 64 && in_view(mem, i, scanline, big) && found_before(mem, i, scanline, big)
                    < 8 ==> #[trigger] copied(done.smem, mem, i, scanline, big)
            &&& oam.after_dots(258, scanline, big).count == found(mem, scanline, big)
        }),
{
    lemma_evaluation(oam, 96, scanline, big);
    let done = oam.after_dots(257, scanline, big);
    assert(done.evaluated(oam.mem, 96, scanline, big));
    lemma_found_grows(oam.mem, done.mem_index as int / 4, 64, scanline, big);
    assert(oam.after_dots(258, scanline, big) == done.after_cycle(257, scanline, big));
}

/// How many pairs of dots the evaluator needs for the entries before
/// `entry`: one for each, and three more for each that covers the scanline.
pub open spec fn pairs_before(mem: [u8; 256], entry: int, scanline: u8, big: bool) -> int {
    entry + 3 * found_before(mem, entry, scanline, big)
}

impl Oam {
    /// The evaluator after a pair of dots of the evaluation: a read, and
    /// what follows from it.
    #[verifier::opaque]
    pub open spec fn after_pair(self, scanline: u8, big: bool) -> Oam {
        (Oam { read: self.mem[self.mem_index as int], ..self }).after_evaluation(scanline, big)
    }
}

/// Two dots of the evaluation, an odd one and the even one after it, are a pair.
pub proof fn lemma_two_dots(oam: Oam, dots: int, scanline: u8, big: bool)
    requires
        65 <= dots <= 255,
        dots % 2 == 1,
    ensures
        oam.after_dots(dots + 2, scanline, big) == oam.after_dots(dots, scanline, big).after_pair(
            scanline,
            big,
        ),
{
    reveal(Oam::after_pair);
    let before = oam.after_dots(dots, scanline, big);
    assert(oam.after_dots(dots + 1, scanline, big) == before.after_cycle(dots, scanline, big));
    assert(oam.after_dots(dots + 2, scanline, big) == oam.after_dots(
        dots + 1,
        scanline,
        big,
    ).after_cycle(dots + 1, scanline, big));
}

/// An entry that does not cover the scanline costs the evaluator one pair
/// of dots and leaves the secondary memory as full as it was.
pub proof fn lemma_entry_is_passed(before: Oam, scanline: u8, big: bool)
    requires
        !before.finished,
        before.smem_index < 32,
        before.smem_index % 4 == 0,
        !covers(before.mem[before.mem_index as int], scanline, big),
    ensures
        before.after_pair(scanline, big).mem == before.mem,
        before.after_pair(scanline, big).smem_index == before.smem_index,
        before.after_pair(scanline, big).mem_index == (before.mem_index + 4) % 256,
        before.after_pair(scanline, big).finished == (before.mem_index + 4 > 255),
{
    reveal(Oam::after_pair);
}

/// An entry that covers the scanline costs the evaluator four pairs of
/// dots and takes four bytes of the secondary memory.
pub proof fn lemma_entry_is_taken(before: Oam, scanline: u8, big: bool)
    requires
        !before.finished,
        before.smem_index < 32,
        before.smem_index % 4 == 0,
        before.mem_index % 4 == 0,
        covers(before.mem[before.mem_index as int], scanline, big),
    ensures
        ({
            let after = before.after_pair(scanline, big).after_pair(scanline, big).after_pair(
                scanline,
                big,
            ).after_pair(scanline, big);
            &&& after.mem == before.mem
            &&& after.smem_index == before.smem_index + 4
            &&& after.mem_index == (before.mem_index + 4) % 256
            &&& after.finished == (before.mem_index + 4 > 255)
        }),
{
    reveal(Oam::after_pair);
    let first = before.after_pair(scanline, big);
    let second = first.after_pair(scanline, big);
    let third = second.after_pair(scanline, big);
    assert(first.smem_index == before.smem_index + 1 && first.mem_index == before.mem_index + 1
        && !first.finished && first.mem == before.mem);
    assert(second.smem_index == before.smem_index + 2 && second.mem_index == before.mem_index + 2
        && !second.finished && second.mem == before.mem);
    assert(third.smem_index == before.smem_index + 3 && third.mem_index == before.mem_index + 3
        && !third.finished && third.mem == before.mem);
}

/// For as long as fewer than eight sprites are found, the evaluator reaches
/// each entry after the pairs of dots that the entries before it need, and
/// it reaches it with the secondary memory filled as far as sprites were
/// found.
#[verifier::rlimit(50)]
pub proof fn lemma_entry_is_reached(oam: Oam, entry: int, scanline: u8, big: bool)
    requires
        0 <= entry <= 64,
        entry == 0 || found_before(oam.mem, entry - 1, scanline, big) < 8,
    ensures
        ({
            let reached = oam.after_dots(
                65 + 2 * pairs_before(oam.mem, entry, scanline, big),
                scanline,
                big,
            );
            &&& reached.mem == oam.mem
            &&& reached.smem_index == 4 * found_before(oam.mem, entry, scanline, big)
            &&& reached.mem_index == (4 * entry) % 256
            &&& reached.finished == (entry == 64)
        }),
    decreases entry,
{
    let mem = oam.mem;
    if entry == 0 {
        lemma_cleared(oam, 65, scanline, big);
    } else {
        let last = entry - 1;
        lemma_found_grows(mem, 0, last, scanline, big);
        if last > 0 {
            lemma_found_grows(mem, last - 1, last, scanline, big);
        }
        lemma_entry_is_reached(oam, last, scanline, big);
        let dots = 65 + 2 * pairs_before(mem, last, scanline, big);
        let before = oam.after_dots(dots, scanline, big);
        lemma_two_dots(oam, dots, scanline, big);
        if in_view(mem, last, scanline, big) {
            lemma_two_dots(oam, dots + 2, scanline, big);
            lemma_two_dots(oam, dots + 4, scanline, big);
            lemma_two_dots(oam, dots + 6, scanline, big);
            lemma_entry_is_taken(before, scanline, big);
        } else {
            lemma_entry_is_passed(before, scanline, big);
        }
    }
}

/// A ninth sprite right behind the eighth is found. Where the entry after
/// the eighth sprite that covers the scanline covers it too, the evaluator
/// reports an overflow, on the dot on which it has read that entry's row;
/// and where that entry does not cover the scanline, it reports none on that
/// dot.
pub proof fn law_ninth_behind_eighth(oam: Oam, eighth: int, scanline: u8, big: bool)
    requires
        0 <= eighth < 63,
        in_view(oam.mem, eighth, scanline, big),
        found_before(oam.mem, eighth, scanline, big) == 7,
    ensures
        oam.after_dots(2 * eighth + 116, scanline, big).overflows(2 * eighth + 116, scanline, big)
            == in_view(oam.mem, eighth + 1, scanline, big),
{
    let mem = oam.mem;
    lemma_found_grows(mem, eighth, eighth + 1, scanline, big);
    lemma_entry_is_reached(oam, eighth + 1, scanline, big);
    let dot = 65 + 2 * pairs_before(mem, eighth + 1, scanline, big);
    assert(dot == 2 * eighth + 115);
    assert(oam.after_dots(dot + 1, scanline, big) == oam.after_dots(dot, scanline, big).after_cycle(
        dot,
        scanline,
        big,
    ));
}

/// Byte `index` of the entry that a rendering unit holds: 0 the row, 1 the
/// tile, 2 the attributes, 3 the column.
pub open spec fn info(sprite: Sprite, index: int) -> u8 {
    if index == 0 {
        sprite.y_pos
    } else if index == 1 {
        sprite.tile
    } else if index == 2 {
        sprite.attributes
    } else {
        sprite.x_pos
    }
}

/// The rendering units after the dots `0..dots` of a visible scanline.
pub open spec fn units_after_dots(
    oam: Oam,
    units: [Sprite; 8],
    dots: int,
    scanline: u8,
    big: bool,
) -> [Sprite; 8]
    decreases dots,
{
    if dots <= 0 {
        units
    } else {
        oam.after_dots(dots - 1, scanline, big).units_after_cycle(
            units_after_dots(oam, units, dots - 1, scanline, big),
            dots - 1,
        )
    }
}

/// How many bytes have been handed to the units after dot `257 + step`,
/// where `count` sprites were found: four in each eight dots, for as long
/// as there are any.
pub open spec fn handed_out(count: int, step: int) -> int {
    let due = 4 * (step / 8) + if step % 8 < 3 {
        step % 8 + 1
    } else {
        4
    };
    if due < 4 * count {
        due
    } else {
        4 * count
    }
}

/// Whether the units are `before` with the first `bytes` bytes of `smem`
/// handed to them, four to each unit, and nothing else changed.
pub open spec fn loaded(after: [Sprite; 8], before: [Sprite; 8], smem: [u8; 32], bytes: int) -> bool {
    &&& forall|byte: int|
        0 <= byte < 32 ==> #[trigger] info(after[byte / 4], byte % 4) == if byte < bytes {
            smem[byte]
        } else {
            info(before[byte / 4], byte % 4)
        }
    &&& forall|unit: int|
        0 <= unit < 8 ==> {
            &&& (#[trigger] after[unit]).counter == before[unit].counter
            &&& after[unit].latch == before[unit].latch
            &&& after[unit].lshift == before[unit].lshift
            &&& after[unit].hshift == before[unit].hshift
        }
}

/// Before dot 257 the evaluator hands nothing to the units.
pub proof fn lemma_units_wait(oam: Oam, units: [Sprite; 8], dots: int, scanline: u8, big: bool)
    requires
        0 <= dots <= 257,
    ensures
        units_after_dots(oam, units, dots, scanline, big) == units,
    decreases dots,
{
    if dots > 0 {
        lemma_units_wait(oam, units, dots - 1, scanline, big);
    }
}

/// One dot of the loading: where a byte is handed out, it is the next byte
/// of the secondary memory and goes to the unit of its sprite; nothing else
/// changes in the units, and nothing but the index in the evaluator.
pub proof fn lemma_handing(
    before: Oam,
    held: [Sprite; 8],
    units: [Sprite; 8],
    dot: int,
    scanline: u8,
    big: bool,
)
    requires
        257 <= dot <= 320,
        before.at_loading(dot).smem_index <= 32,
        before.at_loading(dot).count <= 8,
        loaded(held, units, before.smem, before.at_loading(dot).smem_index as int),
    ensures
        ({
            let after = before.after_cycle(dot, scanline, big);
            &&& after.smem == before.smem
            &&& after.mem == before.mem
            &&& after.zero_hit_next == before.zero_hit_next
            &&& after.count == before.at_loading(dot).count
            &&& after.smem_index == before.at_loading(dot).smem_index + if before.hands_out(dot) {
                1int
            } else {
                0int
            }
            &&& loaded(before.units_after_cycle(held, dot), units, before.smem, after.smem_index as int)
        }),
{
    let bytes = before.at_loading(dot).smem_index as int;
    let after_units = before.units_after_cycle(held, dot);
    if before.hands_out(dot) {
        assert forall|byte: int| 0 <= byte < 32 implies #[trigger] info(
            after_units[byte / 4],
            byte % 4,
        ) == if byte < bytes + 1 {
            before.smem[byte]
        } else {
            info(units[byte / 4], byte % 4)
        } by {
            assert(info(held[byte / 4], byte % 4) == if byte < bytes {
                before.smem[byte]
            } else {
                info(units[byte / 4], byte % 4)
            });
        }
        assert forall|unit: int| 0 <= unit < 8 implies {
            &&& (#[trigger] after_units[unit]).counter == units[unit].counter
            &&& after_units[unit].latch == units[unit].latch
            &&& after_units[unit].lshift == units[unit].lshift
            &&& after_units[unit].hshift == units[unit].hshift
        } by {
            assert(held[unit].counter == units[unit].counter);
        }
    }
}

/// From one dot of the loading to the next, one more byte is handed out on
/// the first four dots of each eight, for as long as bytes are left.
pub proof fn lemma_handed_out(count: int, step: int)
    requires
        0 <= count <= 8,
        0 <= step < 64,
    ensures
        ({
            let so_far = if step == 0 {
                0
            } else {
                handed_out(count, step - 1)
            };
            handed_out(count, step) == so_far + if step % 8 < 4 && so_far < 4 * count {
                1int
            } else {
                0int
            }
        }),
{
}

/// Through the 64 dots of the loading the units take the bytes of the
/// secondary memory in order.
#[verifier::rlimit(100)]
pub proof fn lemma_loading(oam: Oam, units: [Sprite; 8], step: int, scanline: u8, big: bool)
    requires
        0 <= step < 64,
        oam.after_dots(257, scanline, big).smem_index <= 32,
    ensures
        ({
            let found = oam.after_dots(257, scanline, big);
            let now = oam.after_dots(258 + step, scanline, big);
            &&& now.smem == found.smem
            &&& now.mem == found.mem
            &&& now.zero_hit_next == found.zero_hit_next
            &&& now.count == found.smem_index / 4
            &&& now.smem_index == handed_out(found.smem_index as int / 4, step)
            &&& loaded(
                units_after_dots(oam, units, 258 + step, scanline, big),
                units,
                found.smem,
                now.smem_index as int,
            )
        }),
    decreases step,
{
    let found = oam.after_dots(257, scanline, big);
    let count = found.smem_index as int / 4;
    let dot = 257 + step;
    let before = oam.after_dots(dot, scanline, big);
    let held = units_after_dots(oam, units, dot, scanline, big);
    assert(oam.after_dots(dot + 1, scanline, big) == before.after_cycle(dot, scanline, big));
    assert(units_after_dots(oam, units, dot + 1, scanline, big) == before.units_after_cycle(
        held,
        dot,
    ));
    if step == 0 {
        lemma_units_wait(oam, units, 257, scanline, big);
        assert(loaded(held, units, found.smem, 0));
        assert(before.at_loading(dot).smem_index == 0);
        assert(before.at_loading(dot).count == count);
    } else {
        lemma_loading(oam, units, step - 1, scanline, big);
        assert(before.at_loading(dot) == before);
        assert(before.smem_index == handed_out(count, step - 1));
    }
    lemma_handed_out(count, step);
    assert(before.hands_out(dot) == (step % 8 < 4 && before.at_loading(dot).smem_index < 4
        * count));
    lemma_handing(before, held, units, dot, scanline, big);
}

/// The rendering units get the sprites of the scanline. After dot 320 of a
/// visible scanline, each sprite that covers the scanline, up to the eighth,
/// stands in the unit of its place among them, with its row, its tile, its
/// attributes and its column; the units beyond those keep what they held;
/// and no unit's counter or pattern has changed.
pub proof fn law_units_hold_sprites(oam: Oam, units: [Sprite; 8], scanline: u8, big: bool)
    ensures
        ({
            let done = oam.after_dots(321, scanline, big);
            let held = units_after_dots(oam, units, 321, scanline, big);
            let mem = oam.mem;
            &&& done.count == found(mem, scanline, big)
            &&& done.count <= 8
            &&& forall|i: int|
                0 <= i < 64 && in_view(mem, i, scanline, big) && found_before(mem, i, scanline, big)
                    < 8 ==> {
                    let unit = #[trigger] held[found_before(mem, i, scanline, big)];
                    &&& unit.y_pos == mem[4 * i]
                    &&& unit.tile == mem[4 * i + 1]
                    &&& unit.attributes == mem[4 * i + 2]
                    &&& unit.x_pos == mem[4 * i + 3]
                }
            &&& forall|unit: int|
                found(mem, scanline, big) <= unit < 8 ==> #[trigger] held[unit] == units[unit]
            &&& forall|unit: int|
                0 <= unit < 8 ==> {
                    &&& (#[trigger] held[unit]).counter == units[unit].counter
                    &&& held[unit].latch == units[unit].latch
                    &&& held[unit].lshift == units[unit].lshift
                    &&& held[unit].hshift == units[unit].hshift
                }
        }),
{
    let found_state = oam.after_dots(257, scanline, big);
    let done = oam.after_dots(321, scanline, big);
    let held = units_after_dots(oam, units, 321, scanline, big);
    let mem = oam.mem;
    law_evaluation_finds_sprites(oam, scanline, big);
    lemma_found_grows(mem, 0, 64, scanline, big);
    lemma_loading(oam, units, 63, scanline, big);
    let bytes = 4 * found(mem, scanline, big);
    assert(loaded(held, units, found_state.smem, bytes));
    assert forall|i: int|
        0 <= i < 64 && in_view(mem, i, scanline, big) && found_before(mem, i, scanline, big)
            < 8 implies {
        let unit = #[trigger] held[found_before(mem, i, scanline, big)];
        &&& unit.y_pos == mem[4 * i]
        &&& unit.tile == mem[4 * i + 1]
        &&& unit.attributes == mem[4 * i + 2]
        &&& unit.x_pos == mem[4 * i + 3]
    } by {
        let slot = found_before(mem, i, scanline, big);
        lemma_found_grows(mem, i, 64, scanline, big);
        assert(copied(found_state.smem, mem, i, scanline, big));
        assert(info(held[(4 * slot) / 4], (4 * slot) % 4) == found_state.smem[4 * slot]);
        assert(info(held[(4 * slot + 1) / 4], (4 * slot + 1) % 4) == found_state.smem[4 * slot + 1]);
        assert(info(held[(4 * slot + 2) / 4], (4 * slot + 2) % 4) == found_state.smem[4 * slot + 2]);
        assert(info(held[(4 * slot + 3) / 4], (4 * slot + 3) % 4) == found_state.smem[4 * slot + 3]);
    }
    assert forall|unit: int| found(mem, scanline, big) <= unit < 8 implies #[trigger] held[unit]
        == units[unit] by {
        assert(info(held[(4 * unit) / 4], (4 * unit) % 4) == info(units[(4 * unit) / 4], (4 * unit) % 4));
        assert(info(held[(4 * unit + 1) / 4], (4 * unit + 1) % 4) == info(
            units[(4 * unit + 1) / 4],
            (4 * unit + 1) % 4,
        ));
        assert(info(held[(4 * unit + 2) / 4], (4 * unit + 2) % 4) == info(
            units[(4 * unit + 2) / 4],
            (4 * unit + 2) % 4,
        ));
        assert(info(held[(4 * unit + 3) / 4], (4 * unit + 3) % 4) == info(
            units[(4 * unit + 3) / 4],
            (4 * unit + 3) % 4,
        ));
        assert(held[unit].counter == units[unit].counter);
    }
}

} // verus!
