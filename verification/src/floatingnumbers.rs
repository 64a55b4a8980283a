//! Floating damage numbers: their text, size and colour, and the queue of
//! numbers on screen, merged by id and expiring after a fixed lifetime.

use vstd::prelude::*;
use crate::combat_system::DamageType;
use crate::types::Point;
use crate::strings::{string_push, digit_char, digit_to_char, int_decimal, decimal_string};

verus! {

/// Font sizes of floating numbers.
#[derive(Debug, Clone, Copy, PartialEq, Eq, Structural)]
pub enum FontSize {
    /// Small font.
    Small,
    /// Medium font.
    Medium,
    /// Large font.
    Large,
}

impl FontSize {
    /// The height of the font in pixels.
    pub open spec fn spec_pixels(self) -> i32 {
        match self {
            FontSize::Small => 12,
            FontSize::Medium => 24,
            FontSize::Large => 30,
        }
    }

    /// The height of the font in pixels.
    pub fn pixels(self) -> (p: i32)
        ensures
            p == self.spec_pixels(),
    {
        match self {
            FontSize::Small => 12,
            FontSize::Medium => 24,
            FontSize::Large => 30,
        }
    }
}

/// Colours of floating numbers.
#[derive(Debug, Clone, Copy, PartialEq, Eq, Structural)]
pub enum FloatingColor {
    /// Gold.
    Gold,
    /// Silver.
    UiSilver,
    /// Blue.
    Blue,
    /// Orange.
    Orange,
    /// Yellow.
    Yellow,
}

/// The hundredths of `value / 64` for `0 < value < 64`, rounded to the
/// nearest, ties to even.
pub open spec fn hundredths(value: int) -> int {
    let q = (value * 25) / 16;
    let r = (value * 25) % 16;
    if r > 8 || (r == 8 && q % 2 == 1) { q + 1 } else { q }
}

/// The text of a damage value in 1/64 units: below one unit (and above 0)
/// with two decimals, otherwise the whole units rounded down.
pub open spec fn damage_text(value: int) -> Seq<char> {
    if 0 < value < 64 {
        seq!['0', '.', digit_char(hundredths(value) / 10), digit_char(hundredths(value) % 10)]
    } else {
        int_decimal(value / 64)
    }
}

/// The font for a damage value: large from 300 whole units, medium from 100.
pub open spec fn font_for(value: int) -> FontSize {
    if value / 64 >= 300 {
        FontSize::Large
    } else if value / 64 >= 100 {
        FontSize::Medium
    } else {
        FontSize::Small
    }
}

/// The colour of a damage type.
pub open spec fn color_for(damage_type: DamageType) -> FloatingColor {
    match damage_type {
        DamageType::Physical => FloatingColor::Gold,
        DamageType::Fire => FloatingColor::UiSilver,
        DamageType::Lightning => FloatingColor::Blue,
        DamageType::Magic => FloatingColor::Orange,
    }
}

/// `value >> 6` on an `i32` is `value / 64` rounded down.
proof fn lemma_shift_is_floor_div(value: i32)
    ensures
        (value >> 6u32) as int == value as int / 64,
        value >> 6u32 > i32::MIN,
{
    assert((value >> 6u32) as int == value as int / 64) by (bit_vector);
    assert(value >> 6u32 > i32::MIN) by (bit_vector);
}

/// The text of a damage value (see `damage_text`).
pub fn format_damage(value: i32) -> (s: String)
    ensures
        s@ == damage_text(value as int),
{
    if value > 0 && value < 64 {
        let scaled = (value as u32) * 25;
        let q = scaled / 16;
        let r = scaled % 16;
        let cents = if r > 8 || (r == 8 && q % 2 == 1) { q + 1 } else { q };
        assert(cents < 100) by (nonlinear_arith)
            requires
                0 < value < 64,
                scaled == value * 25,
                q == scaled / 16,
                cents <= q + 1,
        ;
        let mut s = String::new();
        string_push(&mut s, '0');
        string_push(&mut s, '.');
        string_push(&mut s, digit_to_char(cents / 10));
        string_push(&mut s, digit_to_char(cents % 10));
        assert(s@ =~= damage_text(value as int));
        s
    } else {
        proof {
            lemma_shift_is_floor_div(value);
        }
        decimal_string(value >> 6)
    }
}

/// The font for a damage value (see `font_for`).
pub fn font_size_for_damage(value: i32) -> (f: FontSize)
    ensures
        f == font_for(value as int),
{
    proof {
        lemma_shift_is_floor_div(value);
    }
    let v = value >> 6;
    if v >= 300 {
        FontSize::Large
    } else if v >= 100 {
        FontSize::Medium
    } else {
        FontSize::Small
    }
}

/// The colour of a damage type (see `color_for`).
pub fn damage_color(damage_type: DamageType) -> (c: FloatingColor)
    ensures
        c == color_for(damage_type),
{
    match damage_type {
        DamageType::Physical => FloatingColor::Gold,
        DamageType::Fire => FloatingColor::UiSilver,
        DamageType::Lightning => FloatingColor::Blue,
        DamageType::Magic => FloatingColor::Orange,
    }
}

/// A floating damage or heal number.
#[derive(Debug, Clone)]
pub struct FloatingNumber {
    /// The text shown.
    pub text: String,
    /// Its font.
    pub font_size: FontSize,
    /// Its colour.
    pub color: FloatingColor,
    /// The kind of damage.
    pub damage_type: DamageType,
    /// The value in 1/64 units.
    pub value: i32,
}

impl FloatingNumber {
    /// The number showing `value` of `damage_type`.
    pub fn new(damage_type: DamageType, value: i32) -> (n: Self)
        ensures
            n.text@ == damage_text(value as int),
            n.font_size == font_for(value as int),
            n.color == color_for(damage_type),
            n.damage_type == damage_type,
            n.value == value,
    {
        let text = format_damage(value);
        let font_size = font_size_for_damage(value);
        let color = damage_color(damage_type);
        FloatingNumber { text, font_size, color, damage_type, value }
    }
}

/// A number on screen.
pub struct ActiveFloatingNumber {
    /// What is shown.
    pub number: FloatingNumber,
    /// The tile it rises from.
    pub start_pos: Point,
    /// The tick at which it disappears.
    pub expire_tick: u64,
    /// The tick it was last merged at.
    pub last_merge: u64,
    /// The merge key; 0 never merges.
    pub id: i32,
}

/// Lifetime of a number, in game ticks.
pub const FLOATING_LIFETIME_TICKS: u64 = 150;

/// Window within which numbers of the same id merge, in game ticks.
pub const FLOATING_MERGE_TICKS: u64 = 6;

/// Whether the entry `e` absorbs a number of `id` arriving at `now`.
pub open spec fn merges(e: ActiveFloatingNumber, id: i32, now: u64) -> bool {
    e.id == id && (if now >= e.last_merge { now - e.last_merge } else { 0 })
        <= FLOATING_MERGE_TICKS
}

/// The first entry from `k` on that absorbs a number of `id` at `now`, or
/// -1 when there is none.
pub open spec fn merge_index(q: Seq<ActiveFloatingNumber>, id: i32, now: u64, k: int) -> int
    decreases q.len() - k,
{
    if k >= q.len() || k < 0 {
        -1
    } else if merges(q[k], id, now) {
        k
    } else {
        merge_index(q, id, now, k + 1)
    }
}

/// The entries of `q` that have not expired at `now`, in order.
pub open spec fn unexpired(q: Seq<ActiveFloatingNumber>, now: u64) -> Seq<ActiveFloatingNumber>
    decreases q.len(),
{
    if q.len() == 0 {
        q
    } else {
        let rest = unexpired(q.drop_last(), now);
        if q.last().expire_tick > now {
            rest.push(q.last())
        } else {
            rest
        }
    }
}

/// `merge_index` from `k` is -1 or an index at least `k`.
proof fn lemma_merge_index_range(q: Seq<ActiveFloatingNumber>, id: i32, now: u64, k: int)
    requires
        k >= 0,
    ensures
        merge_index(q, id, now, k) == -1 || (k <= merge_index(q, id, now, k) < q.len() && merges(
            q[merge_index(q, id, now, k)],
            id,
            now,
        )),
    decreases q.len() - k,
{
    if k < q.len() && !merges(q[k], id, now) {
        lemma_merge_index_range(q, id, now, k + 1);
    }
}

/// The queue of floating numbers, oldest first.
pub struct FloatingNumbers {
    queue: Vec<ActiveFloatingNumber>,
}

impl FloatingNumbers {
    /// The numbers on screen, oldest first.
    pub closed spec fn spec_queue(&self) -> Seq<ActiveFloatingNumber> {
        self.queue@
    }

    /// An empty queue.
    pub fn new() -> (f: Self)
        ensures
            f.spec_queue().len() == 0,
    {
        FloatingNumbers { queue: Vec::new() }
    }

    /// Removes every number.
    pub fn clear(&mut self)
        ensures
            final(self).spec_queue().len() == 0,
    {
        self.queue.clear();
    }

    /// The number of numbers.
    pub fn len(&self) -> (n: usize)
        ensures
            n == self.spec_queue().len(),
    {
        self.queue.len()
    }

    /// Whether no number shows.
    pub fn is_empty(&self) -> (b: bool)
        ensures
            b == (self.spec_queue().len() == 0),
    {
        self.queue.len() == 0
    }

    /// The numbers, oldest first.
    pub fn iter(&self) -> (it: std::slice::Iter<'_, ActiveFloatingNumber>)
        ensures
            vstd::std_specs::iter::IteratorSpec::remaining(&it) == self.spec_queue().as_ref(),
    {
        let s = self.queue.as_slice();
        proof {
            broadcast use vstd::std_specs::slice::axiom_spec_slice_iter;
        }
        s.iter()
    }

    /// Adds `number` from `start_pos` at tick `now_tick`: with a non-zero
    /// `id`, the first number of that id merged within the merge window
    /// takes the new number and position and restarts its window;
    /// otherwise the number is appended with the full lifetime.
    pub fn add(&mut self, now_tick: u64, start_pos: Point, number: FloatingNumber, id: i32)
        requires
            id == 0 || merge_index(old(self).spec_queue(), id, now_tick, 0) == -1 ==> now_tick
                + FLOATING_LIFETIME_TICKS <= u64::MAX,
        ensures
            ({
                let q = old(self).spec_queue();
                let j = merge_index(q, id, now_tick, 0);
                if id != 0 && j != -1 {
                    final(self).spec_queue() == q.update(
                        j,
                        ActiveFloatingNumber {
                            number,
                            last_merge: now_tick,
                            start_pos,
                            ..q[j]
                        },
                    )
                } else {
                    final(self).spec_queue() == q.push(
                        ActiveFloatingNumber {
                            number,
                            start_pos,
                            expire_tick: (now_tick + FLOATING_LIFETIME_TICKS) as u64,
                            last_merge: now_tick,
                            id,
                        },
                    )
                }
            }),
    {
        let ghost q = self.queue@;
        proof {
            lemma_merge_index_range(q, id, now_tick, 0);
        }
        if id != 0 {
            let mut k: usize = 0;
            while k < self.queue.len()
                invariant
                    self.queue@ == q,
                    q == old(self).queue@,
                    id != 0,
                    0 <= k <= q.len(),
                    merge_index(q, id, now_tick, k as int) == merge_index(q, id, now_tick, 0),
                decreases q.len() - k,
            {
                let age = if now_tick >= self.queue[k].last_merge {
                    now_tick - self.queue[k].last_merge
                } else {
                    0
                };
                if self.queue[k].id == id && age <= FLOATING_MERGE_TICKS {
                    assert(merges(q[k as int], id, now_tick));
                    assert(merge_index(q, id, now_tick, k as int) == k as int);
                    let ghost old_entry = q[k as int];
                    self.queue[k].number = number;
                    self.queue[k].last_merge = now_tick;
                    self.queue[k].start_pos = start_pos;
                    assert(self.queue@ =~= q.update(
                        k as int,
                        ActiveFloatingNumber { number, last_merge: now_tick, start_pos, ..old_entry },
                    ));
                    return;
                }
                k = k + 1;
            }
        }
        self.queue.push(
            ActiveFloatingNumber {
                number,
                start_pos,
                expire_tick: now_tick + FLOATING_LIFETIME_TICKS,
                last_merge: now_tick,
                id,
            },
        );
    }

    /// Removes the numbers whose lifetime has passed at `now_tick`.
    pub fn clear_expired(&mut self, now_tick: u64)
        ensures
            final(self).spec_queue() == unexpired(old(self).spec_queue(), now_tick),
    {
        let ghost orig = self.queue@;
        let n = self.queue.len();
        let mut k: usize = 0;
        let mut i: usize = 0;
        assert(orig.subrange(0, 0) =~= Seq::<ActiveFloatingNumber>::empty());
        assert(orig.subrange(0, n as int) =~= orig);
        while k < n
            invariant
                n == orig.len(),
                0 <= i <= k <= n,
                i == unexpired(orig.subrange(0, k as int), now_tick).len(),
                self.queue@ == unexpired(orig.subrange(0, k as int), now_tick) + orig.subrange(
                    k as int,
                    n as int,
                ),
            decreases n - k,
        {
            let ghost kept = unexpired(orig.subrange(0, k as int), now_tick);
            assert(orig.subrange(0, k + 1).drop_last() =~= orig.subrange(0, k as int));
            assert(self.queue@[i as int] == orig[k as int]);
            if self.queue[i].expire_tick > now_tick {
                i = i + 1;
                assert(self.queue@ =~= kept.push(orig[k as int]) + orig.subrange(
                    k + 1,
                    n as int,
                ));
            } else {
                self.queue.remove(i);
                assert(self.queue@ =~= kept + orig.subrange(k + 1, n as int));
            }
            k = k + 1;
        }
        assert(self.queue@ =~= unexpired(orig, now_tick));
    }
}

/// After `clear_expired`, every number left expires later than `now`, and
/// every number that expires later is left.
pub proof fn lemma_unexpired_exact(q: Seq<ActiveFloatingNumber>, now: u64)
    ensures
        forall|i: int|
            0 <= i < unexpired(q, now).len() ==> (#[trigger] unexpired(q, now)[i]).expire_tick
                > now,
        forall|i: int|
            0 <= i < q.len() && (#[trigger] q[i]).expire_tick > now ==> unexpired(q, now).contains(
                q[i],
            ),
        unexpired(q, now).len() <= q.len(),
    decreases q.len(),
{
    if q.len() > 0 {
        let rest = q.drop_last();
        lemma_unexpired_exact(rest, now);
        assert forall|i: int|
            0 <= i < q.len() && (#[trigger] q[i]).expire_tick > now implies unexpired(
            q,
            now,
        ).contains(q[i]) by {
            if i < q.len() - 1 {
                assert(rest[i] == q[i]);
                let j = choose|j: int|
                    0 <= j < unexpired(rest, now).len() && unexpired(rest, now)[j] == rest[i];
                if q.last().expire_tick > now {
                    assert(unexpired(q, now)[j] == q[i]);
                }
            } else {
                assert(unexpired(q, now)[unexpired(q, now).len() - 1] == q[i]);
            }
        }
    }
}

} // verus!
