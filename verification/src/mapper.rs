//! The palette mapper: finds, for a colour, the nearest entry of a target palette, and rewrites
//! a flat colour table entry by entry.

use crate::color::Color;
use crate::error::PaletteError;
use vstd::prelude::*;

verus! {

/// Whether entry `i` of `palette` is the nearest to `color`: no entry is strictly nearer, and
/// every entry before it is strictly farther. Among entries at the same distance this holds of
/// the first one only.
pub open spec fn is_nearest(color: Color, palette: Seq<Color>, i: int) -> bool {
    &&& 0 <= i < palette.len()
    &&& forall|j: int|
        0 <= j < palette.len() ==> palette[i].spec_distance_squared(color)
            <= (#[trigger] palette[j]).spec_distance_squared(color)
    &&& forall|j: int|
        0 <= j < i ==> palette[i].spec_distance_squared(color)
            < (#[trigger] palette[j]).spec_distance_squared(color)
}

/// The index of the entry of `palette` nearest to `color`. It is meaningful for a palette that
/// is not empty.
pub open spec fn nearest_index(color: Color, palette: Seq<Color>) -> int {
    choose|i: int| is_nearest(color, palette, i)
}

/// Channel `n` of `color`: red, green, blue for 0, 1, 2.
pub open spec fn channel(color: Color, n: int) -> u8 {
    if n == 0 {
        color.r
    } else if n == 1 {
        color.g
    } else {
        color.b
    }
}

/// Entry `k` of the flat colour table `table`.
pub open spec fn color_at(table: Seq<u8>, k: int) -> Color {
    Color { r: table[3 * k], g: table[3 * k + 1], b: table[3 * k + 2] }
}

/// The number of bytes of a table of `len` bytes that belong to complete entries.
pub open spec fn whole_entries_len(len: nat) -> nat {
    (len - len % 3) as nat
}

/// The table that `source` is mapped to: each complete entry is replaced by the entry of
/// `palette` nearest to it; one or two bytes left over at the end are dropped.
pub open spec fn mapped_table(source: Seq<u8>, palette: Seq<Color>) -> Seq<u8> {
    Seq::new(
        whole_entries_len(source.len()),
        |k: int| channel(palette[nearest_index(color_at(source, k / 3), palette)], k % 3),
    )
}

/// The colours of `palette` laid out as a flat colour table, in palette order.
pub open spec fn flattened(palette: Seq<Color>) -> Seq<u8> {
    Seq::new(3 * palette.len(), |k: int| channel(palette[k / 3], k % 3))
}

/// At most one entry of a palette is the nearest to a colour.
pub proof fn nearest_is_unique(color: Color, palette: Seq<Color>, i: int, j: int)
    requires
        is_nearest(color, palette, i),
        is_nearest(color, palette, j),
    ensures
        i == j,
{
    if i < j {
        assert(palette[i].spec_distance_squared(color) <= palette[j].spec_distance_squared(color));
    } else if j < i {
        assert(palette[j].spec_distance_squared(color) <= palette[i].spec_distance_squared(color));
    }
}

/// Among the first `n` entries of `palette`, the first one at the least distance from `color`.
proof fn nearest_among_first(color: Color, palette: Seq<Color>, n: int) -> (i: int)
    requires
        1 <= n <= palette.len(),
    ensures
        is_nearest(color, palette.take(n), i),
    decreases n,
{
    if n == 1 {
        0
    } else {
        let before = nearest_among_first(color, palette, n - 1);
        let prefix = palette.take(n - 1);
        let taken = palette.take(n);
        let i = if palette[n - 1].spec_distance_squared(color) < palette[before].spec_distance_squared(
            color,
        ) {
            n - 1
        } else {
            before
        };
        assert forall|j: int| 0 <= j < taken.len() implies taken[i].spec_distance_squared(color)
            <= (#[trigger] taken[j]).spec_distance_squared(color) by {
            if j < n - 1 {
                assert(prefix[j] == taken[j]);
            }
        }
        assert forall|j: int| 0 <= j < i implies taken[i].spec_distance_squared(color) < (
        #[trigger] taken[j]).spec_distance_squared(color) by {
            assert(prefix[j] == taken[j]);
        }
        i
    }
}

/// In a palette that is not empty, the nearest index is a valid index, no entry is strictly
/// nearer to the colour than the entry there, and every earlier entry is strictly farther.
pub proof fn nearest_index_is_nearest(color: Color, palette: Seq<Color>)
    requires
        palette.len() > 0,
    ensures
        is_nearest(color, palette, nearest_index(color, palette)),
{
    let i = nearest_among_first(color, palette, palette.len() as int);
    assert(palette.take(palette.len() as int) =~= palette);
    assert(is_nearest(color, palette, i));
}

/// Of two entries at the same distance from a colour, the later one is never the nearest
/// index: a tie goes to the lower index.
pub proof fn tie_goes_to_lower_index(color: Color, palette: Seq<Color>, lower: int, higher: int)
    requires
        0 <= lower < higher < palette.len(),
        palette[lower].spec_distance_squared(color) == palette[higher].spec_distance_squared(color),
    ensures
        nearest_index(color, palette) != higher,
{
    nearest_index_is_nearest(color, palette);
}

/// Finds the entry of `palette` nearest to `color` by squared distance. Of several entries at
/// the least distance, the first is chosen. An empty palette has no nearest entry.
pub fn nearest_color_index(color: &Color, palette: &[Color]) -> (found: Result<usize, PaletteError>)
    ensures
        found is Err <==> palette@.len() == 0,
        found matches Ok(i) ==> is_nearest(*color, palette@, i as int) && i == nearest_index(
            *color,
            palette@,
        ),
{
    if palette.len() == 0 {
        return Err(PaletteError::EmptyPalette);
    }
    let mut best: usize = 0;
    let mut best_distance: u32 = palette[0].distance_squared(color);
    let mut i: usize = 1;
    while i < palette.len()
        invariant
            1 <= i <= palette.len(),
            best < i,
            best_distance == palette@[best as int].spec_distance_squared(*color),
            forall|j: int|
                0 <= j < i ==> best_distance <= (#[trigger] palette@[j]).spec_distance_squared(
                    *color,
                ),
            forall|j: int|
                0 <= j < best ==> best_distance < (#[trigger] palette@[j]).spec_distance_squared(
                    *color,
                ),
        decreases palette.len() - i,
    {
        let distance = palette[i].distance_squared(color);
        if distance < best_distance {
            best = i;
            best_distance = distance;
        }
        i += 1;
    }
    proof {
        nearest_index_is_nearest(*color, palette@);
        nearest_is_unique(*color, palette@, best as int, nearest_index(*color, palette@));
    }
    Ok(best)
}

/// Maps the flat colour table `original_palette` onto `target_palette`: each complete entry of
/// three bytes is replaced by the target colour nearest to it, and one or two bytes left over
/// at the end are dropped. The result is a new table. With an empty target palette there is
/// nothing to map to, which is an error as soon as the table holds one complete entry.
pub fn create_mapped_palette(original_palette: &[u8], target_palette: &[Color]) -> (mapped: Result<
    Vec<u8>,
    PaletteError,
>)
    ensures
        mapped is Err <==> target_palette@.len() == 0 && original_palette@.len() >= 3,
        mapped matches Ok(table) ==> table@ == mapped_table(original_palette@, target_palette@),
        mapped matches Ok(table) ==> table@.len() == original_palette@.len()
            - original_palette@.len() % 3,
{
    let n = original_palette.len();
    let mut table: Vec<u8> = Vec::new();
    let mut i: usize = 0;
    while n - i >= 3
        invariant
            n == original_palette@.len(),
            i <= n,
            i % 3 == 0,
            i > 0 ==> target_palette@.len() > 0,
            table@.len() == i,
            forall|k: int|
                0 <= k < i ==> #[trigger] table@[k] == channel(
                    target_palette@[nearest_index(
                        color_at(original_palette@, k / 3),
                        target_palette@,
                    )],
                    k % 3,
                ),
        decreases n - i,
    {
        let color = Color {
            r: original_palette[i],
            g: original_palette[i + 1],
            b: original_palette[i + 2],
        };
        let nearest = match nearest_color_index(&color, target_palette) {
            Ok(index) => target_palette[index],
            Err(e) => {
                return Err(e);
            },
        };
        table.push(nearest.r);
        table.push(nearest.g);
        table.push(nearest.b);
        i += 3;
    }
    Ok(table)
}

/// Lays the colours of `palette` out as a flat colour table, three bytes for each, in palette
/// order.
pub fn flatten_palette(palette: &[Color]) -> (table: Vec<u8>)
    ensures
        table@ == flattened(palette@),
{
    let mut table: Vec<u8> = Vec::new();
    let mut i: usize = 0;
    while i < palette.len()
        invariant
            i <= palette.len(),
            table@.len() == 3 * i,
            forall|k: int|
                0 <= k < 3 * i ==> #[trigger] table@[k] == channel(palette@[k / 3], k % 3),
        decreases palette.len() - i,
    {
        let color = palette[i];
        table.push(color.r);
        table.push(color.g);
        table.push(color.b);
        i += 1;
    }
    table
}

/// The mapped table has one entry for each complete entry of the source: it is as long as the
/// source without the one or two bytes left over at its end, so a multiple of three, never
/// longer than the source, and empty for an empty source.
pub proof fn mapped_table_length(source: Seq<u8>, palette: Seq<Color>)
    ensures
        mapped_table(source, palette).len() == source.len() - source.len() % 3,
        mapped_table(source, palette).len() % 3 == 0,
        mapped_table(source, palette).len() <= source.len(),
        source.len() % 3 == 0 ==> mapped_table(source, palette).len() == source.len(),
        source.len() == 0 ==> mapped_table(source, palette) == Seq::<u8>::empty(),
{
}

/// One or two bytes after the last complete entry of a table change nothing in what the table
/// is mapped to.
pub proof fn mapped_table_ignores_partial_entry(
    source: Seq<u8>,
    extra: Seq<u8>,
    palette: Seq<Color>,
)
    requires
        source.len() % 3 == 0,
        extra.len() < 3,
    ensures
        mapped_table(source + extra, palette) == mapped_table(source, palette),
{
    let longer = source + extra;
    assert forall|k: int| 0 <= k < source.len() implies #[trigger] mapped_table(longer, palette)[k]
        == mapped_table(source, palette)[k] by {
        let e = k / 3;
        assert(longer[3 * e] == source[3 * e]);
        assert(longer[3 * e + 1] == source[3 * e + 1]);
        assert(longer[3 * e + 2] == source[3 * e + 2]);
    }
    assert(mapped_table(longer, palette) =~= mapped_table(source, palette));
}

/// Mapping is a function of the source table and the target palette alone: two runs on the
/// same table with the same palette give the same bytes.
pub proof fn mapping_is_repeatable(
    source: Seq<u8>,
    palette: Seq<Color>,
    first: Seq<u8>,
    second: Seq<u8>,
)
    requires
        first == mapped_table(source, palette),
        second == mapped_table(source, palette),
    ensures
        first == second,
{
}

/// Two colours at distance zero are the same colour.
proof fn zero_distance_is_equality(a: Color, b: Color)
    requires
        a.spec_distance_squared(b) == 0,
    ensures
        a == b,
{
    let dr = a.r - b.r;
    let dg = a.g - b.g;
    let db = a.b - b.b;
    assert(dr * dr >= 0 && (dr != 0 ==> dr * dr > 0)) by (nonlinear_arith);
    assert(dg * dg >= 0 && (dg != 0 ==> dg * dg > 0)) by (nonlinear_arith);
    assert(db * db >= 0 && (db != 0 ==> db * db > 0)) by (nonlinear_arith);
}

/// A table that was mapped onto a palette is left unchanged by mapping it onto the same
/// palette again.
pub proof fn mapping_is_idempotent(source: Seq<u8>, palette: Seq<Color>)
    requires
        palette.len() > 0,
    ensures
        mapped_table(mapped_table(source, palette), palette) == mapped_table(source, palette),
{
    let once = mapped_table(source, palette);
    let twice = mapped_table(once, palette);
    assert forall|k: int| 0 <= k < once.len() implies #[trigger] twice[k] == once[k] by {
        let e = k / 3;
        let chosen = nearest_index(color_at(source, e), palette);
        nearest_index_is_nearest(color_at(source, e), palette);
        assert(once[3 * e] == channel(palette[chosen], 0));
        assert(once[3 * e + 1] == channel(palette[chosen], 1));
        assert(once[3 * e + 2] == channel(palette[chosen], 2));
        assert(color_at(once, e) == palette[chosen]);
        let again = nearest_index(palette[chosen], palette);
        nearest_index_is_nearest(palette[chosen], palette);
        assert(palette[chosen].spec_distance_squared(palette[chosen]) == 0);
        assert(palette[again].spec_distance_squared(palette[chosen]) <= palette[chosen].spec_distance_squared(
            palette[chosen],
        ));
        assert(palette[again].spec_distance_squared(palette[chosen]) >= 0) by (nonlinear_arith);
        zero_distance_is_equality(palette[again], palette[chosen]);
    }
    assert(twice =~= once);
}

} // verus!
