//! A show-seeded world of braille dots. It is only for the eye: playback owns the audio.
use crate::text::{join_parts, joined, push_item, views};
use std::time::Instant;
use vstd::prelude::*;
use vstd::string::*;

verus! {

/// How many parameters a show's name gives to its field of dots.
pub const PARAMETERS: usize = 8;

/// The FNV-1a hash of `bytes`.
pub open spec fn fnv1a(bytes: Seq<u8>) -> u32
    decreases bytes.len(),
{
    if bytes.len() == 0 {
        2166136261u32
    } else {
        (fnv1a(bytes.drop_last()) ^ (bytes.last() as u32)).wrapping_mul(16777619u32)
    }
}

/// The `index`-th seed that `hash` gives.
pub open spec fn seed(hash: u32, index: u32) -> u32 {
    let a = hash.wrapping_add(index.wrapping_mul(0x9E37_79B9u32));
    let b = (a ^ (a >> 16u32)).wrapping_mul(0x85EB_CA6Bu32);
    b ^ (b >> 13u32)
}

/// The bit of a braille character that stands for the dot in column `x` and row `y` of its cell.
pub open spec fn dot_bit(x: int, y: int) -> u8 {
    if x == 0 {
        if y == 0 {
            0x01u8
        } else if y == 1 {
            0x02u8
        } else if y == 2 {
            0x04u8
        } else if y == 3 {
            0x40u8
        } else {
            0u8
        }
    } else if x == 1 {
        if y == 0 {
            0x08u8
        } else if y == 1 {
            0x10u8
        } else if y == 2 {
            0x20u8
        } else if y == 3 {
            0x80u8
        } else {
            0u8
        }
    } else {
        0u8
    }
}

/// Whether the dot in column `x` and row `y` is lit. `lit` holds the dots row by row, `columns`
/// of them in each.
pub open spec fn dot_lit(lit: Seq<bool>, columns: int, x: int, y: int) -> bool {
    lit[y * columns + x]
}

/// The bits of the first `count` dots of a cell, taken row by row; those that are not lit are 0.
pub open spec fn cell_bits(
    lit: Seq<bool>,
    columns: int,
    cell_x: int,
    cell_y: int,
    count: nat,
) -> u8
    decreases count,
{
    if count == 0 {
        0u8
    } else {
        let x = (count - 1) % 2;
        let y = (count - 1) / 2;
        let before = cell_bits(lit, columns, cell_x, cell_y, (count - 1) as nat);
        if dot_lit(lit, columns, cell_x * 2 + x, cell_y * 4 + y) {
            before | dot_bit(x, y)
        } else {
            before
        }
    }
}

/// The braille character of a cell.
pub open spec fn cell_char(lit: Seq<bool>, columns: int, cell_x: int, cell_y: int) -> char {
    (0x2800 + cell_bits(lit, columns, cell_x, cell_y, 8)) as char
}

/// A row of `width` cells.
pub open spec fn braille_row(lit: Seq<bool>, width: nat, cell_y: int) -> Seq<char> {
    Seq::new(width, |cell_x: int| cell_char(lit, 2 * width as int, cell_x, cell_y))
}

/// `height` rows of `width` cells.
pub open spec fn braille_rows(lit: Seq<bool>, width: nat, height: nat) -> Seq<Seq<char>> {
    Seq::new(height, |cell_y: int| braille_row(lit, width, cell_y))
}

/// The whole picture: its rows, each on a line of its own.
pub open spec fn braille_text(lit: Seq<bool>, width: nat, height: nat) -> Seq<char> {
    if width == 0 {
        Seq::empty()
    } else {
        joined(braille_rows(lit, width, height), "\n"@)
    }
}

/// `char::from_u32`: the character with that code point, none for a surrogate or a number past
/// the last code point.
pub assume_specification[ char::from_u32 ](i: u32) -> (r: Option<char>)
    ensures
        r == (if i < 0xD800 || 0xE000 <= i <= 0x10FFFF {
            Some(i as char)
        } else {
            None
        }),
;

/// The bit of a braille character that stands for the dot in column `x` and row `y` of its cell.
pub fn braille_dot(x: usize, y: usize) -> (r: u8)
    ensures
        r == dot_bit(x as int, y as int),
{
    match (x, y) {
        (0, 0) => 0x01,
        (0, 1) => 0x02,
        (0, 2) => 0x04,
        (0, 3) => 0x40,
        (1, 0) => 0x08,
        (1, 1) => 0x10,
        (1, 2) => 0x20,
        (1, 3) => 0x80,
        _ => 0,
    }
}

/// The `index`-th seed that `hash` gives.
pub fn seed_value(hash: u32, index: u32) -> (r: u32)
    ensures
        r == seed(hash, index),
{
    let mut value: u32 = hash.wrapping_add(index.wrapping_mul(0x9E37_79B9));
    value = value ^ (value >> 16);
    value = value.wrapping_mul(0x85EB_CA6B);
    value ^ (value >> 13)
}

/// The FNV-1a hash of a show's name.
pub fn identity_hash(identity: &str) -> (r: u32)
    ensures
        r == fnv1a(identity.spec_bytes()),
{
    let bytes = identity.as_bytes();
    let mut hash: u32 = 2166136261;
    for i in 0..bytes.len()
        invariant
            hash == fnv1a(bytes@.take(i as int)),
    {
        proof {
            assert(bytes@.take(i + 1).drop_last() =~= bytes@.take(i as int));
        }
        hash = (hash ^ (bytes[i] as u32)).wrapping_mul(16777619);
    }
    proof {
        assert(bytes@.take(bytes@.len() as int) =~= bytes@);
    }
    hash
}

/// `std::time::Instant`, a reading of the machine's monotonic clock.
#[verifier::external_type_specification]
#[verifier::external_body]
pub struct ExInstant(Instant);

/// `std::time::Instant::now`. Nothing is said of what the clock shows.
#[verifier::external_body]
fn monotonic_now() -> (r: Instant) {
    Instant::now()
}

/// One show's field of dots: when it was opened, and the seeds that shape it.
pub struct LiveVisualizer {
    pub started_at: Instant,
    pub seeds: [u32; 8],
}

impl View for LiveVisualizer {
    type V = Seq<u32>;

    /// The seeds. When the field was opened is a reading of the clock: what keeps that moment says so
    /// itself (`App::visualizer_runs_on`).
    open spec fn view(&self) -> Seq<u32> {
        self.seeds@
    }
}

/// The seeds that a show's name gives.
pub open spec fn seeds_of(identity: Seq<char>) -> Seq<u32> {
    Seq::new(
        PARAMETERS as nat,
        |i: int| seed(fnv1a(vstd::utf8::encode_utf8(identity)), i as u32),
    )
}

/// Whether the machine's monotonic clock has shown `moment`.
pub closed spec fn moment_was_read(moment: Instant) -> bool {
    call_ensures(monotonic_now, (), moment)
}

impl LiveVisualizer {
    /// Whether this is a field that was opened for the show that is named `identity`.
    pub open spec fn opened_for(self, identity: Seq<char>) -> bool {
        exists|name: &str|
            name@ == identity && #[trigger] call_ensures(LiveVisualizer::new, (name,), self)
    }

    /// The field of the show that is named `identity`.
    pub fn new(identity: &str) -> (r: Self)
        ensures
            r@ == seeds_of(identity@),
            moment_was_read(r.started_at),
    {
        let hash = identity_hash(identity);
        let seeds = [
            seed_value(hash, 0),
            seed_value(hash, 1),
            seed_value(hash, 2),
            seed_value(hash, 3),
            seed_value(hash, 4),
            seed_value(hash, 5),
            seed_value(hash, 6),
            seed_value(hash, 7),
        ];
        assert(seeds@ =~= seeds_of(identity@));
        LiveVisualizer { started_at: monotonic_now(), seeds }
    }

    /// Whether the field has to be drawn anew: it never rests.
    pub fn poll(&mut self) -> (r: bool)
        ensures
            r,
            *final(self) == *old(self),
    {
        true
    }

    /// Draws the dots in `lit`, which holds four rows of dots for each of `height` rows of cells
    /// and two dots for each of `width` cells in a row.
    pub fn braille(&self, width: u16, height: u16, lit: &Vec<bool>) -> (r: String)
        requires
            lit@.len() == 8 * width * height,
        ensures
            r@ == braille_text(lit@, width as nat, height as nat),
    {
        if width == 0 || height == 0 {
            return String::new();
        }
        let columns: usize = width as usize * 2;
        let total: usize = lit.len();
        let ghost w = width as nat;
        let mut output: Vec<String> = Vec::new();
        assert(views(output@) =~= Seq::empty());
        for cell_y in 0..height as usize
            invariant
                width > 0,
                columns == 2 * width,
                w == width,
                lit@.len() == total == 8 * width * height,
                views(output@) == braille_rows(lit@, w, cell_y as nat),
        {
            let mut line = String::new();
            for cell_x in 0..width as usize
                invariant
                    width > 0,
                    columns == 2 * width,
                    w == width,
                    cell_y < height,
                    lit@.len() == total == 8 * width * height,
                    line@ == braille_row(lit@, w, cell_y as int).take(cell_x as int),
            {
                let mut dots: u8 = 0;
                for dot_y in 0..4usize
                    invariant
                        columns == 2 * width,
                        cell_x < width,
                        cell_y < height,
                        lit@.len() == total == 8 * width * height,
                        dots == cell_bits(
                            lit@,
                            columns as int,
                            cell_x as int,
                            cell_y as int,
                            (dot_y * 2) as nat,
                        ),
                {
                    for dot_x in 0..2usize
                        invariant
                            columns == 2 * width,
                            cell_x < width,
                            cell_y < height,
                            dot_y < 4,
                            lit@.len() == total == 8 * width * height,
                            dots == cell_bits(
                                lit@,
                                columns as int,
                                cell_x as int,
                                cell_y as int,
                                (dot_y * 2 + dot_x) as nat,
                            ),
                    {
                        let y: usize = cell_y * 4 + dot_y;
                        let x: usize = cell_x * 2 + dot_x;
                        proof {
                            assert(y * columns + x < 8 * width * height) by (nonlinear_arith)
                                requires
                                    y <= 4 * height - 1,
                                    x <= columns - 1,
                                    columns == 2 * width,
                                    y >= 0,
                            ;
                            assert(y * columns >= 0) by (nonlinear_arith)
                                requires
                                    y >= 0,
                                    columns >= 0,
                            ;
                        }
                        if lit[y * columns + x] {
                            dots = dots | braille_dot(dot_x, dot_y);
                        }
                    }
                }
                line.push(
                    match char::from_u32(0x2800 + dots as u32) {
                        Some(c) => c,
                        None => ' ',
                    },
                );
                assert(line@ =~= braille_row(lit@, w, cell_y as int).take(cell_x + 1));
            }
            assert(line@ =~= braille_row(lit@, w, cell_y as int));
            push_item(&mut output, line);
            assert(views(output@) =~= braille_rows(lit@, w, (cell_y + 1) as nat));
        }
        join_parts(&output, "\n")
    }
}

/// The dots of a cell have bits of their own: in the union of those that are lit, the bit of a
/// dot tells whether that dot is lit.
proof fn lemma_bits_are_apart(
    a: bool,
    b: bool,
    c: bool,
    d: bool,
    e: bool,
    f: bool,
    g: bool,
    h: bool,
)
    ensures
        ({
            let s0 = if a { 0u8 | 0x01u8 } else { 0u8 };
            let s1 = if b { s0 | 0x08u8 } else { s0 };
            let s2 = if c { s1 | 0x02u8 } else { s1 };
            let s3 = if d { s2 | 0x10u8 } else { s2 };
            let s4 = if e { s3 | 0x04u8 } else { s3 };
            let s5 = if f { s4 | 0x20u8 } else { s4 };
            let s6 = if g { s5 | 0x40u8 } else { s5 };
            let s7 = if h { s6 | 0x80u8 } else { s6 };
            &&& (s7 & 0x01u8 != 0) == a
            &&& (s7 & 0x08u8 != 0) == b
            &&& (s7 & 0x02u8 != 0) == c
            &&& (s7 & 0x10u8 != 0) == d
            &&& (s7 & 0x04u8 != 0) == e
            &&& (s7 & 0x20u8 != 0) == f
            &&& (s7 & 0x40u8 != 0) == g
            &&& (s7 & 0x80u8 != 0) == h
        }),
{
    assert({
        let s0 = if a { 0u8 | 0x01u8 } else { 0u8 };
        let s1 = if b { s0 | 0x08u8 } else { s0 };
        let s2 = if c { s1 | 0x02u8 } else { s1 };
        let s3 = if d { s2 | 0x10u8 } else { s2 };
        let s4 = if e { s3 | 0x04u8 } else { s3 };
        let s5 = if f { s4 | 0x20u8 } else { s4 };
        let s6 = if g { s5 | 0x40u8 } else { s5 };
        let s7 = if h { s6 | 0x80u8 } else { s6 };
        &&& (s7 & 0x01u8 != 0) == a
        &&& (s7 & 0x08u8 != 0) == b
        &&& (s7 & 0x02u8 != 0) == c
        &&& (s7 & 0x10u8 != 0) == d
        &&& (s7 & 0x04u8 != 0) == e
        &&& (s7 & 0x20u8 != 0) == f
        &&& (s7 & 0x40u8 != 0) == g
        &&& (s7 & 0x80u8 != 0) == h
    }) by (bit_vector);
}

/// A cell's character shows exactly the dots that are lit in it.
pub proof fn law_a_cell_shows_its_dots(
    lit: Seq<bool>,
    columns: int,
    cell_x: int,
    cell_y: int,
    x: int,
    y: int,
)
    requires
        0 <= x < 2,
        0 <= y < 4,
    ensures
        (cell_bits(lit, columns, cell_x, cell_y, 8) & dot_bit(x, y) != 0) == dot_lit(
            lit,
            columns,
            cell_x * 2 + x,
            cell_y * 4 + y,
        ),
{
    reveal_with_fuel(cell_bits, 9);
    lemma_bits_are_apart(
        dot_lit(lit, columns, cell_x * 2, cell_y * 4),
        dot_lit(lit, columns, cell_x * 2 + 1, cell_y * 4),
        dot_lit(lit, columns, cell_x * 2, cell_y * 4 + 1),
        dot_lit(lit, columns, cell_x * 2 + 1, cell_y * 4 + 1),
        dot_lit(lit, columns, cell_x * 2, cell_y * 4 + 2),
        dot_lit(lit, columns, cell_x * 2 + 1, cell_y * 4 + 2),
        dot_lit(lit, columns, cell_x * 2, cell_y * 4 + 3),
        dot_lit(lit, columns, cell_x * 2 + 1, cell_y * 4 + 3),
    );
}

/// The picture is as large as it was asked for: so many lines of so many characters, each of them
/// from the braille block.
pub proof fn law_the_picture_fills_its_grid(lit: Seq<bool>, width: nat, height: nat)
    ensures
        braille_rows(lit, width, height).len() == height,
        forall|j: int|
            0 <= j < height ==> (#[trigger] braille_rows(lit, width, height)[j]).len() == width,
        forall|j: int, i: int|
            0 <= j < height && 0 <= i < width ==> 0x2800 <= (#[trigger] braille_rows(
                lit,
                width,
                height,
            )[j][i]) as int <= 0x28FF,
{
}

} // verus!
