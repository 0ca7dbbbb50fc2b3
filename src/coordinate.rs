//! Coordinates: the nine-part address of a scroll, its text form, and the
//! parse of user input into one (done by libphext).

use vstd::prelude::*;
use vstd::string::StringSliceAdditionalSpecFns;
use vstd::utf8::encode_utf8;
use libphext::phext;
use crate::text::{decimal, decimal_text, same_text};

verus! {

/// Components run from 1 up to, but not including, this bound: the engine
/// never walks a dimension past 999.
pub const COORDINATE_LIMIT: usize = 1000;

/// A phext address: library.shelf.series/collection.volume.book/chapter.section.scroll.
#[derive(Clone, Copy, Debug, PartialEq, Eq, Structural)]
pub struct Coordinate {
    pub library: usize,
    pub shelf: usize,
    pub series: usize,
    pub collection: usize,
    pub volume: usize,
    pub book: usize,
    pub chapter: usize,
    pub section: usize,
    pub scroll: usize,
}

pub open spec fn component_ok(n: usize) -> bool {
    1 <= n && n < COORDINATE_LIMIT
}

/// The three-part text `a.b.c`.
pub open spec fn tier_text(a: usize, b: usize, c: usize) -> Seq<char> {
    decimal(a as nat) + "."@ + decimal(b as nat) + "."@ + decimal(c as nat)
}

/// The address prefix that the prompt leaves out.
pub open spec fn origin_tier() -> Seq<char> {
    "1.1.1/"@
}

/// `s` with every leading `1.1.1/` removed.
pub open spec fn strip_origin_tiers(s: Seq<char>) -> Seq<char>
    decreases s.len(),
{
    if s.len() >= 6 && s.take(6) == origin_tier() {
        strip_origin_tiers(s.skip(6))
    } else {
        s
    }
}

impl Coordinate {
    /// Every component lies in `1..COORDINATE_LIMIT`.
    pub open spec fn valid(&self) -> bool {
        component_ok(self.library) && component_ok(self.shelf) && component_ok(self.series)
            && component_ok(self.collection) && component_ok(self.volume) && component_ok(
            self.book,
        ) && component_ok(self.chapter) && component_ok(self.section) && component_ok(
            self.scroll,
        )
    }

    /// The canonical text `z3.z2.z1/y3.y2.y1/x3.x2.x1`.
    pub open spec fn text(&self) -> Seq<char> {
        tier_text(self.library, self.shelf, self.series) + "/"@ + tier_text(
            self.collection,
            self.volume,
            self.book,
        ) + "/"@ + tier_text(self.chapter, self.section, self.scroll)
    }

    /// The first position in every dimension, `1.1.1/1.1.1/1.1.1`.
    pub open spec fn spec_origin() -> Coordinate {
        Coordinate {
            library: 1,
            shelf: 1,
            series: 1,
            collection: 1,
            volume: 1,
            book: 1,
            chapter: 1,
            section: 1,
            scroll: 1,
        }
    }

    pub fn origin() -> (r: Coordinate)
        ensures
            r == Coordinate::spec_origin(),
            r.valid(),
    {
        Coordinate {
            library: 1,
            shelf: 1,
            series: 1,
            collection: 1,
            volume: 1,
            book: 1,
            chapter: 1,
            section: 1,
            scroll: 1,
        }
    }

    pub fn is_valid(&self) -> (r: bool)
        ensures
            r == self.valid(),
    {
        1 <= self.library && self.library < COORDINATE_LIMIT && 1 <= self.shelf && self.shelf
            < COORDINATE_LIMIT && 1 <= self.series && self.series < COORDINATE_LIMIT && 1
            <= self.collection && self.collection < COORDINATE_LIMIT && 1 <= self.volume
            && self.volume < COORDINATE_LIMIT && 1 <= self.book && self.book < COORDINATE_LIMIT
            && 1 <= self.chapter && self.chapter < COORDINATE_LIMIT && 1 <= self.section
            && self.section < COORDINATE_LIMIT && 1 <= self.scroll && self.scroll
            < COORDINATE_LIMIT
    }

    /// The canonical text of the coordinate.
    pub fn to_text(&self) -> (r: String)
        ensures
            r@ == self.text(),
    {
        let mut r = tier_to_text(self.library, self.shelf, self.series);
        r.append("/");
        let y = tier_to_text(self.collection, self.volume, self.book);
        r.append(y.as_str());
        r.append("/");
        let x = tier_to_text(self.chapter, self.section, self.scroll);
        r.append(x.as_str());
        r
    }

    /// The text shown in the prompt: the canonical text without its leading
    /// `1.1.1/` tiers.
    pub fn prompt_text(&self) -> (r: String)
        ensures
            r@ == strip_origin_tiers(self.text()),
    {
        let full = self.to_text();
        let mut rest: &str = full.as_str();
        let origin: &str = "1.1.1/";
        proof {
            reveal_strlit("1.1.1/");
        }
        let mut n = rest.unicode_len();
        while n >= 6 && same_text(rest.substring_char(0, 6), origin)
            invariant
                n == rest@.len(),
                strip_origin_tiers(rest@) == strip_origin_tiers(self.text()),
                origin@ == origin_tier(),
            decreases n,
        {
            rest = rest.substring_char(6, n);
            n = n - 6;
        }
        rest.to_owned()
    }
}

fn tier_to_text(a: usize, b: usize, c: usize) -> (r: String)
    ensures
        r@ == tier_text(a, b, c),
{
    let mut r = decimal_text(a);
    r.append(".");
    let bt = decimal_text(b);
    r.append(bt.as_str());
    r.append(".");
    let ct = decimal_text(c);
    r.append(ct.as_str());
    r
}

/// The bytes that end one component of an address: `.`, `/` and `;`.
pub open spec fn is_address_break(b: u8) -> bool {
    b == 46 || b == 47 || b == 59
}

pub open spec fn is_digit_byte(b: u8) -> bool {
    48 <= b && b <= 57
}

/// Whether every component of the address, read from `bytes` with `value`
/// as the digits read so far, stays within `u32`; letters are skipped and a
/// break starts a new component.
pub open spec fn fits_from(bytes: Seq<u8>, value: nat) -> bool
    decreases bytes.len(),
{
    if bytes.len() == 0 {
        true
    } else if is_address_break(bytes[0]) {
        fits_from(bytes.drop_first(), 0)
    } else if is_digit_byte(bytes[0]) {
        let v = 10 * value + (bytes[0] - 48) as nat;
        v <= u32::MAX && fits_from(bytes.drop_first(), v)
    } else {
        fits_from(bytes.drop_first(), value)
    }
}

/// The address text can be read without a component overflowing.
pub open spec fn address_fits(s: Seq<char>) -> bool {
    fits_from(encode_utf8(s), 0)
}

/// The coordinate that an address text names, where it can be read and
/// every component lies in `1..COORDINATE_LIMIT`.
pub open spec fn accepted_address(s: Seq<char>) -> Option<Coordinate> {
    if address_fits(s) && parsed_address(s).valid() {
        Some(parsed_address(s))
    } else {
        None
    }
}

/// What libphext's lenient parse makes of an address text.
pub uninterp spec fn parsed_address(s: Seq<char>) -> Coordinate;

/// Relies on `phext::to_coordinate`, which panics when a component
/// overflows `u32`, hence the `requires`.
#[verifier::external_body]
fn parse_address(s: &str) -> (r: Coordinate)
    requires
        address_fits(s@),
    ensures
        r == parsed_address(s@),
{
    let c = phext::to_coordinate(s);
    Coordinate {
        library: c.z.library, shelf: c.z.shelf, series: c.z.series,
        collection: c.y.collection, volume: c.y.volume, book: c.y.book,
        chapter: c.x.chapter, section: c.x.section, scroll: c.x.scroll,
    }
}

/// Whether the address can be read without overflow.
pub fn check_address(s: &str) -> (r: bool)
    ensures
        r == address_fits(s@),
{
    let bytes = s.as_bytes();
    let n = bytes.len();
    let mut i: usize = 0;
    let mut value: u64 = 0;
    assert(bytes@.skip(0) =~= bytes@);
    while i < n
        invariant
            n == bytes@.len(),
            bytes@ == s.spec_bytes(),
            i <= n,
            value <= u32::MAX,
            fits_from(bytes@, 0) == fits_from(bytes@.skip(i as int), value as nat),
        decreases n - i,
    {
        let b = bytes[i];
        assert(bytes@.skip(i as int).drop_first() =~= bytes@.skip(i + 1));
        if b == 46 || b == 47 || b == 59 {
            value = 0;
        } else if 48 <= b && b <= 57 {
            let v = 10 * value + (b - 48) as u64;
            if v > 0xffff_ffff {
                return false;
            }
            value = v;
        }
        i = i + 1;
    }
    assert(bytes@.skip(n as int).len() == 0);
    true
}

/// The coordinate named by `s`, or `None` when `s` overflows a component or
/// names a component outside `1..COORDINATE_LIMIT`.
pub fn read_address(s: &str) -> (r: Option<Coordinate>)
    ensures
        r == accepted_address(s@),
{
    if !check_address(s) {
        return None;
    }
    let c = parse_address(s);
    if c.is_valid() {
        Some(c)
    } else {
        None
    }
}

} // verus!
