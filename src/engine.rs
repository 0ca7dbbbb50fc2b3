//! The phext engine, libphext: fetching and replacing the scroll at a
//! coordinate, and the derived maps (index, soundex, manifest, checksum,
//! text map). Each result is named by a spec function of the text it is
//! computed from.

use vstd::prelude::*;
use libphext::phext;
use crate::coordinate::Coordinate;

verus! {

/// The scroll that `phext::fetch` finds at `c` in `document`.
pub uninterp spec fn scroll_at(document: Seq<char>, c: Coordinate) -> Seq<char>;

/// The document that `phext::replace` makes by writing `text` at `c`.
pub uninterp spec fn with_scroll(document: Seq<char>, c: Coordinate, text: Seq<char>) -> Seq<char>;

/// The coordinate index that `phext::index` builds.
pub uninterp spec fn index_of(document: Seq<char>) -> Seq<char>;

/// The soundex map that `phext::soundex_v1` builds.
pub uninterp spec fn soundex_of(document: Seq<char>) -> Seq<char>;

/// The per-scroll checksum manifest that `phext::manifest` builds.
pub uninterp spec fn manifest_of(document: Seq<char>) -> Seq<char>;

/// The checksum that `phext::checksum` computes.
pub uninterp spec fn checksum_of(text: Seq<char>) -> Seq<char>;

/// The readable coordinate map that `phext::textmap` renders.
pub uninterp spec fn text_map_of(document: Seq<char>) -> Seq<char>;

/// Relies on `phext::fetch`: the scroll at `c`, empty in an empty document.
/// A component below 1 makes its scan underflow and one of 1000 or more is
/// never reached, hence the `requires`.
#[verifier::external_body]
pub(crate) fn fetch(document: &str, c: Coordinate) -> (r: String)
    requires
        c.valid(),
    ensures
        r@ == scroll_at(document@, c),
        document@.len() == 0 ==> r@.len() == 0,
{
    phext::fetch(document, phext::Coordinate {
        z: phext::ZCoordinate { library: c.library, shelf: c.shelf, series: c.series },
        y: phext::YCoordinate { collection: c.collection, volume: c.volume, book: c.book },
        x: phext::XCoordinate { chapter: c.chapter, section: c.section, scroll: c.scroll },
    })
}

/// Relies on `phext::replace`: `document` with `text` written at `c`. It
/// walks up to `c` one break at a time, which never ends for a component of
/// 1000 or more, hence the `requires`.
#[verifier::external_body]
pub(crate) fn replace(document: &str, c: Coordinate, text: &str) -> (r: String)
    requires
        c.valid(),
    ensures
        r@ == with_scroll(document@, c, text@),
{
    phext::replace(document, phext::Coordinate {
        z: phext::ZCoordinate { library: c.library, shelf: c.shelf, series: c.series },
        y: phext::YCoordinate { collection: c.collection, volume: c.volume, book: c.book },
        x: phext::XCoordinate { chapter: c.chapter, section: c.section, scroll: c.scroll },
    }, text)
}

/// Relies on `phext::index`: the byte offset of each scroll, as a phext.
#[verifier::external_body]
pub(crate) fn index(document: &str) -> (r: String)
    ensures
        r@ == index_of(document@),
{
    phext::index(document)
}

/// Relies on `phext::soundex_v1`: a fingerprint of each scroll, as a phext.
#[verifier::external_body]
pub(crate) fn soundex(document: &str) -> (r: String)
    ensures
        r@ == soundex_of(document@),
{
    phext::soundex_v1(document)
}

/// Relies on `phext::manifest`: the checksum of each scroll, as a phext.
#[verifier::external_body]
pub(crate) fn manifest(document: &str) -> (r: String)
    ensures
        r@ == manifest_of(document@),
{
    phext::manifest(document)
}

/// Relies on `phext::checksum`: an xxh3-128 digest in 32 hex digits.
#[verifier::external_body]
pub(crate) fn checksum(text: &str) -> (r: String)
    ensures
        r@ == checksum_of(text@),
{
    phext::checksum(text)
}

/// Relies on `phext::textmap`: one line per scroll, its coordinate and the
/// start of its text.
#[verifier::external_body]
pub(crate) fn text_map(document: &str) -> (r: String)
    ensures
        r@ == text_map_of(document@),
{
    phext::textmap(document)
}

} // verus!
