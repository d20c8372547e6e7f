//! Splitting the observer location argument, `lat=<deg>,lon=<deg>,alt=<m>`,
//! into the text of its three values.
//!
//! The argument is a comma-separated list of `key=value` fields in any
//! order. A field counts for a key when it starts with the key and `=`; its
//! value is everything after that `=`. Where a key occurs more than once the
//! last field wins. Fields of no known key are ignored. Reading each value
//! as a number is up to the caller.

use vstd::prelude::*;
use vstd::string::StringSliceAdditionalSpecFns;

verus! {

/// The value texts of the three keys, as the argument spelled them.
#[derive(Clone, Debug, PartialEq, Eq)]
pub struct LocationFields {
    pub lat: Vec<u8>,
    pub lon: Vec<u8>,
    pub alt: Vec<u8>,
}

/// The argument lacks a field for one of the keys.
#[derive(Clone, Copy, Debug, PartialEq, Eq)]
pub enum LocationError {
    MissingLat,
    MissingLon,
    MissingAlt,
}

/// The key `lat`.
pub open spec fn lat_key() -> Seq<u8> {
    seq![108u8, 97u8, 116u8]
}

/// The key `lon`.
pub open spec fn lon_key() -> Seq<u8> {
    seq![108u8, 111u8, 110u8]
}

/// The key `alt`.
pub open spec fn alt_key() -> Seq<u8> {
    seq![97u8, 108u8, 116u8]
}

/// The comma-separated fields of `s`, in order; an empty text is one empty field.
pub open spec fn fields(s: Seq<u8>) -> Seq<Seq<u8>>
    decreases s.len(),
{
    if s.len() == 0 {
        seq![Seq::empty()]
    } else {
        let f = fields(s.drop_last());
        if s.last() == 44u8 {
            f.push(Seq::empty())
        } else {
            f.update(f.len() - 1, f.last().push(s.last()))
        }
    }
}

/// Field `f` starts with `key` followed by `=`.
pub open spec fn has_key(f: Seq<u8>, key: Seq<u8>) -> bool {
    f.len() > key.len() && f.subrange(0, key.len() as int) == key && f[key.len() as int] == 61u8
}

/// The value of the last field of `fs` that has `key`.
pub open spec fn lookup(fs: Seq<Seq<u8>>, key: Seq<u8>) -> Option<Seq<u8>>
    decreases fs.len(),
{
    if fs.len() == 0 {
        None
    } else if has_key(fs.last(), key) {
        Some(fs.last().subrange(key.len() + 1 as int, fs.last().len() as int))
    } else {
        lookup(fs.drop_last(), key)
    }
}

/// What splitting `s` gives: the three values, or the first missing key in
/// the order latitude, longitude, altitude.
pub open spec fn location_spec(s: Seq<u8>) -> Result<(Seq<u8>, Seq<u8>, Seq<u8>), LocationError> {
    let fs = fields(s);
    if lookup(fs, lat_key()) is None {
        Err(LocationError::MissingLat)
    } else if lookup(fs, lon_key()) is None {
        Err(LocationError::MissingLon)
    } else if lookup(fs, alt_key()) is None {
        Err(LocationError::MissingAlt)
    } else {
        Ok((lookup(fs, lat_key())->0, lookup(fs, lon_key())->0, lookup(fs, alt_key())->0))
    }
}

/// Whether `b[a..e]` starts with the key `k0 k1 k2` and `=`.
fn segment_has_key(b: &[u8], a: usize, e: usize, k0: u8, k1: u8, k2: u8) -> (r: bool)
    requires
        a <= e <= b@.len(),
    ensures
        r == has_key(b@.subrange(a as int, e as int), seq![k0, k1, k2]),
{
    let ghost f = b@.subrange(a as int, e as int);
    if e - a < 4 {
        return false;
    }
    let r = b[a] == k0 && b[a + 1] == k1 && b[a + 2] == k2 && b[a + 3] == 61u8;
    proof {
        if r {
            assert(f.subrange(0, 3) =~= seq![k0, k1, k2]);
        } else if f.subrange(0, 3) == seq![k0, k1, k2] {
            assert(f.subrange(0, 3)[0] == f[0]);
            assert(f.subrange(0, 3)[1] == f[1]);
            assert(f.subrange(0, 3)[2] == f[2]);
        }
    }
    r
}

/// A copy of `b[a..e]`.
fn copy_range(b: &[u8], a: usize, e: usize) -> (r: Vec<u8>)
    requires
        a <= e <= b@.len(),
    ensures
        r@ == b@.subrange(a as int, e as int),
{
    let mut out: Vec<u8> = Vec::new();
    let mut i: usize = a;
    while i < e
        invariant
            a <= i <= e <= b@.len(),
            out@ == b@.subrange(a as int, i as int),
        decreases e - i,
    {
        out.push(b[i]);
        i += 1;
        assert(out@ =~= b@.subrange(a as int, i as int));
    }
    out
}

/// `found` marks, as a range of `b`, the value `v`.
pub open spec fn marks(b: Seq<u8>, found: Option<(usize, usize)>, v: Option<Seq<u8>>) -> bool {
    match found {
        None => v is None,
        Some((x, y)) => x <= y <= b.len() && v == Some(b.subrange(x as int, y as int)),
    }
}

/// Takes the finished field `b[a..e]` into account for the key `k0 k1 k2`.
fn note_field(
    b: &[u8],
    a: usize,
    e: usize,
    found: Option<(usize, usize)>,
    k0: u8,
    k1: u8,
    k2: u8,
    done: Ghost<Seq<Seq<u8>>>,
) -> (r: Option<(usize, usize)>)
    requires
        a <= e <= b@.len(),
        marks(b@, found, lookup(done@, seq![k0, k1, k2])),
    ensures
        marks(b@, r, lookup(done@.push(b@.subrange(a as int, e as int)), seq![k0, k1, k2])),
{
    let ghost key = seq![k0, k1, k2];
    let ghost f = b@.subrange(a as int, e as int);
    assert(done@.push(f).drop_last() =~= done@);
    if segment_has_key(b, a, e, k0, k1, k2) {
        assert(f.subrange(4, f.len() as int) =~= b@.subrange(a + 4, e as int));
        Some((a + 4, e))
    } else {
        found
    }
}

/// Splits a location argument into the texts of its latitude, longitude
/// and altitude, or names the first key (in that order) that has no field.
pub fn parse_location(text: &str) -> (r: Result<LocationFields, LocationError>)
    ensures
        r is Ok <==> (lookup(fields(text.spec_bytes()), lat_key()) is Some && lookup(
            fields(text.spec_bytes()),
            lon_key(),
        ) is Some && lookup(fields(text.spec_bytes()), alt_key()) is Some),
        match r {
            Ok(l) => location_spec(text.spec_bytes()) == Ok::<_, LocationError>(
                (l.lat@, l.lon@, l.alt@),
            ),
            Err(e) => location_spec(text.spec_bytes()) == Err::<
                (Seq<u8>, Seq<u8>, Seq<u8>),
                _,
            >(e),
        },
{
    let b: &[u8] = text.as_bytes();
    let n: usize = b.len();
    let mut start: usize = 0;
    let mut i: usize = 0;
    let mut lat: Option<(usize, usize)> = None;
    let mut lon: Option<(usize, usize)> = None;
    let mut alt: Option<(usize, usize)> = None;
    let ghost mut done: Seq<Seq<u8>> = Seq::empty();
    assert(b@.subrange(0, 0) =~= Seq::<u8>::empty());
    assert(fields(b@.subrange(0, 0)) =~= done.push(b@.subrange(0, 0)));
    while i < n
        invariant
            n == b@.len(),
            start <= i <= n,
            fields(b@.subrange(0, i as int)) == done.push(b@.subrange(start as int, i as int)),
            marks(b@, lat, lookup(done, lat_key())),
            marks(b@, lon, lookup(done, lon_key())),
            marks(b@, alt, lookup(done, alt_key())),
        decreases n - i,
    {
        let ghost cur = b@.subrange(start as int, i as int);
        assert(b@.subrange(0, i + 1).drop_last() =~= b@.subrange(0, i as int));
        if b[i] == 44u8 {
            lat = note_field(b, start, i, lat, 108u8, 97u8, 116u8, Ghost(done));
            lon = note_field(b, start, i, lon, 108u8, 111u8, 110u8, Ghost(done));
            alt = note_field(b, start, i, alt, 97u8, 108u8, 116u8, Ghost(done));
            proof {
                done = done.push(cur);
                assert(b@.subrange(i + 1, i + 1) =~= Seq::<u8>::empty());
            }
            start = i + 1;
        } else {
            assert(b@.subrange(start as int, i + 1) =~= cur.push(b@[i as int]));
            assert(done.push(cur).update(done.len() as int, cur.push(b@[i as int])) =~= done.push(
                cur.push(b@[i as int]),
            ));
        }
        i += 1;
    }
    assert(b@.subrange(0, n as int) =~= b@);
    lat = note_field(b, start, n, lat, 108u8, 97u8, 116u8, Ghost(done));
    lon = note_field(b, start, n, lon, 108u8, 111u8, 110u8, Ghost(done));
    alt = note_field(b, start, n, alt, 97u8, 108u8, 116u8, Ghost(done));
    match (lat, lon, alt) {
        (None, _, _) => Err(LocationError::MissingLat),
        (Some(_), None, _) => Err(LocationError::MissingLon),
        (Some(_), Some(_), None) => Err(LocationError::MissingAlt),
        (Some((a0, e0)), Some((a1, e1)), Some((a2, e2))) => {
            Ok(
                LocationFields {
                    lat: copy_range(b, a0, e0),
                    lon: copy_range(b, a1, e1),
                    alt: copy_range(b, a2, e2),
                },
            )
        },
    }
}

} // verus!
