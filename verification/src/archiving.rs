//! Archives: the entries of one kind, one for each day, and their form as
//! bytes.

use crate::codec::compress_bytes;
use crate::codec::compressed;
use crate::codec::decompress_bytes;
use crate::codec::decompressed;
use crate::date::ApodDate;
use std::collections::HashMap;
use vstd::prelude::*;
use vstd::std_specs::iter::IteratorSpec;

pub mod entry;
pub mod html;

verus! {

broadcast use vstd::std_specs::hash::group_hash_axioms;

/// Why an archive cannot be read or written.
#[derive(Debug)]
pub enum ArchiveError {
    Codec(bitcode::Error),
    IO(std::io::Error),
}

/// The compression level for saving while someone waits.
pub const FAST_COMPRESSION_LEVEL: i32 = 2;

/// The compression level for an export, as small as possible.
pub const MAX_COMPRESSION_LEVEL: i32 = 22;

/// What an archive can hold: values that know their day and have a form as
/// bytes.
pub trait ArchiveEntry: View + Sized {
    /// The day under which a value is kept.
    spec fn day_of(v: Self::V) -> ApodDate;

    /// What bytes hold as a list of such values; `None` where they hold no
    /// such list.
    spec fn decoded(data: Seq<u8>) -> Option<Seq<Self::V>>;

    fn date(&self) -> (d: ApodDate)
        ensures
            d == Self::day_of(self@),
    ;

    /// A second value that holds the same.
    fn duplicate(&self) -> (r: Self)
        ensures
            r@ == self@,
    ;

    /// Bytes that hold the list `entries`.
    fn encode_list(entries: &Vec<Self>) -> (data: Vec<u8>)
        ensures
            Self::decoded(data@) == Some(views::<Self>(entries@)),
    ;

    /// The list that bytes hold.
    fn decode_list(data: &[u8]) -> (r: Result<Vec<Self>, bitcode::Error>)
        ensures
            match r {
                Ok(entries) => Self::decoded(data@) == Some(views::<Self>(entries@)),
                Err(_) => Self::decoded(data@) is None,
            },
    ;
}

/// The values of a list of entries.
pub open spec fn views<E: View>(entries: Seq<E>) -> Seq<E::V> {
    Seq::new(entries.len(), |i: int| entries[i]@)
}

/// The archive that holds a list of values: each under its day, a later
/// value in place of an earlier one of the same day.
pub open spec fn entries_map<E: ArchiveEntry>(values: Seq<E::V>) -> Map<ApodDate, E::V>
    decreases values.len(),
{
    if values.len() == 0 {
        Map::empty()
    } else {
        entries_map::<E>(values.drop_last()).insert(E::day_of(values.last()), values.last())
    }
}

/// Whether `data` holds the archive `archive`: it decodes to a list of
/// values that make up `archive`.
pub open spec fn encodes<E: ArchiveEntry>(archive: Map<ApodDate, E::V>, data: Seq<u8>) -> bool {
    E::decoded(data) matches Some(values) && entries_map::<E>(values) == archive
}

/// Whether `r` is what compressing `data` at `level` gives: the stream
/// that the compressor makes of them, or an error where it makes none.
pub open spec fn compressed_as(data: Seq<u8>, level: int, r: Result<Vec<u8>, ArchiveError>) -> bool {
    match r {
        Ok(stream) => compressed(data, level) == Some(stream@),
        Err(_) => compressed(data, level) is None,
    }
}

/// The archive that `data` holds.
pub open spec fn decoded_archive<E: ArchiveEntry>(data: Seq<u8>) -> Option<Map<ApodDate, E::V>> {
    match E::decoded(data) {
        Some(values) => Some(entries_map::<E>(values)),
        None => None,
    }
}

/// The archive that the compressed stream `data` holds.
pub open spec fn decompressed_archive<E: ArchiveEntry>(data: Seq<u8>) -> Option<
    Map<ApodDate, E::V>,
> {
    match decompressed(data) {
        Some(bytes) => decoded_archive::<E>(bytes),
        None => None,
    }
}

/// A list of values of distinct days makes up the archive that holds just
/// these values, each under its day.
pub proof fn lemma_entries_map_distinct<E: ArchiveEntry>(values: Seq<E::V>)
    requires
        forall|i: int, j: int|
            0 <= i < j < values.len() ==> E::day_of(#[trigger] values[i]) != E::day_of(
                #[trigger] values[j],
            ),
    ensures
        forall|i: int|
            0 <= i < values.len() ==> entries_map::<E>(values).contains_key(
                E::day_of(#[trigger] values[i]),
            ) && entries_map::<E>(values)[E::day_of(values[i])] == values[i],
        forall|d: ApodDate| #[trigger]
            entries_map::<E>(values).contains_key(d) ==> exists|i: int|
                0 <= i < values.len() && E::day_of(#[trigger] values[i]) == d,
    decreases values.len(),
{
    if values.len() > 0 {
        let front = values.drop_last();
        let last = values.last();
        assert forall|i: int, j: int| 0 <= i < j < front.len() implies E::day_of(
            #[trigger] front[i],
        ) != E::day_of(#[trigger] front[j]) by {
            assert(front[i] == values[i] && front[j] == values[j]);
        }
        lemma_entries_map_distinct::<E>(front);
        let whole = entries_map::<E>(values);
        assert(whole == entries_map::<E>(front).insert(E::day_of(last), last));
        assert forall|i: int| 0 <= i < values.len() implies whole.contains_key(
            E::day_of(#[trigger] values[i]),
        ) && whole[E::day_of(values[i])] == values[i] by {
            if i < values.len() - 1 {
                assert(front[i] == values[i]);
                assert(E::day_of(values[i]) != E::day_of(values[values.len() - 1]));
            }
        }
        assert forall|d: ApodDate| #[trigger] whole.contains_key(d) implies exists|i: int|
            0 <= i < values.len() && E::day_of(#[trigger] values[i]) == d by {
            if d == E::day_of(last) {
                assert(E::day_of(values[values.len() - 1]) == d);
            } else {
                assert(entries_map::<E>(front).contains_key(d));
                let i = choose|i: int| 0 <= i < front.len() && E::day_of(#[trigger] front[i]) == d;
                assert(front[i] == values[i]);
                assert(E::day_of(values[i]) == d);
            }
        }
    }
}

/// The entries of one kind, one for each day.
pub struct Archive<E: ArchiveEntry> {
    entries: HashMap<i32, E>,
}

impl<E: ArchiveEntry> View for Archive<E> {
    type V = Map<ApodDate, E::V>;

    /// The value kept for each day.
    closed spec fn view(&self) -> Map<ApodDate, E::V> {
        Map::new(
            |d: ApodDate| self.entries@.contains_key(d.0),
            |d: ApodDate| self.entries@[d.0]@,
        )
    }
}

impl<E: ArchiveEntry> Default for Archive<E> {
    fn default() -> (r: Self)
        ensures
            r@ == Map::<ApodDate, E::V>::empty(),
    {
        Archive::empty()
    }
}

impl<E: ArchiveEntry> Archive<E> {
    /// Every value is kept under its own day.
    #[verifier::type_invariant]
    spec fn keyed_by_day(self) -> bool {
        forall|k: i32| #[trigger]
            self.entries@.contains_key(k) ==> E::day_of(self.entries@[k]@) == ApodDate(k)
    }

    /// The archive that holds nothing.
    pub fn empty() -> (r: Self)
        ensures
            r@ == Map::<ApodDate, E::V>::empty(),
    {
        let r = Archive { entries: HashMap::new() };
        assert(r@ =~= Map::<ApodDate, E::V>::empty());
        r
    }

    /// The archive that holds the entries of a list: each under its day, a
    /// later entry in place of an earlier one of the same day.
    pub fn new(entries: Vec<E>) -> (r: Self)
        ensures
            r@ == entries_map::<E>(views::<E>(entries@)),
    {
        let mut r = Archive::empty();
        let ghost all = entries@;
        for entry in it: entries
            invariant
                it.seq() == all,
                r@ == entries_map::<E>(views::<E>(all.take(it.index() as int))),
        {
            proof {
                let next = views::<E>(all.take(it.index() as int + 1));
                assert(next.drop_last() =~= views::<E>(all.take(it.index() as int)));
                assert(next.last() == entry@);
            }
            r.push(entry);
        }
        assert(all.take(all.len() as int) =~= all);
        r
    }

    /// Keeps `entry` under its day, in place of what was kept there.
    pub fn push(&mut self, entry: E)
        ensures
            final(self)@ == old(self)@.insert(E::day_of(entry@), entry@),
    {
        proof {
            use_type_invariant(&*self);
        }
        let date = entry.date();
        let mut held = Archive::empty();
        std::mem::swap(self, &mut held);
        let mut entries = held.entries;
        entries.insert(date.0, entry);
        *self = Archive { entries };
        assert(self@ =~= old(self)@.insert(E::day_of(entry@), entry@));
    }

    /// Drops what is kept for `date`, and hands it out.
    pub fn remove(&mut self, date: ApodDate) -> (r: Option<E>)
        ensures
            final(self)@ == old(self)@.remove(date),
            match r {
                Some(entry) => old(self)@.contains_key(date) && old(self)@[date] == entry@,
                None => !old(self)@.contains_key(date),
            },
    {
        proof {
            use_type_invariant(&*self);
        }
        let mut held = Archive::empty();
        std::mem::swap(self, &mut held);
        let mut entries = held.entries;
        let r = entries.remove(&date.0);
        *self = Archive { entries };
        assert(self@ =~= old(self)@.remove(date));
        r
    }

    /// A second archive that holds the same.
    pub fn duplicate(&self) -> (r: Self)
        ensures
            r@ == self@,
    {
        Archive::new(self.values())
    }

    /// For how many days a value is kept.
    pub fn len(&self) -> (r: usize)
        ensures
            r == self@.dom().len(),
            self@.dom().finite(),
    {
        proof {
            self.lemma_days();
        }
        self.entries.len()
    }

    pub fn is_empty(&self) -> (r: bool)
        ensures
            r == (self@ == Map::<ApodDate, E::V>::empty()),
    {
        let r = self.entries.is_empty();
        proof {
            if r {
                assert(self@ =~= Map::<ApodDate, E::V>::empty());
            } else {
                let k = choose|k: i32| self.entries@.contains_key(k);
                assert(self@.contains_key(ApodDate(k)));
            }
        }
        r
    }

    /// Drops every value.
    pub fn clear(&mut self)
        ensures
            final(self)@ == Map::<ApodDate, E::V>::empty(),
    {
        *self = Archive::empty();
    }

    /// Whether a value is kept for `date`.
    pub fn has_date(&self, date: ApodDate) -> (r: bool)
        ensures
            r == self@.contains_key(date),
    {
        self.entries.contains_key(&date.0)
    }

    /// The value kept for `date`.
    pub fn get(&self, date: ApodDate) -> (r: Option<&E>)
        ensures
            match r {
                Some(entry) => self@.contains_key(date) && self@[date] == entry@,
                None => !self@.contains_key(date),
            },
    {
        self.entries.get(&date.0)
    }

    /// The days for which a value is kept, in no particular order.
    pub fn dates(&self) -> (r: Vec<ApodDate>)
        ensures
            r@.no_duplicates(),
            r@.to_set() == self@.dom(),
    {
        let mut r: Vec<ApodDate> = Vec::new();
        let keys = self.entries.keys();
        let ghost all = keys.remaining();
        for k in it: keys
            invariant
                it.seq() == all,
                all.no_duplicates(),
                all.unref().to_set() == self.entries@.dom(),
                r@.len() == it.index(),
                forall|i: int| 0 <= i < it.index() ==> (#[trigger] r@[i]).0 == *all[i],
        {
            r.push(ApodDate(*k));
        }
        proof {
            assert forall|i: int, j: int| 0 <= i < r@.len() && 0 <= j < r@.len() && i != j implies r@[i]
                != r@[j] by {
                assert(r@[i].0 == *all[i]);
                assert(r@[j].0 == *all[j]);
            }
            assert forall|d: ApodDate| r@.to_set().contains(d) == self@.dom().contains(d) by {
                if r@.to_set().contains(d) {
                    let i = choose|i: int| 0 <= i < r@.len() && r@[i] == d;
                    assert(all.unref()[i] == d.0);
                    assert(all.unref().to_set().contains(d.0));
                }
                if self@.dom().contains(d) {
                    assert(all.unref().to_set().contains(d.0));
                    let i = choose|i: int| 0 <= i < all.unref().len() && all.unref()[i] == d.0;
                    assert(r@[i] == d);
                }
            }
            assert(r@.to_set() =~= self@.dom());
        }
        r
    }

    /// The latest day for which a value is kept; `None` where the archive
    /// is empty.
    pub fn latest_date(&self) -> (r: Option<ApodDate>)
        ensures
            r is None <==> self@ == Map::<ApodDate, E::V>::empty(),
            r matches Some(latest) ==> self@.contains_key(latest) && forall|d: ApodDate|
                self@.contains_key(d) ==> d.0 <= latest.0,
    {
        let mut best: Option<i32> = None;
        let keys = self.entries.keys();
        let ghost all = keys.remaining();
        for k in it: keys
            invariant
                it.seq() == all,
                all.unref().to_set() == self.entries@.dom(),
                best is None <==> it.index() == 0,
                best matches Some(b) ==> self.entries@.contains_key(b) && forall|i: int|
                    0 <= i < it.index() ==> *all[i] <= b,
        {
            assert(all.unref()[it.index() as int] == *k);
            assert(all.unref().to_set().contains(*k));
            match best {
                Some(b) => {
                    if *k > b {
                        best = Some(*k);
                    }
                },
                None => {
                    best = Some(*k);
                },
            }
        }
        proof {
            match best {
                Some(b) => {
                    assert(self@.contains_key(ApodDate(b)));
                    assert forall|d: ApodDate| self@.contains_key(d) implies d.0 <= b by {
                        assert(all.unref().to_set().contains(d.0));
                        let i = choose|i: int| 0 <= i < all.unref().len() && all.unref()[i] == d.0;
                        assert(*all[i] == d.0);
                    }
                },
                None => {
                    assert(self.entries@.dom() =~= Set::<i32>::empty());
                    assert(self@ =~= Map::<ApodDate, E::V>::empty());
                },
            }
        }
        match best {
            Some(b) => Some(ApodDate(b)),
            None => None,
        }
    }

    /// A copy of every value kept, in no particular order: one for each
    /// day.
    pub fn values(&self) -> (r: Vec<E>)
        ensures
            entries_map::<E>(views::<E>(r@)) == self@,
            r@.len() == self@.dom().len(),
    {
        proof {
            use_type_invariant(self);
            self.lemma_days();
        }
        let mut r: Vec<E> = Vec::new();
        let iter = self.entries.iter();
        let ghost pairs = iter.remaining();
        for pair in it: iter
            invariant
                it.seq() == pairs,
                pairs.no_duplicates(),
                pairs.len() == self.entries@.dom().len(),
                forall|i: int|
                    0 <= i < pairs.len() ==> self.entries@.contains_key(*(#[trigger] pairs[i]).0)
                        && self.entries@[*pairs[i].0] == *pairs[i].1,
                forall|k: i32| #[trigger]
                    self.entries@.contains_key(k) ==> pairs.contains((&k, &self.entries@[k])),
                r@.len() == it.index(),
                forall|i: int| 0 <= i < it.index() ==> (#[trigger] r@[i])@ == (*pairs[i].1)@,
        {
            let (_, entry) = pair;
            r.push(entry.duplicate());
        }
        proof {
            let values = views::<E>(r@);
            assert forall|i: int| 0 <= i < values.len() implies E::day_of(#[trigger] values[i])
                == ApodDate(*pairs[i].0) by {
                assert(r@[i]@ == (*pairs[i].1)@);
                assert(self.entries@.contains_key(*pairs[i].0));
            }
            assert forall|i: int, j: int| 0 <= i < j < values.len() implies E::day_of(
                #[trigger] values[i],
            ) != E::day_of(#[trigger] values[j]) by {
                if *pairs[i].0 == *pairs[j].0 {
                    assert(self.entries@[*pairs[i].0] == *pairs[i].1);
                    assert(self.entries@[*pairs[j].0] == *pairs[j].1);
                    assert(pairs[i] == pairs[j]);
                }
            }
            lemma_entries_map_distinct::<E>(values);
            let made = entries_map::<E>(values);
            assert forall|d: ApodDate| made.contains_key(d) == self@.contains_key(d) by {
                if made.contains_key(d) {
                    let i = choose|i: int| 0 <= i < values.len() && E::day_of(#[trigger] values[i]) == d;
                    assert(self.entries@.contains_key(*pairs[i].0));
                }
                if self@.contains_key(d) {
                    assert(pairs.contains((&d.0, &self.entries@[d.0])));
                    let i = choose|i: int|
                        0 <= i < pairs.len() && pairs[i] == (&d.0, &self.entries@[d.0]);
                    assert(E::day_of(values[i]) == d);
                }
            }
            assert forall|d: ApodDate| made.contains_key(d) implies made[d] == self@[d] by {
                let i = choose|i: int| 0 <= i < values.len() && E::day_of(#[trigger] values[i]) == d;
                assert(made[E::day_of(values[i])] == values[i]);
                assert(self.entries@[*pairs[i].0] == *pairs[i].1);
            }
            assert(made =~= self@);
        }
        r
    }

    /// The archive as bytes.
    pub fn encode(&self) -> (data: Vec<u8>)
        ensures
            encodes::<E>(self@, data@),
    {
        let values = self.values();
        E::encode_list(&values)
    }

    /// The archive that bytes hold; a codec error where they hold none.
    pub fn decode(data: &[u8]) -> (r: Result<Self, ArchiveError>)
        ensures
            match r {
                Ok(archive) => decoded_archive::<E>(data@) == Some(archive@),
                Err(e) => decoded_archive::<E>(data@) is None && e is Codec,
            },
    {
        match E::decode_list(data) {
            Ok(entries) => Ok(Archive::new(entries)),
            Err(e) => Err(ArchiveError::Codec(e)),
        }
    }

    /// The archive as a compressed stream: what the compressor makes, at
    /// `level`, of bytes that hold the archive; an I/O error where the
    /// compressor fails on them. A stream that comes out decompresses to
    /// the archive again.
    pub fn compress(&self, level: i32) -> (r: Result<Vec<u8>, ArchiveError>)
        ensures
            match r {
                Ok(stream) => decompressed_archive::<E>(stream@) == Some(self@),
                Err(e) => e is IO,
            },
            exists|data: Seq<u8>| #[trigger]
                encodes::<E>(self@, data) && compressed_as(data, level as int, r),
    {
        let data = self.encode();
        match compress_bytes(data.as_slice(), level) {
            Ok(stream) => {
                assert(encodes::<E>(self@, data@) && compressed_as(
                    data@,
                    level as int,
                    Ok::<Vec<u8>, ArchiveError>(stream),
                ));
                Ok(stream)
            },
            Err(e) => {
                assert(encodes::<E>(self@, data@) && compressed_as(
                    data@,
                    level as int,
                    Err::<Vec<u8>, ArchiveError>(ArchiveError::IO(e)),
                ));
                Err(ArchiveError::IO(e))
            },
        }
    }

    /// The archive that a compressed stream holds: an I/O error where the
    /// bytes are no compressed stream, a codec error where what they
    /// decompress to holds no archive.
    pub fn decompress(data: &[u8]) -> (r: Result<Self, ArchiveError>)
        ensures
            match r {
                Ok(archive) => decompressed_archive::<E>(data@) == Some(archive@),
                Err(e) => decompressed_archive::<E>(data@) is None && (e is IO <==> decompressed(
                    data@,
                ) is None),
            },
    {
        match decompress_bytes(data) {
            Ok(bytes) => Self::decode(bytes.as_slice()),
            Err(e) => Err(ArchiveError::IO(e)),
        }
    }

    /// The days of the archive are as many as the keys of its table.
    proof fn lemma_days(self)
        ensures
            self@.dom().finite(),
            self@.dom().len() == self.entries@.dom().len(),
    {
        let keys = self.entries@.dom();
        let days = keys.map(|k: i32| ApodDate(k));
        assert(days =~= self@.dom()) by {
            assert forall|d: ApodDate| days.contains(d) == self@.dom().contains(d) by {
                if self@.dom().contains(d) {
                    assert(keys.contains(d.0) && ApodDate(d.0) == d);
                }
            }
        }
        keys.lemma_map_finite(|k: i32| ApodDate(k));
        vstd::set_lib::lemma_map_size(keys, days, |k: i32| ApodDate(k));
    }
}

/// Decoding what an archive was encoded to gives an archive that holds the
/// same value for every day, whatever the order in which the values were
/// put in or written out.
pub proof fn law_decode_inverts_encode<E: ArchiveEntry>(
    archive: Map<ApodDate, E::V>,
    data: Seq<u8>,
)
    requires
        encodes::<E>(archive, data),
    ensures
        decoded_archive::<E>(data) == Some(archive),
{
}

/// Decompressing what an archive was compressed to, at whatever level,
/// gives the bytes it was encoded to, and so an archive that holds the
/// same value for every day.
pub proof fn law_decompress_inverts_compress<E: ArchiveEntry>(
    archive: Map<ApodDate, E::V>,
    data: Seq<u8>,
    stream: Seq<u8>,
)
    requires
        encodes::<E>(archive, data),
        decompressed(stream) == Some(data),
    ensures
        decompressed_archive::<E>(stream) == Some(archive),
{
}

} // verus!
