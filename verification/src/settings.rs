//! How the persisted application settings are written as text and read
//! back. Every reader falls back to a default when the setting is absent or
//! holds an unrecognised value.
use vstd::prelude::*;

use crate::album::direction_key;
use crate::album::direction_of_key;
use crate::album::law_direction_key_round_trip;
use crate::album::law_sort_field_key_round_trip;
use crate::album::sort_field_key;
use crate::album::sort_field_of_key;
use crate::album::AlbumSort;
use crate::album::AlbumSortField;
use crate::album::SortDirection;
use crate::text::chars_of;
use crate::text::decimal;
use crate::text::integer_text;
use crate::text::lemma_decimal_digits;
use crate::text::lemma_decimal_parses;
use crate::text::lemma_signed_decimal_parses;
use crate::text::parse_i32;
use crate::text::parse_i64;
use crate::text::parse_int;
use crate::text::parse_u64;
use crate::text::push_char;
use crate::text::push_decimal;
use crate::text::push_signed;
use crate::text::signed_decimal;
use crate::track::TrackId;

verus! {

broadcast use vstd::string::group_string_axioms;

pub const COVER_SIZE_KEY: &'static str = "cover_size";

pub const COVER_SIZE_MIN: i32 = 200;

pub const COVER_SIZE_MAX: i32 = 500;

pub const VOLUME_KEY: &'static str = "volume";

pub const QUEUE_KEY: &'static str = "queue";

pub const QUEUE_CURRENT_KEY: &'static str = "queue_current";

pub const QUEUE_POSITION_KEY: &'static str = "queue_position";

pub const ALBUM_SORT_FIELD_KEY: &'static str = "album_sort_field";

pub const ALBUM_SORT_DIR_KEY: &'static str = "album_sort_dir";

pub const VIEW_MODE_KEY: &'static str = "view_mode";

/// `n` held to `[lo, hi]`.
pub open spec fn clamped(n: int, lo: int, hi: int) -> int {
    if n < lo {
        lo
    } else if n > hi {
        hi
    } else {
        n
    }
}

/// The view of an optional text.
pub open spec fn text_view(s: Option<&str>) -> Option<Seq<char>> {
    match s {
        Some(t) => Some(t@),
        None => None,
    }
}

// ---------------------------------------------------------------------------
// Cover size

/// The cover size a stored value gives: its `i32` value clamped to
/// `[COVER_SIZE_MIN, COVER_SIZE_MAX]`, or `COVER_SIZE_MIN` when the value is
/// absent or not a number.
pub open spec fn cover_size_of(stored: Option<Seq<char>>) -> int {
    match stored {
        Some(s) => match parse_int(s, true, i32::MIN as int, i32::MAX as int) {
            Some(n) => clamped(n, COVER_SIZE_MIN as int, COVER_SIZE_MAX as int),
            None => COVER_SIZE_MIN as int,
        },
        None => COVER_SIZE_MIN as int,
    }
}

/// Reads a stored cover size.
pub fn cover_size_from(stored: Option<&str>) -> (r: i32)
    ensures
        r == cover_size_of(text_view(stored)),
{
    match stored {
        Some(s) => match parse_i32(s) {
            Some(n) => if n < COVER_SIZE_MIN {
                COVER_SIZE_MIN
            } else if n > COVER_SIZE_MAX {
                COVER_SIZE_MAX
            } else {
                n
            },
            None => COVER_SIZE_MIN,
        },
        None => COVER_SIZE_MIN,
    }
}

/// The stored text of an integer setting.
pub fn integer_text_of(n: i64) -> (r: String)
    ensures
        r@ == signed_decimal(n as int),
{
    let mut r = String::new();
    push_signed(&mut r, n);
    r
}

/// A stored cover size reads back as itself, held to the allowed range.
pub proof fn law_cover_size_round_trip(px: i32)
    ensures
        cover_size_of(Some(signed_decimal(px as int))) == clamped(
            px as int,
            COVER_SIZE_MIN as int,
            COVER_SIZE_MAX as int,
        ),
{
    lemma_signed_decimal_parses(px as int);
}

// ---------------------------------------------------------------------------
// Album sort

/// The album sort stored fields give: each part read by its key, defaulting
/// to album artist and ascending.
pub open spec fn album_sort_of(field: Option<Seq<char>>, direction: Option<Seq<char>>) -> AlbumSort {
    AlbumSort {
        field: match field {
            Some(k) => match sort_field_of_key(k) {
                Some(f) => f,
                None => AlbumSortField::AlbumArtist,
            },
            None => AlbumSortField::AlbumArtist,
        },
        direction: match direction {
            Some(k) => match direction_of_key(k) {
                Some(d) => d,
                None => SortDirection::Ascending,
            },
            None => SortDirection::Ascending,
        },
    }
}

/// Reads a stored album sort from its stored field and direction keys.
pub fn album_sort_from(field: Option<&str>, direction: Option<&str>) -> (r: AlbumSort)
    ensures
        r == album_sort_of(text_view(field), text_view(direction)),
{
    let f = match field {
        Some(k) => match AlbumSortField::from_key(k) {
            Some(f) => f,
            None => AlbumSortField::AlbumArtist,
        },
        None => AlbumSortField::AlbumArtist,
    };
    let d = match direction {
        Some(k) => match SortDirection::from_key(k) {
            Some(d) => d,
            None => SortDirection::Ascending,
        },
        None => SortDirection::Ascending,
    };
    AlbumSort::new(f, d)
}

/// A stored album sort reads back as itself.
pub proof fn law_album_sort_round_trip(sort: AlbumSort)
    ensures
        album_sort_of(Some(sort_field_key(sort.field)), Some(direction_key(sort.direction)))
            == sort,
{
    law_sort_field_key_round_trip(sort.field);
    law_direction_key_round_trip(sort.direction);
}

// ---------------------------------------------------------------------------
// Queue

/// The comma-separated fields of `s`, as `str::split(',')` gives them:
/// always at least one, possibly empty.
pub open spec fn comma_fields(s: Seq<char>) -> Seq<Seq<char>>
    decreases s.len(),
{
    if s.len() == 0 {
        seq![Seq::empty()]
    } else {
        let init = comma_fields(s.drop_last());
        if s.last() == ',' {
            init.push(Seq::empty())
        } else {
            init.update(init.len() - 1, init.last().push(s.last()))
        }
    }
}

/// The `i64` values of the fields that parse as one, in order.
pub open spec fn ids_in(fields: Seq<Seq<char>>) -> Seq<i64>
    decreases fields.len(),
{
    if fields.len() == 0 {
        Seq::empty()
    } else {
        ids_in(fields.drop_last()) + match parse_int(
            fields.last(),
            true,
            i64::MIN as int,
            i64::MAX as int,
        ) {
            Some(v) => seq![v as i64],
            None => Seq::empty(),
        }
    }
}

/// The queue a stored value gives: the ids of its comma-separated fields,
/// skipping any that do not parse; empty when absent.
pub open spec fn queue_ids_of(stored: Option<Seq<char>>) -> Seq<i64> {
    match stored {
        Some(s) => ids_in(comma_fields(s)),
        None => Seq::empty(),
    }
}

/// The stored text of a queue: its ids in decimal, joined by commas.
pub open spec fn joined(ids: Seq<i64>) -> Seq<char>
    decreases ids.len(),
{
    if ids.len() == 0 {
        Seq::empty()
    } else if ids.len() == 1 {
        signed_decimal(ids[0] as int)
    } else {
        joined(ids.drop_last()) + seq![','] + signed_decimal(ids.last() as int)
    }
}

/// The ids of `tracks`, in order.
pub open spec fn id_values(tracks: Seq<TrackId>) -> Seq<i64> {
    Seq::new(tracks.len(), |i: int| tracks[i]@)
}

proof fn lemma_comma_fields_nonempty(s: Seq<char>)
    ensures
        comma_fields(s).len() >= 1,
    decreases s.len(),
{
    if s.len() > 0 {
        lemma_comma_fields_nonempty(s.drop_last());
    }
}

/// The parsed value of one field, when it parses as an `i64`.
fn parse_field(field: &String) -> (r: Option<i64>)
    ensures
        match parse_int(field@, true, i64::MIN as int, i64::MAX as int) {
            Some(v) => r == Some(v as i64),
            None => r is None,
        },
{
    parse_i64(field.as_str())
}

/// Reads a stored queue as an ordered list of track ids: empty when the
/// setting is absent, and skipping fields that are not ids.
pub fn queue_ids_from(stored: Option<&str>) -> (r: Vec<TrackId>)
    ensures
        id_values(r@) == queue_ids_of(text_view(stored)),
{
    let s = match stored {
        Some(s) => s,
        None => {
            let r: Vec<TrackId> = Vec::new();
            assert(id_values(r@) =~= Seq::<i64>::empty());
            return r;
        },
    };
    let v = chars_of(s);
    let mut ids: Vec<TrackId> = Vec::new();
    let mut cur = String::new();
    let mut i: usize = 0;
    proof {
        assert(v@.take(0) =~= Seq::<char>::empty());
        assert(comma_fields(Seq::<char>::empty()).drop_last() =~= Seq::<Seq<char>>::empty());
        assert(id_values(ids@) =~= ids_in(Seq::<Seq<char>>::empty()));
    }
    while i < v.len()
        invariant
            i <= v@.len(),
            v@ == s@,
            comma_fields(v@.take(i as int)).len() >= 1,
            id_values(ids@) == ids_in(comma_fields(v@.take(i as int)).drop_last()),
            cur@ == comma_fields(v@.take(i as int)).last(),
        decreases v@.len() - i,
    {
        let c = v[i];
        let ghost before = comma_fields(v@.take(i as int));
        proof {
            assert(v@.take(i + 1).drop_last() =~= v@.take(i as int));
            assert(v@.take(i + 1).last() == c);
        }
        if c == ',' {
            let parsed = parse_field(&cur);
            match parsed {
                Some(id) => {
                    ids.push(TrackId::new(id));
                },
                None => {},
            }
            proof {
                let after = comma_fields(v@.take(i + 1));
                assert(after == before.push(Seq::empty()));
                assert(after.drop_last() =~= before);
                assert(ids_in(before) == ids_in(before.drop_last()) + match parse_int(
                    before.last(),
                    true,
                    i64::MIN as int,
                    i64::MAX as int,
                ) {
                    Some(v) => seq![v as i64],
                    None => Seq::empty(),
                });
                assert(id_values(ids@) =~= ids_in(before));
            }
            cur = String::new();
        } else {
            push_char(&mut cur, c);
            proof {
                let after = comma_fields(v@.take(i + 1));
                assert(after == before.update(before.len() - 1, before.last().push(c)));
                assert(after.drop_last() =~= before.drop_last());
            }
        }
        i = i + 1;
    }
    let parsed = parse_field(&cur);
    match parsed {
        Some(id) => {
            ids.push(TrackId::new(id));
        },
        None => {},
    }
    proof {
        let all = comma_fields(v@.take(v@.len() as int));
        assert(v@.take(v@.len() as int) =~= v@);
        assert(id_values(ids@) =~= ids_in(all));
    }
    ids
}

/// The stored text of a queue of track ids.
pub fn queue_text(ids: &[TrackId]) -> (r: String)
    ensures
        r@ == joined(id_values(ids@)),
{
    let mut r = String::new();
    let mut i: usize = 0;
    while i < ids.len()
        invariant
            i <= ids@.len(),
            r@ == joined(id_values(ids@.take(i as int))),
        decreases ids@.len() - i,
    {
        let ghost prefix = id_values(ids@.take(i as int));
        if i > 0 {
            push_char(&mut r, ',');
        }
        push_signed(&mut r, ids[i].value());
        proof {
            let next = id_values(ids@.take(i + 1));
            assert(next.drop_last() =~= prefix);
            assert(next.last() == ids@[i as int]@);
            if i == 0 {
                assert(prefix.len() == 0);
                assert(r@ =~= joined(next));
            } else {
                assert(r@ =~= joined(next));
            }
        }
        i = i + 1;
    }
    assert(ids@.take(ids@.len() as int) =~= ids@);
    r
}

/// Whether `s` holds no comma.
pub open spec fn no_commas(s: Seq<char>) -> bool {
    forall|i: int| 0 <= i < s.len() ==> s[i] != ','
}

proof fn lemma_fields_of_commaless(s: Seq<char>)
    requires
        no_commas(s),
    ensures
        comma_fields(s) == seq![s],
    decreases s.len(),
{
    if s.len() > 0 {
        lemma_commaless_drop_last(s);
        lemma_fields_of_commaless(s.drop_last());
        assert(s[s.len() - 1] != ',');
        assert(s.drop_last().push(s.last()) =~= s);
        assert(seq![s.drop_last()].update(0, s.drop_last().push(s.last())) =~= seq![s]);
    } else {
        assert(s =~= Seq::<char>::empty());
    }
}

proof fn lemma_commaless_drop_last(s: Seq<char>)
    requires
        no_commas(s),
        s.len() > 0,
    ensures
        no_commas(s.drop_last()),
        s.last() != ',',
{
    assert forall|i: int| 0 <= i < s.len() - 1 implies s.drop_last()[i] != ',' by {
        assert(s.drop_last()[i] == s[i]);
    }
    assert(s[s.len() - 1] != ',');
}

proof fn lemma_fields_after_comma(x: Seq<char>, z: Seq<char>)
    requires
        no_commas(z),
    ensures
        comma_fields(x + seq![','] + z) == comma_fields(x).push(z),
    decreases z.len(),
{
    let s = x + seq![','] + z;
    if z.len() == 0 {
        assert(s.drop_last() =~= x);
        assert(s.last() == ',');
        assert(z =~= Seq::<char>::empty());
    } else {
        lemma_commaless_drop_last(z);
        lemma_fields_after_comma(x, z.drop_last());
        assert(s.drop_last() =~= x + seq![','] + z.drop_last());
        assert(s.last() == z.last());
        let init = comma_fields(x).push(z.drop_last());
        assert(z.drop_last().push(z.last()) =~= z);
        assert(init.update(init.len() - 1, init.last().push(s.last())) =~= comma_fields(x).push(
            z,
        ));
    }
}

proof fn lemma_signed_decimal_commaless(i: int)
    ensures
        no_commas(signed_decimal(i)),
{
    if i < 0 {
        lemma_decimal_digits((-i) as nat);
        let d = decimal((-i) as nat);
        assert forall|k: int| 0 <= k < (seq!['-'] + d).len() implies (seq!['-'] + d)[k]
            != ',' by {
            if k > 0 {
                assert((seq!['-'] + d)[k] == d[k - 1]);
            }
        }
    } else {
        lemma_decimal_digits(i as nat);
    }
}

/// A stored queue reads back as the same ids in the same order.
pub proof fn law_queue_round_trip(ids: Seq<i64>)
    ensures
        queue_ids_of(Some(joined(ids))) == ids,
    decreases ids.len(),
{
    if ids.len() == 0 {
        let f = comma_fields(Seq::<char>::empty());
        assert(f.drop_last() =~= Seq::<Seq<char>>::empty());
        assert(integer_text(Seq::<char>::empty(), true) is None);
        assert(ids_in(Seq::<Seq<char>>::empty()) == Seq::<i64>::empty());
        assert(ids_in(f) =~= ids);
    } else if ids.len() == 1 {
        let t = signed_decimal(ids[0] as int);
        lemma_signed_decimal_commaless(ids[0] as int);
        lemma_fields_of_commaless(t);
        lemma_signed_decimal_parses(ids[0] as int);
        assert(seq![t].drop_last() =~= Seq::<Seq<char>>::empty());
        assert(ids_in(Seq::<Seq<char>>::empty()) == Seq::<i64>::empty());
        assert(parse_int(t, true, i64::MIN as int, i64::MAX as int) == Some(ids[0] as int));
        assert(ids_in(seq![t]) =~= ids);
    } else {
        let init = ids.drop_last();
        let t = signed_decimal(ids.last() as int);
        law_queue_round_trip(init);
        lemma_signed_decimal_commaless(ids.last() as int);
        lemma_fields_after_comma(joined(init), t);
        lemma_signed_decimal_parses(ids.last() as int);
        let f = comma_fields(joined(init)).push(t);
        assert(f.drop_last() =~= comma_fields(joined(init)));
        assert(ids_in(f) =~= init.push(ids.last()));
        assert(init.push(ids.last()) =~= ids);
    }
}

// ---------------------------------------------------------------------------
// Current track and position

/// The current track id a stored value gives, if it is an `i64`.
pub open spec fn current_id_of(stored: Option<Seq<char>>) -> Option<i64> {
    match stored {
        Some(s) => match parse_int(s, true, i64::MIN as int, i64::MAX as int) {
            Some(v) => Some(v as i64),
            None => None,
        },
        None => None,
    }
}

/// Reads a stored current-track id.
pub fn current_id_from(stored: Option<&str>) -> (r: Option<i64>)
    ensures
        r == current_id_of(text_view(stored)),
{
    match stored {
        Some(s) => parse_i64(s),
        None => None,
    }
}

/// The playback position a stored value gives, in milliseconds: 0 when
/// absent or not a `u64`.
pub open spec fn position_of(stored: Option<Seq<char>>) -> u64 {
    match stored {
        Some(s) => match parse_int(s, false, 0, u64::MAX as int) {
            Some(v) => v as u64,
            None => 0,
        },
        None => 0,
    }
}

/// Reads a stored playback position.
pub fn position_from(stored: Option<&str>) -> (r: u64)
    ensures
        r == position_of(text_view(stored)),
{
    match stored {
        Some(s) => match parse_u64(s) {
            Some(v) => v,
            None => 0,
        },
        None => 0,
    }
}

/// The stored text of a playback position.
pub fn position_text(millis: u64) -> (r: String)
    ensures
        r@ == decimal(millis as nat),
{
    let mut r = String::new();
    push_decimal(&mut r, millis);
    r
}

/// A stored current-track id reads back as itself.
pub proof fn law_current_id_round_trip(id: i64)
    ensures
        current_id_of(Some(signed_decimal(id as int))) == Some(id),
{
    lemma_signed_decimal_parses(id as int);
}

/// A stored playback position reads back as itself.
pub proof fn law_position_round_trip(millis: u64)
    ensures
        position_of(Some(decimal(millis as nat))) == millis,
{
    lemma_decimal_parses(millis as nat);
}

} // verus!
