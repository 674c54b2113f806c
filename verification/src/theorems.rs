use crate::display::DisplayInfo;
use crate::error::DisplayError;
use crate::native::NativeDisplay;
use vstd::prelude::*;

verus! {

/// How many of `displays` are marked as the main display.
pub open spec fn primaries(displays: Seq<DisplayInfo>) -> nat {
    displays.filter(|d: DisplayInfo| d.is_primary).len()
}

/// How many active displays of `natives` the operating system marks as the
/// main display.
pub open spec fn native_primaries(natives: Seq<NativeDisplay>) -> nat {
    natives.filter(|n: NativeDisplay| n.is_active() && n.is_primary).len()
}

/// No two active displays of `natives` have the same identifier.
pub open spec fn native_ids_distinct(natives: Seq<NativeDisplay>) -> bool {
    forall|i: int, j: int|
        0 <= i < j < natives.len() && natives[i].is_active() && natives[j].is_active()
            ==> natives[i].id != natives[j].id
}

/// No two of `displays` have the same identifier.
pub open spec fn ids_distinct(displays: Seq<DisplayInfo>) -> bool {
    forall|i: int, j: int| 0 <= i < j < displays.len() ==> displays[i].id != displays[j].id
}

/// Two displays agree in identifier, position, size and main-display mark.
pub open spec fn same_layout(a: NativeDisplay, b: NativeDisplay) -> bool {
    &&& a.id == b.id
    &&& a.x == b.x
    &&& a.y == b.y
    &&& a.width == b.width
    &&& a.height == b.height
    &&& a.is_primary == b.is_primary
}

/// Two records agree in identifier, position, size and main-display mark.
pub open spec fn same_record_layout(a: DisplayInfo, b: DisplayInfo) -> bool {
    &&& a.id == b.id
    &&& a.x == b.x
    &&& a.y == b.y
    &&& a.width == b.width
    &&& a.height == b.height
    &&& a.is_primary == b.is_primary
}

/// The search for the first wanted display returns a wanted display before
/// which none is wanted, and returns nothing exactly when none is wanted.
pub proof fn first_where_is_first(
    displays: Seq<DisplayInfo>,
    wanted: spec_fn(DisplayInfo) -> bool,
)
    ensures
        match DisplayInfo::first_where(displays, wanted) {
            Some(d) => exists|i: int|
                0 <= i < displays.len() && #[trigger] displays[i] == d && wanted(d) && forall|
                    j: int,
                | 0 <= j < i ==> !wanted(#[trigger] displays[j]),
            None => forall|i: int| 0 <= i < displays.len() ==> !wanted(#[trigger] displays[i]),
        },
    decreases displays.len(),
{
    if displays.len() == 0 {
    } else if wanted(displays[0]) {
        assert(displays[0] == displays[0]);
    } else {
        let rest = displays.drop_first();
        first_where_is_first(rest, wanted);
        match DisplayInfo::first_where(rest, wanted) {
            Some(d) => {
                let i = choose|i: int|
                    0 <= i < rest.len() && #[trigger] rest[i] == d && wanted(d) && forall|j: int|
                        0 <= j < i ==> !wanted(#[trigger] rest[j]);
                assert(displays[i + 1] == d);
                assert forall|j: int| 0 <= j < i + 1 implies !wanted(#[trigger] displays[j]) by {
                    if j > 0 {
                        assert(displays[j] == rest[j - 1]);
                    }
                }
            },
            None => {
                assert forall|i: int| 0 <= i < displays.len() implies !wanted(
                    #[trigger] displays[i],
                ) by {
                    if i > 0 {
                        assert(displays[i] == rest[i - 1]);
                    }
                }
            },
        }
    }
}

/// Every record of an enumeration is the record of an active display of the
/// operating system's list.
pub proof fn enumerated_come_from_natives(natives: Seq<NativeDisplay>, k: int)
    requires
        0 <= k < DisplayInfo::enumerated(natives).len(),
    ensures
        exists|i: int|
            0 <= i < natives.len() && DisplayInfo::normalized(#[trigger] natives[i]) == Some(
                DisplayInfo::enumerated(natives)[k],
            ),
    decreases natives.len(),
{
    let rest = natives.drop_last();
    if k < DisplayInfo::enumerated(rest).len() {
        enumerated_come_from_natives(rest, k);
        let i = choose|i: int|
            0 <= i < rest.len() && DisplayInfo::normalized(#[trigger] rest[i]) == Some(
                DisplayInfo::enumerated(rest)[k],
            );
        assert(natives[i] == rest[i]);
    } else {
        assert(DisplayInfo::normalized(natives[natives.len() - 1]) == Some(
            DisplayInfo::enumerated(natives)[k],
        ));
    }
}

/// Every record of an enumeration has a width and a height, and a rotation of
/// 0, 90, 180 or 270 degrees.
pub proof fn enumerated_are_valid(natives: Seq<NativeDisplay>)
    ensures
        forall|k: int|
            0 <= k < DisplayInfo::enumerated(natives).len() ==> (
            #[trigger] DisplayInfo::enumerated(natives)[k]).is_valid(),
{
    assert forall|k: int| 0 <= k < DisplayInfo::enumerated(natives).len() implies (
    #[trigger] DisplayInfo::enumerated(natives)[k]).is_valid() by {
        enumerated_come_from_natives(natives, k);
    }
}

/// As many records are marked as the main display as the operating system
/// marks active displays so.
pub proof fn primaries_are_kept(natives: Seq<NativeDisplay>)
    ensures
        primaries(DisplayInfo::enumerated(natives)) == native_primaries(natives),
    decreases natives.len(),
{
    reveal(Seq::filter);
    if natives.len() == 0 {
    } else {
        let rest = natives.drop_last();
        let last = natives.last();
        primaries_are_kept(rest);
        let before = DisplayInfo::enumerated(rest);
        match DisplayInfo::normalized(last) {
            Some(d) => {
                assert(DisplayInfo::enumerated(natives) =~= before.push(d));
                assert(before.push(d).drop_last() =~= before);
            },
            None => {
                assert(DisplayInfo::enumerated(natives) =~= before);
            },
        }
    }
}

/// Where the operating system marks exactly one active display as the main
/// one, exactly one record of the enumeration is marked so.
pub proof fn exactly_one_primary(natives: Seq<NativeDisplay>)
    requires
        native_primaries(natives) == 1,
    ensures
        primaries(DisplayInfo::enumerated(natives)) == 1,
{
    primaries_are_kept(natives);
}

/// Where the operating system gives its active displays identifiers that
/// differ, the records of the enumeration have identifiers that differ.
pub proof fn ids_stay_distinct(natives: Seq<NativeDisplay>)
    requires
        native_ids_distinct(natives),
    ensures
        ids_distinct(DisplayInfo::enumerated(natives)),
    decreases natives.len(),
{
    if natives.len() == 0 {
    } else {
        let rest = natives.drop_last();
        let last = natives.last();
        assert forall|i: int, j: int|
            0 <= i < j < rest.len() && rest[i].is_active() && rest[j].is_active() implies rest[i].id
            != rest[j].id by {
            assert(rest[i] == natives[i] && rest[j] == natives[j]);
        }
        ids_stay_distinct(rest);
        let before = DisplayInfo::enumerated(rest);
        match DisplayInfo::normalized(last) {
            Some(d) => {
                assert(DisplayInfo::enumerated(natives) =~= before.push(d));
                assert forall|k: int| 0 <= k < before.len() implies before[k].id != d.id by {
                    enumerated_come_from_natives(rest, k);
                    let i = choose|i: int|
                        0 <= i < rest.len() && DisplayInfo::normalized(#[trigger] rest[i]) == Some(
                            before[k],
                        );
                    assert(rest[i] == natives[i]);
                    assert(natives[natives.len() - 1] == last);
                }
            },
            None => {
                assert(DisplayInfo::enumerated(natives) =~= before);
            },
        }
    }
}

/// Two lists of the operating system that agree, display by display, in
/// identifier, position, size and main-display mark give enumerations that
/// agree in them, record by record.
pub proof fn same_layout_gives_same_records(a: Seq<NativeDisplay>, b: Seq<NativeDisplay>)
    requires
        a.len() == b.len(),
        forall|i: int| 0 <= i < a.len() ==> same_layout(#[trigger] a[i], b[i]),
    ensures
        DisplayInfo::enumerated(a).len() == DisplayInfo::enumerated(b).len(),
        forall|k: int|
            0 <= k < DisplayInfo::enumerated(a).len() ==> same_record_layout(
                #[trigger] DisplayInfo::enumerated(a)[k],
                DisplayInfo::enumerated(b)[k],
            ),
    decreases a.len(),
{
    if a.len() == 0 {
    } else {
        let a_rest = a.drop_last();
        let b_rest = b.drop_last();
        assert forall|i: int| 0 <= i < a_rest.len() implies same_layout(
            #[trigger] a_rest[i],
            b_rest[i],
        ) by {
            assert(same_layout(a[i], b[i]));
        }
        same_layout_gives_same_records(a_rest, b_rest);
        assert(same_layout(a[a.len() - 1], b[a.len() - 1]));
        let a_before = DisplayInfo::enumerated(a_rest);
        let b_before = DisplayInfo::enumerated(b_rest);
        match DisplayInfo::normalized(a.last()) {
            Some(d) => {
                let e = DisplayInfo::normalized(b.last())->0;
                assert(DisplayInfo::enumerated(a) =~= a_before.push(d));
                assert(DisplayInfo::enumerated(b) =~= b_before.push(e));
                assert(same_record_layout(d, e));
            },
            None => {
                assert(DisplayInfo::enumerated(a) =~= a_before);
                assert(DisplayInfo::enumerated(b) =~= b_before);
            },
        }
    }
}

/// The display that is wanted and before which none is wanted is the one that
/// the search returns.
pub proof fn first_where_finds(
    displays: Seq<DisplayInfo>,
    wanted: spec_fn(DisplayInfo) -> bool,
    k: int,
)
    requires
        0 <= k < displays.len(),
        wanted(displays[k]),
        forall|j: int| 0 <= j < k ==> !wanted(#[trigger] displays[j]),
    ensures
        DisplayInfo::first_where(displays, wanted) == Some(displays[k]),
{
    first_where_is_first(displays, wanted);
}

/// The record that a lookup by point returns is one of the enumeration, is
/// valid, and the point lies on it: its left and top edges are at or before
/// the point, its right and bottom edges beyond it.
pub proof fn found_display_holds_point(listing: Option<Seq<NativeDisplay>>, x: int, y: int)
    ensures
        DisplayInfo::spec_from_point(listing, x, y) matches Ok(d) ==> {
            &&& listing is Some
            &&& DisplayInfo::enumerated(listing->0).contains(d)
            &&& d.is_valid()
            &&& d.x <= x < d.x + d.width
            &&& d.y <= y < d.y + d.height
        },
{
    if let Some(natives) = listing {
        let displays = DisplayInfo::enumerated(natives);
        first_where_is_first(displays, DisplayInfo::holds_point(x, y));
        enumerated_are_valid(natives);
    }
}

/// A lookup by point fails as not found exactly when the displays were
/// listed and the point lies on none of the enumeration's records; it fails
/// otherwise only when they could not be listed.
pub proof fn point_lookup_fails_exactly(listing: Option<Seq<NativeDisplay>>, x: int, y: int)
    ensures
        DisplayInfo::spec_from_point(listing, x, y) == Err::<DisplayInfo, DisplayError>(
            DisplayError::NotFound,
        ) <==> listing is Some && forall|i: int|
            0 <= i < DisplayInfo::enumerated(listing->0).len() ==> !(
            #[trigger] DisplayInfo::enumerated(listing->0)[i]).spec_contains(x, y),
        DisplayInfo::spec_from_point(listing, x, y) == Err::<DisplayInfo, DisplayError>(
            DisplayError::Enumeration,
        ) <==> listing is None,
{
    if let Some(natives) = listing {
        let displays = DisplayInfo::enumerated(natives);
        first_where_is_first(displays, DisplayInfo::holds_point(x, y));
    }
}

/// The record that a lookup by name returns is one of the enumeration, is
/// valid, and has exactly that name.
pub proof fn found_display_has_name(listing: Option<Seq<NativeDisplay>>, name: Seq<char>)
    ensures
        DisplayInfo::spec_from_name(listing, name) matches Ok(d) ==> {
            &&& listing is Some
            &&& DisplayInfo::enumerated(listing->0).contains(d)
            &&& d.is_valid()
            &&& d.name@ == name
        },
{
    if let Some(natives) = listing {
        let displays = DisplayInfo::enumerated(natives);
        first_where_is_first(displays, DisplayInfo::has_name(name));
        enumerated_are_valid(natives);
    }
}

/// A lookup by name, the empty name included, succeeds exactly when the
/// displays were listed and a record of the enumeration has that name; every
/// failure is the not-found error.
pub proof fn name_lookup_fails_exactly(listing: Option<Seq<NativeDisplay>>, name: Seq<char>)
    ensures
        DisplayInfo::spec_from_name(listing, name) is Ok <==> listing is Some && exists|i: int|
            0 <= i < DisplayInfo::enumerated(listing->0).len() && (
            #[trigger] DisplayInfo::enumerated(listing->0)[i]).name@ == name,
        DisplayInfo::spec_from_name(listing, name) is Err ==> DisplayInfo::spec_from_name(
            listing,
            name,
        ) == Err::<DisplayInfo, DisplayError>(DisplayError::NotFound),
{
    if let Some(natives) = listing {
        let displays = DisplayInfo::enumerated(natives);
        first_where_is_first(displays, DisplayInfo::has_name(name));
    }
}

/// A lookup by the name of a record of the enumeration returns that record,
/// where no record before it has the same name.
pub proof fn name_of_record_finds_it(natives: Seq<NativeDisplay>, k: int)
    requires
        0 <= k < DisplayInfo::enumerated(natives).len(),
        forall|j: int|
            0 <= j < k ==> (#[trigger] DisplayInfo::enumerated(natives)[j]).name@
                != DisplayInfo::enumerated(natives)[k].name@,
    ensures
        DisplayInfo::spec_from_name(Some(natives), DisplayInfo::enumerated(natives)[k].name@)
            == Ok::<DisplayInfo, DisplayError>(DisplayInfo::enumerated(natives)[k]),
{
    let displays = DisplayInfo::enumerated(natives);
    let name = displays[k].name@;
    first_where_finds(displays, DisplayInfo::has_name(name), k);
}

/// A lookup by the name of any record of the enumeration succeeds, with a
/// record of that name.
pub proof fn name_of_record_is_found(natives: Seq<NativeDisplay>, k: int)
    requires
        0 <= k < DisplayInfo::enumerated(natives).len(),
    ensures
        DisplayInfo::spec_from_name(Some(natives), DisplayInfo::enumerated(natives)[k].name@)
            matches Ok(d) && d.name@ == DisplayInfo::enumerated(natives)[k].name@,
{
    let name = DisplayInfo::enumerated(natives)[k].name@;
    name_lookup_fails_exactly(Some(natives), name);
    found_display_has_name(Some(natives), name);
}

/// A lookup by a point on a record of the enumeration returns that record,
/// where the point lies on no record before it.
pub proof fn point_on_record_finds_it(natives: Seq<NativeDisplay>, k: int, x: int, y: int)
    requires
        0 <= k < DisplayInfo::enumerated(natives).len(),
        DisplayInfo::enumerated(natives)[k].spec_contains(x, y),
        forall|j: int|
            0 <= j < k ==> !(#[trigger] DisplayInfo::enumerated(natives)[j]).spec_contains(x, y),
    ensures
        DisplayInfo::spec_from_point(Some(natives), x, y) == Ok::<DisplayInfo, DisplayError>(
            DisplayInfo::enumerated(natives)[k],
        ),
{
    let displays = DisplayInfo::enumerated(natives);
    first_where_finds(displays, DisplayInfo::holds_point(x, y), k);
}

} // verus!
