use crate::error::DisplayError;
use crate::native::{NativeDisplay, ScreenRawHandle};
use crate::theorems::{
    first_where_finds, first_where_is_first, found_display_has_name, found_display_holds_point,
    ids_distinct, ids_stay_distinct, name_lookup_fails_exactly, native_ids_distinct,
    native_primaries, point_lookup_fails_exactly, primaries, primaries_are_kept,
};
use vstd::prelude::*;

verus! {

/// One active display: a snapshot of what the operating system said of it at
/// the moment it was asked.
#[derive(Clone, Debug, PartialEq, Eq)]
pub struct DisplayInfo {
    /// The display's name; may be empty.
    pub name: String,
    /// The operating system's identifier of the display.
    pub id: u32,
    /// The operating system's handle of the display.
    pub raw_handle: ScreenRawHandle,
    /// The left edge in the virtual desktop.
    pub x: i32,
    /// The top edge in the virtual desktop.
    pub y: i32,
    /// The width in pixels.
    pub width: u32,
    /// The height in pixels.
    pub height: u32,
    /// The physical width in millimetres; 0 where it is not known.
    pub width_mm: i32,
    /// The physical height in millimetres; 0 where it is not known.
    pub height_mm: i32,
    /// The clockwise rotation in degrees: 0, 90, 180 or 270.
    pub rotation: u32,
    /// The pixel scale factor in thousandths (2000 for a factor of two).
    pub scale_factor: u32,
    /// The refresh rate in millihertz; 0 where it is not known.
    pub frequency: u32,
    /// Whether this is the main display.
    pub is_primary: bool,
}

impl DisplayInfo {
    /// What every record made by this library satisfies: it has a width and a
    /// height, and its rotation is a whole number of quarter turns.
    pub open spec fn is_valid(&self) -> bool {
        &&& self.width > 0
        &&& self.height > 0
        &&& (self.rotation == 0 || self.rotation == 90 || self.rotation == 180 || self.rotation
            == 270)
    }

    /// The point (`x`, `y`) lies on the display: edges on the left and at the
    /// top belong to it, those on the right and at the bottom do not.
    pub open spec fn spec_contains(&self, x: int, y: int) -> bool {
        &&& self.x <= x < self.x + self.width
        &&& self.y <= y < self.y + self.height
    }

    /// The record of a display reported by the operating system, if the
    /// display is active. What is not known becomes 0, and the rotation is
    /// brought to degrees.
    pub open spec fn normalized(native: NativeDisplay) -> Option<DisplayInfo> {
        if native.is_active() {
            Some(
                DisplayInfo {
                    name: native.name,
                    id: native.id,
                    raw_handle: native.raw_handle,
                    x: native.x,
                    y: native.y,
                    width: native.width,
                    height: native.height,
                    width_mm: native.width_mm.unwrap_or(0),
                    height_mm: native.height_mm.unwrap_or(0),
                    rotation: native.rotation.spec_degrees(),
                    scale_factor: native.scale_factor,
                    frequency: native.frequency.unwrap_or(0),
                    is_primary: native.is_primary,
                },
            )
        } else {
            None
        }
    }

    /// The records of the active displays among `natives`, in their order.
    pub open spec fn enumerated(natives: Seq<NativeDisplay>) -> Seq<DisplayInfo> {
        natives.filter_map(|native: NativeDisplay| Self::normalized(native))
    }

    /// The first of `displays` that satisfies `wanted`.
    pub open spec fn first_where(
        displays: Seq<DisplayInfo>,
        wanted: spec_fn(DisplayInfo) -> bool,
    ) -> Option<DisplayInfo>
        decreases displays.len(),
    {
        if displays.len() == 0 {
            None
        } else if wanted(displays[0]) {
            Some(displays[0])
        } else {
            Self::first_where(displays.drop_first(), wanted)
        }
    }

    /// The test that a display holds the point (`x`, `y`).
    pub open spec fn holds_point(x: int, y: int) -> spec_fn(DisplayInfo) -> bool {
        |d: DisplayInfo| d.spec_contains(x, y)
    }

    /// The test that a display's name is exactly `name`.
    pub open spec fn has_name(name: Seq<char>) -> spec_fn(DisplayInfo) -> bool {
        |d: DisplayInfo| d.name@ == name
    }

    /// The first of `displays` on which the point (`x`, `y`) lies.
    pub open spec fn at_point(displays: Seq<DisplayInfo>, x: int, y: int) -> Option<DisplayInfo> {
        Self::first_where(displays, Self::holds_point(x, y))
    }

    /// The first of `displays` whose name is exactly `name`.
    pub open spec fn named(displays: Seq<DisplayInfo>, name: Seq<char>) -> Option<DisplayInfo> {
        Self::first_where(displays, Self::has_name(name))
    }

    /// What a lookup returns for the outcome of a search.
    pub open spec fn found(hit: Option<DisplayInfo>) -> Result<DisplayInfo, DisplayError> {
        match hit {
            Some(d) => Ok(d),
            None => Err(DisplayError::NotFound),
        }
    }

    /// The operating system's list of displays in a report, if it gave one.
    pub open spec fn listing(report: Option<Vec<NativeDisplay>>) -> Option<Seq<NativeDisplay>> {
        match report {
            Some(natives) => Some(natives@),
            None => None,
        }
    }

    /// What `from_point` returns.
    pub open spec fn spec_from_point(listing: Option<Seq<NativeDisplay>>, x: int, y: int) -> Result<
        DisplayInfo,
        DisplayError,
    > {
        match listing {
            Some(natives) => Self::found(Self::at_point(Self::enumerated(natives), x, y)),
            None => Err(DisplayError::Enumeration),
        }
    }

    /// What `from_name` returns.
    pub open spec fn spec_from_name(listing: Option<Seq<NativeDisplay>>, name: Seq<char>) -> Result<
        DisplayInfo,
        DisplayError,
    > {
        match listing {
            Some(natives) => Self::found(Self::named(Self::enumerated(natives), name)),
            None => Err(DisplayError::NotFound),
        }
    }

    /// Whether the point (`x`, `y`) lies on the display.
    pub fn contains(&self, x: i32, y: i32) -> (inside: bool)
        ensures
            inside == self.spec_contains(x as int, y as int),
    {
        let left: i64 = self.x as i64;
        let top: i64 = self.y as i64;
        let right: i64 = left + self.width as i64;
        let bottom: i64 = top + self.height as i64;
        left <= x as i64 && (x as i64) < right && top <= y as i64 && (y as i64) < bottom
    }

    /// A second record with the same fields.
    fn duplicate(&self) -> (copy: DisplayInfo)
        ensures
            copy == *self,
    {
        DisplayInfo {
            name: self.name.clone(),
            id: self.id,
            raw_handle: self.raw_handle,
            x: self.x,
            y: self.y,
            width: self.width,
            height: self.height,
            width_mm: self.width_mm,
            height_mm: self.height_mm,
            rotation: self.rotation,
            scale_factor: self.scale_factor,
            frequency: self.frequency,
            is_primary: self.is_primary,
        }
    }

    /// The record of one display that the operating system reported, or
    /// `None` where that display is not active.
    pub fn from_native(native: &NativeDisplay) -> (record: Option<DisplayInfo>)
        ensures
            record == Self::normalized(*native),
            record matches Some(d) ==> d.is_valid(),
    {
        if !native.is_active() {
            return None;
        }
        let width_mm: i32 = match native.width_mm {
            Some(mm) => mm,
            None => 0,
        };
        let height_mm: i32 = match native.height_mm {
            Some(mm) => mm,
            None => 0,
        };
        let frequency: u32 = match native.frequency {
            Some(millihertz) => millihertz,
            None => 0,
        };
        Some(
            DisplayInfo {
                name: native.name.clone(),
                id: native.id,
                raw_handle: native.raw_handle,
                x: native.x,
                y: native.y,
                width: native.width,
                height: native.height,
                width_mm,
                height_mm,
                rotation: native.rotation.degrees(),
                scale_factor: native.scale_factor,
                frequency,
                is_primary: native.is_primary,
            },
        )
    }

    /// The records of all active displays, in the order in which the
    /// operating system listed them. `report` is what the operating system
    /// answered: `None` where it could not list its displays, which is an
    /// `Enumeration` error here.
    pub fn all(report: &Option<Vec<NativeDisplay>>) -> (result: Result<
        Vec<DisplayInfo>,
        DisplayError,
    >)
        ensures
            report is None ==> result == Err::<Vec<DisplayInfo>, DisplayError>(
                DisplayError::Enumeration,
            ),
            report matches Some(natives) ==> (result matches Ok(displays) && displays@
                == Self::enumerated(natives@)),
            result matches Ok(displays) ==> forall|i: int|
                0 <= i < displays@.len() ==> (#[trigger] displays@[i]).is_valid(),
            result matches Ok(displays) ==> (report matches Some(natives) ==> primaries(displays@)
                == native_primaries(natives@)),
            result matches Ok(displays) ==> (report matches Some(natives) ==> (native_ids_distinct(
                natives@,
            ) ==> ids_distinct(displays@))),
    {
        match report {
            None => Err(DisplayError::Enumeration),
            Some(natives) => {
                let mut displays: Vec<DisplayInfo> = Vec::new();
                let mut i: usize = 0;
                while i < natives.len()
                    invariant
                        i <= natives@.len(),
                        displays@ == Self::enumerated(natives@.take(i as int)),
                        forall|k: int|
                            0 <= k < displays@.len() ==> (#[trigger] displays@[k]).is_valid(),
                    decreases natives@.len() - i,
                {
                    proof {
                        natives@.lemma_filter_map_take_succ(
                            |native: NativeDisplay| Self::normalized(native),
                            i as int,
                        );
                    }
                    match Self::from_native(&natives[i]) {
                        Some(record) => {
                            displays.push(record);
                        },
                        None => {},
                    }
                    i += 1;
                }
                proof {
                    assert(natives@.take(i as int) =~= natives@);
                    primaries_are_kept(natives@);
                    if native_ids_distinct(natives@) {
                        ids_stay_distinct(natives@);
                    }
                }
                Ok(displays)
            },
        }
    }

    /// The first of `displays` on which the point (`x`, `y`) lies, or a
    /// `NotFound` error where it lies on none.
    pub fn find_point(displays: &[DisplayInfo], x: i32, y: i32) -> (result: Result<
        DisplayInfo,
        DisplayError,
    >)
        ensures
            result == Self::found(Self::at_point(displays@, x as int, y as int)),
    {
        let ghost wanted = Self::holds_point(x as int, y as int);
        let mut i: usize = 0;
        while i < displays.len()
            invariant
                i <= displays@.len(),
                wanted == Self::holds_point(x as int, y as int),
                forall|k: int| 0 <= k < i ==> !wanted(#[trigger] displays@[k]),
            decreases displays@.len() - i,
        {
            if displays[i].contains(x, y) {
                proof {
                    first_where_finds(displays@, wanted, i as int);
                }
                return Ok(displays[i].duplicate());
            }
            i += 1;
        }
        proof {
            first_where_is_first(displays@, wanted);
        }
        Err(DisplayError::NotFound)
    }

    /// The first of `displays` whose name is exactly `name`, or a `NotFound`
    /// error where none has that name.
    pub fn find_name(displays: &[DisplayInfo], name: &str) -> (result: Result<
        DisplayInfo,
        DisplayError,
    >)
        ensures
            result == Self::found(Self::named(displays@, name@)),
    {
        let ghost wanted = Self::has_name(name@);
        let mut i: usize = 0;
        while i < displays.len()
            invariant
                i <= displays@.len(),
                wanted == Self::has_name(name@),
                forall|k: int| 0 <= k < i ==> !wanted(#[trigger] displays@[k]),
            decreases displays@.len() - i,
        {
            if Self::same_text(&displays[i].name, name) {
                proof {
                    first_where_finds(displays@, wanted, i as int);
                }
                return Ok(displays[i].duplicate());
            }
            i += 1;
        }
        proof {
            first_where_is_first(displays@, wanted);
        }
        Err(DisplayError::NotFound)
    }

    /// The record of the display on which the point (`x`, `y`) lies: the
    /// first such in the order of the operating system's list. `report` is
    /// as for `all`, and a failed enumeration is passed on as it is.
    pub fn from_point(report: &Option<Vec<NativeDisplay>>, x: i32, y: i32) -> (result: Result<
        DisplayInfo,
        DisplayError,
    >)
        ensures
            result == Self::spec_from_point(Self::listing(*report), x as int, y as int),
            result matches Ok(d) ==> d.is_valid() && d.spec_contains(x as int, y as int),
            result is Ok <==> (report matches Some(natives) && exists|i: int|
                0 <= i < Self::enumerated(natives@).len() && (#[trigger] Self::enumerated(
                    natives@,
                )[i]).spec_contains(x as int, y as int)),
            result matches Err(error) ==> (error == DisplayError::Enumeration <==> report is None),
    {
        proof {
            found_display_holds_point(Self::listing(*report), x as int, y as int);
            point_lookup_fails_exactly(Self::listing(*report), x as int, y as int);
        }
        match Self::all(report) {
            Ok(displays) => Self::find_point(displays.as_slice(), x, y),
            Err(error) => Err(error),
        }
    }

    /// The record of the first display whose name is exactly `name`.
    /// `report` is as for `all`; here a failed enumeration is a `NotFound`
    /// error like any other fruitless search.
    pub fn from_name(report: &Option<Vec<NativeDisplay>>, name: &str) -> (result: Result<
        DisplayInfo,
        DisplayError,
    >)
        ensures
            result == Self::spec_from_name(Self::listing(*report), name@),
            result matches Ok(d) ==> d.is_valid() && d.name@ == name@,
            result is Ok <==> (report matches Some(natives) && exists|i: int|
                0 <= i < Self::enumerated(natives@).len() && (#[trigger] Self::enumerated(
                    natives@,
                )[i]).name@ == name@),
            result matches Err(error) ==> error == DisplayError::NotFound,
    {
        proof {
            found_display_has_name(Self::listing(*report), name@);
            name_lookup_fails_exactly(Self::listing(*report), name@);
        }
        match Self::all(report) {
            Ok(displays) => Self::find_name(displays.as_slice(), name),
            Err(_) => Err(DisplayError::NotFound),
        }
    }

    /// Whether `left` and `right` hold the same characters.
    fn same_text(left: &String, right: &str) -> (same: bool)
        ensures
            same == (left@ == right@),
    {
        let other: String = right.to_owned();
        *left == other
    }
}

} // verus!
