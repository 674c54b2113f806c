use display_info::{DisplayError, DisplayInfo, NativeDisplay, NativeRotation, ScreenRawHandle};

fn screen(name: &str, id: u32, x: i32, y: i32, width: u32, height: u32, primary: bool) -> NativeDisplay {
    NativeDisplay {
        name: name.to_string(),
        id,
        raw_handle: ScreenRawHandle::Win32Monitor(id as i64),
        x,
        y,
        width,
        height,
        width_mm: None,
        height_mm: None,
        rotation: NativeRotation::QuarterTurns(0),
        scale_factor: 1250,
        frequency: Some(59_940),
        is_primary: primary,
    }
}

fn two_screens() -> Option<Vec<NativeDisplay>> {
    Some(vec![
        screen("left", 1, -1920, 0, 1920, 1080, false),
        screen("main", 2, 0, 0, 2560, 1440, true),
    ])
}

#[test]
fn from_point_returns_the_display_that_holds_the_point() {
    let report = two_screens();
    for (x, y) in [(0, 0), (100, 100), (2559, 1439), (-1, 0), (-1920, 1079), (-960, 540)] {
        let r = DisplayInfo::from_point(&report, x, y).unwrap();
        assert!(r.x as i64 <= x as i64 && (x as i64) < r.x as i64 + r.width as i64);
        assert!(r.y as i64 <= y as i64 && (y as i64) < r.y as i64 + r.height as i64);
    }
    assert_eq!(DisplayInfo::from_point(&report, 100, 100).unwrap().id, 2);
    assert_eq!(DisplayInfo::from_point(&report, -1, 0).unwrap().id, 1);
}

#[test]
fn from_point_far_outside_is_not_found() {
    let report = Some(vec![screen("main", 2, 0, 0, 1920, 1080, true)]);
    assert_eq!(DisplayInfo::from_point(&report, 1_000_000, 1_000_000), Err(DisplayError::NotFound));
    assert_eq!(DisplayInfo::from_point(&two_screens(), 1_000_000, 1_000_000), Err(DisplayError::NotFound));
}

#[test]
fn from_point_in_negative_space_without_a_display_is_not_found() {
    let report = Some(vec![screen("main", 2, 0, 0, 1920, 1080, true)]);
    assert_eq!(DisplayInfo::from_point(&report, -1, -1), Err(DisplayError::NotFound));
    assert_eq!(DisplayInfo::from_point(&report, -1, 10), Err(DisplayError::NotFound));
    assert_eq!(DisplayInfo::from_point(&report, 10, -1), Err(DisplayError::NotFound));
}

#[test]
fn the_right_and_bottom_edges_are_outside() {
    let report = Some(vec![screen("main", 2, 0, 0, 1920, 1080, true)]);
    assert!(DisplayInfo::from_point(&report, 1919, 1079).is_ok());
    assert_eq!(DisplayInfo::from_point(&report, 1920, 0), Err(DisplayError::NotFound));
    assert_eq!(DisplayInfo::from_point(&report, 0, 1080), Err(DisplayError::NotFound));
    assert_eq!(DisplayInfo::from_point(&report, 1920, 1080), Err(DisplayError::NotFound));
}

#[test]
fn from_point_on_an_empty_list_is_not_found() {
    assert_eq!(DisplayInfo::from_point(&Some(Vec::new()), 0, 0), Err(DisplayError::NotFound));
}

#[test]
fn from_point_passes_a_failed_enumeration_on() {
    assert_eq!(DisplayInfo::from_point(&None, 0, 0), Err(DisplayError::Enumeration));
}

#[test]
fn overlapping_displays_give_the_first_listed() {
    let report = Some(vec![
        screen("mirror-a", 10, 0, 0, 1920, 1080, true),
        screen("mirror-b", 11, 0, 0, 1280, 720, false),
    ]);
    assert_eq!(DisplayInfo::from_point(&report, 5, 5).unwrap().id, 10);
    let swapped = Some(vec![
        screen("mirror-b", 11, 0, 0, 1280, 720, false),
        screen("mirror-a", 10, 0, 0, 1920, 1080, true),
    ]);
    assert_eq!(DisplayInfo::from_point(&swapped, 5, 5).unwrap().id, 11);
    assert_eq!(DisplayInfo::from_point(&swapped, 1500, 5).unwrap().id, 10);
}

#[test]
fn from_point_skips_inactive_displays() {
    let report = Some(vec![
        screen("off", 1, 0, 0, 0, 1080, false),
        screen("on", 2, 0, 0, 1920, 1080, true),
    ]);
    assert_eq!(DisplayInfo::from_point(&report, 0, 0).unwrap().id, 2);
}

#[test]
fn containment_does_not_overflow_at_the_limits() {
    let far = screen("far", 3, i32::MAX, i32::MAX, u32::MAX, u32::MAX, true);
    let report = Some(vec![far]);
    assert_eq!(DisplayInfo::from_point(&report, i32::MAX, i32::MAX).unwrap().id, 3);
    assert_eq!(DisplayInfo::from_point(&report, i32::MAX - 1, i32::MAX), Err(DisplayError::NotFound));
    let wide = screen("wide", 4, i32::MIN, i32::MIN, u32::MAX, u32::MAX, true);
    let report = Some(vec![wide]);
    assert_eq!(DisplayInfo::from_point(&report, i32::MIN, i32::MIN).unwrap().id, 4);
    assert_eq!(DisplayInfo::from_point(&report, i32::MAX - 1, i32::MAX - 1).unwrap().id, 4);
    assert_eq!(DisplayInfo::from_point(&report, i32::MAX, 0), Err(DisplayError::NotFound));
}

#[test]
fn contains_takes_left_and_top_edges_only() {
    let d = DisplayInfo::from_native(&screen("d", 1, 10, 20, 30, 40, true)).unwrap();
    assert!(d.contains(10, 20));
    assert!(d.contains(39, 59));
    assert!(!d.contains(9, 20));
    assert!(!d.contains(10, 19));
    assert!(!d.contains(40, 20));
    assert!(!d.contains(10, 60));
}

#[test]
fn from_name_finds_each_record_of_the_enumeration() {
    let report = two_screens();
    for d in DisplayInfo::all(&report).unwrap() {
        let found = DisplayInfo::from_name(&report, &d.name).unwrap();
        assert_eq!(found.id, d.id);
        assert_eq!(found, d);
    }
}

#[test]
fn from_name_of_an_empty_name_is_not_found() {
    assert_eq!(DisplayInfo::from_name(&two_screens(), ""), Err(DisplayError::NotFound));
}

#[test]
fn from_name_finds_a_display_whose_name_is_empty() {
    let report = Some(vec![
        screen("main", 2, 0, 0, 1920, 1080, true),
        screen("", 3, 1920, 0, 1920, 1080, false),
    ]);
    assert_eq!(DisplayInfo::from_name(&report, "").unwrap().id, 3);
}

#[test]
fn from_name_wants_the_exact_name() {
    let report = two_screens();
    assert_eq!(DisplayInfo::from_name(&report, "Main"), Err(DisplayError::NotFound));
    assert_eq!(DisplayInfo::from_name(&report, "main "), Err(DisplayError::NotFound));
    assert_eq!(DisplayInfo::from_name(&report, "mai"), Err(DisplayError::NotFound));
    assert_eq!(DisplayInfo::from_name(&report, "main").unwrap().id, 2);
}

#[test]
fn from_name_returns_the_first_of_two_with_one_name() {
    let report = Some(vec![
        screen("twin", 7, 0, 0, 1920, 1080, true),
        screen("twin", 8, 1920, 0, 1920, 1080, false),
    ]);
    assert_eq!(DisplayInfo::from_name(&report, "twin").unwrap().id, 7);
}

#[test]
fn from_name_turns_a_failed_enumeration_into_not_found() {
    assert_eq!(DisplayInfo::from_name(&None, "main"), Err(DisplayError::NotFound));
    assert_eq!(DisplayInfo::from_name(&None, "main").unwrap_err().message(), "Get display info failed");
}

#[test]
fn from_name_skips_inactive_displays() {
    let report = Some(vec![
        screen("DVI-0", 1, 0, 0, 0, 0, false),
        screen("DVI-0", 2, 0, 0, 1920, 1080, true),
    ]);
    assert_eq!(DisplayInfo::from_name(&report, "DVI-0").unwrap().id, 2);
    let none_active = Some(vec![screen("DVI-0", 1, 0, 0, 0, 0, false)]);
    assert_eq!(DisplayInfo::from_name(&none_active, "DVI-0"), Err(DisplayError::NotFound));
}

#[test]
fn from_name_compares_characters_beyond_ascii() {
    let report = Some(vec![
        screen("显示器 1", 1, 0, 0, 1920, 1080, true),
        screen("显示器 2", 2, 1920, 0, 1920, 1080, false),
    ]);
    assert_eq!(DisplayInfo::from_name(&report, "显示器 2").unwrap().id, 2);
    assert_eq!(DisplayInfo::from_name(&report, "显示器"), Err(DisplayError::NotFound));
}

#[test]
fn find_point_and_find_name_search_given_records() {
    let displays = DisplayInfo::all(&two_screens()).unwrap();
    assert_eq!(DisplayInfo::find_point(&displays, -5, 5), Ok(displays[0].clone()));
    assert_eq!(DisplayInfo::find_point(&displays, 5, 5), Ok(displays[1].clone()));
    assert_eq!(DisplayInfo::find_point(&displays, 5, 5000), Err(DisplayError::NotFound));
    assert_eq!(DisplayInfo::find_name(&displays, "left"), Ok(displays[0].clone()));
    assert_eq!(DisplayInfo::find_name(&displays, "right"), Err(DisplayError::NotFound));
    assert_eq!(DisplayInfo::find_point(&[], 0, 0), Err(DisplayError::NotFound));
    assert_eq!(DisplayInfo::find_name(&[], ""), Err(DisplayError::NotFound));
}
