use rustmath::common::construction::{Construction, ConstructionPart, MAX_LENGTH, MAX_PARTS};
use rustmath::common::Glyph;

fn part(id: u32, size: i64, start: i64, end: i64, is_extender: bool) -> ConstructionPart {
    ConstructionPart {
        glyph: Glyph { id, size: 10, height: size, depth: 0, advance: 3, italic_correction: 0 },
        size,
        max_start_overlap: start,
        max_end_overlap: end,
        is_extender,
    }
}

fn two_parts(min_overlap: i64) -> Construction {
    Construction { min_overlap, parts: vec![part(1, 10, 0, 0, false), part(2, 5, 2, 2, true)] }
}

fn ids(list: &[(i64, ConstructionPart)]) -> Vec<(i64, u32)> {
    list.iter().map(|(overlap, p)| (*overlap, p.glyph.id)).collect()
}

#[test]
fn assembly_reaches_the_size_with_the_fewest_extenders() {
    let c = two_parts(0);
    let (size, list) = c.construct(13);
    assert!(size >= 13);
    assert_eq!(size, 15);
    assert_eq!(ids(&list), vec![(0, 1), (0, 2)]);
    // no extender is not enough, so one extender is the least
    assert!(c.size_bounds(0).1 < 13);
    assert!(c.size_bounds(1).1 >= 13);
    for (overlap, p) in &list {
        assert!(*overlap >= c.min_overlap);
        assert!(*overlap <= p.max_start_overlap);
    }
    // the size is the sum of the parts less the overlaps
    let sum: i64 = list.iter().map(|(overlap, p)| p.size - overlap).sum();
    assert_eq!(sum, size);
}

#[test]
fn extenders_are_placed_as_often_as_their_count() {
    let c = two_parts(0);
    let placed = |k: u32| c.iter_parts(k).iter().map(|p| p.glyph.id).collect::<Vec<u32>>();
    assert_eq!(placed(0), vec![1]);
    assert_eq!(placed(1), vec![1, 2]);
    assert_eq!(placed(2), vec![1, 2, 2]);
    assert_eq!(placed(3), vec![1, 2, 2, 2]);
    assert_eq!(c.size_bounds(0), (10, 10, 1));
    assert_eq!(c.size_bounds(1), (15, 15, 2));
    assert_eq!(c.size_bounds(2), (18, 20, 3));
    assert_eq!(c.size_bounds(3), (21, 25, 4));
}

#[test]
fn fixed_parts_stay_once_and_in_their_order() {
    let c = Construction {
        min_overlap: 0,
        parts: vec![
            part(1, 4, 0, 1, false),
            part(2, 3, 1, 1, true),
            part(3, 4, 1, 1, false),
            part(4, 3, 1, 1, true),
            part(5, 4, 1, 0, false),
        ],
    };
    let placed = |k: u32| c.iter_parts(k).iter().map(|p| p.glyph.id).collect::<Vec<u32>>();
    assert_eq!(placed(0), vec![1, 3, 5]);
    assert_eq!(placed(1), vec![1, 2, 3, 4, 5]);
    assert_eq!(placed(2), vec![1, 2, 2, 3, 4, 4, 5]);
    let (size, list) = c.construct(30);
    assert!(size >= 30);
    let fixed: Vec<u32> = list.iter().filter(|(_, p)| !p.is_extender).map(|(_, p)| p.glyph.id).collect();
    assert_eq!(fixed, vec![1, 3, 5]);
    let sum: i64 = list.iter().map(|(overlap, p)| p.size - overlap).sum();
    assert_eq!(sum, size);
}

#[test]
fn overlaps_shrink_as_the_size_grows() {
    let c = two_parts(0);
    assert_eq!(c.try_construct(10).map(|r| (r.0, ids(&r.1))), Some((10, vec![(0, 1)])));
    assert_eq!(c.try_construct(-7).map(|r| r.0), Some(10));
    assert_eq!(c.try_construct(15).map(|r| (r.0, ids(&r.1))), Some((15, vec![(0, 1), (0, 2)])));
    assert_eq!(c.try_construct(16).map(|r| (r.0, ids(&r.1))), Some((18, vec![(0, 1), (0, 2), (2, 2)])));
    assert_eq!(c.try_construct(18).map(|r| (r.0, ids(&r.1))), Some((18, vec![(0, 1), (0, 2), (2, 2)])));
    assert_eq!(c.try_construct(19).map(|r| (r.0, ids(&r.1))), Some((19, vec![(0, 1), (0, 2), (1, 2)])));
    assert_eq!(c.try_construct(20).map(|r| (r.0, ids(&r.1))), Some((20, vec![(0, 1), (0, 2), (0, 2)])));
    assert_eq!(
        c.try_construct(21).map(|r| (r.0, ids(&r.1))),
        Some((21, vec![(0, 1), (0, 2), (2, 2), (2, 2)]))
    );
}

#[test]
fn overlaps_are_rounded_down_and_the_assembly_is_no_shorter() {
    let c = two_parts(0);
    // two pairs of extenders may overlap by 0 to 2 each; 22 asks for 3 of 4
    assert_eq!(
        c.try_construct(22).map(|r| (r.0, ids(&r.1))),
        Some((23, vec![(0, 1), (0, 2), (1, 2), (1, 2)]))
    );
}

#[test]
fn least_overlap_is_kept_where_the_parts_allow_it() {
    let c = two_parts(1);
    assert_eq!(c.size_bounds(2), (18, 19, 3));
    assert_eq!(c.try_construct(19).map(|r| (r.0, ids(&r.1))), Some((19, vec![(0, 1), (0, 2), (1, 2)])));
    // the least overlap is not above what a part allows
    let tight = Construction { min_overlap: 3, parts: vec![part(1, 5, 2, 2, true)] };
    assert_eq!(tight.size_bounds(1), (5, 5, 1));
    assert_eq!(tight.size_bounds(2), (8, 8, 2));
    assert_eq!(tight.try_construct(8).map(|r| (r.0, ids(&r.1))), Some((8, vec![(0, 1), (2, 1)])));
}

#[test]
fn assembly_fails_where_no_count_reaches_the_size() {
    let fixed = Construction { min_overlap: 0, parts: vec![part(1, 10, 0, 0, false)] };
    assert_eq!(fixed.try_construct(10).map(|r| r.0), Some(10));
    assert_eq!(fixed.try_construct(11), None);
    let empty = Construction { min_overlap: 0, parts: vec![] };
    assert_eq!(empty.try_construct(0), Some((0, vec![])));
    assert_eq!(empty.try_construct(1), None);
}

#[test]
fn assembly_fails_for_a_construction_that_is_not_well_formed() {
    let mut c = two_parts(0);
    assert!(c.is_wf());
    c.parts[1].size = -1;
    assert!(!c.is_wf());
    assert_eq!(c.try_construct(0), None);
    let mut c = two_parts(0);
    c.parts[0].max_end_overlap = MAX_LENGTH + 1;
    assert!(!c.is_wf());
    let mut c = two_parts(-1);
    assert!(!c.is_wf());
    c.min_overlap = MAX_LENGTH;
    assert!(c.is_wf());
    let many = Construction { min_overlap: 0, parts: vec![part(1, 1, 0, 0, false); MAX_PARTS + 1] };
    assert!(!many.is_wf());
}

#[test]
fn construction_that_does_not_grow() {
    let flat = Construction { min_overlap: 0, parts: vec![part(1, 0, 0, 0, true)] };
    assert_eq!(flat.try_construct(0).map(|r| r.0), Some(0));
    assert_eq!(flat.try_construct(1), None);
    // every extender more overlaps the one before it wholly
    let eaten = Construction { min_overlap: 5, parts: vec![part(1, 4, 0, 0, false), part(2, 5, 5, 5, true)] };
    assert_eq!(eaten.size_bounds(0), (4, 4, 1));
    assert_eq!(eaten.size_bounds(1), (9, 9, 2));
    assert_eq!(eaten.size_bounds(7), (9, 9, 8));
    assert_eq!(eaten.try_construct(9).map(|r| r.0), Some(9));
    assert_eq!(eaten.try_construct(10), None);
    assert_eq!(eaten.try_construct(i64::MAX), None);
}

#[test]
fn assembly_of_many_extenders() {
    let c = two_parts(0);
    let (size, list) = c.construct(1000);
    assert_eq!(size, 1000);
    assert_eq!(list.len(), 199);
    assert!(c.size_bounds(197).1 < 1000);
    assert!(c.size_bounds(198).1 >= 1000);
    // the count of extenders has no limit of its own
    assert_eq!(c.size_bounds(100000).1, 500010);
    assert_eq!(c.size_bounds(100001).1, 500015);
    assert_eq!(c.try_construct(500011).map(|r| (r.0, r.1.len())), Some((500015, 100002)));
}

#[test]
fn extender_that_grows_by_one_unit_reaches_far() {
    let c = Construction { min_overlap: 4, parts: vec![part(1, 5, 4, 4, true)] };
    assert_eq!(c.size_bounds(1), (5, 5, 1));
    assert_eq!(c.size_bounds(2), (6, 6, 2));
    let (size, list) = c.construct(150000);
    assert_eq!(size, 150000);
    assert_eq!(list.len(), 149996);
    assert!(list.iter().skip(1).all(|(overlap, _)| *overlap == 4));
}
