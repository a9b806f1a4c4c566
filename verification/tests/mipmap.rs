use elements::extent::Extent;
use elements::mipmap::{halve, mip_chain, mip_extent, mip_level_count};

fn extent(width: u32, height: u32) -> Extent {
    Extent { width, height }
}

#[test]
fn level_count_of_512_by_256_is_10() {
    assert_eq!(mip_level_count(extent(512, 256)), 10);
    assert_eq!(mip_level_count(extent(256, 512)), 10);
}

#[test]
fn level_count_is_floor_log2_plus_one() {
    assert_eq!(mip_level_count(extent(1, 1)), 1);
    assert_eq!(mip_level_count(extent(2, 1)), 2);
    assert_eq!(mip_level_count(extent(3, 3)), 2);
    assert_eq!(mip_level_count(extent(4, 4)), 3);
    assert_eq!(mip_level_count(extent(1023, 7)), 10);
    assert_eq!(mip_level_count(extent(1024, 7)), 11);
    assert_eq!(mip_level_count(extent(800, 600)), 10);
    assert_eq!(mip_level_count(extent(u32::MAX, 1)), 32);
}

#[test]
fn level_count_of_nothing_is_zero() {
    assert_eq!(mip_level_count(extent(0, 0)), 0);
    assert_eq!(mip_level_count(extent(0, 5)), 3);
}

#[test]
fn three_by_three_halves_to_one_by_one() {
    assert_eq!(mip_extent(extent(3, 3), 1), extent(1, 1));
    assert_eq!(mip_extent(extent(3, 3), 0), extent(3, 3));
}

#[test]
fn levels_halve_and_stop_at_one() {
    assert_eq!(mip_extent(extent(512, 256), 1), extent(256, 128));
    assert_eq!(mip_extent(extent(512, 256), 8), extent(2, 1));
    assert_eq!(mip_extent(extent(512, 256), 9), extent(1, 1));
    assert_eq!(mip_extent(extent(512, 256), 4_000_000_000), extent(1, 1));
    assert_eq!(mip_extent(extent(7, 5), 1), extent(3, 2));
    assert_eq!(mip_extent(extent(7, 5), 2), extent(1, 1));
    assert_eq!(mip_extent(extent(1, 1), 3), extent(1, 1));
}

#[test]
fn halving_floors_and_clamps() {
    assert_eq!(halve(0), 1);
    assert_eq!(halve(1), 1);
    assert_eq!(halve(2), 1);
    assert_eq!(halve(3), 1);
    assert_eq!(halve(4), 2);
    assert_eq!(halve(5), 2);
    assert_eq!(halve(u32::MAX), 0x7fff_ffff);
}

#[test]
fn chain_lists_every_level() {
    assert_eq!(
        mip_chain(extent(8, 3)),
        vec![extent(8, 3), extent(4, 1), extent(2, 1), extent(1, 1)]
    );
    assert_eq!(mip_chain(extent(1, 1)), vec![extent(1, 1)]);
    assert!(mip_chain(extent(0, 0)).is_empty());
    let chain = mip_chain(extent(512, 256));
    assert_eq!(chain.len(), 10);
    for level in 1..chain.len() {
        assert_eq!(chain[level].width, halve(chain[level - 1].width));
        assert_eq!(chain[level].height, halve(chain[level - 1].height));
    }
    assert_eq!(chain[9], extent(1, 1));
}

#[test]
fn extent_without_area_is_empty() {
    assert!(extent(0, 0).is_empty());
    assert!(extent(0, 4).is_empty());
    assert!(extent(4, 0).is_empty());
    assert!(!extent(1, 1).is_empty());
}
