use bowdraw::arrows::remove_marked;
use bowdraw::assets::ImageAssets;

#[test]
fn removes_marked_positions_keeping_order() {
    let mut items = vec!['a', 'b', 'c', 'd', 'e'];
    let mut marked = vec![1, 3];
    remove_marked(&mut items, &mut marked);
    assert_eq!(items, vec!['a', 'c', 'e']);
    assert!(marked.is_empty());
}

#[test]
fn nothing_marked_keeps_everything() {
    let mut items = vec![1, 2, 3];
    let mut marked: Vec<usize> = vec![];
    remove_marked(&mut items, &mut marked);
    assert_eq!(items, vec![1, 2, 3]);
}

#[test]
fn everything_marked_empties() {
    let mut items = vec![1, 2, 3];
    let mut marked = vec![0, 1, 2];
    remove_marked(&mut items, &mut marked);
    assert!(items.is_empty());
}

#[test]
fn first_and_last_marked() {
    let mut items = vec![10, 20, 30, 40];
    let mut marked = vec![0, 3];
    remove_marked(&mut items, &mut marked);
    assert_eq!(items, vec![20, 30]);
}

#[test]
fn image_assets_are_empty() {
    assert_eq!(ImageAssets::new(), ImageAssets {});
}
