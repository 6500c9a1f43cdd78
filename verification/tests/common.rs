use wayvern::common::Common;
use wayvern::flutter_engine::Baton;
use wayvern::wayland_messages::Size;

const A: Size = Size { w: 640, h: 480 };
const B: Size = Size { w: 800, h: 600 };

#[test]
fn view_ids_start_at_one_and_increase() {
    let mut common = Common::new();
    assert_eq!(common.get_new_view_id(), 1);
    assert_eq!(common.get_new_view_id(), 2);
    assert_eq!(common.get_new_texture_id(), 1);
    assert_eq!(common.get_new_view_id(), 3);
    assert_eq!(common.get_new_texture_id(), 2);
}

#[test]
fn first_commit_registers_a_texture() {
    let mut common = Common::new();
    assert_eq!(common.texture_id_for_commit(7, None, A), (1, true));
    assert_eq!(common.texture_ids_per_view_id.get(&7), Some(&vec![1]));
    assert_eq!(common.view_id_per_texture_id.get(&1), Some(&7));
}

#[test]
fn same_size_commit_reuses_texture() {
    let mut common = Common::new();
    common.texture_id_for_commit(7, None, A);
    assert_eq!(common.texture_id_for_commit(7, Some(A), A), (1, false));
    assert_eq!(common.texture_id_for_commit(7, Some(A), A), (1, false));
    assert_eq!(common.get_new_texture_id(), 2);
}

#[test]
fn resize_keeps_at_most_two_textures() {
    let mut common = Common::new();
    assert_eq!(common.texture_id_for_commit(3, None, A), (1, true));
    assert_eq!(common.texture_id_for_commit(3, Some(A), B), (2, true));
    assert_eq!(common.texture_ids_per_view_id.get(&3), Some(&vec![1, 2]));
    assert_eq!(common.texture_id_for_commit(3, Some(B), A), (3, true));
    assert_eq!(common.texture_ids_per_view_id.get(&3), Some(&vec![2, 3]));
    assert_eq!(common.texture_id_for_commit(3, Some(A), A), (3, false));
    // A view that lost its size record gets a new texture.
    assert_eq!(common.texture_id_for_commit(3, None, A), (4, true));
    // Textures dropped from the view keep their view.
    assert_eq!(common.view_id_per_texture_id.get(&1), Some(&3));
}

#[test]
fn views_have_separate_textures() {
    let mut common = Common::new();
    assert_eq!(common.texture_id_for_commit(1, None, A), (1, true));
    assert_eq!(common.texture_id_for_commit(2, None, A), (2, true));
    assert_eq!(common.texture_id_for_commit(1, Some(A), A), (1, false));
    assert_eq!(common.texture_id_for_commit(2, Some(A), A), (2, false));
    // Same size, but the view has no texture yet.
    assert_eq!(common.texture_id_for_commit(9, Some(A), A), (3, true));
}

#[test]
fn baton_handed_back_at_once_without_vblank() {
    let mut common = Common::new();
    assert_eq!(common.receive_baton(Some(Baton(5))), Some(Baton(5)));
    assert_eq!(common.baton, None);
    assert_eq!(common.vsync(), None);
}

#[test]
fn baton_waits_for_scheduled_vblank() {
    let mut common = Common::new();
    common.is_next_vblank_scheduled = true;
    assert_eq!(common.receive_baton(Some(Baton(8))), None);
    assert_eq!(common.baton, Some(Baton(8)));
    assert_eq!(common.vsync(), Some(Baton(8)));
    assert!(!common.is_next_vblank_scheduled);
    assert_eq!(common.vsync(), None);
}

#[test]
fn newer_baton_replaces_waiting_one() {
    let mut common = Common::new();
    common.is_next_vblank_scheduled = true;
    assert_eq!(common.receive_baton(Some(Baton(1))), None);
    assert_eq!(common.receive_baton(Some(Baton(2))), None);
    assert_eq!(common.vsync(), Some(Baton(2)));
}

#[test]
fn closed_channel_hands_back_stored_baton() {
    let mut common = Common::new();
    common.baton = Some(Baton(4));
    assert_eq!(common.receive_baton(None), Some(Baton(4)));
}

#[test]
fn long_texture_list_keeps_only_newest_before_new_one() {
    let mut common = Common::new();
    common.texture_ids_per_view_id.insert(5, vec![10, 11, 12]);
    common.next_texture_id = 20;
    assert_eq!(common.texture_id_for_commit(5, None, A), (20, true));
    assert_eq!(common.texture_ids_per_view_id.get(&5), Some(&vec![12, 20]));
    assert_eq!(common.view_id_per_texture_id.get(&20), Some(&5));
}

#[test]
fn texture_lists_stay_short_and_fresh() {
    let mut common = Common::new();
    let sizes = [A, B, A, A, B, B, A];
    let mut last = None;
    for (round, size) in sizes.iter().enumerate() {
        for view in 1..4u64 {
            let before: Vec<i64> = common.texture_ids_per_view_id.values().flatten().copied().collect();
            let (id, is_new) = common.texture_id_for_commit(view, last, *size);
            if is_new {
                assert!(!before.contains(&id), "round {round}: texture {id} given twice");
            }
            for list in common.texture_ids_per_view_id.values() {
                assert!(list.len() <= 2);
                assert!(list.iter().all(|t| *t < common.next_texture_id));
            }
            assert_eq!(common.texture_ids_per_view_id[&view].last(), Some(&id));
        }
        last = Some(*size);
    }
}

#[test]
fn new_view_ids_are_fresh() {
    let mut common = Common::new();
    let mut given = Vec::new();
    for _ in 0..10 {
        let id = common.get_new_view_id();
        assert!(!given.contains(&id));
        given.push(id);
        assert!(given.iter().all(|g| *g < common.next_view_id));
    }
}

#[test]
fn new_texture_needed_exactly_when_not_reused() {
    let mut common = Common::new();
    assert!(common.needs_new_texture(4, None, A));
    common.texture_id_for_commit(4, None, A);
    assert!(!common.needs_new_texture(4, Some(A), A));
    assert!(common.needs_new_texture(4, Some(A), B));
    assert!(common.needs_new_texture(5, Some(A), A));
}
