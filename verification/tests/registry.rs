use dear_mirl_gui::module_manager::{BufferState, InsertionMode, ModuleRegistry};
use dear_mirl_gui::paths::{ModulePath, NO_NAME};

fn registry_with(ids: &[u32]) -> ModuleRegistry<String, u32> {
    let mut r: ModuleRegistry<String, u32> = ModuleRegistry::new();
    for id in ids {
        r.register_module(ModulePath::<String>::const_new(*id), format!("m{}", id));
    }
    r
}

fn resolved(r: &ModuleRegistry<String, u32>, module: usize, container: usize) -> Option<u32> {
    r.get_image_cache(module, container).map(|a| *a)
}

fn same(a: &u32, b: &u32) -> bool {
    a == b
}

#[test]
fn container_ids_count_up() {
    let mut r = registry_with(&[]);
    assert_eq!(r.get_available_id(), 1);
    assert_eq!(r.get_available_id(), 2);
    r.next_container_id = usize::MAX;
    assert_eq!(r.get_available_id(), usize::MAX);
    assert_eq!(r.next_container_id, 0);
}

#[test]
fn registered_modules_are_found_by_id() {
    let r = registry_with(&[7, 9, 3]);
    assert_eq!(r.get_idx_of_id(7), Some(0));
    assert_eq!(r.get_idx_of_id(9), Some(1));
    assert_eq!(r.get_idx_of_id(3), Some(2));
    assert_eq!(r.get_idx_of_id(4), None);
    assert_eq!(r.modules, vec!["m7".to_string(), "m9".to_string(), "m3".to_string()]);
    assert_eq!(r.image_cache.len(), 3);
}

#[test]
fn removing_a_module_keeps_the_others_findable() {
    let mut r = registry_with(&[7, 9, 3]);
    assert!(r.remove_module(&ModulePath::<String>::const_new(9)));
    assert_eq!(r.get_idx_of_id(9), None);
    assert_eq!(r.get_idx_of_id(7), Some(0));
    assert_eq!(r.get_idx_of_id(3), Some(1));
    assert_eq!(r.modules[r.get_idx_of_id(3).unwrap()], "m3".to_string());
    assert_eq!(r.image_cache.len(), 2);
    assert!(!r.remove_module(&ModulePath::<String>::const_new(9)));
}

#[test]
fn registering_then_removing_gives_back_the_registry() {
    let mut r = registry_with(&[1, 2]);
    let p = r.register_module(ModulePath::<String>::const_new(5), "new".to_string());
    assert_eq!(r.get_idx_of_id(5), Some(2));
    assert!(r.remove_module(&p));
    assert_eq!(r.modules, vec!["m1".to_string(), "m2".to_string()]);
    assert_eq!(r.get_idx_of_id(1), Some(0));
    assert_eq!(r.get_idx_of_id(2), Some(1));
}

#[test]
fn registering_an_id_again_points_it_at_the_new_module() {
    let mut r = registry_with(&[1]);
    r.register_module(ModulePath::<String>::const_new(1), "again".to_string());
    assert_eq!(r.get_idx_of_id(1), Some(1));
    assert_eq!(r.index.len(), 1);
}

#[test]
fn replace_all_shows_the_image_in_every_container() {
    let mut r = registry_with(&[1]);
    assert_eq!(r.ensure_module_cache_capacity(0, 3), Some(()));
    assert_eq!(r.image_cache[0].len(), 3);
    assert_eq!(r.insert_into_image_cache(0, 1, 42, InsertionMode::ReplaceAll, &same), Some(()));
    for k in 0..3 {
        assert_eq!(resolved(&r, 0, k), Some(42));
    }
    match &r.image_cache[0][0] {
        BufferState::Filled { referenced_by, .. } => assert_eq!(referenced_by, &vec![1, 2]),
        _ => panic!("slot 0 should hold the image"),
    }
}

#[test]
fn clone_across_ids_shows_the_image_in_the_targets() {
    let mut r = registry_with(&[1]);
    r.insert_into_image_cache(0, 0, 5, InsertionMode::CloneAcrossIds(vec![4, 2, 6]), &same);
    assert_eq!(r.image_cache[0].len(), 7);
    assert_eq!(resolved(&r, 0, 2), Some(5));
    assert_eq!(resolved(&r, 0, 4), Some(5));
    assert_eq!(resolved(&r, 0, 6), Some(5));
    assert_eq!(resolved(&r, 0, 3), None);
    match &r.image_cache[0][2] {
        BufferState::Filled { referenced_by, .. } => assert_eq!(referenced_by, &vec![4, 6]),
        _ => panic!("the smallest target should hold the image"),
    }
}

#[test]
fn simple_insertion_hands_the_old_image_over() {
    let mut r = registry_with(&[1]);
    r.insert_into_image_cache(0, 0, 5, InsertionMode::CloneAcrossIds(vec![0, 1, 2]), &same);
    r.insert_into_image_cache(0, 0, 8, InsertionMode::Simple, &same);
    assert_eq!(resolved(&r, 0, 0), Some(8));
    assert_eq!(resolved(&r, 0, 1), Some(5));
    assert_eq!(resolved(&r, 0, 2), Some(5));
}

#[test]
fn search_in_same_module_shares_an_equal_image() {
    let mut r = registry_with(&[1]);
    r.insert_into_image_cache(0, 2, 7, InsertionMode::SearchInSameModule, &same);
    r.insert_into_image_cache(0, 0, 7, InsertionMode::SearchInSameModule, &same);
    assert!(matches!(r.image_cache[0][0], BufferState::FoundAt(2)));
    assert_eq!(resolved(&r, 0, 0), Some(7));
    match &r.image_cache[0][2] {
        BufferState::Filled { referenced_by, .. } => assert_eq!(referenced_by, &vec![0]),
        _ => panic!("slot 2 should hold the image"),
    }
}

#[test]
fn search_in_same_module_stores_the_image() {
    let mut r = registry_with(&[1]);
    r.insert_into_image_cache(0, 1, 9, InsertionMode::SearchInSameModule, &same);
    assert_eq!(resolved(&r, 0, 1), Some(9));
    assert_eq!(resolved(&r, 0, 0), None);
}

#[test]
fn missing_module_or_slot_has_no_image() {
    let mut r = registry_with(&[1]);
    assert_eq!(resolved(&r, 3, 0), None);
    assert_eq!(resolved(&r, 0, 10), None);
    r.insert_into_image_cache(2, 0, 1, InsertionMode::ReplaceAll, &same);
    assert_eq!(r.image_cache.len(), 3);
    r.reset_cache();
    assert_eq!(r.image_cache.len(), 3);
    assert!(r.image_cache.iter().all(|m| m.is_empty()));
}

#[test]
fn needs_redraw_asks_every_module() {
    let r = registry_with(&[1, 2]);
    assert!(r.needs_redraw(&|m: &String| m == "m2"));
    assert!(!r.needs_redraw(&|_m: &String| false));
}

#[test]
fn module_paths() {
    let p = ModulePath::<u8>::const_new(12);
    assert_eq!(p.id(), 12);
    assert_eq!(p.name, NO_NAME);
    let named = p.with_name("Slider with a long name");
    assert_eq!(named.name, ['S', 'l', 'i', 'd', 'e', 'r', ' ', 'w']);
    let short = ModulePath::<u8>::const_new(1).with_name("ab");
    assert_eq!(short.name, ['a', 'b', ' ', ' ', ' ', ' ', ' ', ' ']);
    assert!(short == short.clone());
    assert!(short != named);
}

#[test]
fn a_registered_module_stays_found_through_other_calls() {
    let mut r = registry_with(&[1, 2]);
    r.register_module(ModulePath::<String>::const_new(4), "four".to_string());
    r.register_module(ModulePath::<String>::const_new(5), "five".to_string());
    assert!(r.remove_module(&ModulePath::<String>::const_new(1)));
    r.register_module(ModulePath::<String>::const_new(6), "six".to_string());
    assert!(r.remove_module(&ModulePath::<String>::const_new(6)));
    let i = r.get_idx_of_id(4).unwrap();
    assert_eq!(i, 1);
    assert_eq!(r.modules[i], "four".to_string());
}
