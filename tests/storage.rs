use rsdkv5::scene::{SceneInfo, ScrollInfo};
use rsdkv5::storage::{
    get_storage_limit, legacy_get_global_variable_by_name, legacy_get_global_variable_id,
    legacy_set_global_variable_by_name, GlobalVariables, StorageDataSets,
};
use rsdkv5::tiles::{CollisionMask, TileInfo};

fn vars() -> GlobalVariables {
    GlobalVariables {
        names: vec!["lives".to_string(), "score".to_string(), "lives".to_string()],
        values: vec![3, 1000, 9],
    }
}

#[test]
fn global_lookup_takes_the_first_match() {
    let v = vars();
    assert_eq!(legacy_get_global_variable_by_name(&v, "lives"), 3);
    assert_eq!(legacy_get_global_variable_by_name(&v, "score"), 1000);
    assert_eq!(legacy_get_global_variable_by_name(&v, "rings"), 0);
    assert_eq!(legacy_get_global_variable_id(&v, "score"), 1);
    assert_eq!(legacy_get_global_variable_id(&v, "rings"), 0xFF);
}

#[test]
fn global_set_changes_only_the_first_match() {
    let mut v = vars();
    legacy_set_global_variable_by_name(&mut v, "lives", 5);
    assert_eq!(v.values, vec![5, 1000, 9]);
    legacy_set_global_variable_by_name(&mut v, "rings", 50);
    assert_eq!(v.values, vec![5, 1000, 9]);
}

#[test]
fn storage_limits_per_data_set() {
    assert_eq!(get_storage_limit(StorageDataSets::DatasetStg), 24 * 1024 * 1024);
    assert_eq!(get_storage_limit(StorageDataSets::DatasetMus), 8 * 1024 * 1024);
    assert_eq!(get_storage_limit(StorageDataSets::DatasetSfx), 32 * 1024 * 1024);
    assert_eq!(get_storage_limit(StorageDataSets::DatasetStr), 2 * 1024 * 1024);
    assert_eq!(get_storage_limit(StorageDataSets::DatasetTmp), 8 * 1024 * 1024);
}

#[test]
fn constructors_start_cleared() {
    let s = ScrollInfo::new();
    assert_eq!(s.scroll_pos, 0);
    assert_eq!(s.parallax_factor, 0);
    let i = SceneInfo::new();
    assert_eq!(i.list_pos, 0);
    assert!(!i.debug_mode);
    let m = CollisionMask::new();
    assert!(m.floor_masks.iter().all(|&d| d == 0xFF));
    assert!(m.l_wall_masks.iter().all(|&d| d == 0xFF));
    assert!(m.r_wall_masks.iter().all(|&d| d == 0xFF));
    assert!(m.roof_masks.iter().all(|&d| d == 0xFF));
    let t = TileInfo::new();
    assert_eq!(t.floor_angle, 0);
    assert_eq!(t.flag, 0);
}
