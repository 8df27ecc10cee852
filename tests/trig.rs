use rsdkv5::trig::{get_atrig, get_trig, TrigTable};

#[test]
fn trig_lookup_uses_low_byte() {
    let table: Vec<i32> = (0..256).collect();
    assert_eq!(get_trig(5, &table), 5);
    assert_eq!(get_trig(0x105, &table), 5);
    assert_eq!(get_trig(-1, &table), 255);
    let wide: Vec<i32> = (0..0x400).collect();
    assert_eq!(get_trig(0x401, &wide), 1);
    assert_eq!(get_trig(-1, &wide), 0x3FF);
    let mid: Vec<i32> = (0..0x200).collect();
    assert_eq!(get_trig(0x3FF, &mid), 0x1FF);
}

#[test]
fn inverse_lookup_mirrors_negative_angles() {
    let table: Vec<i32> = (0..256).map(|i| i * 2).collect();
    assert_eq!(get_atrig(10, &table), 20);
    assert_eq!(get_atrig(-10, &table), -20);
    assert_eq!(get_atrig(255, &table), 510);
    assert_eq!(get_atrig(256, &table), 0);
}

#[test]
fn trig_table_checks_its_columns() {
    assert!(TrigTable::new(vec![0; 255], vec![0; 256]).is_none());
    let mut big = vec![0; 256];
    big[7] = 257;
    assert!(TrigTable::new(big, vec![0; 256]).is_none());
    let t = TrigTable::new(vec![1; 256], vec![-256; 256]).unwrap();
    assert_eq!(t.sin_256(300), 1);
    assert_eq!(t.cos_256(-3), -256);
}
