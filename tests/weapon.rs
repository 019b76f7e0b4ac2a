use mhw_toolkit::weapon::WeaponType;

#[test]
fn test_weapon_type() {
    let longsword_id: i32 = 3;
    assert_eq!(WeaponType::LongSword, longsword_id);
    assert_eq!(WeaponType::LongSword.as_i32(), 3);
    assert_eq!(WeaponType::from_i32(3), Some(WeaponType::LongSword));
    assert_eq!(WeaponType::from_i32(14), None);
}

#[test]
fn weapon_numbers_cover_all_kinds() {
    for id in 0..14 {
        assert_eq!(WeaponType::from_i32(id).unwrap().as_i32(), id);
    }
    assert_eq!(WeaponType::from_i32(-1), None);
    assert!(WeaponType::Bow != 3);
}
