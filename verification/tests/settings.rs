use imgsqueeze::settings::usize_to_string;
use imgsqueeze::settings::ProfileData;
use imgsqueeze::settings::SettingsData;
use imgsqueeze::settings::ThemeKind;
use imgsqueeze::types::ImageType;

#[test]
fn test_default_profile() {
    let p = ProfileData::new();
    assert_eq!(p.name, "Default".to_string());
    assert_eq!(p.id, 0);
    assert!(p.active);
    assert!(!p.should_resize);
    assert!(!p.should_convert);
    assert!(!p.should_overwrite);
    assert!(p.add_posfix);
    assert_eq!(p.convert_extension, ImageType::WEBP);
    assert_eq!(p.postfix, ".min".to_string());
    assert_eq!(p.resize_width, 1000);
    assert_eq!(p.resize_height, 1000);
    assert_eq!(p.jpeg_quality, 80);
    assert_eq!(p.png_quality, 80);
    assert_eq!(p.webp_quality, 80);
    assert_eq!(p.gif_quality, 80);
}

#[test]
fn test_new_params() {
    let p = ProfileData::new_params(7, "Web".to_string());
    assert_eq!(p.id, 7);
    assert_eq!(p.name, "Web".to_string());
    assert!(!p.active);
    assert_eq!(p.postfix, ".min".to_string());
}

#[test]
fn test_default_settings() {
    let s = SettingsData::new();
    assert_eq!(s.version, 1);
    assert!(matches!(s.theme, ThemeKind::System));
    assert_eq!(s.profiles.len(), 1);
    assert_eq!(s.profiles[0].id, 0);
    assert_eq!(s.profiles[0].name, "Default".to_string());
}

#[test]
fn test_delete_default_profile_forbidden() {
    let mut s = SettingsData::new();
    let err = s.delete_profile(0).unwrap_err();
    assert_eq!(err, "Cannot delete default profile".to_string());
    assert_eq!(s.profiles.len(), 1);
}

#[test]
fn test_delete_unknown_profile() {
    let mut s = SettingsData::new();
    let err = s.delete_profile(5).unwrap_err();
    assert_eq!(err, "Profile not found".to_string());
}

#[test]
fn test_add_and_delete_profile() {
    let mut s = SettingsData::new();
    s.add_profile("Web".to_string());
    assert_eq!(s.profiles.len(), 2);
    assert_eq!(s.profiles[1].name, "Web".to_string());
    assert_eq!(s.profiles[1].id, 1);
    assert!(!s.profiles[1].active);
    s.delete_profile(1).unwrap();
    assert_eq!(s.profiles.len(), 1);
    assert_eq!(s.profiles[0].id, 0);
}

#[test]
fn test_add_profile_name_collision() {
    let mut s = SettingsData::new();
    // "Default" is already in use, so the new profile takes the smallest
    // free numeric suffix
    s.add_profile("Default".to_string());
    assert_eq!(s.profiles.len(), 2);
    assert_eq!(s.profiles[1].name, "Default (1)".to_string());
    assert_eq!(s.profiles[1].id, 1);
}

#[test]
fn test_add_profile_repeated_collisions_stay_unique() {
    let mut s = SettingsData::new();
    s.add_profile("a".to_string());
    s.add_profile("a".to_string());
    s.add_profile("a".to_string());
    assert_eq!(s.profiles[1].name, "a".to_string());
    assert_eq!(s.profiles[2].name, "a (1)".to_string());
    assert_eq!(s.profiles[3].name, "a (2)".to_string());
    for i in 0..s.profiles.len() {
        for j in 0..i {
            assert_ne!(s.profiles[i].name, s.profiles[j].name);
        }
    }
}

#[test]
fn test_add_profile_skips_taken_suffix() {
    let mut s = SettingsData::new();
    // a profile literally named "a (1)" blocks the first suffix
    s.add_profile("a (1)".to_string());
    s.add_profile("a".to_string());
    s.add_profile("a".to_string());
    assert_eq!(s.profiles[1].name, "a (1)".to_string());
    assert_eq!(s.profiles[2].name, "a".to_string());
    assert_eq!(s.profiles[3].name, "a (2)".to_string());
}

#[test]
fn test_add_profile_ids_keep_growing() {
    let mut s = SettingsData::new();
    s.add_profile("a".to_string());
    s.add_profile("b".to_string());
    s.delete_profile(1).unwrap();
    s.add_profile("c".to_string());
    // the greatest surviving id is 2, so the next profile gets 3
    assert_eq!(s.profiles[2].id, 3);
}

#[test]
fn test_reset_profile() {
    let mut s = SettingsData::new();
    s.add_profile("Web".to_string());
    s.profiles[1].jpeg_quality = 5;
    s.profiles[1].should_overwrite = true;
    s.reset_profile(1).unwrap();
    assert_eq!(s.profiles[1].name, "Web".to_string());
    assert_eq!(s.profiles[1].id, 1);
    assert_eq!(s.profiles[1].jpeg_quality, 80);
    assert!(!s.profiles[1].should_overwrite);
    assert!(!s.profiles[1].active);
}

#[test]
fn test_reset_unknown_profile() {
    let mut s = SettingsData::new();
    let err = s.reset_profile(9).unwrap_err();
    assert_eq!(err, "Profile not found".to_string());
}

#[test]
fn test_usize_to_string() {
    assert_eq!(usize_to_string(0), "0".to_string());
    assert_eq!(usize_to_string(7), "7".to_string());
    assert_eq!(usize_to_string(10), "10".to_string());
    assert_eq!(usize_to_string(123456), "123456".to_string());
    assert_eq!(usize_to_string(4294967295), "4294967295".to_string());
}
