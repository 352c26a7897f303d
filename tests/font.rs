use fluidlite::raw::{PresetEntry, RawFont, RawPreset};
use fluidlite::{FontRef, HasHandle, IsFont, IsPreset, PresetRef};

fn preset(name: Option<&[u8]>, banknum: Option<i32>, num: Option<i32>) -> RawPreset {
    RawPreset { name: name.map(|b| b.to_vec()), banknum, num }
}

fn font_with(presets: Option<Vec<PresetEntry>>) -> RawFont {
    RawFont { id: 3, name: Some(b"Grand\0".to_vec()), presets }
}

#[test]
fn font_id_is_the_native_field() {
    let f = font_with(None);
    assert_eq!(FontRef::from_ptr(&f).get_id(), 3);
}

#[test]
fn font_name_reads_up_to_terminator() {
    let f = RawFont { id: 1, name: Some(b"Grand\0junk".to_vec()), presets: None };
    assert_eq!(FontRef::from_ptr(&f).get_name(), Some("Grand"));
}

#[test]
fn font_name_without_lookup_is_none() {
    let f = RawFont { id: 1, name: None, presets: None };
    assert_eq!(FontRef::from_ptr(&f).get_name(), None);
}

#[test]
fn font_name_not_utf8_is_none() {
    let f = RawFont { id: 1, name: Some(vec![0x47, 0xff, 0xfe, 0]), presets: None };
    assert_eq!(FontRef::from_ptr(&f).get_name(), None);
}

#[test]
fn font_name_empty_string() {
    let f = RawFont { id: 1, name: Some(vec![0]), presets: None };
    assert_eq!(FontRef::from_ptr(&f).get_name(), Some(""));
}

#[test]
fn preset_name_without_lookup_is_none() {
    let p = preset(None, Some(0), Some(0));
    assert_eq!(PresetRef::from_ptr(&p).get_name(), None);
}

#[test]
fn preset_name_not_utf8_is_none() {
    let p = preset(Some(&[0xc3, 0x28, 0]), None, None);
    assert_eq!(PresetRef::from_ptr(&p).get_name(), None);
}

#[test]
fn preset_name_is_decoded() {
    let p = preset(Some("Orgue \u{e9}\0".as_bytes()), None, None);
    assert_eq!(PresetRef::from_ptr(&p).get_name(), Some("Orgue \u{e9}"));
}

#[test]
fn get_preset_without_lookup_is_none_for_every_pair() {
    let f = font_with(None);
    let r = FontRef::from_ptr(&f);
    for bank in [0u32, 1, 128, u32::MAX] {
        for num in [0u32, 5, 127, u32::MAX] {
            assert!(r.get_preset(bank, num).is_none());
        }
    }
}

#[test]
fn get_preset_missing_entry_is_none() {
    let entries = vec![PresetEntry { bank: 0, num: 1, preset: preset(None, Some(0), Some(1)) }];
    let f = font_with(Some(entries));
    let r = FontRef::from_ptr(&f);
    assert!(r.get_preset(1, 0).is_none());
    assert!(r.get_preset(0, 2).is_none());
}

#[test]
fn get_preset_finds_first_matching_entry() {
    let entries = vec![
        PresetEntry { bank: 0, num: 0, preset: preset(Some(b"Piano\0"), Some(0), Some(0)) },
        PresetEntry { bank: 8, num: 4, preset: preset(Some(b"Strings\0"), Some(8), Some(4)) },
        PresetEntry { bank: 8, num: 4, preset: preset(Some(b"Later\0"), Some(8), Some(4)) },
    ];
    let f = font_with(Some(entries));
    let r = FontRef::from_ptr(&f);
    let p = r.get_preset(8, 4).unwrap();
    assert_eq!(p.get_name(), Some("Strings"));
    assert_eq!(p.get_banknum(), Some(8));
    assert_eq!(p.get_num(), Some(4));
    let first = &f.presets.as_ref().unwrap()[1].preset;
    assert!(std::ptr::eq(p.get_handle(), first));
}

#[test]
fn banknum_sentinel() {
    assert_eq!(PresetRef::from_ptr(&preset(None, Some(-1), None)).get_banknum(), None);
    assert_eq!(PresetRef::from_ptr(&preset(None, Some(i32::MIN), None)).get_banknum(), None);
    assert_eq!(PresetRef::from_ptr(&preset(None, Some(0), None)).get_banknum(), Some(0));
    assert_eq!(PresetRef::from_ptr(&preset(None, Some(128), None)).get_banknum(), Some(128));
    assert_eq!(
        PresetRef::from_ptr(&preset(None, Some(i32::MAX), None)).get_banknum(),
        Some(i32::MAX as u32)
    );
    assert_eq!(PresetRef::from_ptr(&preset(None, None, None)).get_banknum(), None);
}

#[test]
fn num_sentinel() {
    assert_eq!(PresetRef::from_ptr(&preset(None, None, Some(-7))).get_num(), None);
    assert_eq!(PresetRef::from_ptr(&preset(None, None, Some(0))).get_num(), Some(0));
    assert_eq!(PresetRef::from_ptr(&preset(None, None, Some(42))).get_num(), Some(42));
    assert_eq!(PresetRef::from_ptr(&preset(None, None, None)).get_num(), None);
}

#[test]
fn preset_ref_round_trip_keeps_identity() {
    let p = preset(None, None, None);
    let r = PresetRef::from_ptr(&p);
    assert!(std::ptr::eq(r.get_handle(), &p));
}

#[test]
fn font_ref_round_trip_keeps_identity() {
    let f = font_with(None);
    let r = FontRef::from_ptr(&f);
    assert!(std::ptr::eq(r.as_ptr(), &f));
    assert!(std::ptr::eq(r.get_handle(), &f));
}
