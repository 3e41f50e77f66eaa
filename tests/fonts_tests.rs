use egui::{FontData, FontDefinitions, FontFamily};
use template_app::fonts::{
    custom_font_definitions, install_font, move_to_back, move_to_front, remove_name,
    CUSTOM_FONT_NAME,
};

fn names(v: &[&str]) -> Vec<String> {
    v.iter().map(|s| s.to_string()).collect()
}

fn family(defs: &FontDefinitions, f: FontFamily) -> Vec<String> {
    defs.families.get(&f).cloned().unwrap_or_default()
}

#[test]
fn remove_name_drops_every_copy() {
    let r = remove_name(&names(&["a", "b", "a", "c"]), &"a".to_string());
    assert_eq!(r, names(&["b", "c"]));
    assert!(remove_name(&Vec::new(), &"a".to_string()).is_empty());
}

#[test]
fn move_to_front_and_back() {
    let list = names(&["a", "chn", "b"]);
    let name = "chn".to_string();
    assert_eq!(move_to_front(&list, &name), names(&["chn", "a", "b"]));
    assert_eq!(move_to_back(&list, &name), names(&["a", "b", "chn"]));
    assert_eq!(move_to_front(&Vec::new(), &name), names(&["chn"]));
    assert_eq!(move_to_back(&names(&["x"]), &name), names(&["x", "chn"]));
}

#[test]
fn install_font_on_empty_definitions() {
    let mut defs = FontDefinitions::empty();
    install_font(&mut defs, "mine".to_string(), FontData::from_owned(vec![1, 2, 3]));
    assert_eq!(family(&defs, FontFamily::Proportional), names(&["mine"]));
    assert_eq!(family(&defs, FontFamily::Monospace), names(&["mine"]));
    assert!(defs.font_data.contains_key("mine"));
}

#[test]
fn custom_fonts_lead_proportional_and_trail_monospace() {
    let stock = FontDefinitions::default();
    let defs = custom_font_definitions(&[0u8; 4]);
    let prop = family(&defs, FontFamily::Proportional);
    let mono = family(&defs, FontFamily::Monospace);
    assert_eq!(prop[0], CUSTOM_FONT_NAME);
    assert_eq!(&prop[1..], &family(&stock, FontFamily::Proportional)[..]);
    assert_eq!(mono.last().map(|s| s.as_str()), Some(CUSTOM_FONT_NAME));
    assert_eq!(&mono[..mono.len() - 1], &family(&stock, FontFamily::Monospace)[..]);
    assert!(defs.font_data.contains_key(CUSTOM_FONT_NAME));
    assert_eq!(defs.font_data.len(), stock.font_data.len() + 1);
}

#[test]
fn installing_twice_keeps_one_entry() {
    let mut defs = custom_font_definitions(&[0u8; 4]);
    let once_prop = family(&defs, FontFamily::Proportional);
    let once_mono = family(&defs, FontFamily::Monospace);
    install_font(&mut defs, "chn".to_string(), FontData::from_owned(vec![0u8; 4]));
    let prop = family(&defs, FontFamily::Proportional);
    assert_eq!(prop, once_prop);
    assert_eq!(family(&defs, FontFamily::Monospace), once_mono);
    assert_eq!(prop[0], "chn");
    assert_eq!(prop.iter().filter(|n| n.as_str() == "chn").count(), 1);
}

#[test]
fn custom_fonts_exact_lists_and_data() {
    let font: &'static [u8] = &[7, 8, 9];
    let defs = custom_font_definitions(font);
    assert_eq!(
        family(&defs, FontFamily::Proportional),
        names(&["chn", "Ubuntu-Light", "NotoEmoji-Regular", "emoji-icon-font"])
    );
    assert_eq!(
        family(&defs, FontFamily::Monospace),
        names(&["Hack", "Ubuntu-Light", "NotoEmoji-Regular", "emoji-icon-font", "chn"])
    );
    let data = &defs.font_data["chn"];
    assert_eq!(&data.font[..], font);
    assert_eq!(data.index, 0);
    assert_eq!(defs.families.len(), 2);
}

#[test]
fn second_setup_matches_first() {
    let first = custom_font_definitions(&[1, 2]);
    let second = custom_font_definitions(&[1, 2]);
    assert_eq!(first.families, second.families);
    let k1: Vec<&String> = first.font_data.keys().collect();
    let k2: Vec<&String> = second.font_data.keys().collect();
    assert_eq!(k1, k2);
    assert_eq!(first.font_data["chn"].font, second.font_data["chn"].font);
}

#[test]
fn install_font_keeps_other_data_and_families() {
    let mut defs = FontDefinitions::empty();
    defs.font_data.insert("other".to_string(), FontData::from_owned(vec![5, 6]));
    defs.families.insert(FontFamily::Name("serif".into()), names(&["other"]));
    install_font(&mut defs, "mine".to_string(), FontData::from_owned(vec![1]));
    assert_eq!(&defs.font_data["other"].font[..], &[5u8, 6][..]);
    assert_eq!(&defs.font_data["mine"].font[..], &[1u8][..]);
    assert_eq!(family(&defs, FontFamily::Name("serif".into())), names(&["other"]));
}
