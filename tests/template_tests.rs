use template_app::caption::image_caption;
use template_app::state::{Action, Snapshot, UiEvent};
use template_app::template::TemplateApp;

const PNG_3X2: [u8; 73] = [
    0x89, 0x50, 0x4e, 0x47, 0x0d, 0x0a, 0x1a, 0x0a, 0x00, 0x00, 0x00, 0x0d, 0x49, 0x48, 0x44,
    0x52, 0x00, 0x00, 0x00, 0x03, 0x00, 0x00, 0x00, 0x02, 0x08, 0x02, 0x00, 0x00, 0x00, 0x12,
    0x16, 0xf1, 0x4d, 0x00, 0x00, 0x00, 0x10, 0x49, 0x44, 0x41, 0x54, 0x78, 0x9c, 0x63, 0xf8,
    0xcf, 0xc0, 0x00, 0x41, 0x0c, 0x70, 0x16, 0x00, 0x41, 0xd2, 0x05, 0xfb, 0x87, 0xf0, 0xb9,
    0x48, 0x00, 0x00, 0x00, 0x00, 0x49, 0x45, 0x4e, 0x44, 0xae, 0x42, 0x60, 0x82,
];

#[test]
fn caption_reports_size() {
    assert_eq!(image_caption(300, 200), "x: 300, y: 200");
    assert_eq!(image_caption(0, 7), "x: 0, y: 7");
    assert_eq!(image_caption(10, 1024), "x: 10, y: 1024");
}

#[test]
fn app_decodes_image_and_restores_state() {
    let snap = Snapshot { label: Some("kept".to_string()), counter: Some(8000) };
    let app = TemplateApp::new(Some(snap), &PNG_3X2).expect("image decodes");
    assert_eq!(app.state().label(), "kept");
    assert_eq!(app.state().counter(), 8000);
    assert_eq!(app.image().size(), [3, 2]);
    assert_eq!(app.image_size(), (3, 2));
    assert_eq!(app.image_caption(), "x: 3, y: 2");
}

#[test]
fn app_without_snapshot_uses_defaults() {
    let app = TemplateApp::new(None, &PNG_3X2).expect("image decodes");
    assert_eq!(app.state().label(), "Hello World!");
    assert_eq!(app.state().counter(), 2700);
}

#[test]
fn app_fails_on_bad_image() {
    assert!(TemplateApp::new(None, &[1, 2, 3, 4]).is_err());
    assert!(TemplateApp::new(None, &[]).is_err());
}

#[test]
fn app_save_and_reload_round_trips() {
    let mut app = TemplateApp::new(None, &PNG_3X2).expect("image decodes");
    app.handle_event(UiEvent::LabelEdited("again".to_string()), true);
    app.handle_event(UiEvent::IncrementClicked, true);
    assert_eq!(app.handle_event(UiEvent::ExitClicked, true), Action::CloseWindow);
    let reloaded = TemplateApp::new(Some(app.save()), &PNG_3X2).expect("image decodes");
    assert_eq!(reloaded.state().label(), "again");
    assert_eq!(reloaded.state().counter(), 3700);
    assert_eq!(reloaded.image().size(), [3, 2]);
    assert_eq!(reloaded.image_size(), (3, 2));
}

#[test]
fn interactions_leave_image_alone() {
    let mut app = TemplateApp::new(None, &PNG_3X2).expect("image decodes");
    app.handle_event(UiEvent::SliderMoved(10000), true);
    app.handle_event(UiEvent::LabelEdited("x".to_string()), true);
    app.handle_event(UiEvent::TitleBarHeld, true);
    assert_eq!(app.image_size(), (3, 2));
    assert_eq!(app.image().size(), [3, 2]);
}

#[test]
fn decimal_appends_digits() {
    let mut text = String::from("n=");
    template_app::caption::append_decimal(&mut text, 1203);
    assert_eq!(text, "n=1203");
    let mut big = String::new();
    template_app::caption::append_decimal(&mut big, usize::MAX);
    assert_eq!(big, usize::MAX.to_string());
}
