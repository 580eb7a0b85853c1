use cursorhome::{
    find_argb_visual, AllowedDepth, Display, DisplayManager, MonitorGeometry, PictDepth,
    PictFormatInfo, PictScreen, PictVisual, VisualError,
};

fn screen(name: &str, x: i32, y: i32, width: i32, height: i32) -> MonitorGeometry {
    MonitorGeometry { name: name.to_string(), x, y, width, height, scale_factor: 1 }
}

#[test]
fn display_center_and_contains() {
    let d = Display {
        name: "DP-1".to_string(),
        x: 0,
        y: 0,
        width: 1920,
        height: 1080,
        scale_factor: 1,
        is_primary: true,
    };
    assert_eq!(d.center(), (960, 540));
    assert!(d.contains(0, 0));
    assert!(d.contains(1919, 1079));
    assert!(!d.contains(1920, 0));
    assert!(!d.contains(-1, 10));
    let left = Display { x: -1921, width: 1921, ..d };
    assert_eq!(left.center(), (-961, 540));
}

#[test]
fn refresh_marks_the_first_monitor_primary() {
    let mut m = DisplayManager::new();
    assert!(m.primary_display().is_none());
    m.refresh_displays(vec![screen("DP-1", 0, 0, 1920, 1080), screen("HDMI-1", 1920, 0, 1280, 1024)]);
    let ds = m.displays();
    assert_eq!(ds.len(), 2);
    assert!(ds[0].is_primary);
    assert!(!ds[1].is_primary);
    assert_eq!(m.primary_display().unwrap().name, "DP-1");
    assert_eq!(m.display_at(2000, 10).unwrap().name, "HDMI-1");
    assert!(m.display_at(2000, 1050).is_none());
    assert_eq!(m.total_bounds(), (0, 0, 3200, 1080));
}

#[test]
fn total_bounds_without_screens() {
    assert_eq!(DisplayManager::default().total_bounds(), (0, 0, 1920, 1080));
}

#[test]
fn total_bounds_with_negative_offsets() {
    let mut m = DisplayManager::new();
    m.refresh_displays(vec![screen("A", 0, 0, 1920, 1080), screen("B", -1280, -200, 1280, 1024)]);
    assert_eq!(m.total_bounds(), (-1280, -200, 3200, 1280));
}

fn format(id: u32, depth: u8, alpha_mask: u16) -> PictFormatInfo {
    PictFormatInfo { id, depth, direct: true, alpha_mask }
}

#[test]
fn argb_visual_from_render_formats() {
    let formats = vec![format(1, 24, 0), format(2, 32, 0xff)];
    let screens = vec![PictScreen {
        depths: vec![
            PictDepth { depth: 24, visuals: vec![PictVisual { visual: 10, format: 1 }] },
            PictDepth {
                depth: 32,
                visuals: vec![PictVisual { visual: 31, format: 9 }, PictVisual { visual: 33, format: 2 }],
            },
        ],
    }];
    assert_eq!(find_argb_visual(&formats, &screens, &Vec::new()), Ok((33, 32)));
}

#[test]
fn argb_visual_falls_back_to_allowed_depths() {
    let formats = vec![format(1, 24, 0)];
    let allowed = vec![
        AllowedDepth { depth: 24, visual_ids: vec![5] },
        AllowedDepth { depth: 32, visual_ids: vec![] },
        AllowedDepth { depth: 32, visual_ids: vec![77, 78] },
    ];
    assert_eq!(find_argb_visual(&formats, &Vec::new(), &allowed), Ok((77, 32)));
    assert_eq!(
        find_argb_visual(&formats, &Vec::new(), &Vec::new()),
        Err(VisualError::NoArgbVisual)
    );
}
