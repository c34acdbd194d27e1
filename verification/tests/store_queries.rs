use transshot::errors::Error;
use transshot::geometry::MonitorInfo;
use transshot::geometry::WindowRect;
use transshot::store::get_frozen_screenshot;
use transshot::store::CaptureSet;
use transshot::store::CaptureStore;

fn small_set(mode: &str, images: Vec<&str>) -> CaptureSet {
    let monitors: Vec<MonitorInfo> = (0..images.len())
        .map(|i| MonitorInfo {
            name: format!("monitor-{}", i),
            x: 100 * i as i32,
            y: 0,
            width: 100,
            height: 100,
            scale_factor_milli: 1000,
        })
        .collect();
    CaptureSet {
        images: images.into_iter().map(|s| s.to_string()).collect(),
        mode: mode.to_string(),
        window_rects: vec![WindowRect { x: -50, y: 1050, width: 32000, height: 18000 }],
        monitors,
    }
}

#[test]
fn fresh_store_has_no_images() {
    let store = CaptureStore::new();
    assert_eq!(store.get_image(0), Err(Error::NotFound { monitor: 0 }));
    let (mode, rects, monitors) = store.get_metadata();
    assert_eq!(mode, "");
    assert!(rects.is_empty());
    assert!(monitors.is_empty());
}

#[test]
fn get_image_by_index_or_not_found() {
    let mut store = CaptureStore::new();
    store.replace(small_set("screenshot", vec!["first", "second"]));
    assert_eq!(store.get_image(0), Ok("first".to_string()));
    assert_eq!(store.get_image(1), Ok("second".to_string()));
    assert_eq!(store.get_image(2), Err(Error::NotFound { monitor: 2 }));
}

#[test]
fn frozen_query_serves_one_complete_generation() {
    let mut store = CaptureStore::new();
    store.replace(small_set("ocr_translate", vec!["only"]));
    let f = get_frozen_screenshot(&store, 0).unwrap();
    assert_eq!(f.image, "only");
    assert_eq!(f.mode, "ocr_translate");
    assert_eq!(f.window_rects.len(), 1);
    assert_eq!(f.window_rects[0].width, 32000);
    assert_eq!(f.monitors.len(), 1);
    assert_eq!(f.monitors[0].name, "monitor-0");
}

#[test]
fn replace_fully_supersedes_prior_generation() {
    let mut store = CaptureStore::new();
    store.replace(small_set("screenshot", vec!["old-0", "old-1", "old-2"]));
    store.replace(small_set("ocr_translate", vec!["new-0"]));
    // every component comes from the new generation, none from the old
    let f = get_frozen_screenshot(&store, 0).unwrap();
    assert_eq!(f.image, "new-0");
    assert_eq!(f.mode, "ocr_translate");
    assert_eq!(f.monitors.len(), 1);
    // indexes of the old, larger generation are stale now
    assert_eq!(store.get_image(1), Err(Error::NotFound { monitor: 1 }));
    assert!(get_frozen_screenshot(&store, 2).is_err());
}
