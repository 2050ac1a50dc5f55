use twors::scene::{Scene, SceneError};

#[test]
fn add_twice_pending_is_refused() {
    let mut scene: Scene<&str> = Scene::new();
    assert_eq!(scene.request_add(1, "x"), Ok(()));
    assert_eq!(scene.request_add(1, "x again"), Err(SceneError::AlreadyPendingAdd(1)));
    scene.apply_pending();
    assert_eq!(scene.components(), &vec!["x"]);
}

#[test]
fn removing_unknown_is_refused() {
    let mut scene: Scene<&str> = Scene::new();
    assert_eq!(scene.request_remove(3), Err(SceneError::NotPresent(3)));
    assert_eq!(scene.request_add(3, "x"), Ok(()));
    assert_eq!(scene.request_remove(3), Err(SceneError::NotPresent(3)));
    scene.apply_pending();
    assert_eq!(scene.request_remove(3), Ok(()));
    assert_eq!(scene.request_remove(3), Ok(()));
}

#[test]
fn nothing_changes_until_applied() {
    let mut scene: Scene<&str> = Scene::new();
    scene.request_add(1, "a").unwrap();
    scene.request_add(2, "b").unwrap();
    assert!(scene.components().is_empty());
    scene.apply_pending();
    assert_eq!(scene.components(), &vec!["a", "b"]);
    scene.request_remove(1).unwrap();
    scene.request_add(3, "c").unwrap();
    scene.request_add(2, "b2").unwrap();
    assert_eq!(scene.components(), &vec!["a", "b"]);
    scene.apply_pending();
    assert_eq!(scene.components(), &vec!["c", "b2"]);
}

#[test]
fn order_of_survivors_is_kept() {
    let mut scene: Scene<u32> = Scene::new();
    for id in 0..5u64 {
        scene.request_add(id, id as u32 * 10).unwrap();
    }
    scene.apply_pending();
    scene.request_remove(1).unwrap();
    scene.request_remove(3).unwrap();
    scene.apply_pending();
    assert_eq!(scene.components(), &vec![0, 20, 40]);
}
