use milkywm::backend::{choose_backend, pick_crtc, pick_mode, BackendKind, Headless};
use milkywm::paths::{config_path_parts, ctl_socket, runtime_dir, sock_file_name, CtlSocket};
use milkywm::starfield::{star_layer_counts, LcgRng};
use milkywm::thumbnail::ThumbnailCache;

#[test]
fn backend_choice() {
    assert_eq!(choose_backend(Some("headless".to_string()), false, false), Ok(BackendKind::Headless));
    assert_eq!(choose_backend(Some("winit".to_string()), false, false), Ok(BackendKind::Winit));
    assert_eq!(choose_backend(Some("drm".to_string()), true, true), Ok(BackendKind::Drm));
    assert_eq!(choose_backend(None, true, false), Ok(BackendKind::Winit));
    assert_eq!(choose_backend(None, false, true), Ok(BackendKind::Winit));
    assert_eq!(choose_backend(None, false, false), Ok(BackendKind::Drm));
    assert_eq!(
        choose_backend(Some("vulkan".to_string()), false, false),
        Err("unknown MILKYWM_BACKEND: vulkan".to_string())
    );
    assert_eq!(BackendKind::Winit.name(), "winit");
    assert_eq!(BackendKind::Drm.name(), "drm");
    assert_eq!(BackendKind::Headless.name(), "headless");
    let _h: Headless = Headless::new();
    let _d: Headless = Headless::default();
}

#[test]
fn socket_and_config_paths() {
    assert_eq!(sock_file_name("wayland-1"), "milkywm-wayland-1.sock");
    assert_eq!(runtime_dir(None), "/tmp");
    assert_eq!(runtime_dir(Some("/run/user/1000".to_string())), "/run/user/1000");
    match ctl_socket(Some("/x.sock".to_string()), None, None) {
        CtlSocket::Given(p) => assert_eq!(p, "/x.sock"),
        _ => panic!("expected the given path"),
    }
    match ctl_socket(None, None, None) {
        CtlSocket::InDir(d, f) => {
            assert_eq!(d, "/tmp");
            assert_eq!(f, "milkywm-wayland-0.sock");
        }
        _ => panic!("expected a runtime path"),
    }
    assert_eq!(
        config_path_parts(Some("/cfg".to_string()), Some("/home/a".to_string())),
        vec!["/cfg", "milkywm", "config.toml"]
    );
    assert_eq!(config_path_parts(None, Some("/home/a".to_string())), vec!["/home/a", ".config", "milkywm", "config.toml"]);
    assert_eq!(config_path_parts(None, None), vec![".", ".config", "milkywm", "config.toml"]);
}

#[test]
fn star_counts_split_six_three_rest() {
    assert_eq!(star_layer_counts(400), (240, 120, 40));
    assert_eq!(star_layer_counts(7), (4, 2, 1));
    assert_eq!(star_layer_counts(0), (0, 0, 0));
    for t in 0..100usize {
        let (a, b, c) = star_layer_counts(t);
        assert_eq!(a + b + c, t);
    }
}

#[test]
fn lcg_sequence() {
    let mut rng = LcgRng::new(0);
    assert_eq!(rng.next_u64(), 1_442_695_040_888_963_407);
    let expected = 1_442_695_040_888_963_407u64
        .wrapping_mul(6_364_136_223_846_793_005)
        .wrapping_add(1_442_695_040_888_963_407);
    assert_eq!(rng.next_u64(), expected);
    assert_eq!(rng.0, expected);
    let mut a = LcgRng::new(0x4D494C4B_59574159);
    let mut b = LcgRng::new(0x4D494C4B_59574159);
    for _ in 0..10 {
        assert_eq!(a.next_u64(), b.next_u64());
    }
}

#[test]
fn thumbnail_cache_bookkeeping() {
    let mut c: ThumbnailCache<&str> = ThumbnailCache::new();
    assert_eq!(c.get(1), None);
    c.insert(1, "one");
    c.insert(2, "two");
    c.insert(3, "three");
    assert_eq!(c.position(2), Some(1));
    assert_eq!(c.get(3), Some(&"three"));
    *c.entry_mut(0) = "uno";
    assert_eq!(c.get(1), Some(&"uno"));
    c.retain(&[3, 1, 9]);
    assert_eq!(c.entries, vec![(1, "uno"), (3, "three")]);
    assert_eq!(c.get(2), None);
}

#[test]
fn crtc_choice() {
    // The current encoder's CRTC wins.
    assert_eq!(pick_crtc(Some(7u32), &vec![vec![1, 2]]), Some(7));
    // Otherwise the first CRTC of the first encoder that has one.
    assert_eq!(pick_crtc(None, &vec![vec![], vec![4, 5], vec![9]]), Some(4));
    assert_eq!(pick_crtc::<u32>(None, &vec![vec![], vec![]]), None);
    assert_eq!(pick_crtc::<u32>(None, &vec![]), None);
}

#[test]
fn mode_choice() {
    assert_eq!(pick_mode(&vec![false, true, true]), Some(1));
    assert_eq!(pick_mode(&vec![false, false]), Some(0));
    assert_eq!(pick_mode(&vec![]), None);
}

#[test]
fn star_layers_thin_out_toward_the_viewer() {
    for total in [0usize, 4, 5, 7, 13, 20, 400] {
        let (far, mid, near) = star_layer_counts(total);
        assert!(far >= mid && mid >= near, "total {total}");
    }
    assert_eq!(star_layer_counts(2), (1, 0, 1));
    assert_eq!(star_layer_counts(400), (240, 120, 40));
}
