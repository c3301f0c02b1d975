use webview_bridge::reactivity::{NodeGeometry, SurfaceCommand, WebViewReactivityPlugin};
use webview_bridge::{SpawnPlan, UiWebViewBundle, WebViewHandle, WebViewLocation, WebViewPlugin, WebViewRegistry};

#[derive(Debug, PartialEq, Clone, Copy)]
struct DummySurface(u32);

#[test]
fn handles_are_allocated_monotonically() {
    let mut registry: WebViewRegistry<DummySurface> = WebViewRegistry::new();
    assert_eq!(registry.len(), 0);
    let h0 = registry.push(DummySurface(10));
    let h1 = registry.push(DummySurface(11));
    let h2 = registry.push(DummySurface(12));
    assert_eq!(h0, WebViewHandle(Some(0)));
    assert_eq!(h1, WebViewHandle(Some(1)));
    assert_eq!(h2, WebViewHandle(Some(2)));
    assert_ne!(h0, h1);
    assert_ne!(h1, h2);
    assert_eq!(registry.len(), 3);
}

#[test]
fn handles_of_a_batch_are_consecutive_and_distinct() {
    let mut registry: WebViewRegistry<DummySurface> = WebViewRegistry::new();
    registry.push(DummySurface(0));
    let handles = registry.push_all(vec![DummySurface(1), DummySurface(2), DummySurface(3)]);
    assert_eq!(
        handles,
        vec![
            WebViewHandle(Some(1)),
            WebViewHandle(Some(2)),
            WebViewHandle(Some(3))
        ]
    );
    assert_eq!(registry.len(), 4);
    assert_eq!(registry.get(2), Some(&DummySurface(2)));
}

#[test]
fn resolve_answers_only_assigned_handles_in_range() {
    let mut registry: WebViewRegistry<DummySurface> = WebViewRegistry::new();
    let h = registry.push(DummySurface(7));
    assert_eq!(registry.resolve(h), Some(&DummySurface(7)));
    assert_eq!(registry.resolve(WebViewHandle(None)), None);
    assert_eq!(registry.resolve(WebViewHandle(Some(5))), None);
    assert_eq!(registry.get(1), None);
}

#[test]
fn resize_forwards_exactly_the_new_dimensions() {
    let r = WebViewReactivityPlugin::on_webview_resize(WebViewHandle(Some(4)), 640, 480);
    match r {
        Some((index, SurfaceCommand::Resize { width, height })) => {
            assert_eq!(index, 4);
            assert_eq!(width, 640);
            assert_eq!(height, 480);
        }
        other => panic!("expected a resize command, got {:?}", other),
    }
    assert!(WebViewReactivityPlugin::on_webview_resize(WebViewHandle(None), 640, 480).is_none());
}

#[test]
fn reposition_derives_top_left_as_center_minus_half_extent() {
    let geometry = NodeGeometry {
        center_x: 200,
        center_y: 200,
        width: 400,
        height: 400,
    };
    let r = WebViewReactivityPlugin::on_webview_reposition(WebViewHandle(Some(0)), geometry);
    match r {
        Some((0, SurfaceCommand::Reposition { x, y })) => {
            assert_eq!((x, y), (0, 0));
        }
        other => panic!("expected a reposition command, got {:?}", other),
    }
    let odd = NodeGeometry {
        center_x: 10,
        center_y: -7,
        width: 5,
        height: 3,
    };
    match WebViewReactivityPlugin::on_webview_reposition(WebViewHandle(Some(1)), odd) {
        Some((1, SurfaceCommand::Reposition { x, y })) => {
            assert_eq!((x, y), (8, -8));
        }
        other => panic!("expected a reposition command, got {:?}", other),
    }
}

#[test]
fn redirect_forwards_urls_and_refuses_inline_markup() {
    let to_url = WebViewReactivityPlugin::on_webview_redirect(
        WebViewHandle(Some(2)),
        WebViewLocation::Url("https://example.com".to_owned()),
    );
    match to_url {
        Some((2, SurfaceCommand::Navigate { url })) => assert_eq!(url, "https://example.com"),
        other => panic!("expected a navigate command, got {:?}", other),
    }
    let to_html = WebViewReactivityPlugin::on_webview_redirect(
        WebViewHandle(Some(2)),
        WebViewLocation::Html("<p>hi</p>".to_owned()),
    );
    assert!(to_html.is_none());
    let unassigned = WebViewReactivityPlugin::on_webview_redirect(
        WebViewHandle(None),
        WebViewLocation::Url("https://example.com".to_owned()),
    );
    assert!(unassigned.is_none());
}

#[test]
fn window_resize_reissues_positions_for_every_assigned_node() {
    let nodes = vec![
        (
            WebViewHandle(Some(0)),
            NodeGeometry {
                center_x: 200,
                center_y: 200,
                width: 400,
                height: 400,
            },
        ),
        (
            WebViewHandle(None),
            NodeGeometry {
                center_x: 50,
                center_y: 50,
                width: 10,
                height: 10,
            },
        ),
        (
            WebViewHandle(Some(1)),
            NodeGeometry {
                center_x: 100,
                center_y: 40,
                width: 20,
                height: 20,
            },
        ),
    ];
    let quiet = WebViewReactivityPlugin::on_window_resize(false, &nodes);
    assert!(quiet.is_empty());
    let commands = WebViewReactivityPlugin::on_window_resize(true, &nodes);
    assert_eq!(commands.len(), 2);
    match &commands[0] {
        (0, SurfaceCommand::Reposition { x, y }) => assert_eq!((*x, *y), (0, 0)),
        other => panic!("expected a reposition command, got {:?}", other),
    }
    match &commands[1] {
        (1, SurfaceCommand::Reposition { x, y }) => assert_eq!((*x, *y), (90, 30)),
        other => panic!("expected a reposition command, got {:?}", other),
    }
}

#[test]
fn spawn_plans_only_unassigned_nodes_with_exact_geometry() {
    let geometry = NodeGeometry {
        center_x: 200,
        center_y: 200,
        width: 400,
        height: 400,
    };
    let plan = WebViewPlugin::on_webview_spawn(
        WebViewHandle(None),
        geometry,
        WebViewLocation::Html("<h1>inline</h1>".to_owned()),
    );
    match plan {
        Some(SpawnPlan {
            position,
            size,
            transparent,
            location,
        }) => {
            assert_eq!(position, (0, 0));
            assert_eq!(size, (400, 400));
            assert!(transparent);
            match location {
                WebViewLocation::Html(h) => assert_eq!(h, "<h1>inline</h1>"),
                WebViewLocation::Url(u) => panic!("expected inline markup, got url {}", u),
            }
        }
        None => panic!("expected a spawn plan for an unassigned node"),
    }
    let already = WebViewPlugin::on_webview_spawn(
        WebViewHandle(Some(0)),
        geometry,
        WebViewLocation::Html(String::new()),
    );
    assert!(already.is_none());
}

#[test]
fn handle_and_location_accessors_reflect_their_value() {
    assert!(WebViewHandle(None).is_unassigned());
    assert!(!WebViewHandle(Some(3)).is_unassigned());
    assert_eq!(WebViewHandle(Some(3)).index(), Some(3));
    assert_eq!(WebViewHandle(None).index(), None);
    assert!(WebViewLocation::Url("https://example.com".to_owned()).is_url());
    assert!(!WebViewLocation::Html("<p></p>".to_owned()).is_url());
}

#[test]
fn fresh_bundle_is_unassigned_with_empty_inline_markup() {
    let mut bundle = UiWebViewBundle::new();
    assert_eq!(bundle.handle, WebViewHandle(None));
    match &bundle.location {
        WebViewLocation::Html(h) => assert_eq!(h, ""),
        WebViewLocation::Url(u) => panic!("expected inline markup, got url {}", u),
    }
    let store = bundle.take_temporary_store();
    assert!(store.is_some());
    assert!(bundle.take_temporary_store().is_none());
    let defaulted = UiWebViewBundle::default();
    assert_eq!(defaulted.handle, WebViewHandle(None));
}
