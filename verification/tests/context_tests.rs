use sparsha::component::{
    begin_component_rebuild, finish_component_rebuild, BuildStateStore, ComponentContext,
    ComponentStateStore, StoredComponentState,
};
use sparsha::context::{BuildContext, EventCommands, PaintCommands};

const TEXT: u64 = 1;
const NUMBER: u64 = 2;

fn ctx() -> BuildContext<(), String> {
    BuildContext::default()
}

#[test]
fn root_resource_lookup_works() {
    let mut ctx = ctx();
    ctx.insert_resource(TEXT, String::from("root"));

    assert_eq!(ctx.resource(TEXT).as_deref(), Some("root"));
    assert_eq!(ctx.context(TEXT), None);
}

#[test]
fn nested_context_scope_shadows_parent() {
    let mut ctx = ctx();
    ctx.push_context(TEXT, String::from("root"));
    ctx.push_context(TEXT, String::from("child"));

    assert_eq!(ctx.context(TEXT).as_deref(), Some("child"));
    assert_eq!(ctx.resource(TEXT).as_deref(), Some("child"));
}

#[test]
fn pop_context_restores_parent_value() {
    let mut ctx = ctx();
    ctx.push_context(TEXT, String::from("root"));
    ctx.push_context(TEXT, String::from("child"));
    ctx.pop_context(TEXT);

    assert_eq!(ctx.context(TEXT).as_deref(), Some("root"));
    assert_eq!(ctx.resource(TEXT).as_deref(), Some("root"));
}

#[test]
fn sibling_subtrees_do_not_leak_context_values() {
    let mut ctx = ctx();
    ctx.push_context(TEXT, String::from("root"));

    ctx.push_context(TEXT, String::from("left"));
    assert_eq!(ctx.context(TEXT).as_deref(), Some("left"));
    assert_eq!(ctx.resource(TEXT).as_deref(), Some("left"));
    ctx.pop_context(TEXT);

    assert_eq!(ctx.context(TEXT).as_deref(), Some("root"));
    assert_eq!(ctx.resource(TEXT).as_deref(), Some("root"));

    ctx.push_context(TEXT, String::from("right"));
    assert_eq!(ctx.context(TEXT).as_deref(), Some("right"));
    assert_eq!(ctx.resource(TEXT).as_deref(), Some("right"));
    ctx.pop_context(TEXT);

    assert_eq!(ctx.context(TEXT).as_deref(), Some("root"));
    assert_eq!(ctx.resource(TEXT).as_deref(), Some("root"));
}

#[test]
fn context_lookup_ignores_root_runtime_resources() {
    let mut ctx = ctx();
    ctx.insert_resource(TEXT, String::from("root"));

    assert_eq!(ctx.context(TEXT), None);
    assert_eq!(ctx.resource(TEXT).as_deref(), Some("root"));
}

#[test]
fn pop_context_does_not_remove_root_resource() {
    let mut ctx = ctx();
    ctx.insert_resource(TEXT, String::from("root"));
    ctx.push_context(TEXT, String::from("child"));
    ctx.pop_context(TEXT);

    assert_eq!(ctx.context(TEXT), None);
    assert_eq!(ctx.resource(TEXT).as_deref(), Some("root"));
}

#[test]
fn resources_of_other_keys_stay_apart() {
    let mut ctx = ctx();
    ctx.push_context(TEXT, String::from("text"));
    ctx.insert_resource(NUMBER, String::from("42"));
    ctx.pop_context(NUMBER);
    assert_eq!(ctx.context(TEXT).as_deref(), Some("text"));
    assert_eq!(ctx.resource(NUMBER).as_deref(), Some("42"));
    assert_eq!(ctx.context(NUMBER), None);
}

#[test]
fn popping_an_empty_scope_is_harmless() {
    let mut ctx = ctx();
    ctx.pop_context(TEXT);
    assert_eq!(ctx.context(TEXT), None);
    assert_eq!(ctx.resource(TEXT), None);
}

#[test]
fn build_context_tracks_path_and_theme() {
    let mut ctx: BuildContext<&str, String> = BuildContext::default();
    assert!(ctx.path().is_empty());
    ctx.set_path(&[0, 2]);
    assert_eq!(ctx.path(), &[0, 2]);
    assert_eq!(ctx.theme("global"), "global");
    ctx.set_theme("pass");
    assert_eq!(ctx.theme("global"), "pass");
}

#[test]
fn build_context_state_store_keys_by_current_path() {
    let mut store: ComponentStateStore<u32> = ComponentStateStore::new();
    let mut ctx = ctx();
    ctx.set_path(&[1]);
    ctx.store_boxed_state(&mut store, 7);
    assert_eq!(ctx.take_boxed_state(&mut store), Some(7));
    assert_eq!(ctx.take_boxed_state(&mut store), None);
}

#[test]
fn event_commands_merge_accumulates_flags() {
    let mut a = EventCommands::none();
    a.request_paint();
    let mut b = EventCommands::none();
    b.capture_pointer();
    b.write_clipboard("copied".to_owned());
    a.merge(b);
    assert!(a.request_paint && a.capture_pointer && a.stop_propagation);
    assert!(!a.release_pointer && !a.request_layout);
    assert_eq!(a.clipboard_write.as_deref(), Some("copied"));

    let mut c = EventCommands::none();
    c.write_clipboard("first".to_owned());
    c.merge(EventCommands::none());
    assert_eq!(c.clipboard_write.as_deref(), Some("first"));
    assert_eq!(c, {
        let mut expected = EventCommands::default();
        expected.clipboard_write = Some("first".to_owned());
        expected
    });
}

#[test]
fn event_commands_layout_and_release_imply_paint() {
    let mut c = EventCommands::none();
    c.request_layout();
    assert!(c.request_layout && c.request_paint);
    let mut d = EventCommands::none();
    d.release_pointer();
    assert!(d.release_pointer && d.request_paint && d.stop_propagation);
}

#[test]
fn paint_commands_merge_accumulates() {
    let mut a = PaintCommands { request_next_frame: false, request_layout: true };
    a.merge(PaintCommands { request_next_frame: true, request_layout: false });
    assert_eq!(a, PaintCommands { request_next_frame: true, request_layout: true });
}

#[test]
fn component_context_exposes_viewport_resource() {
    const VIEWPORT: u64 = 9;
    let mut build: BuildContext<(), (u32, u32)> = BuildContext::default();
    build.set_path(&[0]);
    build.insert_resource(VIEWPORT, (820, 1180));
    let mut state: StoredComponentState<u32> = StoredComponentState::default();
    let cx = ComponentContext::new(&mut build, &mut state);
    assert_eq!(cx.viewport(VIEWPORT, (1024, 768)), (820, 1180));
    assert_eq!(cx.task_runtime(VIEWPORT + 1, (0, 0)), (0, 0));
}

#[test]
fn component_hooks_keep_call_order_across_renders() {
    let mut build: BuildContext<(), u32> = BuildContext::default();
    let mut state: StoredComponentState<u32> = StoredComponentState::default();
    {
        let mut cx = ComponentContext::new(&mut build, &mut state);
        *cx.next_hook(|| 1) += 10;
        let second = cx.next_hook(|| 2);
        assert_eq!(*second, 2);
        assert_eq!(cx.hook_index(), 2);
    }
    {
        let mut cx = ComponentContext::new(&mut build, &mut state);
        assert_eq!(*cx.next_hook(|| 100), 11);
        assert_eq!(*cx.next_hook(|| 200), 2);
    }
}

#[test]
fn component_store_drops_state_of_unvisited_paths() {
    let mut store: ComponentStateStore<&str> = ComponentStateStore::new();
    store.store_boxed_state(vec![0], "kept");
    store.store_boxed_state(vec![1], "dropped");
    store.begin_rebuild();
    store.mark_path_used(&[0]);
    store.finish_rebuild();
    assert_eq!(store.take_boxed_state(&[0]), Some("kept"));
    assert_eq!(store.take_boxed_state(&[1]), None);
}

#[test]
fn component_signal_state_survives_host_recreation_at_same_path() {
    let mut store: ComponentStateStore<StoredComponentState<usize>> = ComponentStateStore::new();
    for expected in [0usize, 1usize] {
        let mut build: BuildContext<(), ()> = BuildContext::default();
        build.set_path(&[0]);
        let mut state = begin_component_rebuild(&build, &mut store);
        {
            let mut cx = ComponentContext::new(&mut build, &mut state);
            let counter = cx.next_hook(|| 0);
            assert_eq!(*counter, expected);
            *counter += 1;
        }
        finish_component_rebuild(&build, &mut store, state);
    }
}

#[test]
fn component_rebuild_drops_hooks_the_render_no_longer_calls() {
    let mut store: ComponentStateStore<StoredComponentState<u32>> = ComponentStateStore::new();
    let mut build: BuildContext<(), ()> = BuildContext::default();
    build.set_path(&[3]);
    let mut state = begin_component_rebuild(&build, &mut store);
    {
        let mut cx = ComponentContext::new(&mut build, &mut state);
        cx.next_hook(|| 1);
        cx.next_hook(|| 2);
    }
    finish_component_rebuild(&build, &mut store, state);
    let mut state = begin_component_rebuild(&build, &mut store);
    {
        let mut cx = ComponentContext::new(&mut build, &mut state);
        assert_eq!(*cx.next_hook(|| 10), 1);
    }
    finish_component_rebuild(&build, &mut store, state);
    let mut state = begin_component_rebuild(&build, &mut store);
    let mut cx = ComponentContext::new(&mut build, &mut state);
    assert_eq!(*cx.next_hook(|| 10), 1);
    assert_eq!(*cx.next_hook(|| 20), 20);
}
