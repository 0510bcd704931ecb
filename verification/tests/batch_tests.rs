use os_kernel::batch::{
    app_base_address, run_next_app, AppLoad, AppManager, BatchStep, KernelStack, UserStack, APP_BASE_ADDRESS,
    KERNEL_STACK_SIZE, USER_STACK_SIZE,
};

fn apps() -> AppManager {
    AppManager::new(3, &[0x8020_0000, 0x8020_1000, 0x8020_1800, 0x8020_4000])
}

#[test]
fn new_manager_starts_with_the_first_app() {
    let m = apps();
    assert_eq!(m.num_app(), 3);
    assert_eq!(m.get_current_app(), 0);
}

#[test]
fn move_to_next_app_counts_up() {
    let mut m = apps();
    m.move_to_next_app();
    m.move_to_next_app();
    assert_eq!(m.get_current_app(), 2);
}

#[test]
fn load_app_gives_start_and_length() {
    let m = apps();
    assert_eq!(m.load_app(1), AppLoad::Load { app_id: 1, src: 0x8020_1000, len: 0x800 });
    assert_eq!(m.load_app(2), AppLoad::Load { app_id: 2, src: 0x8020_1800, len: 0x2800 });
    assert_eq!(m.load_app(3), AppLoad::AllCompleted);
    assert_eq!(m.load_app(9), AppLoad::AllCompleted);
}

#[test]
fn load_next_app_walks_through_all_apps() {
    let mut m = apps();
    assert_eq!(m.load_next_app(), AppLoad::Load { app_id: 0, src: 0x8020_0000, len: 0x1000 });
    assert_eq!(m.load_next_app(), AppLoad::Load { app_id: 1, src: 0x8020_1000, len: 0x800 });
    assert_eq!(m.load_next_app(), AppLoad::Load { app_id: 2, src: 0x8020_1800, len: 0x2800 });
    assert_eq!(m.load_next_app(), AppLoad::AllCompleted);
    assert_eq!(m.get_current_app(), 3);
    assert_eq!(m.load_next_app(), AppLoad::AllCompleted);
}

#[test]
fn app_spans_are_back_to_back() {
    let spans = apps().app_spans();
    assert_eq!(
        spans,
        vec![(0x8020_0000, 0x8020_1000), (0x8020_1000, 0x8020_1800), (0x8020_1800, 0x8020_4000)]
    );
    for w in spans.windows(2) {
        assert_eq!(w[0].1, w[1].0);
    }
}

#[test]
fn no_apps() {
    let mut m = AppManager::new(0, &[0x8020_0000]);
    assert!(m.app_spans().is_empty());
    assert_eq!(m.load_next_app(), AppLoad::AllCompleted);
}

#[test]
fn stack_pointers() {
    let k = KernelStack { base: 0x8100_0000 };
    let u = UserStack { base: 0x8200_0000 };
    assert_eq!(k.get_sp(), 0x8100_0000 + KERNEL_STACK_SIZE);
    assert_eq!(u.get_sp(), 0x8200_0000 + USER_STACK_SIZE);
    assert_eq!(k.push_context(272), 0x8100_0000 + KERNEL_STACK_SIZE - 272);
    assert_eq!(k.get_sp() % 4096, 0);
    assert_eq!(u.get_sp() % 4096, 0);
}

#[test]
fn run_next_app_enters_the_next_app_in_user_mode() {
    let mut m = apps();
    let k = KernelStack { base: 0x8100_0000 };
    let u = UserStack { base: 0x8200_0000 };
    match run_next_app(&mut m, &k, &u, 0x122, 272) {
        BatchStep::Run { app_id, src, len, context, context_addr } => {
            assert_eq!(app_id, 0);
            assert_eq!(src, 0x8020_0000);
            assert_eq!(len, 0x1000);
            assert_eq!(context.sepc, APP_BASE_ADDRESS);
            assert_eq!(context.x[2], 0x8200_0000 + USER_STACK_SIZE);
            assert_eq!(context.x[1], 0);
            assert_eq!(context.sstatus, 0x022);
            assert_eq!(context_addr, 0x8100_0000 + KERNEL_STACK_SIZE - 272);
        }
        BatchStep::AllCompleted => panic!("expected the first app"),
    }
    assert_eq!(m.get_current_app(), 1);
    run_next_app(&mut m, &k, &u, 0, 272);
    run_next_app(&mut m, &k, &u, 0, 272);
    assert!(matches!(run_next_app(&mut m, &k, &u, 0, 272), BatchStep::AllCompleted));
    assert_eq!(m.get_current_app(), 3);
}

#[test]
fn each_app_has_its_own_slot() {
    assert_eq!(app_base_address(0), APP_BASE_ADDRESS);
    assert_eq!(app_base_address(1), APP_BASE_ADDRESS + 0x20000);
    assert_eq!(app_base_address(9), APP_BASE_ADDRESS + 9 * 0x20000);
}
