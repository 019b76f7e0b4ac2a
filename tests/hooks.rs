use mhw_toolkit::hooks::{CallbackPosition, HookError, HookRegistry, MonsterCtorHook, Subscription};

#[test]
fn dropped_subscription_is_not_dispatched() {
    let mut registry: HookRegistry<&str> = HookRegistry::monster_ctor();
    let mut first = Subscription::with_id(1);
    let mut second = Subscription::with_id(2);
    assert!(first.set_callback(&mut registry, CallbackPosition::Before, "first").is_ok());
    assert!(second.set_callback(&mut registry, CallbackPosition::Before, "second").is_ok());
    assert!(first.unset_hook(&mut registry).is_ok());
    let names: Vec<&str> = registry.callbacks(CallbackPosition::Before).iter().map(|e| e.1).collect();
    assert_eq!(names, vec!["second"]);
    assert!(matches!(first.unset_hook(&mut registry), Err(HookError::HookNotSet)));
    assert!(!first.is_hooked());
    assert!(second.is_hooked());
}

#[test]
fn unsubscribe_twice_fails_the_second_time() {
    let mut registry: HookRegistry<u8> = HookRegistry::monster_dtor();
    assert!(registry.subscribe(5, CallbackPosition::After, 1).is_ok());
    assert!(registry.unsubscribe(5, CallbackPosition::After).is_ok());
    assert!(matches!(registry.unsubscribe(5, CallbackPosition::After), Err(HookError::HookNotSet)));
    assert!(matches!(registry.unsubscribe(5, CallbackPosition::Before), Err(HookError::HookNotSet)));
}

#[test]
fn callbacks_run_in_registration_order_per_slot() {
    let mut registry: HookRegistry<u8> = HookRegistry::monster_ctor();
    assert!(registry.subscribe(10, CallbackPosition::After, 1).is_ok());
    assert!(registry.subscribe(11, CallbackPosition::Before, 2).is_ok());
    assert!(registry.subscribe(12, CallbackPosition::After, 3).is_ok());
    assert_eq!(registry.callbacks(CallbackPosition::After), &vec![(10, 1), (12, 3)]);
    assert_eq!(registry.callbacks(CallbackPosition::Before), &vec![(11, 2)]);
    assert!(registry.unsubscribe(10, CallbackPosition::After).is_ok());
    assert_eq!(registry.callbacks(CallbackPosition::After), &vec![(12, 3)]);
}

#[test]
fn pre_call_only_targets_reject_post_call() {
    let mut registry: HookRegistry<u8> = HookRegistry::hit();
    let mut handle = Subscription::with_id(3);
    assert!(matches!(
        handle.set_callback(&mut registry, CallbackPosition::After, 0),
        Err(HookError::UnsupportedPosition)
    ));
    assert!(!handle.is_hooked());
    assert!(registry.callbacks(CallbackPosition::After).is_empty());
    let mut input: HookRegistry<u8> = HookRegistry::input_dispatch();
    assert!(matches!(input.subscribe(1, CallbackPosition::After, 0), Err(HookError::UnsupportedPosition)));
}

#[test]
fn installation_happens_once() {
    let mut registry: HookRegistry<u8> = HookRegistry::do_action();
    assert!(registry.needs_install());
    assert!(matches!(registry.record_install(3), Err(HookError::CreateHook(3))));
    assert!(registry.needs_install());
    assert!(registry.record_install(0).is_ok());
    assert!(!registry.needs_install());
    assert!(registry.record_install(5).is_ok());
    assert!(!registry.needs_install());
}

#[test]
fn skip_flag_toggles_only_on_change() {
    let mut registry: HookRegistry<u8> = HookRegistry::hit();
    assert!(!registry.skip_call(true));
    assert!(registry.record_install(0).is_ok());
    assert!(registry.skip_call(true));
    assert!(registry.should_skip());
    assert!(!registry.skip_call(true));
    assert!(registry.skip_call(false));
    assert!(!registry.should_skip());
    let mut plain: HookRegistry<u8> = HookRegistry::monster_ctor();
    assert!(plain.skip_call(true));
    assert!(!plain.skip_call(false));
    assert!(!plain.should_skip());
}

#[test]
fn fresh_handles_are_unregistered() {
    let handle = MonsterCtorHook::new();
    assert!(!handle.subscription.is_hooked());
}
