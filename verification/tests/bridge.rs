use app_delegate::aux_state::ActivationPolicy;
use app_delegate::aux_state::AuxDelegateState;
use app_delegate::delegate_class::DelegateClassRegistry;
use app_delegate::event_manager::kAEGetURL;
use app_delegate::event_manager::kInternetEventClass;
use app_delegate::event_manager::AppleEventRegistry;
use app_delegate::event_manager::EventHandlerRegistration;
use app_delegate::instance::end_aux_state_mut;
use app_delegate::instance::get_aux_state_mut;
use app_delegate::instance::try_get_aux_state_mut;
use app_delegate::instance::DelegateInstance;
use app_delegate::lifecycle::bool_from_host_flag;
use app_delegate::lifecycle::dispatch;
use app_delegate::lifecycle::host_flag_from_bool;
use app_delegate::lifecycle::ForwardedCall;
use app_delegate::lifecycle::HostNotification;
use app_delegate::lifecycle::LifecyclePhase;

fn registered_delegate() -> (DelegateInstance, AppleEventRegistry) {
    let mut classes = DelegateClassRegistry::new();
    let descriptor = classes.get_or_create_delegate_type();
    let mut registry = AppleEventRegistry::new();
    let instance = DelegateInstance::new(&descriptor, &mut registry);
    (instance, registry)
}

#[test]
fn delegate_type_is_built_once_and_complete() {
    let mut classes = DelegateClassRegistry::new();
    let first = classes.get_or_create_delegate_type();
    assert!(first.has_alloc_hook);
    assert!(first.has_dealloc_hook);
    assert!(first.has_launch_finished_entry);
    assert!(first.has_will_terminate_entry);
    assert!(first.has_will_become_active_entry);
    assert!(first.has_service_event_entry);
    assert!(first.has_reopen_entry);
    assert!(first.aux_slot_reserved);
    let second = classes.get_or_create_delegate_type();
    assert_eq!(first, second);
}

#[test]
fn allocation_registers_the_url_event_handler() {
    let (_instance, registry) = registered_delegate();
    assert_eq!(
        registry.registered_handler(),
        Some(EventHandlerRegistration {
            event_class: kInternetEventClass,
            event_id: kAEGetURL,
        })
    );
    assert_eq!(kInternetEventClass, 0x4755524c);
    assert_eq!(kAEGetURL, 0x4755524c);
}

#[test]
fn event_registry_is_a_single_overwriting_slot() {
    let mut registry = AppleEventRegistry::new();
    assert_eq!(registry.registered_handler(), None);
    registry.set_event_handler(1, 2);
    registry.set_event_handler(3, 4);
    assert_eq!(
        registry.registered_handler(),
        Some(EventHandlerRegistration { event_class: 3, event_id: 4 })
    );
}

#[test]
fn aux_state_defaults_after_allocation() {
    let (mut instance, _registry) = registered_delegate();
    let state = get_aux_state_mut(&mut instance);
    assert_eq!(state.activation_policy, ActivationPolicy::Regular);
    assert!(state.create_default_menu);
    assert!(state.activate_ignoring_other_apps);
    assert_eq!(state, AuxDelegateState::default());
}

#[test]
fn aux_state_mutation_persists() {
    let (mut instance, _registry) = registered_delegate();
    let mut state = get_aux_state_mut(&mut instance);
    state.activation_policy = ActivationPolicy::Accessory;
    state.create_default_menu = false;
    end_aux_state_mut(&mut instance, state);
    let state = get_aux_state_mut(&mut instance);
    assert_eq!(state.activation_policy, ActivationPolicy::Accessory);
    assert!(!state.create_default_menu);
    assert!(state.activate_ignoring_other_apps);
}

#[test]
fn reentrant_borrow_fails_fast() {
    let (mut instance, _registry) = registered_delegate();
    let state = get_aux_state_mut(&mut instance);
    assert_eq!(try_get_aux_state_mut(&mut instance), None);
    end_aux_state_mut(&mut instance, state);
    assert_eq!(try_get_aux_state_mut(&mut instance), Some(state));
}

#[test]
fn alloc_then_dealloc_reclaims_exactly_once() {
    let (mut instance, _registry) = registered_delegate();
    assert!(instance.has_aux_state_attached());
    assert!(instance.try_dealloc());
    assert!(!instance.has_aux_state_attached());
    assert!(!instance.try_dealloc());
}

#[test]
fn launch_finished_enters_launched_and_calls_engine() {
    let (phase, call) = dispatch(LifecyclePhase::NotLaunched, HostNotification::LaunchFinished);
    assert_eq!(phase, LifecyclePhase::Launched);
    assert_eq!(call, ForwardedCall::EngineLaunched);
}

#[test]
fn will_terminate_enters_terminated_and_calls_engine() {
    let (phase, call) = dispatch(LifecyclePhase::Launched, HostNotification::WillTerminate);
    assert_eq!(phase, LifecyclePhase::Terminated);
    assert_eq!(call, ForwardedCall::EngineExit);
}

#[test]
fn will_become_active_is_inert() {
    let (phase, call) = dispatch(LifecyclePhase::Launched, HostNotification::WillBecomeActive);
    assert_eq!(phase, LifecyclePhase::Launched);
    assert_eq!(call, ForwardedCall::NoForward);
}

#[test]
fn service_event_passes_identifiers_and_verdict_through() {
    let (phase, call) = dispatch(
        LifecyclePhase::Launched,
        HostNotification::AppleEvent { event: 0xdead_beef, reply: 42 },
    );
    assert_eq!(phase, LifecyclePhase::Launched);
    assert_eq!(call, ForwardedCall::ServiceHandler { event: 0xdead_beef, reply: 42 });
    for verdict in [false, true] {
        assert_eq!(bool_from_host_flag(host_flag_from_bool(verdict)), verdict);
    }
    assert_eq!(host_flag_from_bool(true), 1);
    assert_eq!(host_flag_from_bool(false), 0);
}

#[test]
fn reopen_passes_flag_and_verdict_through_for_both_flags() {
    for has_visible_windows in [false, true] {
        let (phase, call) = dispatch(
            LifecyclePhase::Launched,
            HostNotification::ReopenRequest { has_visible_windows },
        );
        assert_eq!(phase, LifecyclePhase::Launched);
        assert_eq!(call, ForwardedCall::ReopenHandler { has_visible_windows });
    }
    assert!(bool_from_host_flag(-1));
    assert!(bool_from_host_flag(1));
    assert!(!bool_from_host_flag(0));
}

#[test]
fn ordered_delivery_calls_launch_once_and_exit_once() {
    let notifications = [
        HostNotification::LaunchFinished,
        HostNotification::WillBecomeActive,
        HostNotification::AppleEvent { event: 1, reply: 2 },
        HostNotification::ReopenRequest { has_visible_windows: false },
        HostNotification::WillTerminate,
    ];
    let mut phase = LifecyclePhase::NotLaunched;
    let mut launch_calls: usize = 0;
    let mut exit_calls: usize = 0;
    for n in notifications {
        let (next, call) = dispatch(phase, n);
        phase = next;
        match call {
            ForwardedCall::EngineLaunched => launch_calls += 1,
            ForwardedCall::EngineExit => exit_calls += 1,
            _ => {}
        }
    }
    assert_eq!(launch_calls, 1);
    assert_eq!(exit_calls, 1);
    assert_eq!(phase, LifecyclePhase::Terminated);
}

#[test]
fn full_lifecycle_scenario() {
    let (mut instance, registry) = registered_delegate();
    assert!(registry.registered_handler().is_some());

    let (phase, call) = dispatch(LifecyclePhase::NotLaunched, HostNotification::LaunchFinished);
    assert_eq!((phase, call), (LifecyclePhase::Launched, ForwardedCall::EngineLaunched));
    // once launched, the engine may read and apply the deferred record
    let state = get_aux_state_mut(&mut instance);
    assert_eq!(state, AuxDelegateState::default());
    end_aux_state_mut(&mut instance, state);

    let (phase, call) = dispatch(phase, HostNotification::WillTerminate);
    assert_eq!((phase, call), (LifecyclePhase::Terminated, ForwardedCall::EngineExit));

    assert!(instance.try_dealloc());
    assert!(!instance.try_dealloc());
}
