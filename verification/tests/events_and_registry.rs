use ultelier::callback::Callback;
use ultelier::events::{self, EventValue, RegistryStep, SideEffectEvent, SideEffectRegistry};
use ultelier::remote::{Entry, Handler};
use ultelier::{BufferMode, IndexMode};

type StateCallback = fn(u32);
type TypedVsyncCallback = fn(bool);

fn raw_a(_: u32) {}
fn raw_b(_: u32) {}
fn typed_vsync(_: bool) {}

#[test]
fn typed_event_values_decode() {
    assert_eq!(events::typed_event_value(SideEffectEvent::VsyncChanged, 0), Some(EventValue::Vsync(false)));
    assert_eq!(events::typed_event_value(SideEffectEvent::FpsBoostChanged, 2), Some(EventValue::FpsBoost(true)));
    assert_eq!(events::typed_event_value(SideEffectEvent::RenderOptsChanged, 1), Some(EventValue::RenderOpts(true)));
    assert_eq!(events::typed_event_value(SideEffectEvent::BufferModeChanged, 2), Some(EventValue::Buffer(BufferMode::Double)));
    assert_eq!(events::typed_event_value(SideEffectEvent::BufferModeChanged, 7), None);
    assert_eq!(events::typed_event_value(SideEffectEvent::IndexModeChanged, 2), Some(EventValue::Index(IndexMode::TwoBehind)));
    assert_eq!(events::typed_event_value(SideEffectEvent::IndexModeChanged, 3), None);
}

#[test]
fn subscription_succeeds_only_on_true_reply() {
    let sub = events::set_vsync_changed::<StateCallback>(raw_a);
    assert_eq!(sub.request.entry, Entry::SetVsyncChangedCallback);
    assert!(sub.finish(Some(1)));
    assert!(!sub.finish(Some(0)));
    assert!(!sub.finish(None));
    let clear = events::clear_index_mode_changed::<StateCallback>();
    assert_eq!(clear.request.entry, Entry::SetIndexModeChangedCallback);
    assert!(matches!(clear.request.handler, Handler::Clear));
}

#[test]
fn typed_subscription_stores_callback() {
    let mut slot: Callback<TypedVsyncCallback> = Callback::default();
    assert!(!slot.is_set());
    let sub = events::set_typed_vsync_changed::<TypedVsyncCallback, StateCallback>(&mut slot, typed_vsync);
    assert!(slot.is_set());
    assert!(matches!(sub.request.handler, Handler::Typed));
    assert_eq!(sub.request.entry, Entry::SetVsyncChangedCallback);
    let clear = events::clear_typed_vsync_changed::<TypedVsyncCallback, StateCallback>(&mut slot);
    assert!(!slot.is_set());
    assert!(matches!(clear.request.handler, Handler::Clear));
}

#[test]
fn callback_slot_set_clear_invoke() {
    let mut slot: Callback<fn(u32) -> ()> = Callback::new(None);
    assert!(!slot.invoke(3));
    assert_eq!(slot.set(|_| ()), None);
    assert!(slot.is_set());
    assert!(slot.invoke(3));
    assert!(slot.clear().is_some());
    assert!(slot.get().is_none());
}

fn registry_with_vsync_and_index() -> SideEffectRegistry<StateCallback> {
    let mut registry: SideEffectRegistry<StateCallback> = SideEffectRegistry::default();
    registry.vsync_changed = Callback::from_fn(raw_a as StateCallback);
    registry.index_mode_changed = Callback::from_fn(raw_b as StateCallback);
    registry
}

#[test]
fn register_remote_sends_populated_slots_in_order() {
    let registry = registry_with_vsync_and_index();
    let mut replies = Vec::new();
    let mut entries = Vec::new();
    loop {
        match registry.register_remote(&replies) {
            RegistryStep::Call(request) => {
                assert!(matches!(request.handler, Handler::Raw(_)));
                entries.push(request.entry);
                replies.push(Some(1));
            }
            RegistryStep::Done(ok) => {
                assert!(ok);
                break;
            }
        }
    }
    assert_eq!(entries, vec![Entry::SetVsyncChangedCallback, Entry::SetIndexModeChangedCallback]);
}

#[test]
fn register_remote_keeps_going_after_a_failure() {
    let registry = registry_with_vsync_and_index();
    assert!(matches!(registry.register_remote(&vec![None]), RegistryStep::Call(r) if r.entry == Entry::SetIndexModeChangedCallback));
    assert!(matches!(registry.register_remote(&vec![None, Some(1)]), RegistryStep::Done(false)));
    assert!(matches!(registry.register_remote(&vec![Some(1), Some(0)]), RegistryStep::Done(false)));
}

#[test]
fn empty_registry_registers_nothing() {
    let registry: SideEffectRegistry<StateCallback> = SideEffectRegistry::default();
    assert!(matches!(registry.register_remote(&Vec::new()), RegistryStep::Done(true)));
}

#[test]
fn clear_remote_sends_all_five_clears() {
    let order = [
        Entry::SetFpsBoostChangedCallback,
        Entry::SetVsyncChangedCallback,
        Entry::SetRenderOptsChangedCallback,
        Entry::SetBufferModeChangedCallback,
        Entry::SetIndexModeChangedCallback,
    ];
    let mut replies = Vec::new();
    for expected in order {
        match SideEffectRegistry::<StateCallback>::clear_remote(&replies) {
            RegistryStep::Call(request) => {
                assert_eq!(request.entry, expected);
                assert!(matches!(request.handler, Handler::Clear));
            }
            RegistryStep::Done(_) => panic!("stopped early"),
        }
        replies.push(Some(1));
    }
    assert!(matches!(SideEffectRegistry::<StateCallback>::clear_remote(&replies), RegistryStep::Done(true)));
}

#[test]
fn clear_remote_keeps_going_after_a_failure() {
    assert!(matches!(
        SideEffectRegistry::<StateCallback>::clear_remote(&vec![None]),
        RegistryStep::Call(r) if r.entry == Entry::SetVsyncChangedCallback
    ));
    assert!(matches!(
        SideEffectRegistry::<StateCallback>::clear_remote(&vec![Some(1), Some(0)]),
        RegistryStep::Call(r) if r.entry == Entry::SetRenderOptsChangedCallback
    ));
    assert!(matches!(
        SideEffectRegistry::<StateCallback>::clear_remote(&vec![None, Some(1), Some(1), Some(1), Some(1)]),
        RegistryStep::Done(false)
    ));
    assert!(matches!(
        SideEffectRegistry::<StateCallback>::clear_remote(&vec![Some(1), Some(1), Some(1), Some(1), Some(0)]),
        RegistryStep::Done(false)
    ));
}
