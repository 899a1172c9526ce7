//! Subscriptions to the runtime's change notifications: raw and typed
//! callbacks, the decoding of raw notification values, and the registry that
//! registers or clears every callback at once.

use vstd::prelude::*;
use crate::callback::Callback;
use crate::modes::{buffer_mode_of, buffer_mode_value, index_mode_of, index_mode_value, BufferMode, IndexMode};
use crate::remote::{flag_reply, Entry, Handler, RegisterRequest};

verus! {

/// A change notification published by the remote runtime.
#[derive(Debug, Clone, Copy, PartialEq, Eq, Structural)]
pub enum SideEffectEvent {
    VsyncChanged,
    RenderOptsChanged,
    BufferModeChanged,
    IndexModeChanged,
    FpsBoostChanged,
}

/// The registration entry point of each notification.
pub open spec fn event_entry(event: SideEffectEvent) -> Entry {
    match event {
        SideEffectEvent::VsyncChanged => Entry::SetVsyncChangedCallback,
        SideEffectEvent::RenderOptsChanged => Entry::SetRenderOptsChangedCallback,
        SideEffectEvent::BufferModeChanged => Entry::SetBufferModeChangedCallback,
        SideEffectEvent::IndexModeChanged => Entry::SetIndexModeChangedCallback,
        SideEffectEvent::FpsBoostChanged => Entry::SetFpsBoostChangedCallback,
    }
}

impl SideEffectEvent {
    /// The registration entry point of this notification.
    pub fn entry(self) -> (entry: Entry)
        ensures
            entry == event_entry(self),
    {
        match self {
            SideEffectEvent::VsyncChanged => Entry::SetVsyncChangedCallback,
            SideEffectEvent::RenderOptsChanged => Entry::SetRenderOptsChangedCallback,
            SideEffectEvent::BufferModeChanged => Entry::SetBufferModeChangedCallback,
            SideEffectEvent::IndexModeChanged => Entry::SetIndexModeChangedCallback,
            SideEffectEvent::FpsBoostChanged => Entry::SetFpsBoostChangedCallback,
        }
    }
}

/// A decoded notification, addressed to the typed callback of its event.
#[derive(Debug, Clone, Copy, PartialEq, Eq, Structural)]
pub enum EventValue {
    FpsBoost(bool),
    Vsync(bool),
    RenderOpts(bool),
    Buffer(BufferMode),
    Index(IndexMode),
}

/// The typed value of a raw notification value, addressed to its event's
/// callback: switches are on when non-zero; modes are decoded and unknown
/// values carry nothing.
pub open spec fn event_value(event: SideEffectEvent, raw: u32) -> Option<EventValue> {
    match event {
        SideEffectEvent::FpsBoostChanged => Some(EventValue::FpsBoost(raw != 0)),
        SideEffectEvent::VsyncChanged => Some(EventValue::Vsync(raw != 0)),
        SideEffectEvent::RenderOptsChanged => Some(EventValue::RenderOpts(raw != 0)),
        SideEffectEvent::BufferModeChanged => match buffer_mode_of(raw) {
            Some(mode) => Some(EventValue::Buffer(mode)),
            None => None,
        },
        SideEffectEvent::IndexModeChanged => match index_mode_of(raw) {
            Some(mode) => Some(EventValue::Index(mode)),
            None => None,
        },
    }
}

/// Decodes the raw value of a notification and addresses it to the typed
/// callback of its event; `None` means no typed callback is called.
pub fn typed_event_value(event: SideEffectEvent, raw: u32) -> (value: Option<EventValue>)
    ensures
        value == event_value(event, raw),
        value matches Some(EventValue::Buffer(mode)) ==> buffer_mode_value(mode) == raw,
        value matches Some(EventValue::Index(mode)) ==> index_mode_value(mode) == raw,
{
    match event {
        SideEffectEvent::FpsBoostChanged => Some(EventValue::FpsBoost(raw != 0)),
        SideEffectEvent::VsyncChanged => Some(EventValue::Vsync(raw != 0)),
        SideEffectEvent::RenderOptsChanged => Some(EventValue::RenderOpts(raw != 0)),
        SideEffectEvent::BufferModeChanged => match BufferMode::from_u32(raw) {
            Some(mode) => Some(EventValue::Buffer(mode)),
            None => None,
        },
        SideEffectEvent::IndexModeChanged => match IndexMode::from_u32(raw) {
            Some(mode) => Some(EventValue::Index(mode)),
            None => None,
        },
    }
}

/// What each notification hands its typed callback: the switches are on
/// exactly when the raw value is non-zero; a buffer-mode value of 2 is double
/// and 3 triple buffering; an index-mode value of 0, 1 or 2 runs immediately,
/// one or two frames behind; every other mode value reaches no callback.
pub proof fn lemma_typed_values(raw: u32)
    ensures
        event_value(SideEffectEvent::FpsBoostChanged, raw) == Some(EventValue::FpsBoost(raw != 0)),
        event_value(SideEffectEvent::VsyncChanged, raw) == Some(EventValue::Vsync(raw != 0)),
        event_value(SideEffectEvent::RenderOptsChanged, raw) == Some(EventValue::RenderOpts(raw != 0)),
        event_value(SideEffectEvent::BufferModeChanged, raw) == (if raw == 2 {
            Some(EventValue::Buffer(BufferMode::Double))
        } else if raw == 3 {
            Some(EventValue::Buffer(BufferMode::Triple))
        } else {
            None
        }),
        event_value(SideEffectEvent::IndexModeChanged, raw) == (if raw == 0 {
            Some(EventValue::Index(IndexMode::Immediate))
        } else if raw == 1 {
            Some(EventValue::Index(IndexMode::OneBehind))
        } else if raw == 2 {
            Some(EventValue::Index(IndexMode::TwoBehind))
        } else {
            None
        }),
{
}

/// A mode sent with its wire value comes back as the same mode: the typed
/// buffer-mode (index-mode) callback receives `m` exactly when the raw value
/// is the wire value of `m`.
pub proof fn lemma_typed_modes_round_trip(raw: u32, buffer: BufferMode, index: IndexMode)
    ensures
        event_value(SideEffectEvent::BufferModeChanged, buffer_mode_value(buffer)) == Some(
            EventValue::Buffer(buffer),
        ),
        event_value(SideEffectEvent::IndexModeChanged, index_mode_value(index)) == Some(
            EventValue::Index(index),
        ),
        (event_value(SideEffectEvent::BufferModeChanged, raw) == Some(EventValue::Buffer(buffer)))
            <==> raw == buffer_mode_value(buffer),
        (event_value(SideEffectEvent::IndexModeChanged, raw) == Some(EventValue::Index(index)))
            <==> raw == index_mode_value(index),
{
}

/// Whether a registration reply reports success: the entry point was
/// available and returned a non-zero value.
pub open spec fn accepted(reply: Option<u32>) -> bool {
    reply matches Some(value) && value != 0
}

/// A subscription reports success exactly when the underlying registration
/// call reports `Some(true)`.
pub proof fn lemma_subscription_agrees_with_registration(reply: Option<u32>)
    ensures
        accepted(reply) == (flag_reply(reply) == Some(true)),
{
}

/// A registration whose outcome is a plain success flag.
#[derive(Debug, Clone, Copy, PartialEq, Eq, Structural)]
pub struct Subscription<F> {
    pub request: RegisterRequest<F>,
}

impl<F> Subscription<F> {
    /// `true` exactly when the remote runtime accepted the registration.
    pub fn finish(self, reply: Option<u32>) -> (ok: bool)
        ensures
            ok == accepted(reply),
    {
        match reply {
            Some(value) => value != 0,
            None => false,
        }
    }
}

/// Registers a raw FPS-boost callback; the reply tells whether registration
/// succeeded.
pub fn set_fps_boost_changed<F>(callback: F) -> (subscription: Subscription<F>)
    ensures
        subscription.request.entry == Entry::SetFpsBoostChangedCallback,
        subscription.request.handler == Handler::Raw(callback),
{
    Subscription { request: crate::set_fps_boost_changed_callback(Some(callback)) }
}

/// Clears the raw FPS-boost callback.
pub fn clear_fps_boost_changed<F>() -> (subscription: Subscription<F>)
    ensures
        subscription.request.entry == Entry::SetFpsBoostChangedCallback,
        subscription.request.handler == Handler::<F>::Clear,
{
    Subscription { request: crate::clear_fps_boost_changed_callback() }
}

/// Stores a typed `bool` callback for FPS-boost changes in `slot` and
/// registers the library's decoding trampoline with the remote runtime.
pub fn set_typed_fps_boost_changed<T, F>(slot: &mut Callback<T>, callback: T) -> (subscription:
    Subscription<F>)
    ensures
        final(slot)@ == Some(callback),
        subscription.request.entry == Entry::SetFpsBoostChangedCallback,
        subscription.request.handler == Handler::<F>::Typed,
{
    let _ = slot.set(callback);
    Subscription { request: RegisterRequest { entry: Entry::SetFpsBoostChangedCallback, handler: Handler::Typed } }
}

/// Empties the typed FPS-boost slot and unregisters the remote callback.
pub fn clear_typed_fps_boost_changed<T, F>(slot: &mut Callback<T>) -> (subscription: Subscription<F>)
    ensures
        final(slot)@ == None::<T>,
        subscription.request.entry == Entry::SetFpsBoostChangedCallback,
        subscription.request.handler == Handler::<F>::Clear,
{
    let _ = slot.clear();
    Subscription { request: crate::clear_fps_boost_changed_callback() }
}

/// Registers a raw vsync callback; the reply tells whether registration
/// succeeded.
pub fn set_vsync_changed<F>(callback: F) -> (subscription: Subscription<F>)
    ensures
        subscription.request.entry == Entry::SetVsyncChangedCallback,
        subscription.request.handler == Handler::Raw(callback),
{
    Subscription { request: crate::set_vsync_changed_callback(Some(callback)) }
}

/// Clears the raw vsync callback.
pub fn clear_vsync_changed<F>() -> (subscription: Subscription<F>)
    ensures
        subscription.request.entry == Entry::SetVsyncChangedCallback,
        subscription.request.handler == Handler::<F>::Clear,
{
    Subscription { request: crate::clear_vsync_changed_callback() }
}

/// Stores a typed `bool` callback for vsync changes in `slot` and
/// registers the library's decoding trampoline with the remote runtime.
pub fn set_typed_vsync_changed<T, F>(slot: &mut Callback<T>, callback: T) -> (subscription:
    Subscription<F>)
    ensures
        final(slot)@ == Some(callback),
        subscription.request.entry == Entry::SetVsyncChangedCallback,
        subscription.request.handler == Handler::<F>::Typed,
{
    let _ = slot.set(callback);
    Subscription { request: RegisterRequest { entry: Entry::SetVsyncChangedCallback, handler: Handler::Typed } }
}

/// Empties the typed vsync slot and unregisters the remote callback.
pub fn clear_typed_vsync_changed<T, F>(slot: &mut Callback<T>) -> (subscription: Subscription<F>)
    ensures
        final(slot)@ == None::<T>,
        subscription.request.entry == Entry::SetVsyncChangedCallback,
        subscription.request.handler == Handler::<F>::Clear,
{
    let _ = slot.clear();
    Subscription { request: crate::clear_vsync_changed_callback() }
}

/// Registers a raw render-opts callback; the reply tells whether registration
/// succeeded.
pub fn set_render_opts_changed<F>(callback: F) -> (subscription: Subscription<F>)
    ensures
        subscription.request.entry == Entry::SetRenderOptsChangedCallback,
        subscription.request.handler == Handler::Raw(callback),
{
    Subscription { request: crate::set_render_opts_changed_callback(Some(callback)) }
}

/// Clears the raw render-opts callback.
pub fn clear_render_opts_changed<F>() -> (subscription: Subscription<F>)
    ensures
        subscription.request.entry == Entry::SetRenderOptsChangedCallback,
        subscription.request.handler == Handler::<F>::Clear,
{
    Subscription { request: crate::clear_render_opts_changed_callback() }
}

/// Stores a typed `bool` callback for render-opts changes in `slot` and
/// registers the library's decoding trampoline with the remote runtime.
pub fn set_typed_render_opts_changed<T, F>(slot: &mut Callback<T>, callback: T) -> (subscription:
    Subscription<F>)
    ensures
        final(slot)@ == Some(callback),
        subscription.request.entry == Entry::SetRenderOptsChangedCallback,
        subscription.request.handler == Handler::<F>::Typed,
{
    let _ = slot.set(callback);
    Subscription { request: RegisterRequest { entry: Entry::SetRenderOptsChangedCallback, handler: Handler::Typed } }
}

/// Empties the typed render-opts slot and unregisters the remote callback.
pub fn clear_typed_render_opts_changed<T, F>(slot: &mut Callback<T>) -> (subscription: Subscription<F>)
    ensures
        final(slot)@ == None::<T>,
        subscription.request.entry == Entry::SetRenderOptsChangedCallback,
        subscription.request.handler == Handler::<F>::Clear,
{
    let _ = slot.clear();
    Subscription { request: crate::clear_render_opts_changed_callback() }
}

/// Registers a raw buffer-mode callback; the reply tells whether registration
/// succeeded.
pub fn set_buffer_mode_changed<F>(callback: F) -> (subscription: Subscription<F>)
    ensures
        subscription.request.entry == Entry::SetBufferModeChangedCallback,
        subscription.request.handler == Handler::Raw(callback),
{
    Subscription { request: crate::set_buffer_mode_changed_callback(Some(callback)) }
}

/// Clears the raw buffer-mode callback.
pub fn clear_buffer_mode_changed<F>() -> (subscription: Subscription<F>)
    ensures
        subscription.request.entry == Entry::SetBufferModeChangedCallback,
        subscription.request.handler == Handler::<F>::Clear,
{
    Subscription { request: crate::clear_buffer_mode_changed_callback() }
}

/// Stores a typed `BufferMode` callback for buffer-mode changes in `slot` and
/// registers the library's decoding trampoline with the remote runtime.
pub fn set_typed_buffer_mode_changed<T, F>(slot: &mut Callback<T>, callback: T) -> (subscription:
    Subscription<F>)
    ensures
        final(slot)@ == Some(callback),
        subscription.request.entry == Entry::SetBufferModeChangedCallback,
        subscription.request.handler == Handler::<F>::Typed,
{
    let _ = slot.set(callback);
    Subscription { request: RegisterRequest { entry: Entry::SetBufferModeChangedCallback, handler: Handler::Typed } }
}

/// Empties the typed buffer-mode slot and unregisters the remote callback.
pub fn clear_typed_buffer_mode_changed<T, F>(slot: &mut Callback<T>) -> (subscription: Subscription<F>)
    ensures
        final(slot)@ == None::<T>,
        subscription.request.entry == Entry::SetBufferModeChangedCallback,
        subscription.request.handler == Handler::<F>::Clear,
{
    let _ = slot.clear();
    Subscription { request: crate::clear_buffer_mode_changed_callback() }
}

/// Registers a raw index-mode callback; the reply tells whether registration
/// succeeded.
pub fn set_index_mode_changed<F>(callback: F) -> (subscription: Subscription<F>)
    ensures
        subscription.request.entry == Entry::SetIndexModeChangedCallback,
        subscription.request.handler == Handler::Raw(callback),
{
    Subscription { request: crate::set_index_mode_changed_callback(Some(callback)) }
}

/// Clears the raw index-mode callback.
pub fn clear_index_mode_changed<F>() -> (subscription: Subscription<F>)
    ensures
        subscription.request.entry == Entry::SetIndexModeChangedCallback,
        subscription.request.handler == Handler::<F>::Clear,
{
    Subscription { request: crate::clear_index_mode_changed_callback() }
}

/// Stores a typed `IndexMode` callback for index-mode changes in `slot` and
/// registers the library's decoding trampoline with the remote runtime.
pub fn set_typed_index_mode_changed<T, F>(slot: &mut Callback<T>, callback: T) -> (subscription:
    Subscription<F>)
    ensures
        final(slot)@ == Some(callback),
        subscription.request.entry == Entry::SetIndexModeChangedCallback,
        subscription.request.handler == Handler::<F>::Typed,
{
    let _ = slot.set(callback);
    Subscription { request: RegisterRequest { entry: Entry::SetIndexModeChangedCallback, handler: Handler::Typed } }
}

/// Empties the typed index-mode slot and unregisters the remote callback.
pub fn clear_typed_index_mode_changed<T, F>(slot: &mut Callback<T>) -> (subscription: Subscription<F>)
    ensures
        final(slot)@ == None::<T>,
        subscription.request.entry == Entry::SetIndexModeChangedCallback,
        subscription.request.handler == Handler::<F>::Clear,
{
    let _ = slot.clear();
    Subscription { request: crate::clear_index_mode_changed_callback() }
}

/// What a registry run does next.
#[derive(Debug, Clone, Copy, PartialEq, Eq, Structural)]
pub enum RegistryStep<F> {
    /// Send this registration and pass its reply back with the earlier ones.
    Call(RegisterRequest<F>),
    /// The run is over, with this outcome.
    Done(bool),
}

/// Raw callbacks for every notification, registered or cleared together.
#[derive(Debug, Clone, Copy)]
pub struct SideEffectRegistry<F> {
    pub fps_boost_changed: Callback<F>,
    pub vsync_changed: Callback<F>,
    pub render_opts_changed: Callback<F>,
    pub buffer_mode_changed: Callback<F>,
    pub index_mode_changed: Callback<F>,
}

impl<F> Default for SideEffectRegistry<F> {
    /// A registry with every slot empty.
    fn default() -> (registry: Self)
        ensures
            registry.is_empty(),
    {
        SideEffectRegistry {
            fps_boost_changed: Callback::new(None),
            vsync_changed: Callback::new(None),
            render_opts_changed: Callback::new(None),
            buffer_mode_changed: Callback::new(None),
            index_mode_changed: Callback::new(None),
        }
    }
}

/// The registration of one slot: a raw registration of its callback when it
/// holds one, nothing otherwise.
pub open spec fn slot_plan<F>(event: SideEffectEvent, callback: Option<F>) -> Seq<
    RegisterRequest<F>,
> {
    match callback {
        Some(f) => seq![RegisterRequest { entry: event_entry(event), handler: Handler::Raw(f) }],
        None => Seq::empty(),
    }
}

/// Whether the first `n` replies all report success.
pub open spec fn all_accepted(replies: Seq<Option<u32>>, n: int) -> bool {
    forall|i: int| 0 <= i < n ==> accepted(#[trigger] replies[i])
}

/// The order in which `clear_remote` clears the notifications.
pub open spec fn clear_order() -> Seq<SideEffectEvent> {
    seq![
        SideEffectEvent::FpsBoostChanged,
        SideEffectEvent::VsyncChanged,
        SideEffectEvent::RenderOptsChanged,
        SideEffectEvent::BufferModeChanged,
        SideEffectEvent::IndexModeChanged,
    ]
}

/// The step of a registration run over `plan` after `replies`: every
/// planned registration is sent in order, whatever the earlier replies were,
/// and the run succeeds when all of them were accepted.
pub open spec fn register_step<F>(plan: Seq<RegisterRequest<F>>, replies: Seq<Option<u32>>) -> RegistryStep<F> {
    if replies.len() < plan.len() {
        RegistryStep::Call(plan[replies.len() as int])
    } else {
        RegistryStep::Done(all_accepted(replies, plan.len() as int))
    }
}

/// The step of a clearing run after `replies`: the five notifications are
/// cleared in `clear_order`, each one whatever the earlier replies were, and
/// the run succeeds when all five clears were accepted.
pub open spec fn clear_step<F>(replies: Seq<Option<u32>>) -> RegistryStep<F> {
    if replies.len() < 5 {
        RegistryStep::Call(
            RegisterRequest { entry: event_entry(clear_order()[replies.len() as int]), handler: Handler::Clear },
        )
    } else {
        RegistryStep::Done(all_accepted(replies, 5))
    }
}

impl<F> SideEffectRegistry<F> {
    /// Whether no slot holds a callback.
    pub open spec fn is_empty(self) -> bool {
        &&& self.fps_boost_changed@ is None
        &&& self.vsync_changed@ is None
        &&& self.render_opts_changed@ is None
        &&& self.buffer_mode_changed@ is None
        &&& self.index_mode_changed@ is None
    }

    /// The callback held for the notification that `entry` registers; `None`
    /// for an empty slot and for an entry that registers no notification.
    pub open spec fn callback_for(self, entry: Entry) -> Option<F> {
        match entry {
            Entry::SetFpsBoostChangedCallback => self.fps_boost_changed@,
            Entry::SetVsyncChangedCallback => self.vsync_changed@,
            Entry::SetRenderOptsChangedCallback => self.render_opts_changed@,
            Entry::SetBufferModeChangedCallback => self.buffer_mode_changed@,
            Entry::SetIndexModeChangedCallback => self.index_mode_changed@,
            _ => None,
        }
    }

    /// Whether `request` registers, as a raw callback, the callback that
    /// this registry holds for the notification its entry point names.
    pub open spec fn registers_own_callback(self, request: RegisterRequest<F>) -> bool {
        self.callback_for(request.entry) matches Some(f) && request.handler == Handler::Raw(f)
    }

    /// The registrations that `register_remote` sends, in order.
    pub open spec fn registration_plan(self) -> Seq<RegisterRequest<F>> {
        slot_plan(SideEffectEvent::FpsBoostChanged, self.fps_boost_changed@) + slot_plan(
            SideEffectEvent::VsyncChanged,
            self.vsync_changed@,
        ) + slot_plan(SideEffectEvent::RenderOptsChanged, self.render_opts_changed@) + slot_plan(
            SideEffectEvent::BufferModeChanged,
            self.buffer_mode_changed@,
        ) + slot_plan(SideEffectEvent::IndexModeChanged, self.index_mode_changed@)
    }

    /// Clears every raw callback in the remote runtime. `replies` holds the
    /// replies to the clears sent so far; the result is the next clear to
    /// send, or the outcome.
    pub fn clear_remote(replies: &Vec<Option<u32>>) -> (step: RegistryStep<F>)
        ensures
            step == clear_step::<F>(replies@),
    {
        if replies.len() < 5 {
            let event = match replies.len() {
                0 => SideEffectEvent::FpsBoostChanged,
                1 => SideEffectEvent::VsyncChanged,
                2 => SideEffectEvent::RenderOptsChanged,
                3 => SideEffectEvent::BufferModeChanged,
                _ => SideEffectEvent::IndexModeChanged,
            };
            return RegistryStep::Call(RegisterRequest { entry: event.entry(), handler: Handler::Clear });
        }
        let mut ok = true;
        let mut i: usize = 0;
        while i < 5
            invariant
                5 <= replies@.len(),
                i <= 5,
                ok == all_accepted(replies@, i as int),
            decreases 5 - i,
        {
            let this_ok = match replies[i] {
                Some(value) => value != 0,
                None => false,
            };
            ok = ok && this_ok;
            i = i + 1;
        }
        RegistryStep::Done(ok)
    }
}

/// Appends the registration of one slot.
fn push_slot<F: Copy>(plan: &mut Vec<RegisterRequest<F>>, event: SideEffectEvent, slot: &Callback<F>)
    ensures
        final(plan)@ == old(plan)@ + slot_plan(event, slot@),
{
    match slot.get() {
        Some(f) => {
            plan.push(RegisterRequest { entry: event.entry(), handler: Handler::Raw(f) });
            assert(final(plan)@ =~= old(plan)@ + slot_plan(event, slot@));
        },
        None => {
            assert(old(plan)@ + slot_plan(event, slot@) =~= old(plan)@);
        },
    }
}

impl<F: Copy> SideEffectRegistry<F> {
    /// The registrations of every populated slot, in order.
    fn plan(&self) -> (plan: Vec<RegisterRequest<F>>)
        ensures
            plan@ == self.registration_plan(),
    {
        let mut plan: Vec<RegisterRequest<F>> = Vec::new();
        push_slot(&mut plan, SideEffectEvent::FpsBoostChanged, &self.fps_boost_changed);
        push_slot(&mut plan, SideEffectEvent::VsyncChanged, &self.vsync_changed);
        push_slot(&mut plan, SideEffectEvent::RenderOptsChanged, &self.render_opts_changed);
        push_slot(&mut plan, SideEffectEvent::BufferModeChanged, &self.buffer_mode_changed);
        push_slot(&mut plan, SideEffectEvent::IndexModeChanged, &self.index_mode_changed);
        assert(plan@ =~= self.registration_plan());
        plan
    }

    /// Registers every populated raw callback in the remote runtime.
    /// `replies` holds the replies to the registrations sent so far; the
    /// result is the next registration to send, or the outcome.
    pub fn register_remote(&self, replies: &Vec<Option<u32>>) -> (step: RegistryStep<F>)
        ensures
            step == register_step(self.registration_plan(), replies@),
            step matches RegistryStep::Call(request) ==> self.registers_own_callback(request),
    {
        proof {
            lemma_registrations_name_their_slot(*self);
        }
        let plan = self.plan();
        if replies.len() < plan.len() {
            return RegistryStep::Call(plan[replies.len()]);
        }
        let mut ok = true;
        let mut i: usize = 0;
        while i < plan.len()
            invariant
                plan@ == self.registration_plan(),
                plan@.len() <= replies@.len(),
                i <= plan@.len(),
                ok == all_accepted(replies@, i as int),
            decreases plan.len() - i,
        {
            let this_ok = match replies[i] {
                Some(value) => value != 0,
                None => false,
            };
            ok = ok && this_ok;
            i = i + 1;
        }
        RegistryStep::Done(ok)
    }
}

/// An empty registry sends no registration and reports success.
pub proof fn lemma_empty_registry_registers_nothing<F>(
    registry: SideEffectRegistry<F>,
    replies: Seq<Option<u32>>,
)
    requires
        registry.is_empty(),
    ensures
        registry.registration_plan().len() == 0,
        register_step(registry.registration_plan(), replies) == RegistryStep::<F>::Done(true),
{
    assert(registry.registration_plan() =~= Seq::<RegisterRequest<F>>::empty());
}

/// A registration run sends one registration per populated slot, never more
/// than five, and asks for the next one only while replies are missing.
pub proof fn lemma_register_run_is_bounded<F>(
    registry: SideEffectRegistry<F>,
    replies: Seq<Option<u32>>,
)
    ensures
        registry.registration_plan().len() <= 5,
        register_step(registry.registration_plan(), replies) is Call <==> replies.len()
            < registry.registration_plan().len(),
{
}

/// A clearing run sends exactly five clears, one per notification in
/// `clear_order`, whatever the earlier replies were, and succeeds exactly when
/// all five were accepted.
pub proof fn lemma_clear_run_sends_all_five<F>(replies: Seq<Option<u32>>)
    ensures
        clear_step::<F>(replies) is Call <==> replies.len() < 5,
        replies.len() < 5 ==> clear_step::<F>(replies) == RegistryStep::Call(
            RegisterRequest::<F> { entry: event_entry(clear_order()[replies.len() as int]), handler: Handler::Clear },
        ),
        replies.len() >= 5 ==> clear_step::<F>(replies) == RegistryStep::<F>::Done(
            all_accepted(replies, 5),
        ),
{
}

/// Every element of `a + b` satisfies what every element of `a` and of `b`
/// satisfies.
proof fn lemma_concat_all<F>(registry: SideEffectRegistry<F>, a: Seq<RegisterRequest<F>>, b: Seq<RegisterRequest<F>>)
    requires
        forall|i: int| 0 <= i < a.len() ==> registry.registers_own_callback(#[trigger] a[i]),
        forall|i: int| 0 <= i < b.len() ==> registry.registers_own_callback(#[trigger] b[i]),
    ensures
        forall|i: int| 0 <= i < (a + b).len() ==> registry.registers_own_callback(#[trigger] (a + b)[i]),
{
    assert forall|i: int| 0 <= i < (a + b).len() implies registry.registers_own_callback(#[trigger] (a + b)[i]) by {
        if i < a.len() {
            assert((a + b)[i] == a[i]);
        } else {
            assert((a + b)[i] == b[i - a.len()]);
        }
    }
}

/// `x` occurs in `a + b` when it occurs in `a` or in `b`.
proof fn lemma_concat_contains<T>(a: Seq<T>, b: Seq<T>, x: T)
    requires
        a.contains(x) || b.contains(x),
    ensures
        (a + b).contains(x),
{
    if a.contains(x) {
        let i = choose|i: int| 0 <= i < a.len() && a[i] == x;
        assert((a + b)[i] == x);
    } else {
        let i = choose|i: int| 0 <= i < b.len() && b[i] == x;
        assert((a + b)[a.len() + i] == x);
    }
}

/// Each registration that a run sends names the entry point of the
/// notification whose slot holds the callback it carries: the FPS-boost
/// callback goes to `SetFpsBoostChangedCallback`, the vsync callback to
/// `SetVsyncChangedCallback`, the render-opts callback to
/// `SetRenderOptsChangedCallback`, the buffer-mode callback to
/// `SetBufferModeChangedCallback` and the index-mode callback to
/// `SetIndexModeChangedCallback`.
pub proof fn lemma_registrations_name_their_slot<F>(registry: SideEffectRegistry<F>)
    ensures
        forall|i: int|
            0 <= i < registry.registration_plan().len() ==> registry.registers_own_callback(
                #[trigger] registry.registration_plan()[i],
            ),
{
    let a = slot_plan(SideEffectEvent::FpsBoostChanged, registry.fps_boost_changed@);
    let b = slot_plan(SideEffectEvent::VsyncChanged, registry.vsync_changed@);
    let c = slot_plan(SideEffectEvent::RenderOptsChanged, registry.render_opts_changed@);
    let d = slot_plan(SideEffectEvent::BufferModeChanged, registry.buffer_mode_changed@);
    let e = slot_plan(SideEffectEvent::IndexModeChanged, registry.index_mode_changed@);
    assert forall|i: int| 0 <= i < a.len() implies registry.registers_own_callback(#[trigger] a[i]) by {}
    assert forall|i: int| 0 <= i < b.len() implies registry.registers_own_callback(#[trigger] b[i]) by {}
    assert forall|i: int| 0 <= i < c.len() implies registry.registers_own_callback(#[trigger] c[i]) by {}
    assert forall|i: int| 0 <= i < d.len() implies registry.registers_own_callback(#[trigger] d[i]) by {}
    assert forall|i: int| 0 <= i < e.len() implies registry.registers_own_callback(#[trigger] e[i]) by {}
    lemma_concat_all(registry, a, b);
    lemma_concat_all(registry, a + b, c);
    lemma_concat_all(registry, a + b + c, d);
    lemma_concat_all(registry, a + b + c + d, e);
}

/// Every populated slot is registered: when the registry holds `f` for the
/// notification that `entry` registers, a run sends the raw registration of
/// `f` through `entry`.
pub proof fn lemma_populated_slots_are_registered<F>(registry: SideEffectRegistry<F>, entry: Entry, f: F)
    requires
        registry.callback_for(entry) == Some(f),
    ensures
        registry.registration_plan().contains(RegisterRequest { entry: entry, handler: Handler::Raw(f) }),
{
    let r = RegisterRequest { entry: entry, handler: Handler::Raw(f) };
    let a = slot_plan(SideEffectEvent::FpsBoostChanged, registry.fps_boost_changed@);
    let b = slot_plan(SideEffectEvent::VsyncChanged, registry.vsync_changed@);
    let c = slot_plan(SideEffectEvent::RenderOptsChanged, registry.render_opts_changed@);
    let d = slot_plan(SideEffectEvent::BufferModeChanged, registry.buffer_mode_changed@);
    let e = slot_plan(SideEffectEvent::IndexModeChanged, registry.index_mode_changed@);
    match entry {
        Entry::SetFpsBoostChangedCallback => {
            assert(a[0] == r);
            lemma_concat_contains(a, b, r);
            lemma_concat_contains(a + b, c, r);
            lemma_concat_contains(a + b + c, d, r);
            lemma_concat_contains(a + b + c + d, e, r);
        },
        Entry::SetVsyncChangedCallback => {
            assert(b[0] == r);
            lemma_concat_contains(a, b, r);
            lemma_concat_contains(a + b, c, r);
            lemma_concat_contains(a + b + c, d, r);
            lemma_concat_contains(a + b + c + d, e, r);
        },
        Entry::SetRenderOptsChangedCallback => {
            assert(c[0] == r);
            lemma_concat_contains(a + b, c, r);
            lemma_concat_contains(a + b + c, d, r);
            lemma_concat_contains(a + b + c + d, e, r);
        },
        Entry::SetBufferModeChangedCallback => {
            assert(d[0] == r);
            lemma_concat_contains(a + b + c, d, r);
            lemma_concat_contains(a + b + c + d, e, r);
        },
        Entry::SetIndexModeChangedCallback => {
            assert(e[0] == r);
            lemma_concat_contains(a + b + c + d, e, r);
        },
        _ => {},
    }
}

/// A registry holding only the buffer-mode callback `f` first asks for the
/// raw registration of `f` through `SetBufferModeChangedCallback`, then ends
/// with the outcome of that one reply.
pub proof fn lemma_single_buffer_slot_run<F>(registry: SideEffectRegistry<F>, f: F, reply: Option<u32>)
    requires
        registry.fps_boost_changed@ is None,
        registry.vsync_changed@ is None,
        registry.render_opts_changed@ is None,
        registry.buffer_mode_changed@ == Some(f),
        registry.index_mode_changed@ is None,
    ensures
        register_step(registry.registration_plan(), Seq::empty()) == RegistryStep::Call(
            RegisterRequest { entry: Entry::SetBufferModeChangedCallback, handler: Handler::Raw(f) },
        ),
        register_step(registry.registration_plan(), seq![reply]) == RegistryStep::<F>::Done(accepted(reply)),
{
    assert(registry.registration_plan() =~= seq![
        RegisterRequest { entry: Entry::SetBufferModeChangedCallback, handler: Handler::Raw(f) },
    ]);
    assert(seq![reply][0] == reply);
    assert(all_accepted(seq![reply], 1) == accepted(reply));
}

/// A registration run that has all its replies succeeds exactly when every
/// reply came from an available entry point and was non-zero; one missing
/// or zero reply fails the whole run.
pub proof fn lemma_register_outcome<F>(registry: SideEffectRegistry<F>, replies: Seq<Option<u32>>)
    requires
        replies.len() >= registry.registration_plan().len(),
    ensures
        register_step(registry.registration_plan(), replies) matches RegistryStep::Done(ok) && (ok
            <==> forall|i: int|
            0 <= i < registry.registration_plan().len() ==> (#[trigger] replies[i] matches Some(v)
                && v != 0)),
{
}

/// A clearing run unregisters the FPS-boost, vsync, render-opts,
/// buffer-mode and index-mode callbacks, in that order, each whatever the
/// earlier replies were, and succeeds exactly when all five replies came
/// from available entry points and were non-zero.
pub proof fn lemma_clear_run_order<F>(replies: Seq<Option<u32>>)
    ensures
        replies.len() == 0 ==> clear_step::<F>(replies) == RegistryStep::Call(
            RegisterRequest::<F> { entry: Entry::SetFpsBoostChangedCallback, handler: Handler::Clear },
        ),
        replies.len() == 1 ==> clear_step::<F>(replies) == RegistryStep::Call(
            RegisterRequest::<F> { entry: Entry::SetVsyncChangedCallback, handler: Handler::Clear },
        ),
        replies.len() == 2 ==> clear_step::<F>(replies) == RegistryStep::Call(
            RegisterRequest::<F> { entry: Entry::SetRenderOptsChangedCallback, handler: Handler::Clear },
        ),
        replies.len() == 3 ==> clear_step::<F>(replies) == RegistryStep::Call(
            RegisterRequest::<F> { entry: Entry::SetBufferModeChangedCallback, handler: Handler::Clear },
        ),
        replies.len() == 4 ==> clear_step::<F>(replies) == RegistryStep::Call(
            RegisterRequest::<F> { entry: Entry::SetIndexModeChangedCallback, handler: Handler::Clear },
        ),
        replies.len() >= 5 ==> (clear_step::<F>(replies) matches RegistryStep::Done(ok) && (ok
            <==> forall|i: int| 0 <= i < 5 ==> (#[trigger] replies[i] matches Some(v) && v != 0))),
{
}

/// With every slot populated, a run registers the FPS-boost, vsync,
/// render-opts, buffer-mode and index-mode callbacks, in that order, each
/// through its own entry point.
pub proof fn lemma_full_registry_order<F>(registry: SideEffectRegistry<F>, fps: F, vsync: F, render: F, buffer: F, index: F)
    requires
        registry.fps_boost_changed@ == Some(fps),
        registry.vsync_changed@ == Some(vsync),
        registry.render_opts_changed@ == Some(render),
        registry.buffer_mode_changed@ == Some(buffer),
        registry.index_mode_changed@ == Some(index),
    ensures
        registry.registration_plan() == seq![
            RegisterRequest { entry: Entry::SetFpsBoostChangedCallback, handler: Handler::Raw(fps) },
            RegisterRequest { entry: Entry::SetVsyncChangedCallback, handler: Handler::Raw(vsync) },
            RegisterRequest { entry: Entry::SetRenderOptsChangedCallback, handler: Handler::Raw(render) },
            RegisterRequest { entry: Entry::SetBufferModeChangedCallback, handler: Handler::Raw(buffer) },
            RegisterRequest { entry: Entry::SetIndexModeChangedCallback, handler: Handler::Raw(index) },
        ],
{
    assert(registry.registration_plan() =~= seq![
        RegisterRequest { entry: Entry::SetFpsBoostChangedCallback, handler: Handler::Raw(fps) },
        RegisterRequest { entry: Entry::SetVsyncChangedCallback, handler: Handler::Raw(vsync) },
        RegisterRequest { entry: Entry::SetRenderOptsChangedCallback, handler: Handler::Raw(render) },
        RegisterRequest { entry: Entry::SetBufferModeChangedCallback, handler: Handler::Raw(buffer) },
        RegisterRequest { entry: Entry::SetIndexModeChangedCallback, handler: Handler::Raw(index) },
    ]);
}

} // verus!
