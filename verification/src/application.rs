//! The dispatcher and application loop state.  The application owns one
//! layer stack and a running flag; the shell feeds it plain platform
//! notifications, and it translates each into one event, applies the
//! privileged close transition, dispatches back to front with
//! short-circuiting, and drives the per-frame update pass.
use vstd::prelude::*;

use crate::events::{spec_description, Event, EventType};
use crate::layers::{
    layer_after_event, layer_after_update, layer_attached, spec_consumes, Layer, LayerParam,
    LayerStack, LayerStackError,
};

verus! {

/// True iff some layer of `s` consumes an event of variant `t`.
pub open spec fn has_consumer(s: Seq<Layer>, t: EventType) -> bool {
    exists|j: int| 0 <= j < s.len() && spec_consumes(s[j].behavior, t)
}

/// The index of the layer that ends a dispatch pass for variant `t`: the
/// highest index whose layer consumes it, i.e. the first consumer in
/// back-to-front order.  Meaningful only when `has_consumer` holds.
pub open spec fn last_consumer(s: Seq<Layer>, t: EventType) -> int
    decreases s.len(),
{
    if s.len() == 0 {
        0
    } else if spec_consumes(s.last().behavior, t) {
        s.len() - 1
    } else {
        last_consumer(s.drop_last(), t)
    }
}

/// The layer states after one dispatch pass of an event with variant `t`:
/// every layer from the first back-to-front consumer onward has seen the
/// event, layers in front of the consumer were never called.
pub open spec fn layers_after_dispatch(s: Seq<Layer>, t: EventType) -> Seq<Layer> {
    Seq::new(
        s.len(),
        |j: int|
            if has_consumer(s, t) && j < last_consumer(s, t) {
                s[j]
            } else {
                layer_after_event(s[j])
            },
    )
}

/// The handled flag after one dispatch pass that started with flag `pre`:
/// set exactly when a layer consumed the event, and never cleared.
pub open spec fn handled_after_dispatch(s: Seq<Layer>, t: EventType, pre: bool) -> bool {
    pre || has_consumer(s, t)
}

/// The layer states after one frame tick: every layer is updated, front to
/// back.
pub open spec fn layers_after_tick(s: Seq<Layer>) -> Seq<Layer> {
    Seq::new(s.len(), |j: int| layer_after_update(s[j]))
}

/// Law: dispatch short-circuits.  If the layer at `k` consumes events of
/// variant `t` and no layer behind it (higher index) does, then after the
/// pass the handled flag is set, every layer from `k` to the back has seen
/// the event, and no layer in front of `k` has been called.
pub proof fn lemma_dispatch_short_circuit(s: Seq<Layer>, t: EventType, pre: bool, k: int)
    requires
        0 <= k < s.len(),
        spec_consumes(s[k].behavior, t),
        forall|j: int| k < j < s.len() ==> !spec_consumes(s[j].behavior, t),
    ensures
        handled_after_dispatch(s, t, pre),
        last_consumer(s, t) == k,
        forall|j: int| 0 <= j < k ==> layers_after_dispatch(s, t)[j] == s[j],
        forall|j: int|
            k <= j < s.len() ==> layers_after_dispatch(s, t)[j] == layer_after_event(s[j]),
{
    lemma_last_consumer_pins(s, t, k);
    assert(has_consumer(s, t));
}

/// Law: when no layer consumes events of variant `t`, the pass leaves the
/// handled flag exactly as it began, and every layer has seen the event.
pub proof fn lemma_dispatch_no_consumer(s: Seq<Layer>, t: EventType, pre: bool)
    requires
        forall|j: int| 0 <= j < s.len() ==> !spec_consumes(s[j].behavior, t),
    ensures
        handled_after_dispatch(s, t, pre) == pre,
        forall|j: int|
            0 <= j < s.len() ==> layers_after_dispatch(s, t)[j] == layer_after_event(s[j]),
{
    assert(!has_consumer(s, t));
}

/// The highest-index consumer pins `last_consumer`.
proof fn lemma_last_consumer_pins(s: Seq<Layer>, t: EventType, k: int)
    requires
        0 <= k < s.len(),
        spec_consumes(s[k].behavior, t),
        forall|j: int| k < j < s.len() ==> !spec_consumes(s[j].behavior, t),
    ensures
        last_consumer(s, t) == k,
    decreases s.len(),
{
    if k == s.len() - 1 {
    } else {
        lemma_last_consumer_pins(s.drop_last(), t, k);
    }
}

/// A raw platform notification, reduced to plain values by the shell.
#[derive(Clone, Copy, Debug, PartialEq, Eq, Structural)]
pub enum Notification {
    /// The user asked to close the window.
    CloseRequested,
    /// The window was resized.
    Resized { width: u32, height: u32 },
    /// A key went down or up.
    Key { keycode: i32, pressed: bool, repeat: bool },
    /// A mouse button went down or up.
    MouseButton { button: i32, pressed: bool },
    /// The scroll wheel moved, in whole lines.
    MouseScroll { x_offset: i32, y_offset: i32 },
    /// The cursor moved, in whole pixels.
    CursorMoved { x: i32, y: i32 },
    /// A new logical frame begins.
    BeginFrame,
    /// The window asks to be redrawn.
    Redraw,
    /// Anything the shell could not classify.
    Unknown,
}

/// The translation of a notification into exactly one event variant.
/// Unrecognized notifications degrade to the `Unknown` sentinel and are
/// dropped before dispatch; translation never fails.
pub open spec fn spec_translate(n: Notification) -> EventType {
    match n {
        Notification::CloseRequested => EventType::WindowClose,
        Notification::Resized { width, height } => EventType::WindowResize { width, height },
        Notification::Key { keycode, pressed, repeat } => {
            if pressed {
                EventType::KeyPressed {
                    keycode,
                    repeat_count: if repeat {
                        1
                    } else {
                        0
                    },
                }
            } else {
                EventType::KeyReleased { keycode }
            }
        },
        Notification::MouseButton { button, pressed } => {
            if pressed {
                EventType::MouseButtonPressed { button }
            } else {
                EventType::MouseButtonReleased { button }
            }
        },
        Notification::MouseScroll { x_offset, y_offset } => EventType::MouseScrolled {
            x_offset,
            y_offset,
        },
        Notification::CursorMoved { x, y } => EventType::MouseMoved { x, y },
        Notification::BeginFrame => EventType::AppTick,
        Notification::Redraw => EventType::AppRender,
        Notification::Unknown => EventType::Unknown,
    }
}

/// Translates a raw notification into exactly one event variant.
pub fn translate(n: Notification) -> (r: EventType)
    ensures
        r == spec_translate(n),
{
    match n {
        Notification::CloseRequested => EventType::WindowClose,
        Notification::Resized { width, height } => EventType::WindowResize { width, height },
        Notification::Key { keycode, pressed, repeat } => {
            if pressed {
                EventType::KeyPressed {
                    keycode,
                    repeat_count: if repeat {
                        1
                    } else {
                        0
                    },
                }
            } else {
                EventType::KeyReleased { keycode }
            }
        },
        Notification::MouseButton { button, pressed } => {
            if pressed {
                EventType::MouseButtonPressed { button }
            } else {
                EventType::MouseButtonReleased { button }
            }
        },
        Notification::MouseScroll { x_offset, y_offset } => EventType::MouseScrolled {
            x_offset,
            y_offset,
        },
        Notification::CursorMoved { x, y } => EventType::MouseMoved { x, y },
        Notification::BeginFrame => EventType::AppTick,
        Notification::Redraw => EventType::AppRender,
        Notification::Unknown => EventType::Unknown,
    }
}

/// What handling one notification decided: whether an event was dispatched,
/// the final state of its handled flag, whether the shell must signal the
/// platform loop to exit now, and the line to log.
pub struct DispatchReport {
    /// False exactly when the notification translated to the sentinel and
    /// was dropped.
    pub dispatched: bool,
    /// The dispatched event's handled flag after the pass.
    pub handled: bool,
    /// True exactly when this notification performed the close transition;
    /// the shell signals the platform event loop to terminate, once.
    pub exit_requested: bool,
    /// The event's description, to hand to the logging sink; present for
    /// every dispatched event.
    pub log_line: Option<String>,
}

/// The dispatcher: one layer stack and the running flag.  Constructed once
/// at startup, mutated by every notification and frame tick, torn down after
/// the close transition.
pub struct Application {
    running: bool,
    layer_stack: LayerStack,
}

impl Application {
    pub closed spec fn spec_running(&self) -> bool {
        self.running
    }

    pub closed spec fn spec_layers(&self) -> Seq<Layer> {
        self.layer_stack.spec_layers()
    }

    pub closed spec fn spec_boundary(&self) -> int {
        self.layer_stack.spec_boundary()
    }

    pub open spec fn wf(&self) -> bool {
        0 <= self.spec_boundary() <= self.spec_layers().len()
    }

    /// A freshly started application: running, and holding exactly one
    /// layer — construction performs the one mandatory attach of the base
    /// integration layer the shell hands in.
    pub fn new(base: Layer, param: LayerParam) -> (r: Application)
        requires
            !base.attached,
        ensures
            r.wf(),
            r.spec_running(),
            r.spec_layers() == seq![layer_attached(base)],
            r.spec_boundary() == 1,
    {
        let mut app = Application { running: true, layer_stack: LayerStack::new() };
        app.push_layer(base, param);
        proof {
            assert(app.spec_layers() =~= seq![layer_attached(base)]);
        }
        app
    }

    pub fn is_running(&self) -> (r: bool)
        ensures
            r == self.spec_running(),
    {
        self.running
    }

    pub fn get_layer_stack(&self) -> (r: &LayerStack)
        ensures
            r.spec_layers() == self.spec_layers(),
            r.spec_boundary() == self.spec_boundary(),
    {
        &self.layer_stack
    }

    /// Attaches a regular layer and inserts it at the cursor.
    pub fn push_layer(&mut self, layer: Layer, param: LayerParam)
        requires
            old(self).wf(),
            !layer.attached,
        ensures
            final(self).wf(),
            final(self).spec_layers() == old(self).spec_layers().insert(
                old(self).spec_boundary(),
                layer_attached(layer),
            ),
            final(self).spec_boundary() == old(self).spec_boundary() + 1,
            final(self).spec_running() == old(self).spec_running(),
    {
        let mut layer = layer;
        layer.on_attach(param);
        self.layer_stack.push_layer(layer);
    }

    /// Attaches an overlay and appends it at the tail.
    pub fn push_overlay(&mut self, overlay: Layer, param: LayerParam)
        requires
            old(self).wf(),
            !overlay.attached,
        ensures
            final(self).wf(),
            final(self).spec_layers() == old(self).spec_layers().push(layer_attached(overlay)),
            final(self).spec_boundary() == old(self).spec_boundary(),
            final(self).spec_running() == old(self).spec_running(),
    {
        let mut overlay = overlay;
        overlay.on_attach(param);
        self.layer_stack.push_overlay(overlay);
    }

    /// Removes a regular layer by identity; reports the identity when no
    /// regular layer matches.
    pub fn pop_layer(&mut self, layer: &Layer) -> (r: Result<Layer, LayerStackError>)
        requires
            old(self).wf(),
        ensures
            final(self).wf(),
            final(self).spec_running() == old(self).spec_running(),
            ({
                let s = old(self).spec_layers();
                let b = old(self).spec_boundary();
                let j = crate::layers::spec_find_by_id(s, 0, b, layer.id);
                if j < b {
                    &&& r == Result::<Layer, LayerStackError>::Ok(s[j])
                    &&& final(self).spec_layers() == s.remove(j)
                    &&& final(self).spec_boundary() == b - 1
                } else {
                    &&& r == Result::<Layer, LayerStackError>::Err(
                        LayerStackError::NotFound { id: layer.id },
                    )
                    &&& final(self).spec_layers() == s
                    &&& final(self).spec_boundary() == b
                }
            }),
    {
        self.layer_stack.pop_layer(layer)
    }

    /// Removes an overlay by identity; reports the identity when no overlay
    /// matches.
    pub fn pop_overlay(&mut self, overlay: &Layer) -> (r: Result<Layer, LayerStackError>)
        requires
            old(self).wf(),
        ensures
            final(self).wf(),
            final(self).spec_running() == old(self).spec_running(),
            ({
                let s = old(self).spec_layers();
                let b = old(self).spec_boundary();
                let j = crate::layers::spec_find_by_id(s, b, s.len() as int, overlay.id);
                if j < s.len() {
                    &&& r == Result::<Layer, LayerStackError>::Ok(s[j])
                    &&& final(self).spec_layers() == s.remove(j)
                    &&& final(self).spec_boundary() == b
                } else {
                    &&& r == Result::<Layer, LayerStackError>::Err(
                        LayerStackError::NotFound { id: overlay.id },
                    )
                    &&& final(self).spec_layers() == s
                    &&& final(self).spec_boundary() == b
                }
            }),
    {
        self.layer_stack.pop_overlay(overlay)
    }

    /// One frame tick: calls every layer's update hook, front to back.
    pub fn on_update(&mut self)
        requires
            old(self).wf(),
        ensures
            final(self).wf(),
            final(self).spec_running() == old(self).spec_running(),
            final(self).spec_boundary() == old(self).spec_boundary(),
            final(self).spec_layers() == layers_after_tick(old(self).spec_layers()),
    {
        let ghost before = self.spec_layers();
        let n = self.layer_stack.len();
        let mut i: usize = 0;
        while i < n
            invariant
                self.wf(),
                n == before.len(),
                i <= n,
                self.spec_running() == old(self).spec_running(),
                self.spec_boundary() == old(self).spec_boundary(),
                self.spec_layers().len() == before.len(),
                forall|j: int| 0 <= j < i ==> self.spec_layers()[j] == layer_after_update(
                    before[j],
                ),
                forall|j: int| i <= j < n ==> self.spec_layers()[j] == before[j],
            decreases n - i,
        {
            self.layer_stack.deliver_update(i);
            i = i + 1;
        }
        proof {
            assert(self.spec_layers() =~= layers_after_tick(before));
        }
    }

    /// One dispatch pass: offers the event to each layer, back to front,
    /// until one consumes it; consumption sets the handled flag and stops
    /// propagation at once.  Returns the event with its final flag.
    pub fn on_event(&mut self, event: Event) -> (r: Event)
        requires
            old(self).wf(),
        ensures
            final(self).wf(),
            final(self).spec_running() == old(self).spec_running(),
            final(self).spec_boundary() == old(self).spec_boundary(),
            r.spec_event_type() == event.spec_event_type(),
            r.spec_handled() == handled_after_dispatch(
                old(self).spec_layers(),
                event.spec_event_type(),
                event.spec_handled(),
            ),
            final(self).spec_layers() == layers_after_dispatch(
                old(self).spec_layers(),
                event.spec_event_type(),
            ),
    {
        let ghost before = self.spec_layers();
        let ghost t = event.spec_event_type();
        let ghost pre = event.spec_handled();
        let mut event = event;
        let n = self.layer_stack.len();
        let mut i: usize = n;
        let mut consumed = false;
        while i > 0 && !consumed
            invariant
                self.wf(),
                n == before.len(),
                i <= n,
                self.spec_running() == old(self).spec_running(),
                self.spec_boundary() == old(self).spec_boundary(),
                self.spec_layers().len() == before.len(),
                event.spec_event_type() == t,
                !consumed ==> {
                    &&& event.spec_handled() == pre
                    &&& forall|j: int| i <= j < n ==> !spec_consumes(before[j].behavior, t)
                    &&& forall|j: int|
                        i <= j < n ==> self.spec_layers()[j] == layer_after_event(before[j])
                    &&& forall|j: int| 0 <= j < i ==> self.spec_layers()[j] == before[j]
                },
                consumed ==> {
                    &&& i < n
                    &&& event.spec_handled()
                    &&& spec_consumes(before[i as int].behavior, t)
                    &&& forall|j: int| i < j < n ==> !spec_consumes(before[j].behavior, t)
                    &&& forall|j: int|
                        i <= j < n ==> self.spec_layers()[j] == layer_after_event(before[j])
                    &&& forall|j: int| 0 <= j < i ==> self.spec_layers()[j] == before[j]
                },
            decreases i,
        {
            i = i - 1;
            consumed = self.layer_stack.deliver_event(i, &event);
            if consumed {
                event.set_handled(true);
            }
        }
        proof {
            if consumed {
                lemma_last_consumer_pins(before, t, i as int);
                assert(0 <= i < before.len() && spec_consumes(before[i as int].behavior, t));
                assert(has_consumer(before, t));
            } else {
                assert(forall|j: int| 0 <= j < n ==> !spec_consumes(before[j].behavior, t));
                assert(!has_consumer(before, t));
            }
            assert(self.spec_layers() =~= layers_after_dispatch(before, t));
        }
        event
    }

    /// The full protocol for one platform notification, in strict order:
    /// translate it to one event; if that event is the close event, perform
    /// the privileged close transition (stop running, request the exit
    /// signal, mark the event handled) before any layer runs; record the
    /// event's description for the logging sink; dispatch back to front; and
    /// on a frame tick also run the update pass.  A notification that
    /// translates to the sentinel is dropped untouched.
    pub fn handle_notification(&mut self, n: Notification) -> (r: DispatchReport)
        requires
            old(self).wf(),
        ensures
            final(self).wf(),
            final(self).spec_boundary() == old(self).spec_boundary(),
            ({
                let t = spec_translate(n);
                let pre = t == EventType::WindowClose;
                let mid = layers_after_dispatch(old(self).spec_layers(), t);
                if t == EventType::Unknown {
                    &&& !r.dispatched
                    &&& !r.handled
                    &&& !r.exit_requested
                    &&& r.log_line is None
                    &&& *final(self) == *old(self)
                } else {
                    &&& r.dispatched
                    &&& r.handled == handled_after_dispatch(old(self).spec_layers(), t, pre)
                    &&& r.exit_requested == (pre && old(self).spec_running())
                    &&& final(self).spec_running() == (old(self).spec_running() && !pre)
                    &&& r.log_line matches Some(line) && line@ == spec_description(t)
                    &&& final(self).spec_layers() == if n == Notification::BeginFrame {
                        layers_after_tick(mid)
                    } else {
                        mid
                    }
                }
            }),
    {
        let et = translate(n);
        if let EventType::Unknown = et {
            return DispatchReport {
                dispatched: false,
                handled: false,
                exit_requested: false,
                log_line: Option::None,
            };
        }
        let mut event = Event::new(et);
        let mut exit_requested = false;
        if let EventType::WindowClose = et {
            event.set_handled(true);
            if self.running {
                exit_requested = true;
            }
            self.running = false;
        }
        let line = event.to_string();
        let event = self.on_event(event);
        if let Notification::BeginFrame = n {
            self.on_update();
        }
        DispatchReport {
            dispatched: true,
            handled: event.is_handled(),
            exit_requested,
            log_line: Option::Some(line),
        }
    }
}

} // verus!
