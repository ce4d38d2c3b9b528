//! Layers and the layer stack.  A layer is a named, stateful unit with
//! attach/detach lifecycle hooks, a per-frame update hook, and an event hook
//! that reports whether it consumed the event.  The stack keeps regular
//! layers in front of overlays: a cursor marks the boundary, regular layers
//! are inserted at the cursor, overlays are appended at the tail.
use vstd::prelude::*;

use crate::events::{spec_category_flags, Event, EventType};

verus! {

/// The opaque configuration handed to a layer when it is attached, e.g. an
/// arena index for the platform window the shell owns.
#[derive(Clone, Copy, Debug, PartialEq, Eq, Structural)]
pub enum LayerParam {
    NoConfig,
    Window(u64),
}

/// What a layer does with the events it sees.
#[derive(Clone, Copy, Debug, PartialEq, Eq, Structural)]
pub enum LayerBehavior {
    /// Watches events without consuming any.
    Observer,
    /// Consumes every event it sees.
    ConsumeAll,
    /// Consumes exactly the events whose category bitmask meets `mask`.
    ConsumeCategory { mask: i32 },
}

/// True iff a layer with this behavior consumes an event of the given
/// variant.
pub open spec fn spec_consumes(b: LayerBehavior, t: EventType) -> bool {
    match b {
        LayerBehavior::Observer => false,
        LayerBehavior::ConsumeAll => true,
        LayerBehavior::ConsumeCategory { mask } => spec_category_flags(t) & mask > 0,
    }
}

/// Adds one to a counter, stopping at the top of its range.
pub open spec fn sat_inc(n: u64) -> u64 {
    if n < u64::MAX {
        (n + 1) as u64
    } else {
        n
    }
}

/// A layer: its identity, its event policy, and the state the runtime
/// maintains for it across calls.  The state is owned exclusively by the
/// layer; the stack and its neighbours never touch it.
#[derive(Debug)]
pub struct Layer {
    /// Display name.
    pub name: String,
    /// Identity used for removal lookup.
    pub id: u64,
    /// What this layer does with the events it sees.
    pub behavior: LayerBehavior,
    /// Whether the layer is currently attached to a stack.
    pub attached: bool,
    /// How many frame ticks this layer has received.
    pub updates: u64,
    /// How many events this layer has seen.
    pub events_seen: u64,
}

/// The state of a layer after one frame tick.
pub open spec fn layer_after_update(l: Layer) -> Layer {
    Layer { updates: sat_inc(l.updates), ..l }
}

/// The state of a layer after it has seen one event.
pub open spec fn layer_after_event(l: Layer) -> Layer {
    Layer { events_seen: sat_inc(l.events_seen), ..l }
}

/// The state of a layer once it is attached.
pub open spec fn layer_attached(l: Layer) -> Layer {
    Layer { attached: true, ..l }
}

/// The state of a layer once it is detached.
pub open spec fn layer_detached(l: Layer) -> Layer {
    Layer { attached: false, ..l }
}

impl Layer {
    /// A fresh, unattached layer with zeroed state.
    pub fn new(name: String, id: u64, behavior: LayerBehavior) -> (r: Layer)
        ensures
            r.name == name,
            r.id == id,
            r.behavior == behavior,
            !r.attached,
            r.updates == 0,
            r.events_seen == 0,
    {
        Layer { name, id, behavior, attached: false, updates: 0, events_seen: 0 }
    }

    /// Identity comparison used for removal lookup.
    pub fn same_identity(&self, other: &Layer) -> (r: bool)
        ensures
            r == (self.id == other.id),
    {
        self.id == other.id
    }

    pub fn get_name(&self) -> (r: &str)
        ensures
            r@ == self.name@,
    {
        self.name.as_str()
    }

    /// Lifecycle hook: called exactly once when the layer is inserted into a
    /// stack, with the configuration it may need to set up resources.
    pub fn on_attach(&mut self, _param: LayerParam)
        requires
            !old(self).attached,
        ensures
            *final(self) == layer_attached(*old(self)),
    {
        self.attached = true;
    }

    /// Lifecycle hook: called exactly once on removal.
    pub fn on_detach(&mut self)
        requires
            old(self).attached,
        ensures
            *final(self) == layer_detached(*old(self)),
    {
        self.attached = false;
    }

    /// Per-frame hook: called once per frame tick, front to back.
    pub fn on_update(&mut self)
        ensures
            *final(self) == layer_after_update(*old(self)),
    {
        if self.updates < u64::MAX {
            self.updates = self.updates + 1;
        }
    }

    /// Event hook: records that the event was seen and reports whether this
    /// layer consumed it, which stops further propagation.
    pub fn on_event(&mut self, event: &Event) -> (consumed: bool)
        ensures
            *final(self) == layer_after_event(*old(self)),
            consumed == spec_consumes(old(self).behavior, event.spec_event_type()),
    {
        if self.events_seen < u64::MAX {
            self.events_seen = self.events_seen + 1;
        }
        match self.behavior {
            LayerBehavior::Observer => false,
            LayerBehavior::ConsumeAll => true,
            LayerBehavior::ConsumeCategory { mask } => event.get_category_flags() & mask > 0,
        }
    }
}

/// The error a removal reports when no layer in the searched partition
/// carries the requested identity.
#[derive(Clone, Copy, Debug, PartialEq, Eq, Structural)]
pub enum LayerStackError {
    NotFound { id: u64 },
}

/// The first index in `s[lo..hi]` whose layer carries `id`, or `hi` when
/// none does.
pub open spec fn spec_find_by_id(s: Seq<Layer>, lo: int, hi: int, id: u64) -> int
    decreases hi - lo,
{
    if lo >= hi {
        hi
    } else if s[lo].id == id {
        lo
    } else {
        spec_find_by_id(s, lo + 1, hi, id)
    }
}

/// An ordered sequence of owned layers with a cursor separating regular
/// layers (indices below the cursor) from overlays (at and above it).
pub struct LayerStack {
    layers: Vec<Layer>,
    layer_insert: usize,
}

impl LayerStack {
    /// The layers, front (first pushed regular layer) to back (last pushed
    /// overlay).
    pub closed spec fn spec_layers(&self) -> Seq<Layer> {
        self.layers@
    }

    /// The boundary between regular layers and overlays.
    pub closed spec fn spec_boundary(&self) -> int {
        self.layer_insert as int
    }

    /// Structural invariant: the cursor never exceeds the sequence length.
    pub open spec fn wf(&self) -> bool {
        0 <= self.spec_boundary() <= self.spec_layers().len()
    }

    pub fn new() -> (r: LayerStack)
        ensures
            r.spec_layers() =~= Seq::<Layer>::empty(),
            r.spec_boundary() == 0,
            r.wf(),
    {
        LayerStack { layers: Vec::new(), layer_insert: 0 }
    }

    pub fn get_layers(&self) -> (r: &Vec<Layer>)
        ensures
            r@ == self.spec_layers(),
    {
        &self.layers
    }

    /// Number of layers in the stack.
    pub fn len(&self) -> (r: usize)
        ensures
            r == self.spec_layers().len(),
    {
        self.layers.len()
    }

    /// Inserts a regular layer at the cursor and advances the cursor: the
    /// most recently pushed regular layer sits closest to the overlays.
    pub fn push_layer(&mut self, layer: Layer)
        requires
            old(self).wf(),
        ensures
            final(self).wf(),
            final(self).spec_layers() == old(self).spec_layers().insert(
                old(self).spec_boundary(),
                layer,
            ),
            final(self).spec_boundary() == old(self).spec_boundary() + 1,
    {
        self.layers.insert(self.layer_insert, layer);
        let n = self.layers.len();
        assert(self.layer_insert < n);
        self.layer_insert = self.layer_insert + 1;
    }

    /// Appends an overlay at the tail, after every regular layer and every
    /// earlier overlay; the cursor is unaffected.
    pub fn push_overlay(&mut self, overlay: Layer)
        requires
            old(self).wf(),
        ensures
            final(self).wf(),
            final(self).spec_layers() == old(self).spec_layers().push(overlay),
            final(self).spec_boundary() == old(self).spec_boundary(),
    {
        self.layers.push(overlay);
    }

    /// Removes the first regular layer with `layer`'s identity and retreats
    /// the cursor.  Reports the identity when no regular layer matches.
    pub fn pop_layer(&mut self, layer: &Layer) -> (r: Result<Layer, LayerStackError>)
        requires
            old(self).wf(),
        ensures
            final(self).wf(),
            ({
                let s = old(self).spec_layers();
                let b = old(self).spec_boundary();
                let j = spec_find_by_id(s, 0, b, layer.id);
                if j < b {
                    &&& r == Result::<Layer, LayerStackError>::Ok(s[j])
                    &&& final(self).spec_layers() == s.remove(j)
                    &&& final(self).spec_boundary() == b - 1
                } else {
                    &&& r == Result::<Layer, LayerStackError>::Err(
                        LayerStackError::NotFound { id: layer.id },
                    )
                    &&& *final(self) == *old(self)
                }
            }),
    {
        let ghost s = self.layers@;
        let ghost b = self.spec_boundary();
        let mut j: usize = 0;
        while j < self.layer_insert
            invariant
                self == old(self),
                j <= self.layer_insert,
                self.wf(),
                s == self.layers@,
                b == self.spec_boundary(),
                forall|k: int| 0 <= k < j ==> s[k].id != layer.id,
            decreases self.layer_insert - j,
        {
            if self.layers[j].id == layer.id {
                proof {
                    lemma_find_by_id_hit(s, 0, b, layer.id, j as int);
                }
                let removed = self.layers.remove(j);
                self.layer_insert = self.layer_insert - 1;
                return Result::Ok(removed);
            }
            j = j + 1;
        }
        proof {
            lemma_find_by_id_miss(s, 0, b, layer.id);
        }
        Result::Err(LayerStackError::NotFound { id: layer.id })
    }

    /// Removes the first overlay with `overlay`'s identity; the cursor is
    /// unaffected.  Reports the identity when no overlay matches.
    pub fn pop_overlay(&mut self, overlay: &Layer) -> (r: Result<Layer, LayerStackError>)
        requires
            old(self).wf(),
        ensures
            final(self).wf(),
            ({
                let s = old(self).spec_layers();
                let b = old(self).spec_boundary();
                let j = spec_find_by_id(s, b, s.len() as int, overlay.id);
                if j < s.len() {
                    &&& r == Result::<Layer, LayerStackError>::Ok(s[j])
                    &&& final(self).spec_layers() == s.remove(j)
                    &&& final(self).spec_boundary() == b
                } else {
                    &&& r == Result::<Layer, LayerStackError>::Err(
                        LayerStackError::NotFound { id: overlay.id },
                    )
                    &&& *final(self) == *old(self)
                }
            }),
    {
        let ghost s = self.layers@;
        let ghost b = self.spec_boundary();
        let mut j: usize = self.layer_insert;
        while j < self.layers.len()
            invariant
                self == old(self),
                b <= j <= self.layers@.len(),
                self.wf(),
                s == self.layers@,
                b == self.spec_boundary(),
                forall|k: int| b <= k < j ==> s[k].id != overlay.id,
            decreases self.layers@.len() - j,
        {
            if self.layers[j].id == overlay.id {
                proof {
                    lemma_find_by_id_hit(s, b, s.len() as int, overlay.id, j as int);
                }
                let removed = self.layers.remove(j);
                return Result::Ok(removed);
            }
            j = j + 1;
        }
        proof {
            lemma_find_by_id_miss(s, b, s.len() as int, overlay.id);
        }
        Result::Err(LayerStackError::NotFound { id: overlay.id })
    }

    /// Delivers an event to the layer at `i` and reports whether that layer
    /// consumed it.
    pub fn deliver_event(&mut self, i: usize, event: &Event) -> (consumed: bool)
        requires
            old(self).wf(),
            i < old(self).spec_layers().len(),
        ensures
            final(self).wf(),
            final(self).spec_boundary() == old(self).spec_boundary(),
            final(self).spec_layers() == old(self).spec_layers().update(
                i as int,
                layer_after_event(old(self).spec_layers()[i as int]),
            ),
            consumed == spec_consumes(
                old(self).spec_layers()[i as int].behavior,
                event.spec_event_type(),
            ),
    {
        let l = &mut self.layers[i];
        l.on_event(event)
    }

    /// Delivers a frame tick to the layer at `i`.
    pub fn deliver_update(&mut self, i: usize)
        requires
            old(self).wf(),
            i < old(self).spec_layers().len(),
        ensures
            final(self).wf(),
            final(self).spec_boundary() == old(self).spec_boundary(),
            final(self).spec_layers() == old(self).spec_layers().update(
                i as int,
                layer_after_update(old(self).spec_layers()[i as int]),
            ),
    {
        let l = &mut self.layers[i];
        l.on_update()
    }
}

/// If `s[j]` is the first layer in `s[lo..hi]` carrying `id`, the search
/// finds exactly `j`.
proof fn lemma_find_by_id_hit(s: Seq<Layer>, lo: int, hi: int, id: u64, j: int)
    requires
        lo <= j < hi,
        s[j].id == id,
        forall|k: int| lo <= k < j ==> s[k].id != id,
    ensures
        spec_find_by_id(s, lo, hi, id) == j,
    decreases j - lo,
{
    if lo < j {
        lemma_find_by_id_hit(s, lo + 1, hi, id, j);
    }
}

/// If no layer in `s[lo..hi]` carries `id`, the search reports `hi`.
proof fn lemma_find_by_id_miss(s: Seq<Layer>, lo: int, hi: int, id: u64)
    requires
        forall|k: int| lo <= k < hi ==> s[k].id != id,
    ensures
        spec_find_by_id(s, lo, hi, id) == hi,
    decreases hi - lo,
{
    if lo < hi {
        lemma_find_by_id_miss(s, lo + 1, hi, id);
    }
}

} // verus!
