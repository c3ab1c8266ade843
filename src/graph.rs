//! The network arena and the live-parameter store.
//!
//! Networks live in an append-only arena addressed by handle. A slot may be
//! overwritten in place, but a handle never goes away, so a handle is valid
//! exactly when it is below the arena's length. Combinators never touch their
//! operands: they copy them and append the result.

use crate::network::{
    assign_cell, bus_nets, chain_net, clone_net, constant_net, default_at, new_cell,
    oscillator_shape, pipe_nets, product_nets, sum_nets, tap_net, Network, NodeType, Shape,
    DEFAULTS_SIZE,
};
use fundsp::net::NodeId;
use fundsp::shared::Shared;
use vstd::prelude::*;

verus! {

/// How the network in a slot was made.
pub enum Form {
    Oscillator(NodeType),
    Constant,
    Param(Seq<char>),
    Given,
    Product(Box<Form>, Box<Form>),
    Sum(Box<Form>, Box<Form>),
    Bus(Box<Form>, Box<Form>),
    Pipe(Box<Form>, Box<Form>),
    Chain(Box<Form>, NodeType),
}

/// What the library knows of one arena slot.
pub struct Slot {
    pub shape: Shape,
    pub form: Form,
}

/// A handle names a network exactly when it is below the arena's length.
pub open spec fn live(slots: Seq<Slot>, h: int) -> bool {
    0 <= h < slots.len()
}

/// The arena after a combinator: the result, if any, is appended.
pub open spec fn appended(slots: Seq<Slot>, r: Option<Slot>) -> Seq<Slot> {
    match r {
        Some(s) => slots.push(s),
        None => slots,
    }
}

/// The handle a combinator returns: the new last slot, if there is a result.
pub open spec fn issued(slots: Seq<Slot>, r: Option<Slot>) -> Option<usize> {
    match r {
        Some(_) => Some(slots.len() as usize),
        None => None,
    }
}

/// `x * y`: the signals multiplied, defined when the output counts agree.
pub open spec fn product_slot(x: Slot, y: Slot) -> Slot {
    Slot {
        shape: Shape { inputs: x.shape.inputs + y.shape.inputs, outputs: x.shape.outputs, backed: false },
        form: Form::Product(Box::new(x.form), Box::new(y.form)),
    }
}

/// `x + y`: the signals summed, defined when the output counts agree.
pub open spec fn sum_slot(x: Slot, y: Slot) -> Slot {
    Slot {
        shape: Shape { inputs: x.shape.inputs + y.shape.inputs, outputs: x.shape.outputs, backed: false },
        form: Form::Sum(Box::new(x.form), Box::new(y.form)),
    }
}

/// `x & y`: both fed the same inputs, their outputs mixed.
pub open spec fn bus_slot(x: Slot, y: Slot) -> Slot {
    Slot {
        shape: Shape { inputs: x.shape.inputs, outputs: x.shape.outputs, backed: false },
        form: Form::Bus(Box::new(x.form), Box::new(y.form)),
    }
}

/// `x >> y`: `x` feeds `y`.
pub open spec fn pipe_slot(x: Slot, y: Slot) -> Slot {
    Slot {
        shape: Shape { inputs: x.shape.inputs, outputs: y.shape.outputs, backed: false },
        form: Form::Pipe(Box::new(x.form), Box::new(y.form)),
    }
}

/// Result of `product(a, b)`: only a source with no inputs may scale a network.
pub open spec fn product_of(slots: Seq<Slot>, a: int, b: int) -> Option<Slot> {
    if live(slots, a) && live(slots, b) && slots[a].shape.outputs == slots[b].shape.outputs
        && slots[b].shape.inputs == 0 {
        Some(product_slot(slots[a], slots[b]))
    } else {
        None
    }
}

/// Result of `bus(a, b)`. A bus of a source that has no inputs would be
/// meaningless, so when either operand has none the two are summed instead.
pub open spec fn bus_of(slots: Seq<Slot>, a: int, b: int) -> Option<Slot> {
    if !live(slots, a) || !live(slots, b) {
        None
    } else if slots[a].shape.inputs == 0 || slots[b].shape.inputs == 0 {
        if slots[a].shape.outputs == slots[b].shape.outputs {
            Some(sum_slot(slots[a], slots[b]))
        } else {
            None
        }
    } else if slots[a].shape.inputs == slots[b].shape.inputs && slots[a].shape.outputs
        == slots[b].shape.outputs {
        Some(bus_slot(slots[a], slots[b]))
    } else {
        None
    }
}

/// Result of `pipe(a, b)`: `a` must have as many outputs as `b` has inputs.
pub open spec fn pipe_of(slots: Seq<Slot>, a: int, b: int) -> Option<Slot> {
    if live(slots, a) && live(slots, b) && slots[a].shape.outputs == slots[b].shape.inputs {
        Some(pipe_slot(slots[a], slots[b]))
    } else {
        None
    }
}

/// The slot a new live parameter named `name` gets.
pub open spec fn param_slot(name: Seq<char>) -> Slot {
    Slot { shape: Shape { inputs: 0, outputs: 1, backed: false }, form: Form::Param(name) }
}

/// The arena, the parameter handles and the handle returned after setting the
/// parameter `name`: a known name keeps its handle and changes neither; an
/// unseen one gets a new slot at the end.
pub open spec fn after_set(slots: Seq<Slot>, handles: Map<Seq<char>, nat>, name: Seq<char>) -> (
    Seq<Slot>,
    Map<Seq<char>, nat>,
    nat,
) {
    if handles.contains_key(name) {
        (slots, handles, handles[name])
    } else {
        (slots.push(param_slot(name)), handles.insert(name, slots.len()), slots.len())
    }
}

/// Result of summing `a` and `b`.
pub open spec fn sum_of(slots: Seq<Slot>, a: int, b: int) -> Option<Slot> {
    if live(slots, a) && live(slots, b) && slots[a].shape.outputs == slots[b].shape.outputs {
        Some(sum_slot(slots[a], slots[b]))
    } else {
        None
    }
}

/// The arena every engine starts with: the built-in oscillators, in order.
pub open spec fn initial_slots() -> Seq<Slot> {
    Seq::new(
        DEFAULTS_SIZE as nat,
        |i: int| Slot { shape: oscillator_shape(), form: Form::Oscillator(default_at(i)) },
    )
}

/// A live parameter: its name, the cell that holds its value, and the handle of
/// the network that plays that cell.
struct Param {
    name: String,
    cell: Shared,
    handle: usize,
}

/// Whether some parameter in `ps` is called `k`.
spec fn named(ps: Seq<Param>, k: Seq<char>) -> bool {
    exists|i: int| 0 <= i < ps.len() && ps[i].name@ == k
}

/// The graph engine: the arena of networks and the store of live parameters.
pub struct DspModule {
    nets: Vec<Network>,
    forms: Ghost<Seq<Form>>,
    params: Vec<Param>,
    handles: Ghost<Map<Seq<char>, nat>>,
}

impl DspModule {
    /// The arena, slot by slot.
    pub closed spec fn slots(&self) -> Seq<Slot> {
        Seq::new(
            self.nets.len() as nat,
            |i: int| Slot { shape: self.nets[i]@, form: self.forms@[i] },
        )
    }

    /// The handle allotted to each live parameter, by name.
    pub closed spec fn handles(&self) -> Map<Seq<char>, nat> {
        self.handles@
    }

    /// The engine's internal consistency.
    pub closed spec fn inv(&self) -> bool {
        &&& self.nets.len() == self.forms@.len()
        &&& forall|i: int| 0 <= i < self.nets.len() ==> !(#[trigger] self.nets[i]@).backed
        &&& forall|i: int|
            0 <= i < self.params.len() ==> {
                &&& self.handles@.contains_key(#[trigger] self.params[i].name@)
                &&& self.handles@[self.params[i].name@] == self.params[i].handle
                &&& self.params[i].handle < self.nets.len()
            }
        &&& forall|k: Seq<char>| #[trigger] self.handles@.contains_key(k) ==> named(self.params@, k)
        &&& forall|i: int, j: int|
            0 <= i < j < self.params.len() ==> self.params[i].name@ != self.params[j].name@
    }

    /// The arena's length is a machine size, and every parameter handle is a
    /// handle of the arena.
    pub proof fn lemma_len_fits(&self)
        requires
            self.inv(),
        ensures
            self.slots().len() <= usize::MAX,
            forall|k: Seq<char>| #[trigger]
                self.handles().contains_key(k) ==> self.handles()[k] < self.slots().len(),
    {
        assert forall|k: Seq<char>| #[trigger] self.handles().contains_key(k) implies self.handles()[k]
            < self.slots().len() by {
            assert(named(self.params@, k));
            let i = choose|i: int| 0 <= i < self.params@.len() && self.params@[i].name@ == k;
            assert(self.params[i].name@ == k);
        }
    }

    /// A new engine holding only the built-in oscillators, at their fixed handles.
    pub fn new() -> (r: DspModule)
        ensures
            r.inv(),
            r.slots() == initial_slots(),
            r.handles().is_empty(),
    {
        let nets = NodeType::get_defaults();
        let r = DspModule {
            nets,
            forms: Ghost(Seq::new(7, |i: int| Form::Oscillator(default_at(i)))),
            params: Vec::new(),
            handles: Ghost(Map::empty()),
        };
        assert(r.slots() =~= initial_slots());
        assert(r.handles@ =~= Map::empty());
        r
    }

    /// Appends a network and returns its handle.
    fn push(&mut self, n: Network, form: Ghost<Form>) -> (r: usize)
        requires
            old(self).inv(),
            !n@.backed,
        ensures
            final(self).inv(),
            r == old(self).slots().len(),
            final(self).slots() == old(self).slots().push(Slot { shape: n@, form: form@ }),
            final(self).handles() == old(self).handles(),
    {
        let ghost before = self.slots();
        let ghost old_nets = self.nets@;
        self.nets.push(n);
        self.forms = Ghost(self.forms@.push(form@));
        assert forall|i: int| 0 <= i < self.nets.len() implies !(#[trigger] self.nets[i]@).backed by {
            if i < old_nets.len() {
                assert(self.nets[i] == old_nets[i]);
            }
        }
        assert(self.slots() =~= before.push(Slot { shape: n@, form: form@ }));
        self.nets.len() - 1
    }

    /* Live parameters */

    fn find_param(&self, name: &String) -> (r: Option<usize>)
        requires
            self.inv(),
        ensures
            match r {
                Some(i) => i < self.params.len() && self.params[i as int].name@ == name@,
                None => !self.handles().contains_key(name@),
            },
    {
        let mut i: usize = 0;
        while i < self.params.len()
            invariant
                self.inv(),
                i <= self.params.len(),
                forall|j: int| 0 <= j < i ==> self.params[j].name@ != name@,
            decreases self.params.len() - i,
        {
            if self.params[i].name == *name {
                return Some(i);
            }
            i = i + 1;
        }
        None
    }

    /// Whether a live parameter of this name exists.
    pub fn shared_exists(&self, name: &String) -> (r: bool)
        requires
            self.inv(),
        ensures
            r == self.handles().contains_key(name@),
    {
        self.find_param(name).is_some()
    }

    /// Sets the named live parameter to the value `value` holds. An unseen name
    /// gets a cell of its own and a network that plays it, appended to the
    /// arena; a known name has its cell written in place, so every network
    /// that plays it hears the new value without being rebuilt. Either way the
    /// parameter's handle is returned, the same one every time.
    pub fn shared_set(&mut self, name: &String, value: &Shared) -> (r: usize)
        requires
            old(self).inv(),
        ensures
            final(self).inv(),
            (final(self).slots(), final(self).handles(), r as nat) == after_set(
                old(self).slots(),
                old(self).handles(),
                name@,
            ),
    {
        match self.find_param(name) {
            Some(i) => {
                assign_cell(&self.params[i].cell, value);
                self.params[i].handle
            },
            None => {
                let cell = new_cell(value);
                let tap = tap_net(&cell);
                let h = self.push(tap, Ghost(Form::Param(name@)));
                let ghost before = self.params@;
                assert forall|j: int| 0 <= j < before.len() implies before[j].name@ != name@ by {
                    assert(self.handles@.contains_key(self.params[j].name@));
                }
                self.params.push(Param { name: name.clone(), cell, handle: h });
                self.handles = Ghost(self.handles@.insert(name@, h as nat));
                assert(self.slots().len() == self.nets.len());
                assert forall|j: int| 0 <= j < self.params.len() implies (#[trigger] self.params[j]).handle
                    < self.nets.len() by {
                    if j < before.len() {
                        assert(self.params[j] == before[j]);
                    }
                }
                assert forall|k: Seq<char>| #[trigger] self.handles@.contains_key(k) implies named(
                    self.params@,
                    k,
                ) by {
                    if k != name@ {
                        assert(named(before, k));
                        let j = choose|j: int| 0 <= j < before.len() && before[j].name@ == k;
                        assert(self.params@[j] == before[j]);
                    } else {
                        assert(self.params@[before.len() as int].name@ == k);
                    }
                }
                h
            },
        }
    }

    /// The cell of the named live parameter, if there is one.
    pub fn shared_get(&self, name: &String) -> (r: Option<&Shared>)
        requires
            self.inv(),
        ensures
            r.is_some() == self.handles().contains_key(name@),
    {
        match self.find_param(name) {
            Some(i) => Some(&self.params[i].cell),
            None => None,
        }
    }

    /// The handle of the named live parameter's network, if there is one.
    pub fn shared_get_net(&self, name: &String) -> (r: Option<usize>)
        requires
            self.inv(),
        ensures
            r == (if self.handles().contains_key(name@) {
                Some(self.handles()[name@] as usize)
            } else {
                None
            }),
    {
        match self.find_param(name) {
            Some(i) => Some(self.params[i].handle),
            None => None,
        }
    }

    /* Networks */

    /// Whether `target` is a handle of this arena.
    pub fn net_exists(&self, target: usize) -> (r: bool)
        requires
            self.inv(),
        ensures
            r == live(self.slots(), target as int),
    {
        target < self.nets.len()
    }

    /// Appends a copy of `new_network` and returns its handle.
    pub fn net_from(&mut self, new_network: &Network) -> (r: usize)
        requires
            old(self).inv(),
        ensures
            final(self).inv(),
            r == old(self).slots().len(),
            final(self).slots() == old(self).slots().push(
                Slot { shape: Shape { backed: false, ..new_network@ }, form: Form::Given },
            ),
            final(self).handles() == old(self).handles(),
    {
        let copy = clone_net(new_network);
        self.push(copy, Ghost(Form::Given))
    }

    /// Overwrites slot `target` with a copy of `new_network` and returns
    /// `target`; an unknown handle is refused and nothing changes.
    pub fn net_replace(&mut self, target: usize, new_network: &Network) -> (r: Option<usize>)
        requires
            old(self).inv(),
        ensures
            final(self).inv(),
            final(self).handles() == old(self).handles(),
            live(old(self).slots(), target as int) ==> {
                &&& r == Some(target)
                &&& final(self).slots() == old(self).slots().update(
                    target as int,
                    Slot { shape: Shape { backed: false, ..new_network@ }, form: Form::Given },
                )
            },
            !live(old(self).slots(), target as int) ==> {
                &&& r.is_none()
                &&& final(self).slots() == old(self).slots()
            },
    {
        if target >= self.nets.len() {
            return None;
        }
        let ghost before = self.slots();
        let ghost old_nets = self.nets@;
        let copy = clone_net(new_network);
        self.nets.set(target, copy);
        self.forms = Ghost(self.forms@.update(target as int, Form::Given));
        assert forall|i: int| 0 <= i < self.nets.len() implies !(#[trigger] self.nets[i]@).backed by {
            if i != target {
                assert(self.nets[i] == old_nets[i]);
            }
        }
        assert(self.slots() =~= before.update(
            target as int,
            Slot { shape: Shape { backed: false, ..new_network@ }, form: Form::Given },
        ));
        Some(target)
    }

    /// A copy of the network at `target`, if the handle is known.
    pub fn get_net(&self, target: usize) -> (r: Option<Network>)
        requires
            self.inv(),
        ensures
            live(self.slots(), target as int) ==> r.is_some() && r.unwrap()@
                == self.slots()[target as int].shape && !r.unwrap()@.backed,
            !live(self.slots(), target as int) ==> r.is_none(),
    {
        if target >= self.nets.len() {
            return None;
        }
        Some(clone_net(&self.nets[target]))
    }

    /// Appends a copy of the network at `target` and returns the copy's handle;
    /// an unknown handle gives nothing and changes nothing.
    pub fn net_clone(&mut self, target: usize) -> (r: Option<usize>)
        requires
            old(self).inv(),
        ensures
            final(self).inv(),
            final(self).handles() == old(self).handles(),
            live(old(self).slots(), target as int) ==> {
                &&& r == Some(old(self).slots().len() as usize)
                &&& final(self).slots() == old(self).slots().push(old(self).slots()[target as int])
            },
            !live(old(self).slots(), target as int) ==> {
                &&& r.is_none()
                &&& final(self).slots() == old(self).slots()
            },
    {
        if target >= self.nets.len() {
            return None;
        }
        let copy = clone_net(&self.nets[target]);
        let ghost form = self.forms@[target as int];
        Some(self.push(copy, Ghost(form)))
    }

    /// Appends a source with no input that holds the value `value` holds now,
    /// and returns its handle.
    pub fn net_constant(&mut self, value: &Shared) -> (r: usize)
        requires
            old(self).inv(),
        ensures
            final(self).inv(),
            r == old(self).slots().len(),
            final(self).slots() == old(self).slots().push(
                Slot { shape: Shape { inputs: 0, outputs: 1, backed: false }, form: Form::Constant },
            ),
            final(self).handles() == old(self).handles(),
    {
        let source = constant_net(value);
        self.push(source, Ghost(Form::Constant))
    }

    /// Number of slots in the arena, which is the next handle to be issued.
    pub fn net_vector_length(&self) -> (r: usize)
        requires
            self.inv(),
        ensures
            r == self.slots().len(),
    {
        self.nets.len()
    }

    /// `a * b`, appended. Only a source with no inputs may scale a network, so
    /// any `b` with inputs is refused, as are unknown handles and output
    /// counts that differ.
    pub fn net_product(&mut self, target_a: usize, target_b: usize) -> (r: Option<usize>)
        requires
            old(self).inv(),
        ensures
            final(self).inv(),
            final(self).handles() == old(self).handles(),
            r == issued(old(self).slots(), product_of(old(self).slots(), target_a as int, target_b as int)),
            final(self).slots() == appended(
                old(self).slots(),
                product_of(old(self).slots(), target_a as int, target_b as int),
            ),
    {
        if target_a >= self.nets.len() || target_b >= self.nets.len() {
            return None;
        }
        if self.nets[target_a].outputs() != self.nets[target_b].outputs()
            || self.nets[target_b].inputs() != 0 {
            return None;
        }
        let a = clone_net(&self.nets[target_a]);
        let b = clone_net(&self.nets[target_b]);
        let ghost slot = product_slot(self.slots()[target_a as int], self.slots()[target_b as int]);
        let n = product_nets(a, b);
        Some(self.push(n, Ghost(slot.form)))
    }

    /// `a & b`, appended. When either operand has no inputs a bus means
    /// nothing, and the two are summed instead. Unknown handles and counts that
    /// do not fit are refused.
    pub fn net_bus(&mut self, target_a: usize, target_b: usize) -> (r: Option<usize>)
        requires
            old(self).inv(),
        ensures
            final(self).inv(),
            final(self).handles() == old(self).handles(),
            r == issued(old(self).slots(), bus_of(old(self).slots(), target_a as int, target_b as int)),
            final(self).slots() == appended(
                old(self).slots(),
                bus_of(old(self).slots(), target_a as int, target_b as int),
            ),
    {
        if target_a >= self.nets.len() || target_b >= self.nets.len() {
            return None;
        }
        let ghost x = self.slots()[target_a as int];
        let ghost y = self.slots()[target_b as int];
        if self.nets[target_a].inputs() == 0 || self.nets[target_b].inputs() == 0 {
            proof {
                law_bus_of_source_is_sum(self.slots(), target_a as int, target_b as int);
            }
            if self.nets[target_a].outputs() != self.nets[target_b].outputs() {
                return None;
            }
            let a = clone_net(&self.nets[target_a]);
            let b = clone_net(&self.nets[target_b]);
            let n = sum_nets(a, b);
            return Some(self.push(n, Ghost(sum_slot(x, y).form)));
        }
        if self.nets[target_a].inputs() != self.nets[target_b].inputs()
            || self.nets[target_a].outputs() != self.nets[target_b].outputs() {
            return None;
        }
        let a = clone_net(&self.nets[target_a]);
        let b = clone_net(&self.nets[target_b]);
        let n = bus_nets(a, b);
        Some(self.push(n, Ghost(bus_slot(x, y).form)))
    }

    /// `a >> b`, appended. Refused unless both handles are known and `a` has as
    /// many outputs as `b` has inputs.
    pub fn net_pipe(&mut self, target_a: usize, target_b: usize) -> (r: Option<usize>)
        requires
            old(self).inv(),
        ensures
            final(self).inv(),
            final(self).handles() == old(self).handles(),
            r == issued(old(self).slots(), pipe_of(old(self).slots(), target_a as int, target_b as int)),
            final(self).slots() == appended(
                old(self).slots(),
                pipe_of(old(self).slots(), target_a as int, target_b as int),
            ),
    {
        if target_a >= self.nets.len() || target_b >= self.nets.len() {
            return None;
        }
        if self.nets[target_a].outputs() != self.nets[target_b].inputs() {
            return None;
        }
        let a = clone_net(&self.nets[target_a]);
        let b = clone_net(&self.nets[target_b]);
        let ghost slot = pipe_slot(self.slots()[target_a as int], self.slots()[target_b as int]);
        let n = pipe_nets(a, b);
        Some(self.push(n, Ghost(slot.form)))
    }

    /// Adds a built-in oscillator at the end of the network at `target_net`,
    /// in place, and returns the new node's id, which lives in the network's
    /// own namespace, not the arena's. The network keeps its counts.
    pub fn net_chain(&mut self, target_net: usize, node_type: &NodeType) -> (r: Option<NodeId>)
        requires
            old(self).inv(),
        ensures
            final(self).inv(),
            final(self).handles() == old(self).handles(),
            live(old(self).slots(), target_net as int) ==> {
                &&& r.is_some()
                &&& final(self).slots() == old(self).slots().update(
                    target_net as int,
                    Slot {
                        shape: old(self).slots()[target_net as int].shape,
                        form: Form::Chain(
                            Box::new(old(self).slots()[target_net as int].form),
                            *node_type,
                        ),
                    },
                )
            },
            !live(old(self).slots(), target_net as int) ==> {
                &&& r.is_none()
                &&& final(self).slots() == old(self).slots()
            },
    {
        if target_net >= self.nets.len() {
            return None;
        }
        let ghost before = self.slots();
        let ghost old_nets = self.nets@;
        let unit = node_type.as_unit();
        let mut n = clone_net(&self.nets[target_net]);
        let id = chain_net(&mut n, unit);
        self.nets.set(target_net, n);
        let ghost chained = Form::Chain(Box::new(self.forms@[target_net as int]), *node_type);
        self.forms = Ghost(self.forms@.update(target_net as int, chained));
        assert forall|i: int| 0 <= i < self.nets.len() implies !(#[trigger] self.nets[i]@).backed by {
            if i != target_net {
                assert(self.nets[i] == old_nets[i]);
            }
        }
        assert(self.slots() =~= before.update(
            target_net as int,
            Slot { shape: before[target_net as int].shape, form: chained },
        ));
        Some(id)
    }

    /// Hands the pending edits of the network at `target_net` to its real-time
    /// backend, if it has one. No network in the arena ever carries a backend
    /// (they are all copies, and fundsp never copies one), so there is never
    /// anything pending and nothing changes.
    pub fn net_commit(&mut self, target_net: usize)
        requires
            old(self).inv(),
        ensures
            final(self).inv(),
            final(self).slots() == old(self).slots(),
            final(self).handles() == old(self).handles(),
    {
        let pending = target_net < self.nets.len() && self.nets[target_net].has_backend();
        assert(!pending);
    }
}

/// A handle that has not been issued names nothing. Appending issues the next
/// handle, which then names the new network, while the one after it still
/// names nothing.
pub proof fn law_fresh_handles(slots: Seq<Slot>, s: Slot, h: int)
    requires
        h >= slots.len(),
    ensures
        !live(slots, h),
        live(slots.push(s), slots.len() as int),
        !live(slots.push(s), slots.len() + 1 as int),
{
}

/// When either operand has no inputs, `bus` is exactly the sum of the two:
/// the same result, shaped and built as a sum, never as a bus.
pub proof fn law_bus_of_source_is_sum(slots: Seq<Slot>, a: int, b: int)
    requires
        live(slots, a),
        live(slots, b),
        slots[a].shape.inputs == 0 || slots[b].shape.inputs == 0,
    ensures
        bus_of(slots, a, b) == sum_of(slots, a, b),
        bus_of(slots, a, b) is Some ==> bus_of(slots, a, b).unwrap().form is Sum,
{
}

/// `product` refuses every `b` that has inputs, whatever `a` is.
pub proof fn law_product_needs_source(slots: Seq<Slot>, a: int, b: int)
    requires
        live(slots, b),
        slots[b].shape.inputs != 0,
    ensures
        product_of(slots, a, b).is_none(),
{
}

/// Setting the same parameter twice hands back the same handle both times,
/// and the second setting leaves the arena and the handles as the first left
/// them.
pub proof fn law_set_twice_same_handle(
    slots: Seq<Slot>,
    handles: Map<Seq<char>, nat>,
    name: Seq<char>,
)
    ensures
        ({
            let (slots1, handles1, h1) = after_set(slots, handles, name);
            let (slots2, handles2, h2) = after_set(slots1, handles1, name);
            h1 == h2 && slots2 == slots1 && handles2 == handles1
        }),
{
}

} // verus!
