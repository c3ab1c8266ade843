//! Signal networks: fundsp's `Net` together with the arity the library reasons about.

use fundsp::audiounit::AudioUnit;
use fundsp::hacker32::{hammond, organ, saw, shared, sine, soft_saw, square, triangle, var};
use fundsp::net::{Net, NodeId};
use fundsp::shared::Shared;
use vstd::prelude::*;
use vstd::string::*;

verus! {

#[verifier::external_type_specification]
#[verifier::external_body]
pub struct ExNet(Net);

#[verifier::external_type_specification]
#[verifier::external_body]
pub struct ExNodeId(NodeId);

#[verifier::external_type_specification]
#[verifier::external_body]
pub struct ExShared(Shared);

/// What the library knows of a network: its input and output counts, and
/// whether a real-time backend is attached to it.
pub struct Shape {
    pub inputs: nat,
    pub outputs: nat,
    pub backed: bool,
}

/// A fundsp network. The counts are read back from the `Net` whenever one is
/// built, so they always agree with what fundsp reports.
pub struct Network {
    net: Net,
    inputs: usize,
    outputs: usize,
    backed: bool,
}

impl View for Network {
    type V = Shape;

    closed spec fn view(&self) -> Shape {
        Shape { inputs: self.inputs as nat, outputs: self.outputs as nat, backed: self.backed }
    }
}

/// Relies on `Net::new`: a network with exactly the given numbers of inputs and
/// outputs, and no backend.
#[verifier::external_body]
pub(crate) fn empty_net(inputs: usize, outputs: usize) -> (r: Network)
    ensures
        r@ == (Shape { inputs: inputs as nat, outputs: outputs as nat, backed: false }),
{
    let net = Net::new(inputs, outputs);
    Network { inputs: net.inputs(), outputs: net.outputs(), backed: net.has_backend(), net }
}

/// Relies on `Net::clone`: the copy keeps the counts and never carries the
/// frontend, so it has no backend.
#[verifier::external_body]
pub(crate) fn clone_net(n: &Network) -> (r: Network)
    ensures
        r@ == (Shape { backed: false, ..n@ }),
{
    let net = n.net.clone();
    Network { inputs: net.inputs(), outputs: net.outputs(), backed: net.has_backend(), net }
}

/// Relies on `Net::wrap(hammond())`: a one-input, one-output oscillator.
#[verifier::external_body]
pub(crate) fn hammond_net() -> (r: Network)
    ensures
        r@ == (Shape { inputs: 1, outputs: 1, backed: false }),
{
    let net = Net::wrap(Box::new(hammond()));
    Network { inputs: net.inputs(), outputs: net.outputs(), backed: net.has_backend(), net }
}

/// Relies on `Net::wrap(organ())`: a one-input, one-output oscillator.
#[verifier::external_body]
pub(crate) fn organ_net() -> (r: Network)
    ensures
        r@ == (Shape { inputs: 1, outputs: 1, backed: false }),
{
    let net = Net::wrap(Box::new(organ()));
    Network { inputs: net.inputs(), outputs: net.outputs(), backed: net.has_backend(), net }
}

/// Relies on `Net::wrap(saw())`: a one-input, one-output oscillator.
#[verifier::external_body]
pub(crate) fn saw_net() -> (r: Network)
    ensures
        r@ == (Shape { inputs: 1, outputs: 1, backed: false }),
{
    let net = Net::wrap(Box::new(saw()));
    Network { inputs: net.inputs(), outputs: net.outputs(), backed: net.has_backend(), net }
}

/// Relies on `Net::wrap(sine())`: a one-input, one-output oscillator.
#[verifier::external_body]
pub(crate) fn sine_net() -> (r: Network)
    ensures
        r@ == (Shape { inputs: 1, outputs: 1, backed: false }),
{
    let net = Net::wrap(Box::new(sine()));
    Network { inputs: net.inputs(), outputs: net.outputs(), backed: net.has_backend(), net }
}

/// Relies on `Net::wrap(soft_saw())`: a one-input, one-output oscillator.
#[verifier::external_body]
pub(crate) fn soft_saw_net() -> (r: Network)
    ensures
        r@ == (Shape { inputs: 1, outputs: 1, backed: false }),
{
    let net = Net::wrap(Box::new(soft_saw()));
    Network { inputs: net.inputs(), outputs: net.outputs(), backed: net.has_backend(), net }
}

/// Relies on `Net::wrap(square())`: a one-input, one-output oscillator.
#[verifier::external_body]
pub(crate) fn square_net() -> (r: Network)
    ensures
        r@ == (Shape { inputs: 1, outputs: 1, backed: false }),
{
    let net = Net::wrap(Box::new(square()));
    Network { inputs: net.inputs(), outputs: net.outputs(), backed: net.has_backend(), net }
}

/// Relies on `Net::wrap(triangle())`: a one-input, one-output oscillator.
#[verifier::external_body]
pub(crate) fn triangle_net() -> (r: Network)
    ensures
        r@ == (Shape { inputs: 1, outputs: 1, backed: false }),
{
    let net = Net::wrap(Box::new(triangle()));
    Network { inputs: net.inputs(), outputs: net.outputs(), backed: net.has_backend(), net }
}

/// Relies on `Net::wrap(var(cell))`: a source with no input and one output
/// that plays whatever value the shared cell holds when it is read.
#[verifier::external_body]
pub(crate) fn tap_net(cell: &Shared) -> (r: Network)
    ensures
        r@ == (Shape { inputs: 0, outputs: 1, backed: false }),
{
    let net = Net::wrap(Box::new(var(cell)));
    Network { inputs: net.inputs(), outputs: net.outputs(), backed: net.has_backend(), net }
}

/// Relies on `Net::wrap(constant(..))` fed with the value `Shared::value` reads
/// from the cell: a source with no input and one output that holds that value
/// from then on, whatever later happens to the cell.
#[verifier::external_body]
pub(crate) fn constant_net(value: &Shared) -> (r: Network)
    ensures
        r@ == (Shape { inputs: 0, outputs: 1, backed: false }),
{
    let net = Net::wrap(Box::new(fundsp::hacker32::constant(value.value())));
    Network { inputs: net.inputs(), outputs: net.outputs(), backed: net.has_backend(), net }
}

/// Relies on `Net::sum`: `a + b`, taking the inputs of both and the common
/// output count. It panics when the output counts differ or when both
/// operands carry a frontend; the result has a backend only if an operand had one.
#[verifier::external_body]
pub(crate) fn sum_nets(a: Network, b: Network) -> (r: Network)
    requires
        !a@.backed,
        !b@.backed,
        a@.outputs == b@.outputs,
    ensures
        !r@.backed,
        r@.inputs == a@.inputs + b@.inputs,
        r@.outputs == a@.outputs,
{
    let net = Net::sum(a.net, b.net);
    Network { inputs: net.inputs(), outputs: net.outputs(), backed: net.has_backend(), net }
}

/// Relies on `Net::product`: `a * b`, taking the inputs of both and the common
/// output count. It panics when the output counts differ or when both
/// operands carry a frontend; the result has a backend only if an operand had one.
#[verifier::external_body]
pub(crate) fn product_nets(a: Network, b: Network) -> (r: Network)
    requires
        !a@.backed,
        !b@.backed,
        a@.outputs == b@.outputs,
    ensures
        !r@.backed,
        r@.inputs == a@.inputs + b@.inputs,
        r@.outputs == a@.outputs,
{
    let net = Net::product(a.net, b.net);
    Network { inputs: net.inputs(), outputs: net.outputs(), backed: net.has_backend(), net }
}

/// Relies on `Net::bus`: `a & b`, both fed the same inputs and their outputs
/// summed. It panics unless both counts agree, or when both operands carry a
/// frontend; the result has a backend only if an operand had one.
#[verifier::external_body]
pub(crate) fn bus_nets(a: Network, b: Network) -> (r: Network)
    requires
        !a@.backed,
        !b@.backed,
        a@.inputs == b@.inputs,
        a@.outputs == b@.outputs,
    ensures
        !r@.backed,
        r@.inputs == a@.inputs,
        r@.outputs == a@.outputs,
{
    let net = Net::bus(a.net, b.net);
    Network { inputs: net.inputs(), outputs: net.outputs(), backed: net.has_backend(), net }
}

/// Relies on `Net::pipe`: `a >> b`, with the inputs of `a` and the outputs of
/// `b`. It panics unless `a` has as many outputs as `b` has inputs, or when
/// both operands carry a frontend; the result has a backend only if an operand had one.
#[verifier::external_body]
pub(crate) fn pipe_nets(a: Network, b: Network) -> (r: Network)
    requires
        !a@.backed,
        !b@.backed,
        a@.outputs == b@.inputs,
    ensures
        !r@.backed,
        r@.inputs == a@.inputs,
        r@.outputs == b@.outputs,
{
    let net = Net::pipe(a.net, b.net);
    Network { inputs: net.inputs(), outputs: net.outputs(), backed: net.has_backend(), net }
}

/// Relies on `Net::chain`: the unit is added at the end of the network, which
/// keeps the input and output counts it was built with; returns the unit's id.
#[verifier::external_body]
pub(crate) fn chain_net(target: &mut Network, unit: Network) -> (r: NodeId)
    ensures
        final(target)@ == old(target)@,
{
    target.net.chain(Box::new(unit.net))
}

/// Relies on `fundsp::hacker32::shared` fed with `Shared::value` of `from`: a
/// new cell, distinct from `from`, that starts with the value `from` holds.
#[verifier::external_body]
pub(crate) fn new_cell(from: &Shared) -> Shared {
    shared(from.value())
}

/// Relies on `Shared::set` fed with `Shared::value` of `from`: every reader of
/// `target`, a network tap included, sees the value `from` holds.
#[verifier::external_body]
pub(crate) fn assign_cell(target: &Shared, from: &Shared) {
    target.set(from.value())
}

/// Whether `str::parse` accepts the text as fundsp's sample type, a 32-bit float.
pub uninterp spec fn float_text(s: Seq<char>) -> bool;

/// Relies on `str::parse` into fundsp's sample type, then `fundsp::hacker32::shared`:
/// a new cell holding the parsed value exactly when the text parses.
#[verifier::external_body]
pub(crate) fn parse_cell(text: &str) -> (r: Option<Shared>)
    ensures
        r.is_some() == float_text(text@),
{
    text.parse().ok().map(shared)
}

/// Relies on `Shared::value` and the float's `to_string`: the value the cell
/// holds now, in Rust's shortest decimal form. The text depends on what other
/// writers have stored, so nothing is promised about it.
#[verifier::external_body]
pub(crate) fn cell_text(cell: &Shared) -> String {
    cell.value().to_string()
}

/// The built-in oscillators, each preloaded into every arena at a fixed handle.
#[derive(Clone, Copy, Debug, PartialEq, Eq, Structural)]
pub enum NodeType {
    Hammond,
    Organ,
    Saw,
    Sine,
    SoftSaw,
    Square,
    Triangle,
}

/// Number of built-in oscillators.
pub const DEFAULTS_SIZE: usize = 7;

/// The oscillator preloaded at handle `i`.
pub open spec fn default_at(i: int) -> NodeType {
    if i == 0 {
        NodeType::Hammond
    } else if i == 1 {
        NodeType::Organ
    } else if i == 2 {
        NodeType::Saw
    } else if i == 3 {
        NodeType::Sine
    } else if i == 4 {
        NodeType::SoftSaw
    } else if i == 5 {
        NodeType::Square
    } else {
        NodeType::Triangle
    }
}

/// The oscillator a script names.
pub open spec fn oscillator_named(name: Seq<char>) -> Option<NodeType> {
    if name == "hammond"@ {
        Some(NodeType::Hammond)
    } else if name == "organ"@ {
        Some(NodeType::Organ)
    } else if name == "saw"@ {
        Some(NodeType::Saw)
    } else if name == "sine"@ {
        Some(NodeType::Sine)
    } else if name == "softsaw"@ {
        Some(NodeType::SoftSaw)
    } else if name == "square"@ {
        Some(NodeType::Square)
    } else if name == "triangle"@ {
        Some(NodeType::Triangle)
    } else {
        None
    }
}

/// Shape of every built-in oscillator: a frequency input and one output.
pub open spec fn oscillator_shape() -> Shape {
    Shape { inputs: 1, outputs: 1, backed: false }
}

impl NodeType {
    /// The fixed handle of this oscillator in every arena.
    pub open spec fn index(self) -> nat {
        match self {
            NodeType::Hammond => 0,
            NodeType::Organ => 1,
            NodeType::Saw => 2,
            NodeType::Sine => 3,
            NodeType::SoftSaw => 4,
            NodeType::Square => 5,
            NodeType::Triangle => 6,
        }
    }

    /// A fresh network holding this oscillator alone.
    pub fn as_unit(&self) -> (r: Network)
        ensures
            r@ == oscillator_shape(),
    {
        match self {
            NodeType::Hammond => hammond_net(),
            NodeType::Organ => organ_net(),
            NodeType::Saw => saw_net(),
            NodeType::Sine => sine_net(),
            NodeType::SoftSaw => soft_saw_net(),
            NodeType::Square => square_net(),
            NodeType::Triangle => triangle_net(),
        }
    }

    /// The handle at which every arena holds this oscillator.
    pub fn as_net_id(&self) -> (r: Option<usize>)
        ensures
            r == Some(self.index() as usize),
            self.index() < DEFAULTS_SIZE,
            default_at(self.index() as int) == *self,
    {
        match self {
            NodeType::Hammond => Some(0),
            NodeType::Organ => Some(1),
            NodeType::Saw => Some(2),
            NodeType::Sine => Some(3),
            NodeType::SoftSaw => Some(4),
            NodeType::Square => Some(5),
            NodeType::Triangle => Some(6),
        }
    }

    /// One network per built-in oscillator, in handle order.
    pub fn get_defaults() -> (r: Vec<Network>)
        ensures
            r.len() == DEFAULTS_SIZE,
            forall|i: int| 0 <= i < r.len() ==> #[trigger] r[i]@ == oscillator_shape(),
    {
        let mut r: Vec<Network> = Vec::new();
        r.push(NodeType::Hammond.as_unit());
        r.push(NodeType::Organ.as_unit());
        r.push(NodeType::Saw.as_unit());
        r.push(NodeType::Sine.as_unit());
        r.push(NodeType::SoftSaw.as_unit());
        r.push(NodeType::Square.as_unit());
        r.push(NodeType::Triangle.as_unit());
        r
    }

    /// The oscillator a script names: `hammond`, `organ`, `saw`, `sine`,
    /// `softsaw`, `square` or `triangle`.
    pub fn from_name(name: &String) -> (r: Option<NodeType>)
        ensures
            r == oscillator_named(name@),
    {
        if *name == String::from_str("hammond") {
            Some(NodeType::Hammond)
        } else if *name == String::from_str("organ") {
            Some(NodeType::Organ)
        } else if *name == String::from_str("saw") {
            Some(NodeType::Saw)
        } else if *name == String::from_str("sine") {
            Some(NodeType::Sine)
        } else if *name == String::from_str("softsaw") {
            Some(NodeType::SoftSaw)
        } else if *name == String::from_str("square") {
            Some(NodeType::Square)
        } else if *name == String::from_str("triangle") {
            Some(NodeType::Triangle)
        } else {
            None
        }
    }

    /// Number of networks `get_defaults` returns.
    pub fn get_defaults_size() -> (r: usize)
        ensures
            r == DEFAULTS_SIZE,
    {
        DEFAULTS_SIZE
    }
}

impl Network {
    /// An empty network with the given numbers of inputs and outputs.
    pub fn new(inputs: usize, outputs: usize) -> (r: Network)
        ensures
            r@ == (Shape { inputs: inputs as nat, outputs: outputs as nat, backed: false }),
    {
        empty_net(inputs, outputs)
    }

    pub fn inputs(&self) -> (r: usize)
        ensures
            r == self@.inputs,
    {
        self.inputs
    }

    pub fn outputs(&self) -> (r: usize)
        ensures
            r == self@.outputs,
    {
        self.outputs
    }

    /// The fundsp network itself, for handing to a renderer.
    pub fn into_net(self) -> Net {
        self.net
    }

    pub fn has_backend(&self) -> (r: bool)
        ensures
            r == self@.backed,
    {
        self.backed
    }
}

} // verus!
