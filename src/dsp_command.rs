//! The graph engine's commands: `shared_exists;<name>`, `shared_set;<name>;<value>`,
//! `shared_get;<name>`, `shared_get_net;<name>`, `net_exists;<handle>`,
//! `net_clone;<handle>`, `net_constant;<value>`, `net_vector_length`,
//! `net_default;<oscillator>`, `net_product;<a>;<b>`, `net_bus;<a>;<b>`,
//! `net_pipe;<a>;<b>` and `net_commit;<handle>`.

use crate::graph::{
    after_set, appended, bus_of, issued, live, pipe_of, product_of, DspModule, Form,
    Slot,
};
use crate::network::{cell_text, float_text, oscillator_named, parse_cell, NodeType, Shape};
use crate::protocol::{
    bool_reply, bool_text, decimal, decimal_text, nil_reply, parse_index, parsed_index,
    split_tokens, token_is, tokens_of, CommandError,
};
use vstd::prelude::*;
use vstd::string::*;

verus! {

/// A graph-engine command, in the terms the contracts use.
pub enum DspOp {
    SharedExists(Seq<char>),
    SharedSet(Seq<char>, Seq<char>),
    SharedGet(Seq<char>),
    SharedGetNet(Seq<char>),
    NetExists(nat),
    NetClone(nat),
    NetConstant(Seq<char>),
    NetVectorLength,
    NetDefault(Seq<char>),
    NetProduct(nat, nat),
    NetBus(nat, nat),
    NetPipe(nat, nat),
    NetCommit(nat),
}

/// Token `i`, which must be there.
pub open spec fn text_arg(t: Seq<Seq<char>>, i: int) -> Result<Seq<char>, CommandError> {
    if i < t.len() {
        Ok(t[i])
    } else {
        Err(CommandError::MissingArgument)
    }
}

/// Token `i` read as a handle; it must be there and be one.
pub open spec fn index_arg(t: Seq<Seq<char>>, i: int) -> Result<nat, CommandError> {
    if i < t.len() {
        match parsed_index(t[i]) {
            Some(v) => Ok(v as nat),
            None => Err(CommandError::BadNumber),
        }
    } else {
        Err(CommandError::MissingArgument)
    }
}

pub open spec fn name_op(t: Seq<Seq<char>>, f: spec_fn(Seq<char>) -> DspOp) -> Result<DspOp, CommandError> {
    match text_arg(t, 1) {
        Ok(n) => Ok(f(n)),
        Err(e) => Err(e),
    }
}

pub open spec fn handle_op(t: Seq<Seq<char>>, f: spec_fn(nat) -> DspOp) -> Result<DspOp, CommandError> {
    match index_arg(t, 1) {
        Ok(h) => Ok(f(h)),
        Err(e) => Err(e),
    }
}

pub open spec fn pair_op(t: Seq<Seq<char>>, f: spec_fn(nat, nat) -> DspOp) -> Result<DspOp, CommandError> {
    match index_arg(t, 1) {
        Ok(a) => match index_arg(t, 2) {
            Ok(b) => Ok(f(a, b)),
            Err(e) => Err(e),
        },
        Err(e) => Err(e),
    }
}

/// The operation a token list asks for: a flat match on the first token.
pub open spec fn dsp_op(t: Seq<Seq<char>>) -> Result<DspOp, CommandError> {
    let op = t[0];
    if op == "shared_exists"@ {
        name_op(t, |n| DspOp::SharedExists(n))
    } else if op == "shared_set"@ {
        match text_arg(t, 1) {
            Ok(n) => match text_arg(t, 2) {
                Ok(v) => Ok(DspOp::SharedSet(n, v)),
                Err(e) => Err(e),
            },
            Err(e) => Err(e),
        }
    } else if op == "shared_get"@ {
        name_op(t, |n| DspOp::SharedGet(n))
    } else if op == "shared_get_net"@ {
        name_op(t, |n| DspOp::SharedGetNet(n))
    } else if op == "net_exists"@ {
        handle_op(t, |h| DspOp::NetExists(h))
    } else if op == "net_clone"@ {
        handle_op(t, |h| DspOp::NetClone(h))
    } else if op == "net_constant"@ {
        name_op(t, |v| DspOp::NetConstant(v))
    } else if op == "net_vector_length"@ {
        Ok(DspOp::NetVectorLength)
    } else if op == "net_default"@ {
        name_op(t, |n| DspOp::NetDefault(n))
    } else if op == "net_product"@ {
        pair_op(t, |a, b| DspOp::NetProduct(a, b))
    } else if op == "net_bus"@ {
        pair_op(t, |a, b| DspOp::NetBus(a, b))
    } else if op == "net_pipe"@ {
        pair_op(t, |a, b| DspOp::NetPipe(a, b))
    } else if op == "net_commit"@ {
        handle_op(t, |h| DspOp::NetCommit(h))
    } else {
        Err(CommandError::UnknownCommand)
    }
}

/// Whether the operation carries a value that is not a float.
pub open spec fn bad_value(op: DspOp) -> bool {
    match op {
        DspOp::SharedSet(_, v) => !float_text(v),
        DspOp::NetConstant(v) => !float_text(v),
        _ => false,
    }
}

/// The reply for a combinator's result.
pub open spec fn handle_text(h: Option<usize>) -> Seq<char> {
    match h {
        Some(v) => decimal(v as nat),
        None => "nil"@,
    }
}

/// The slot `net_constant` appends.
pub open spec fn constant_slot() -> Slot {
    Slot { shape: Shape { inputs: 0, outputs: 1, backed: false }, form: Form::Constant }
}

/// The arena and parameter handles after `op`, and its reply. The reply is
/// `None` only for the value of a known parameter, whose text depends on
/// what was last stored in its cell.
pub open spec fn dsp_outcome(slots: Seq<Slot>, handles: Map<Seq<char>, nat>, op: DspOp) -> (
    Seq<Slot>,
    Map<Seq<char>, nat>,
    Option<Seq<char>>,
) {
    match op {
        DspOp::SharedExists(n) => (slots, handles, Some(bool_text(handles.contains_key(n)))),
        DspOp::SharedSet(n, _) => {
            let (s, h, r) = after_set(slots, handles, n);
            (s, h, Some(decimal(r)))
        },
        DspOp::SharedGet(n) => (
            slots,
            handles,
            if handles.contains_key(n) {
                None
            } else {
                Some("nil"@)
            },
        ),
        DspOp::SharedGetNet(n) => (
            slots,
            handles,
            Some(
                if handles.contains_key(n) {
                    decimal(handles[n])
                } else {
                    "nil"@
                },
            ),
        ),
        DspOp::NetExists(h) => (slots, handles, Some(bool_text(live(slots, h as int)))),
        DspOp::NetClone(h) => if live(slots, h as int) {
            (slots.push(slots[h as int]), handles, Some(decimal(slots.len())))
        } else {
            (slots, handles, Some("nil"@))
        },
        DspOp::NetConstant(_) => (slots.push(constant_slot()), handles, Some(decimal(slots.len()))),
        DspOp::NetVectorLength => (slots, handles, Some(decimal(slots.len()))),
        DspOp::NetDefault(n) => (
            slots,
            handles,
            Some(
                match oscillator_named(n) {
                    Some(k) => decimal(k.index()),
                    None => "nil"@,
                },
            ),
        ),
        DspOp::NetProduct(a, b) => {
            let r = product_of(slots, a as int, b as int);
            (appended(slots, r), handles, Some(handle_text(issued(slots, r))))
        },
        DspOp::NetBus(a, b) => {
            let r = bus_of(slots, a as int, b as int);
            (appended(slots, r), handles, Some(handle_text(issued(slots, r))))
        },
        DspOp::NetPipe(a, b) => {
            let r = pipe_of(slots, a as int, b as int);
            (appended(slots, r), handles, Some(handle_text(issued(slots, r))))
        },
        DspOp::NetCommit(_) => (slots, handles, Some("nil"@)),
    }
}

fn text_at(t: &Vec<String>, i: usize) -> (r: Result<&String, CommandError>)
    ensures
        match text_arg(t@.map_values(|s: String| s@), i as int) {
            Ok(v) => r is Ok && r.unwrap()@ == v,
            Err(e) => r == Err::<&String, CommandError>(e),
        },
{
    if i < t.len() {
        Ok(&t[i])
    } else {
        Err(CommandError::MissingArgument)
    }
}

fn index_at(t: &Vec<String>, i: usize) -> (r: Result<usize, CommandError>)
    ensures
        match index_arg(t@.map_values(|s: String| s@), i as int) {
            Ok(v) => r == Ok::<usize, CommandError>(v as usize),
            Err(e) => r == Err::<usize, CommandError>(e),
        },
{
    if i < t.len() {
        match parse_index(t[i].as_str()) {
            Some(v) => Ok(v),
            None => Err(CommandError::BadNumber),
        }
    } else {
        Err(CommandError::MissingArgument)
    }
}

fn handle_reply(h: Option<usize>) -> (r: String)
    ensures
        r@ == handle_text(h),
{
    match h {
        Some(v) => decimal_text(v),
        None => nil_reply(),
    }
}

impl DspModule {
    /// The name under which the engine's commands are addressed.
    pub fn get_command_name(&self) -> (r: String)
        ensures
            r@ == "dsp"@,
    {
        String::from_str("dsp")
    }

    /// Runs one command and returns its reply. A malformed command changes
    /// nothing and is reported as an error.
    pub fn command(&mut self, arg: &str) -> (r: Result<String, CommandError>)
        requires
            old(self).inv(),
        ensures
            final(self).inv(),
            match dsp_op(tokens_of(arg@)) {
                Err(e) => {
                    &&& r == Err::<String, CommandError>(e)
                    &&& final(self).slots() == old(self).slots()
                    &&& final(self).handles() == old(self).handles()
                },
                Ok(op) => if bad_value(op) {
                    &&& r == Err::<String, CommandError>(CommandError::BadNumber)
                    &&& final(self).slots() == old(self).slots()
                    &&& final(self).handles() == old(self).handles()
                } else {
                    let (s, h, reply) = dsp_outcome(old(self).slots(), old(self).handles(), op);
                    &&& r is Ok
                    &&& final(self).slots() == s
                    &&& final(self).handles() == h
                    &&& reply is Some ==> r.unwrap()@ == reply.unwrap()
                },
            },
    {
        let t = split_tokens(arg);
        let ghost tv = t@.map_values(|s: String| s@);
        proof {
            crate::protocol::lemma_split_nonempty(arg@, ';');
            self.lemma_len_fits();
        }
        let op = &t[0];
        assert(op@ == tv[0]);
        if token_is(op, "shared_exists") {
            let name = text_at(&t, 1)?;
            Ok(bool_reply(self.shared_exists(name)))
        } else if token_is(op, "shared_set") {
            let name = text_at(&t, 1)?;
            let value = text_at(&t, 2)?;
            match parse_cell(value.as_str()) {
                Some(cell) => Ok(decimal_text(self.shared_set(name, &cell))),
                None => Err(CommandError::BadNumber),
            }
        } else if token_is(op, "shared_get") {
            let name = text_at(&t, 1)?;
            match self.shared_get(name) {
                Some(cell) => Ok(cell_text(cell)),
                None => Ok(nil_reply()),
            }
        } else if token_is(op, "shared_get_net") {
            let name = text_at(&t, 1)?;
            match self.shared_get_net(name) {
                Some(h) => Ok(decimal_text(h)),
                None => Ok(nil_reply()),
            }
        } else if token_is(op, "net_exists") {
            let h = index_at(&t, 1)?;
            Ok(bool_reply(self.net_exists(h)))
        } else if token_is(op, "net_clone") {
            let h = index_at(&t, 1)?;
            Ok(handle_reply(self.net_clone(h)))
        } else if token_is(op, "net_constant") {
            let value = text_at(&t, 1)?;
            match parse_cell(value.as_str()) {
                Some(cell) => Ok(decimal_text(self.net_constant(&cell))),
                None => Err(CommandError::BadNumber),
            }
        } else if token_is(op, "net_vector_length") {
            Ok(decimal_text(self.net_vector_length()))
        } else if token_is(op, "net_default") {
            let name = text_at(&t, 1)?;
            match NodeType::from_name(name) {
                Some(k) => {
                    let h = k.as_net_id();
                    Ok(handle_reply(h))
                },
                None => Ok(nil_reply()),
            }
        } else if token_is(op, "net_product") {
            let a = index_at(&t, 1)?;
            let b = index_at(&t, 2)?;
            Ok(handle_reply(self.net_product(a, b)))
        } else if token_is(op, "net_bus") {
            let a = index_at(&t, 1)?;
            let b = index_at(&t, 2)?;
            Ok(handle_reply(self.net_bus(a, b)))
        } else if token_is(op, "net_pipe") {
            let a = index_at(&t, 1)?;
            let b = index_at(&t, 2)?;
            Ok(handle_reply(self.net_pipe(a, b)))
        } else if token_is(op, "net_commit") {
            let h = index_at(&t, 1)?;
            self.net_commit(h);
            Ok(nil_reply())
        } else {
            Err(CommandError::UnknownCommand)
        }
    }
}

} // verus!
