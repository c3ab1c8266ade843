//! The audio module: routes `dsp;...` commands to the graph engine it owns and
//! answers `audio;play;<handle>;<duration>` and `audio;stop;<event>`.
//!
//! Scheduling a note on fundsp's sequencer and releasing it are left to the
//! caller, which holds the sequencer and the output stream: `command` says
//! which network to play or which event to release, and `record_event` files
//! the sequencer's id under the text the script receives.

use crate::dsp_command::{bad_value, dsp_op, dsp_outcome, index_arg, text_arg};
use crate::graph::{live, DspModule, Slot};
use crate::network::{pipe_nets, Network, Shape};
use crate::protocol::{
    decimal, decimal_text, parse_index, parsed_index, split_tokens, token_is, tokens_of,
    CommandError,
};
use fundsp::sequencer::EventId;
use vstd::prelude::*;
use vstd::string::*;

verus! {

#[verifier::external_type_specification]
#[verifier::external_body]
pub struct ExEventId(EventId);

/// An `audio;...` command, in the terms the contracts use.
pub enum AudioOp {
    Play(nat, Seq<char>),
    Stop(Seq<char>),
}

/// The operation an `audio;...` token list asks for (the prefix removed).
pub open spec fn audio_op(t: Seq<Seq<char>>) -> Result<AudioOp, CommandError> {
    if t[0] == "play"@ {
        match index_arg(t, 1) {
            Ok(h) => match text_arg(t, 2) {
                Ok(d) => Ok(AudioOp::Play(h, d)),
                Err(e) => Err(e),
            },
            Err(e) => Err(e),
        }
    } else if t[0] == "stop"@ {
        match text_arg(t, 1) {
            Ok(e) => Ok(AudioOp::Stop(e)),
            Err(e) => Err(e),
        }
    } else {
        Err(CommandError::UnknownCommand)
    }
}

/// Which of the two modules a command is for, and what follows its prefix.
pub enum Route {
    Dsp(Seq<char>),
    Audio(Seq<char>),
}

/// A command's first token names the module; the rest is forwarded as it is.
pub open spec fn route(s: Seq<char>) -> Result<Route, CommandError> {
    let head = tokens_of(s)[0];
    if head == "dsp"@ {
        if s.len() > 3 {
            Ok(Route::Dsp(s.subrange(4, s.len() as int)))
        } else {
            Err(CommandError::MissingArgument)
        }
    } else if head == "audio"@ {
        if s.len() > 5 {
            Ok(Route::Audio(s.subrange(6, s.len() as int)))
        } else {
            Err(CommandError::MissingArgument)
        }
    } else {
        Err(CommandError::UnknownCommand)
    }
}

/// The event filed under the text `e`, if any: event ids are the decimal
/// positions of the events in the table.
pub open spec fn event_named(events: Seq<EventId>, e: Seq<char>) -> Option<EventId> {
    match parsed_index(e) {
        Some(i) => if i < events.len() {
            Some(events[i as int])
        } else {
            None
        },
        None => None,
    }
}

/// Whether the network at `h` can be played: the sequencer renders one
/// channel, so it must have exactly one output. Its inputs, if any, are held
/// at zero while it plays.
pub open spec fn playable(slots: Seq<Slot>, h: int) -> bool {
    live(slots, h) && slots[h].shape.outputs == 1
}

/// What the caller must do to finish a command.
pub enum AudioAction {
    /// Nothing: send this reply back.
    Reply(String),
    /// Schedule `network` (which has no input and one output) for `duration`
    /// seconds (decimal text) with short fades, file the event with
    /// `record_event`, and reply with its text.
    Play(Network, String),
    /// Release this event with a short fade, and reply `true`.
    Release(EventId),
}

/// The audio module: the graph engine and the table of events played so far.
pub struct AudioModule {
    dsp: DspModule,
    events: Vec<EventId>,
}

impl AudioModule {
    /// Events in the order they were filed.
    pub closed spec fn events(&self) -> Seq<EventId> {
        self.events@
    }

    /// The graph engine the module owns.
    pub closed spec fn engine(&self) -> DspModule {
        self.dsp
    }

    pub closed spec fn inv(&self) -> bool {
        self.dsp.inv()
    }

    /// A module with a fresh graph engine and no events.
    pub fn new() -> (r: AudioModule)
        ensures
            r.inv(),
            r.engine().slots() == crate::graph::initial_slots(),
            r.engine().handles().is_empty(),
            r.events() == Seq::<EventId>::empty(),
    {
        AudioModule { dsp: DspModule::new(), events: Vec::new() }
    }

    /// The graph engine.
    pub fn dsp(&self) -> (r: &DspModule)
        ensures
            *r == self.engine(),
    {
        &self.dsp
    }

    /// The name scripts call the module's command entry point by.
    pub fn get_command_name(&self) -> (r: String)
        ensures
            r@ == "_audio_command_handler"@,
    {
        String::from_str("_audio_command_handler")
    }

    /// Files the sequencer's id of a note just scheduled, and returns the text
    /// the script will use to name it.
    pub fn record_event(&mut self, id: EventId) -> (r: String)
        requires
            old(self).inv(),
        ensures
            final(self).inv(),
            final(self).engine() == old(self).engine(),
            final(self).events() == old(self).events().push(id),
            r@ == decimal(old(self).events().len()),
    {
        let n = self.events.len();
        self.events.push(id);
        decimal_text(n)
    }

    /// The event filed under `e`, if any.
    pub fn lookup_event(&self, e: &String) -> (r: Option<EventId>)
        ensures
            r == event_named(self.events(), e@),
    {
        match parse_index(e.as_str()) {
            Some(i) => if i < self.events.len() {
                Some(self.events[i])
            } else {
                None
            },
            None => None,
        }
    }

    /// Runs one command. `dsp;...` goes to the graph engine with its prefix
    /// removed; `audio;play` and `audio;stop` are decided here and finished by
    /// the caller as the returned action says.
    pub fn command(&mut self, arg: &str) -> (r: Result<AudioAction, CommandError>)
        requires
            old(self).inv(),
        ensures
            final(self).inv(),
            final(self).events() == old(self).events(),
            match route(arg@) {
                Err(e) => r == Err::<AudioAction, CommandError>(e) && final(self).engine() == old(self).engine(),
                Ok(Route::Dsp(rest)) => match dsp_op(tokens_of(rest)) {
                    Err(e) => {
                        &&& r == Err::<AudioAction, CommandError>(e)
                        &&& final(self).engine().slots() == old(self).engine().slots()
                        &&& final(self).engine().handles() == old(self).engine().handles()
                    },
                    Ok(op) => if bad_value(op) {
                        &&& r == Err::<AudioAction, CommandError>(CommandError::BadNumber)
                        &&& final(self).engine().slots() == old(self).engine().slots()
                        &&& final(self).engine().handles() == old(self).engine().handles()
                    } else {
                        let (s, h, reply) = dsp_outcome(
                            old(self).engine().slots(),
                            old(self).engine().handles(),
                            op,
                        );
                        &&& r matches Ok(AudioAction::Reply(t))
                        &&& final(self).engine().slots() == s
                        &&& final(self).engine().handles() == h
                        &&& reply is Some ==> r->Ok_0->Reply_0@ == reply.unwrap()
                    },
                },
                Ok(Route::Audio(rest)) => final(self).engine() == old(self).engine() && match audio_op(
                    tokens_of(rest),
                ) {
                    Err(e) => r == Err::<AudioAction, CommandError>(e),
                    Ok(AudioOp::Play(h, d)) => if playable(old(self).engine().slots(), h as int) {
                        &&& r matches Ok(AudioAction::Play(n, text))
                        &&& n@ == (Shape { inputs: 0, outputs: 1, backed: false })
                        &&& text@ == d
                    } else {
                        r matches Ok(AudioAction::Reply(t)) && t@ == "nil"@
                    },
                    Ok(AudioOp::Stop(e)) => match event_named(old(self).events(), e) {
                        Some(id) => r matches Ok(AudioAction::Release(x)) && x == id,
                        None => r matches Ok(AudioAction::Reply(t)) && t@ == "false"@,
                    },
                },
            },
    {
        let head = split_tokens(arg);
        proof {
            crate::protocol::lemma_split_nonempty(arg@, ';');
        }
        let n = arg.unicode_len();
        if token_is(&head[0], "dsp") {
            if n <= 3 {
                return Err(CommandError::MissingArgument);
            }
            let rest = arg.substring_char(4, n);
            match self.dsp.command(rest) {
                Ok(reply) => Ok(AudioAction::Reply(reply)),
                Err(e) => Err(e),
            }
        } else if token_is(&head[0], "audio") {
            if n <= 5 {
                return Err(CommandError::MissingArgument);
            }
            let rest = arg.substring_char(6, n);
            let t = split_tokens(rest);
            proof {
                crate::protocol::lemma_split_nonempty(rest@, ';');
            }
            if token_is(&t[0], "play") {
                let h = if t.len() > 1 {
                    match parse_index(t[1].as_str()) {
                        Some(v) => v,
                        None => return Err(CommandError::BadNumber),
                    }
                } else {
                    return Err(CommandError::MissingArgument);
                };
                if t.len() <= 2 {
                    return Err(CommandError::MissingArgument);
                }
                match self.dsp.get_net(h) {
                    Some(net) => if net.outputs() == 1 {
                        let silence = Network::new(0, net.inputs());
                        let fed = pipe_nets(silence, net);
                        Ok(AudioAction::Play(fed, t[2].clone()))
                    } else {
                        Ok(AudioAction::Reply(String::from_str("nil")))
                    },
                    None => Ok(AudioAction::Reply(String::from_str("nil"))),
                }
            } else if token_is(&t[0], "stop") {
                if t.len() <= 1 {
                    return Err(CommandError::MissingArgument);
                }
                match self.lookup_event(&t[1]) {
                    Some(id) => Ok(AudioAction::Release(id)),
                    None => Ok(AudioAction::Reply(String::from_str("false"))),
                }
            } else {
                Err(CommandError::UnknownCommand)
            }
        } else {
            Err(CommandError::UnknownCommand)
        }
    }
}

/// The text `record_event` hands out names the event it filed: stopping by
/// that text finds exactly that event.
pub proof fn law_recorded_event_is_found(events: Seq<EventId>, id: EventId)
    requires
        events.len() <= usize::MAX,
    ensures
        event_named(events.push(id), decimal(events.len())) == Some(id),
{
    crate::protocol::lemma_decimal_round_trip(events.len());
}

} // verus!
