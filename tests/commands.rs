use fundsp::hacker32::{shared, Fade, Sequencer};
use octmm::audio::{AudioAction, AudioModule};
use octmm::graph::DspModule;
use octmm::network::NodeType;
use octmm::protocol::{decimal_text, parse_index, split_tokens, CommandError};

fn reply(module: &mut AudioModule, arg: &str) -> String {
    match module.command(arg).expect("Error using command function") {
        AudioAction::Reply(text) => text,
        _ => panic!("expected a reply"),
    }
}

#[test]
fn mod_test_shared_commands() {
    let mut module = AudioModule::new();
    let r1 = reply(&mut module, "dsp;shared_exists;test");
    let r2 = reply(&mut module, "dsp;shared_set;test;1.2");
    let r3 = reply(&mut module, "dsp;shared_exists;test");
    let r4 = reply(&mut module, "dsp;shared_get;test");
    let r5 = reply(&mut module, "dsp;shared_get_net;test");

    assert_eq!(r1, "false");
    assert_eq!(r2, NodeType::get_defaults().len().to_string());
    assert_eq!(r3, "true");
    assert_eq!(r4, "1.2");
    assert_eq!(r5, NodeType::get_defaults().len().to_string());
}

#[test]
fn mod_test_net_management_commands() {
    let mut module = AudioModule::new();
    let r1 = reply(&mut module, "dsp;net_vector_length");
    let r2 = reply(&mut module, &("dsp;net_exists;".to_string() + &r1));
    let r3 = reply(&mut module, "dsp;net_constant;3.3");
    let r4 = reply(&mut module, &("dsp;net_exists;".to_string() + &r1));
    let r5 = reply(&mut module, "dsp;net_clone;0");

    assert_eq!(r1, NodeType::get_defaults().len().to_string());
    assert_eq!(r2, "false");
    assert_eq!(r3, NodeType::get_defaults().len().to_string());
    assert_eq!(r4, "true");
    assert_eq!(r5, (NodeType::get_defaults().len() + 1).to_string());
}

#[test]
fn mod_test_net_proxy_commands() {
    let mut module = AudioModule::new();
    let r1 = reply(&mut module, "dsp;net_default;hammond");
    let r2 = reply(&mut module, "dsp;net_default;organ");
    let r3 = reply(&mut module, "dsp;net_default;saw");
    let r4 = reply(&mut module, "dsp;net_default;sine");
    let r5 = reply(&mut module, "dsp;net_default;softsaw");
    let r6 = reply(&mut module, "dsp;net_default;square");
    let r7 = reply(&mut module, "dsp;net_default;triangle");
    let r8 = reply(&mut module, "dsp;net_default;badinput");

    assert_eq!(r1, NodeType::Hammond.as_net_id().unwrap().to_string());
    assert_eq!(r2, NodeType::Organ.as_net_id().unwrap().to_string());
    assert_eq!(r3, NodeType::Saw.as_net_id().unwrap().to_string());
    assert_eq!(r4, NodeType::Sine.as_net_id().unwrap().to_string());
    assert_eq!(r5, NodeType::SoftSaw.as_net_id().unwrap().to_string());
    assert_eq!(r6, NodeType::Square.as_net_id().unwrap().to_string());
    assert_eq!(r7, NodeType::Triangle.as_net_id().unwrap().to_string());
    assert_eq!(r8, "nil".to_string());

    let constant = reply(&mut module, "dsp;net_constant;2.0");
    let r1 = reply(&mut module, &("dsp;net_product;0;".to_string() + &constant));
    let r2 = reply(&mut module, "dsp;net_bus;1;2");
    let r3 = reply(&mut module, "dsp;net_pipe;1;2");
    let r4 = reply(&mut module, "dsp;net_product;1;2");
    let r5 = reply(&mut module, "dsp;net_bus;1;100");
    let r6 = reply(&mut module, "dsp;net_pipe;1;100");

    assert_eq!(r1, (NodeType::get_defaults().len() + 1).to_string());
    assert_eq!(r2, (NodeType::get_defaults().len() + 2).to_string());
    assert_eq!(r3, (NodeType::get_defaults().len() + 3).to_string());
    assert_eq!(r4, "nil".to_string());
    assert_eq!(r5, "nil".to_string());
    assert_eq!(r6, "nil".to_string());
}

#[test]
fn play_then_stop() {
    let mut module = AudioModule::new();
    let mut sequencer = Sequencer::new(false, 1);
    let sine = reply(&mut module, "dsp;net_default;sine");
    let event = match module.command(&("audio;play;".to_string() + &sine + ";1.0")).unwrap() {
        AudioAction::Play(network, duration) => {
            assert_eq!(duration, "1.0");
            assert_eq!((network.inputs(), network.outputs()), (0, 1));
            let seconds: f64 = duration.parse().unwrap();
            let id = sequencer.push_relative(0.0, seconds, Fade::Smooth, 0.01, 0.01, Box::new(network.into_net()));
            module.record_event(id)
        }
        _ => panic!("expected a note to play"),
    };
    assert_eq!(event, "0");
    match module.command(&("audio;stop;".to_string() + &event)).unwrap() {
        AudioAction::Release(id) => sequencer.edit_relative(id, 0.01, 0.01),
        _ => panic!("expected a release"),
    }
    assert_eq!(reply(&mut module, "audio;stop;not-an-id"), "false");
    assert_eq!(reply(&mut module, "audio;stop;7"), "false");
    assert_eq!(reply(&mut module, "audio;play;900;1.0"), "nil");
    let wide = module.dsp().net_vector_length();
    assert_eq!(reply(&mut module, "dsp;net_constant;1.0"), wide.to_string());
    assert_eq!(reply(&mut module, &format!("dsp;net_bus;{};{}", wide, wide)), (wide + 1).to_string());
    assert!(matches!(module.command(&format!("audio;play;{};0.5", wide + 1)).unwrap(), AudioAction::Play(..)));
}

#[test]
fn malformed_commands_are_errors() {
    let mut module = AudioModule::new();
    assert_eq!(module.command("video;x").err(), Some(CommandError::UnknownCommand));
    assert_eq!(module.command("dsp").err(), Some(CommandError::MissingArgument));
    assert_eq!(module.command("dsp;fly").err(), Some(CommandError::UnknownCommand));
    assert_eq!(module.command("dsp;net_exists").err(), Some(CommandError::MissingArgument));
    assert_eq!(module.command("dsp;net_exists;x1").err(), Some(CommandError::BadNumber));
    assert_eq!(module.command("dsp;shared_set;a;abc").err(), Some(CommandError::BadNumber));
    assert_eq!(module.command("dsp;net_constant;").err(), Some(CommandError::BadNumber));
    assert_eq!(module.command("audio;pause").err(), Some(CommandError::UnknownCommand));
    assert_eq!(module.command("audio;play;x;1.0").err(), Some(CommandError::BadNumber));
    assert_eq!(module.command("audio;play;1").err(), Some(CommandError::MissingArgument));
    assert_eq!(module.dsp().net_vector_length(), NodeType::get_defaults_size());
    assert_eq!(module.get_command_name(), "_audio_command_handler");
}

#[test]
fn engine_commands_directly() {
    let mut dsp = DspModule::new();
    assert_eq!(dsp.get_command_name(), "dsp");
    assert_eq!(dsp.command("net_vector_length").unwrap(), "7");
    assert_eq!(dsp.command("net_commit;3").unwrap(), "nil");
    assert_eq!(dsp.command("shared_get;x").unwrap(), "nil");
    assert_eq!(dsp.command("shared_get_net;x").unwrap(), "nil");
    assert_eq!(dsp.command("shared_set;x;-0.5").unwrap(), "7");
    assert_eq!(dsp.command("shared_get;x").unwrap(), "-0.5");
    assert_eq!(dsp.command("net_clone;99").unwrap(), "nil");
    assert_eq!(dsp.command("").err(), Some(CommandError::UnknownCommand));
    dsp.shared_set(&"y".to_string(), &shared(1.0));
    assert_eq!(dsp.command("shared_exists;y").unwrap(), "true");
}

#[test]
fn tokens_and_numbers() {
    assert_eq!(split_tokens("a;b;;c"), vec!["a", "b", "", "c"]);
    assert_eq!(split_tokens(""), vec![""]);
    assert_eq!(split_tokens("x;"), vec!["x", ""]);
    assert_eq!(parse_index("0"), Some(0));
    assert_eq!(parse_index("0042"), Some(42));
    assert_eq!(parse_index("18446744073709551615"), Some(usize::MAX));
    assert_eq!(parse_index("18446744073709551616"), None);
    assert_eq!(parse_index(""), None);
    assert_eq!(parse_index("-1"), None);
    assert_eq!(parse_index("1.5"), None);
    assert_eq!(decimal_text(0), "0");
    assert_eq!(decimal_text(907), "907");
    assert_eq!(decimal_text(usize::MAX), usize::MAX.to_string());
}
